//! Loading the coordinator's metadata: the transport fetches
//! `{"code": .., "data": ..}` from the `/metadata` endpoint; this module
//! reads the body through `serde_json`, builds the application descriptor
//! and keeps it cached.
//!
//! What `serde_json` reads is a function of the body text alone, so each
//! reader gets a name (`json_doc`, `json_member`, ...) and the loader's
//! contract says exactly when each outcome comes: `Ok` precisely on a
//! parseable body with code 0 and well-typed `data` fields; `RemoteError`
//! precisely on a parseable non-zero code, so the caller retries; the
//! other two errors precisely on unparseable text and on an absent or
//! mistyped field.
use vstd::prelude::*;
use serde_json::Value;
use crate::properties::{Properties, PropertyValue};
use crate::runtime::{ApplicationDescriptor, CoordinatorManagerDescriptor, TaskDescriptor};
use crate::runtime_ids::{CheckpointId, JobId, TaskId};

verus! {

#[verifier::external_type_specification]
#[verifier::external_body]
pub struct ExValue(Value);

#[verifier::external_type_specification]
#[verifier::external_body]
pub struct ExJsonError(serde_json::Error);

/// The JSON document a text denotes, or nothing when it is not JSON.
pub uninterp spec fn json_doc(body: Seq<char>) -> Option<Value>;

/// The member of a JSON value under a key: what `Value::get` yields.
pub uninterp spec fn json_member(value: Value, key: Seq<char>) -> Option<Value>;

/// The value as an unsigned integer: what `Value::as_u64` yields.
pub uninterp spec fn json_u64(value: Value) -> Option<u64>;

/// The value as text: what `Value::as_str` yields.
pub uninterp spec fn json_string(value: Value) -> Option<Seq<char>>;

/// The value as an array: what `Value::as_array` yields.
pub uninterp spec fn json_array(value: Value) -> Option<Seq<Value>>;

/// Relies on `serde_json::from_str::<Value>`: reads one JSON document,
/// `Ok` exactly on JSON text; the result depends on the text alone.
#[verifier::external_body]
fn json_parse(body: &str) -> (r: Result<Value, serde_json::Error>)
    ensures
        (r is Ok) == (json_doc(body@) is Some),
        r matches Ok(v) ==> Some(v) == json_doc(body@),
{
    serde_json::from_str(body)
}

/// Relies on `Value::get`: the member of a JSON object under this key;
/// it depends on the value and the key alone.
#[verifier::external_body]
fn json_get<'a>(value: &'a Value, key: &str) -> (r: Option<&'a Value>)
    ensures
        (r is Some) == (json_member(*value, key@) is Some),
        r matches Some(m) ==> Some(*m) == json_member(*value, key@),
{
    value.get(key)
}

/// Relies on `Value::as_u64`: the value as an unsigned integer, when it
/// is one; it depends on the value alone.
#[verifier::external_body]
fn json_as_u64(value: &Value) -> (r: Option<u64>)
    ensures
        r == json_u64(*value),
{
    value.as_u64()
}

/// Relies on `Value::as_str` and `str::to_owned`: the value as text,
/// when it is text; it depends on the value alone.
#[verifier::external_body]
fn json_as_string(value: &Value) -> (r: Option<String>)
    ensures
        (r is Some) == (json_string(*value) is Some),
        r matches Some(s) ==> Some(s@) == json_string(*value),
{
    value.as_str().map(|s| s.to_owned())
}

/// Relies on `Value::as_array`: the value as a JSON array, when it is
/// one; it depends on the value alone.
#[verifier::external_body]
fn json_as_array(value: &Value) -> (r: Option<&Vec<Value>>)
    ensures
        (r is Some) == (json_array(*value) is Some),
        r matches Some(a) ==> Some(a@) == json_array(*value),
{
    value.as_array()
}

/// The fields one task descriptor's JSON object carries.
pub ghost struct TaskDescriptorFields {
    pub job_id: u32,
    pub task_number: u16,
    pub num_tasks: u16,
    pub checkpoint_id: u64,
    pub checkpoint_handle: Option<Seq<char>>,
}

/// The integer member of a JSON value under a key.
pub open spec fn member_u64(value: Value, key: Seq<char>) -> Option<u64> {
    match json_member(value, key) {
        None => None,
        Some(m) => json_u64(m),
    }
}

/// Reads one task descriptor's fields, or nothing when a numeric field
/// is absent, mistyped or out of its id's range. A missing or mistyped
/// handle is simply no handle.
pub open spec fn task_fields_of(value: Value) -> Option<TaskDescriptorFields> {
    match member_u64(value, "job_id"@) {
        None => None,
        Some(job_id) => if job_id > u32::MAX {
            None
        } else {
            match member_u64(value, "task_number"@) {
                None => None,
                Some(task_number) => if task_number > u16::MAX {
                    None
                } else {
                    match member_u64(value, "num_tasks"@) {
                        None => None,
                        Some(num_tasks) => if num_tasks > u16::MAX {
                            None
                        } else {
                            match member_u64(value, "checkpoint_id"@) {
                                None => None,
                                Some(checkpoint_id) => Some(
                                    TaskDescriptorFields {
                                        job_id: job_id as u32,
                                        task_number: task_number as u16,
                                        num_tasks: num_tasks as u16,
                                        checkpoint_id,
                                        checkpoint_handle: (match json_member(
                                            value,
                                            "checkpoint_handle"@,
                                        ) {
                                            None => None,
                                            Some(h) => json_string(h),
                                        }),
                                    },
                                ),
                            }
                        },
                    }
                },
            }
        },
    }
}

/// Reads every task descriptor of the array, or nothing when one fails.
pub open spec fn tasks_from(values: Seq<Value>) -> Option<Seq<TaskDescriptorFields>>
    decreases values.len(),
{
    if values.len() == 0 {
        Some(Seq::empty())
    } else {
        match tasks_from(values.drop_last()) {
            None => None,
            Some(fields) => match task_fields_of(values.last()) {
                None => None,
                Some(f) => Some(fields.push(f)),
            },
        }
    }
}

/// The response's status code: `code` read from the parsed body.
pub open spec fn response_code(body: Seq<char>) -> Option<u64> {
    match json_doc(body) {
        None => None,
        Some(doc) => member_u64(doc, "code"@),
    }
}

/// The response's `data` member.
pub open spec fn response_data(body: Seq<char>) -> Option<Value> {
    match json_doc(body) {
        None => None,
        Some(doc) => json_member(doc, "data"@),
    }
}

/// The application id inside `data`.
pub open spec fn parsed_application_id(data: Value) -> Option<Seq<char>> {
    match json_member(data, "application_id"@) {
        None => None,
        Some(v) => json_string(v),
    }
}

/// Whether the checkpoint interval, if present, is numeric.
pub open spec fn parsed_interval_ok(data: Value) -> bool {
    match json_member(data, "checkpoint_interval_ms"@) {
        None => true,
        Some(v) => json_u64(v) is Some,
    }
}

/// The task descriptors inside `data`: absent means none, present must
/// be an array of well-formed descriptors.
pub open spec fn parsed_tasks(data: Value) -> Option<Seq<TaskDescriptorFields>> {
    match json_member(data, "task_descriptors"@) {
        None => Some(Seq::empty()),
        Some(list) => match json_array(list) {
            None => None,
            Some(values) => tasks_from(values),
        },
    }
}

/// A usable response: code 0 and a `data` object whose fields are
/// present and well-typed.
pub open spec fn response_well_formed(body: Seq<char>) -> bool {
    &&& response_code(body) == Some(0u64)
    &&& response_data(body) is Some
    &&& parsed_application_id(response_data(body)->0) is Some
    &&& parsed_interval_ok(response_data(body)->0)
    &&& parsed_tasks(response_data(body)->0) is Some
}

/// One built task descriptor carries exactly the parsed fields.
pub open spec fn task_matches(d: TaskDescriptor, f: TaskDescriptorFields) -> bool {
    &&& d.task_id.job_id == JobId(f.job_id)
    &&& d.task_id.task_number == f.task_number
    &&& d.task_id.num_tasks == f.num_tasks
    &&& d.checkpoint_id == CheckpointId(f.checkpoint_id)
    &&& (d.checkpoint_handle is Some) == (f.checkpoint_handle is Some)
    &&& (d.checkpoint_handle matches Some(h) ==> Some(h@) == f.checkpoint_handle)
}

/// The built descriptor carries exactly what the body's `data` holds:
/// its application id, its checkpoint interval as the one property when
/// present, and its task descriptors in order.
pub open spec fn descriptor_matches(d: ApplicationDescriptor, body: Seq<char>) -> bool {
    let data = response_data(body)->0;
    &&& Some(d.coordinator_manager.application_id@) == parsed_application_id(data)
    &&& (match json_member(data, "checkpoint_interval_ms"@) {
        None => d.coordinator_manager.application_properties.entries@.len() == 0,
        Some(v) => d.coordinator_manager.application_properties.entries@.len() == 1
            && d.coordinator_manager.application_properties.entries@[0].0@
            == "checkpoint_interval_ms"@
            && d.coordinator_manager.application_properties.entries@[0].1
            == PropertyValue::Number(json_u64(v)->0),
    })
    &&& d.task_descriptors@.len() == parsed_tasks(data)->0.len()
    &&& (forall|i: int|
        0 <= i < d.task_descriptors@.len() ==> task_matches(
            #[trigger] d.task_descriptors@[i],
            parsed_tasks(data)->0[i],
        ))
}

/// A readable task array reads to one task per element.
proof fn lemma_tasks_from_len(values: Seq<Value>)
    requires
        tasks_from(values) is Some,
    ensures
        (tasks_from(values)->0).len() == values.len(),
    decreases values.len(),
{
    if values.len() > 0 {
        lemma_tasks_from_len(values.drop_last());
    }
}

/// Every element of a readable task array reads as a task.
proof fn lemma_tasks_from_element(values: Seq<Value>, i: int)
    requires
        tasks_from(values) is Some,
        0 <= i < values.len(),
    ensures
        task_fields_of(values[i]) is Some,
        (tasks_from(values)->0).len() == values.len(),
        (tasks_from(values)->0)[i] == task_fields_of(values[i])->0,
    decreases values.len(),
{
    lemma_tasks_from_len(values);
    lemma_tasks_from_len(values.drop_last());
    if i < values.len() - 1 {
        lemma_tasks_from_element(values.drop_last(), i);
    }
}

/// Why a metadata response was not usable.
#[derive(Clone, Copy, Debug, PartialEq, Eq, Structural)]
pub enum MetadataError {
    /// The body was not JSON.
    InvalidJson,
    /// The coordinator answered a non-zero code: retry later.
    RemoteError,
    /// A field the descriptor needs was absent or of the wrong type.
    MissingField,
}

/// Fetches and caches the coordinator's application descriptor. The
/// transport lives with the caller: it hands each response body to
/// `apply_metadata_response` and retries while that reports an error.
#[derive(Debug)]
pub struct MetadataLoader {
    pub coordinator_address: String,
    pub application_descriptor_cache: Option<ApplicationDescriptor>,
}

impl MetadataLoader {
    pub fn new(coordinator_address: &str) -> (r: MetadataLoader)
        ensures
            r.coordinator_address@ == coordinator_address@,
            r.application_descriptor_cache is None,
    {
        MetadataLoader {
            coordinator_address: coordinator_address.to_owned(),
            application_descriptor_cache: None,
        }
    }

    /// The cached descriptor, when one was loaded; the caller fetches and
    /// applies a response first when there is none yet.
    pub fn get_job_descriptor_from_cache(&self) -> (r: Option<ApplicationDescriptor>)
        ensures
            (r is Some) == (self.application_descriptor_cache is Some),
            r matches Some(d) ==> d.equiv(self.application_descriptor_cache->0),
    {
        match &self.application_descriptor_cache {
            Some(descriptor) => Some(descriptor.clone()),
            None => None,
        }
    }

    /// Reads one `/metadata` response body. `Ok` comes exactly when the
    /// body is JSON with code 0 and a well-typed `data` object; the
    /// returned descriptor carries exactly the parsed fields and is
    /// cached. Each error comes exactly on its own ground and leaves the
    /// cache alone.
    pub fn apply_metadata_response(&mut self, body: &str) -> (r: Result<
        ApplicationDescriptor,
        MetadataError,
    >)
        ensures
            final(self).coordinator_address@ == old(self).coordinator_address@,
            (r is Ok) == response_well_formed(body@),
            (r == Err::<ApplicationDescriptor, MetadataError>(MetadataError::InvalidJson)) == (
            json_doc(body@) is None),
            (r == Err::<ApplicationDescriptor, MetadataError>(MetadataError::RemoteError)) == (
            response_code(body@) matches Some(c) && c != 0),
            r matches Ok(d) ==> descriptor_matches(d, body@),
            r matches Ok(d) ==> (final(self).application_descriptor_cache matches Some(c)
                && c.equiv(d)),
            r is Err ==> final(self).application_descriptor_cache == old(
                self,
            ).application_descriptor_cache,
    {
        let parsed = match json_parse(body) {
            Ok(v) => v,
            Err(_) => {
                return Err(MetadataError::InvalidJson);
            },
        };
        let code = match json_get(&parsed, "code") {
            Some(c) => match json_as_u64(c) {
                Some(n) => n,
                None => {
                    return Err(MetadataError::MissingField);
                },
            },
            None => {
                return Err(MetadataError::MissingField);
            },
        };
        if code != 0 {
            return Err(MetadataError::RemoteError);
        }
        let data = match json_get(&parsed, "data") {
            Some(d) => d,
            None => {
                return Err(MetadataError::MissingField);
            },
        };
        let application_id = match json_get(data, "application_id") {
            Some(v) => match json_as_string(v) {
                Some(s) => s,
                None => {
                    return Err(MetadataError::MissingField);
                },
            },
            None => {
                return Err(MetadataError::MissingField);
            },
        };
        let mut application_properties = Properties::new();
        match json_get(data, "checkpoint_interval_ms") {
            Some(v) => match json_as_u64(v) {
                Some(interval) => {
                    application_properties.set_u64("checkpoint_interval_ms", interval);
                },
                None => {
                    return Err(MetadataError::MissingField);
                },
            },
            None => {
            },
        }
        let mut task_descriptors: Vec<TaskDescriptor> = Vec::new();
        match json_get(data, "task_descriptors") {
            Some(list) => {
                let tasks = match json_as_array(list) {
                    Some(t) => t,
                    None => {
                        return Err(MetadataError::MissingField);
                    },
                };
                let ghost task_values = tasks@;
                let mut i: usize = 0;
                while i < tasks.len()
                    invariant
                        i <= tasks@.len(),
                        tasks@ == task_values,
                        json_doc(body@) is Some,
                        response_code(body@) == Some(0u64),
                        response_data(body@) is Some,
                        parsed_application_id(response_data(body@)->0) is Some,
                        parsed_interval_ok(response_data(body@)->0),
                        parsed_tasks(response_data(body@)->0) == tasks_from(task_values),
                        self.application_descriptor_cache == old(
                            self,
                        ).application_descriptor_cache,
                        self.coordinator_address@ == old(self).coordinator_address@,
                        (tasks_from(task_values.take(i as int)) matches Some(fields)
                            && fields.len() == i),
                        task_descriptors@.len() == i as int,
                        forall|j: int|
                            0 <= j < i ==> task_matches(
                                #[trigger] task_descriptors@[j],
                                (tasks_from(task_values.take(i as int))->0)[j],
                            ),
                    decreases tasks@.len() - i,
                {
                    proof {
                        assert(task_values.take(i + 1).drop_last() =~= task_values.take(i as int));
                    }
                    let task = match Self::read_task_descriptor(&tasks[i]) {
                        Some(t) => t,
                        None => {
                            proof {
                                if tasks_from(task_values) is Some {
                                    lemma_tasks_from_element(task_values, i as int);
                                }
                            }
                            return Err(MetadataError::MissingField);
                        },
                    };
                    task_descriptors.push(task);
                    proof {
                        let prior = tasks_from(task_values.take(i as int))->0;
                        let now = tasks_from(task_values.take(i + 1))->0;
                        assert(now == prior.push(task_fields_of(task_values[i as int])->0));
                        assert(forall|j: int|
                            0 <= j < i ==> task_matches(
                                #[trigger] task_descriptors@[j],
                                now[j],
                            ));
                    }
                    i += 1;
                }
                proof {
                    assert(task_values.take(tasks@.len() as int) =~= task_values);
                }
            },
            None => {
            },
        }
        let descriptor = ApplicationDescriptor {
            coordinator_manager: CoordinatorManagerDescriptor {
                application_id,
                application_properties,
            },
            task_descriptors,
        };
        let result = descriptor.clone();
        self.application_descriptor_cache = Some(descriptor);
        Ok(result)
    }

    /// Reads one task descriptor from its JSON object, exactly when its
    /// fields read as a task.
    fn read_task_descriptor(value: &Value) -> (r: Option<TaskDescriptor>)
        ensures
            (r is Some) == (task_fields_of(*value) is Some),
            r matches Some(d) ==> task_matches(d, task_fields_of(*value)->0),
    {
        let job_id = match json_get(value, "job_id") {
            Some(v) => match json_as_u64(v) {
                Some(n) => {
                    if n > u32::MAX as u64 {
                        return None;
                    }
                    n as u32
                },
                None => {
                    return None;
                },
            },
            None => {
                return None;
            },
        };
        let task_number = match json_get(value, "task_number") {
            Some(v) => match json_as_u64(v) {
                Some(n) => {
                    if n > u16::MAX as u64 {
                        return None;
                    }
                    n as u16
                },
                None => {
                    return None;
                },
            },
            None => {
                return None;
            },
        };
        let num_tasks = match json_get(value, "num_tasks") {
            Some(v) => match json_as_u64(v) {
                Some(n) => {
                    if n > u16::MAX as u64 {
                        return None;
                    }
                    n as u16
                },
                None => {
                    return None;
                },
            },
            None => {
                return None;
            },
        };
        let checkpoint_id = match json_get(value, "checkpoint_id") {
            Some(v) => match json_as_u64(v) {
                Some(n) => n,
                None => {
                    return None;
                },
            },
            None => {
                return None;
            },
        };
        let checkpoint_handle = match json_get(value, "checkpoint_handle") {
            Some(v) => json_as_string(v),
            None => None,
        };
        Some(
            TaskDescriptor {
                task_id: TaskId { job_id: JobId(job_id), task_number, num_tasks },
                checkpoint_id: CheckpointId(checkpoint_id),
                checkpoint_handle,
            },
        )
    }
}

} // verus!
