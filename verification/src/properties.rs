//! Job configuration: a small typed key-value store. The latest setting of
//! a key shadows earlier ones.
use vstd::prelude::*;

verus! {

/// A configuration value: free text or a number.
#[derive(Debug)]
pub enum PropertyValue {
    Text(String),
    Number(u64),
}

impl Clone for PropertyValue {
    fn clone(&self) -> (r: PropertyValue)
        ensures
            r == *self,
    {
        match self {
            PropertyValue::Text(s) => PropertyValue::Text(s.clone()),
            PropertyValue::Number(n) => PropertyValue::Number(*n),
        }
    }
}

/// The first value stored under `key`, front first.
pub open spec fn lookup(s: Seq<(String, PropertyValue)>, key: Seq<char>) -> Option<PropertyValue>
    decreases s.len(),
{
    if s.len() == 0 {
        None
    } else if s[0].0@ == key {
        Some(s[0].1)
    } else {
        lookup(s.drop_first(), key)
    }
}

#[derive(Debug)]
pub struct Properties {
    pub entries: Vec<(String, PropertyValue)>,
}

impl Properties {
    /// What this store answers for each key.
    pub open spec fn value_of(self, key: Seq<char>) -> Option<PropertyValue> {
        lookup(self.entries@, key)
    }

    pub fn new() -> (r: Properties)
        ensures
            r.entries@.len() == 0,
    {
        Properties { entries: Vec::new() }
    }

    /// Stores a text value; the newest entry shadows older ones.
    pub fn set_str(&mut self, key: &str, value: &str)
        ensures
            final(self).entries@.len() == old(self).entries@.len() + 1,
            final(self).entries@.drop_first() == old(self).entries@,
            final(self).entries@[0].0@ == key@,
            (final(self).entries@[0].1 matches PropertyValue::Text(t) && t@ == value@),
            (final(self).value_of(key@) matches Some(PropertyValue::Text(t)) && t@ == value@),
    {
        let entry = (key.to_owned(), PropertyValue::Text(value.to_owned()));
        proof {
            assert(entry.0@ == key@);
        }
        self.entries.insert(0, entry);
        proof {
            assert(self.entries@[0] == entry);
            assert(self.entries@.drop_first() =~= old(self).entries@);
        }
    }

    /// Stores a numeric value; the newest entry shadows older ones.
    pub fn set_u64(&mut self, key: &str, value: u64)
        ensures
            final(self).entries@.len() == old(self).entries@.len() + 1,
            final(self).entries@.drop_first() == old(self).entries@,
            final(self).entries@[0].0@ == key@,
            final(self).entries@[0].1 == PropertyValue::Number(value),
            final(self).value_of(key@) == Some(PropertyValue::Number(value)),
    {
        let entry = (key.to_owned(), PropertyValue::Number(value));
        proof {
            assert(entry.0@ == key@);
        }
        self.entries.insert(0, entry);
        proof {
            assert(self.entries@[0] == entry);
            assert(self.entries@.drop_first() =~= old(self).entries@);
        }
    }

    /// The text stored under `key`, or nothing when absent or numeric.
    pub fn get_string(&self, key: &str) -> (r: Option<String>)
        ensures
            r == (match self.value_of(key@) {
                Some(PropertyValue::Text(t)) => Some(t),
                _ => None::<String>,
            }),
    {
        let needle = key.to_owned();
        proof {
            assert(self.entries@.skip(0) =~= self.entries@);
        }
        let mut i: usize = 0;
        while i < self.entries.len()
            invariant
                i <= self.entries@.len(),
                needle@ == key@,
                forall|j: int| 0 <= j < i ==> self.entries@[j].0@ != key@,
                lookup(self.entries@, key@) == lookup(self.entries@.skip(i as int), key@),
            decreases self.entries@.len() - i,
        {
            proof {
                assert(self.entries@.skip(i as int)[0] == self.entries@[i as int]);
                assert(self.entries@.skip(i as int).drop_first() =~= self.entries@.skip(i + 1));
            }
            if self.entries[i].0 == needle {
                return match &self.entries[i].1 {
                    PropertyValue::Text(t) => Some(t.clone()),
                    PropertyValue::Number(_) => None,
                };
            }
            i += 1;
        }
        None
    }

    /// The number stored under `key`, or nothing when absent or text.
    pub fn get_u64(&self, key: &str) -> (r: Option<u64>)
        ensures
            r == (match self.value_of(key@) {
                Some(PropertyValue::Number(n)) => Some(n),
                _ => None::<u64>,
            }),
    {
        let needle = key.to_owned();
        proof {
            assert(self.entries@.skip(0) =~= self.entries@);
        }
        let mut i: usize = 0;
        while i < self.entries.len()
            invariant
                i <= self.entries@.len(),
                needle@ == key@,
                forall|j: int| 0 <= j < i ==> self.entries@[j].0@ != key@,
                lookup(self.entries@, key@) == lookup(self.entries@.skip(i as int), key@),
            decreases self.entries@.len() - i,
        {
            proof {
                assert(self.entries@.skip(i as int)[0] == self.entries@[i as int]);
                assert(self.entries@.skip(i as int).drop_first() =~= self.entries@.skip(i + 1));
            }
            if self.entries[i].0 == needle {
                return match self.entries[i].1 {
                    PropertyValue::Number(n) => Some(n),
                    PropertyValue::Text(_) => None,
                };
            }
            i += 1;
        }
        None
    }

    /// Marks the keyed state backend as the in-process memory store: that
    /// one entry is prepended and nothing else changes.
    pub fn set_keyed_state_backend_memory(&mut self)
        ensures
            final(self).entries@.len() == old(self).entries@.len() + 1,
            final(self).entries@.drop_first() == old(self).entries@,
            final(self).entries@[0].0@ == "keyed_state_backend"@,
            (final(self).entries@[0].1 matches PropertyValue::Text(t) && t@ == "Memory"@),
            (final(self).value_of("keyed_state_backend"@) matches Some(PropertyValue::Text(t))
                && t@ == "Memory"@),
    {
        self.set_str("keyed_state_backend", "Memory");
    }

    /// The configured checkpoint period in milliseconds, or the default.
    pub fn get_checkpoint_internal(&self, default_ms: u64) -> (r: u64)
        ensures
            r == (match self.value_of("checkpoint_interval_ms"@) {
                Some(PropertyValue::Number(n)) => n,
                _ => default_ms,
            }),
    {
        match self.get_u64("checkpoint_interval_ms") {
            Some(n) => n,
            None => default_ms,
        }
    }
}

impl Clone for Properties {
    fn clone(&self) -> (r: Properties)
        ensures
            r.entries@ == self.entries@,
    {
        let mut entries: Vec<(String, PropertyValue)> = Vec::new();
        let mut i: usize = 0;
        while i < self.entries.len()
            invariant
                i <= self.entries@.len(),
                entries@ == self.entries@.take(i as int),
            decreases self.entries@.len() - i,
        {
            let entry = (self.entries[i].0.clone(), self.entries[i].1.clone());
            proof {
                assert(entry == self.entries@[i as int]);
            }
            entries.push(entry);
            proof {
                assert(entries@ =~= self.entries@.take(i + 1));
            }
            i += 1;
        }
        proof {
            assert(entries@ =~= self.entries@);
        }
        Properties { entries }
    }
}

} // verus!
