use rlink::element::{Element, Record, StreamStatus, Watermark};
use rlink::runtime_ids::CheckpointId;
use serbuffer::types;

#[test]
pub fn serde_element_record_test() {
    let mut record = Record::new();
    record.partition_num = 2;
    record.timestamp = 3;

    let data_types = vec![types::U32, types::U64, types::I32, types::I64, types::BINARY];
    let mut writer = record.get_writer(&data_types);

    writer.set_u32(10).unwrap();
    writer.set_u64(20).unwrap();
    writer.set_i32(30).unwrap();
    writer.set_i64(40).unwrap();
    writer.set_binary("abc".as_bytes()).unwrap();

    let record_clone = record.clone();
    let reader = record.get_reader(&data_types);

    let element_record = Element::Record(record_clone);
    let mut data = element_record.to_bytes();
    let mut element_record_de = Element::deserialize(&mut data);

    let de_reader = element_record_de.as_record_mut().get_reader(&data_types);
    assert_eq!(reader.get_u32(0).unwrap(), de_reader.get_u32(0).unwrap());
    assert_eq!(reader.get_u64(1).unwrap(), de_reader.get_u64(1).unwrap());
    assert_eq!(reader.get_i32(2).unwrap(), de_reader.get_i32(2).unwrap());
    assert_eq!(reader.get_i64(3).unwrap(), de_reader.get_i64(3).unwrap());
    assert_eq!(reader.get_binary(4).unwrap(), de_reader.get_binary(4).unwrap());
}

#[test]
pub fn serde_element_watermark_test() {
    let status = StreamStatus::new(0, false);
    let mut watermark = Watermark::new(1, 2, 6, &status);
    watermark.partition_num = 2;
    watermark.timestamp = 3;

    let element_watermark = Element::Watermark(watermark.clone());
    let mut data = element_watermark.to_bytes();
    let element_watermark_de = Element::deserialize(&mut data);

    let de_watermark = element_watermark_de.as_watermark();
    assert_eq!(watermark.timestamp, de_watermark.timestamp);
}

#[test]
pub fn serde_element_stream_status_test() {
    let stream_status = StreamStatus::new(0, true);

    let element_watermark = Element::StreamStatus(stream_status.clone());
    let mut data = element_watermark.to_bytes();
    let element_watermark_de = Element::deserialize(&mut data);

    let de_watermark = element_watermark_de.as_stream_status();
    assert_eq!(stream_status.end, de_watermark.end);
}

#[test]
fn serde_record_fields_round_trip() {
    let mut record = Record::new();
    record.partition_num = 7;
    record.timestamp = 0x1122334455667788;
    {
        let mut writer = record.as_buffer().as_writer(&[types::U64]);
        writer.set_u64(99).unwrap();
    }
    let element = Element::Record(record);
    let mut data = element.to_bytes();
    let element_de = Element::deserialize(&mut data);
    let record_de = element_de.as_record();
    assert_eq!(record_de.partition_num, 7);
    assert_eq!(record_de.timestamp, 0x1122334455667788);
    assert_eq!(record_de.len(), 8);
    assert!(record_de.channel_key == Default::default());
    assert!(record_de.location_windows.is_none());
    assert!(record_de.trigger_window.is_none());
}

#[test]
fn serde_barrier_round_trip() {
    let barrier = rlink::element::Barrier::new(rlink::runtime_ids::CheckpointId(42));
    let element = Element::Barrier(barrier);
    let mut data = element.to_bytes();
    assert_eq!(data.len(), 11);
    let element_de = Element::deserialize(&mut data);
    let barrier_de = element_de.as_barrier();
    assert_eq!(barrier_de.checkpoint_id.0, 42);
    assert_eq!(barrier_de.partition_num, 0);
}

#[test]
fn serde_watermark_all_framed_fields() {
    let status = StreamStatus::new(500, false);
    let mut watermark = Watermark::new(3, 4, 123456, &status);
    watermark.partition_num = 9;
    let element = Element::Watermark(watermark);
    let mut data = element.to_bytes();
    assert_eq!(data.len(), 23);
    let element_de = Element::deserialize(&mut data);
    let de = element_de.as_watermark();
    assert_eq!(de.partition_num, 9);
    assert_eq!(de.task_number, 3);
    assert_eq!(de.num_tasks, 4);
    assert_eq!(de.status_timestamp, 500);
    assert_eq!(de.timestamp, 123456);
}

#[test]
fn record_extend_appends_payload() {
    let mut a = Record::new();
    {
        let mut writer = a.as_buffer().as_writer(&[types::U32]);
        writer.set_u32(1).unwrap();
    }
    let mut b = Record::new();
    {
        let mut writer = b.as_buffer().as_writer(&[types::U32]);
        writer.set_u32(2).unwrap();
    }
    assert_eq!(a.get_arity(), 4);
    a.extend(b).unwrap();
    assert_eq!(a.get_arity(), 8);
    assert_eq!(a.len(), 8);
}

#[test]
fn record_eq_compares_payload() {
    let mut a = Record::new();
    {
        let mut writer = a.as_buffer().as_writer(&[types::U32]);
        writer.set_u32(5).unwrap();
    }
    let mut b = Record::new();
    b.partition_num = 3;
    {
        let mut writer = b.as_buffer().as_writer(&[types::U32]);
        writer.set_u32(5).unwrap();
    }
    let mut c = Record::new();
    {
        let mut writer = c.as_buffer().as_writer(&[types::U32]);
        writer.set_u32(6).unwrap();
    }
    assert!(a == b);
    assert!(a != c);
}

#[test]
fn framed_elements_decode_in_order() {
    let mut record = Record::new();
    record.partition_num = 1;
    record.timestamp = 77;
    let first = Element::Record(record);
    let second = Element::Barrier(rlink::element::Barrier::new(CheckpointId(9)));

    let mut stream = first.to_bytes();
    stream.clear();
    first.write_frame(&mut stream);
    second.write_frame(&mut stream);
    // 4-byte length prefixes: 15-byte record body, 11-byte barrier body
    assert_eq!(stream.len(), 4 + 15 + 4 + 11);
    assert_eq!(&stream[0..4], &[0, 0, 0, 15]);

    let decoded_first = Element::read_frame(&mut stream);
    assert_eq!(decoded_first.as_record().timestamp, 77);
    let decoded_second = Element::read_frame(&mut stream);
    assert_eq!(decoded_second.as_barrier().checkpoint_id.0, 9);
    assert_eq!(stream.len(), 0);
}
