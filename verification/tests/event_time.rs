use rlink::align::WatermarkAlignment;
use rlink::element::Record;
use rlink::state::KeyedWindowState;
use rlink::watermark::{BoundedOutOfOrdernessTimestampExtractor, SchemaBaseTimestampAssigner};
use rlink::window::{SlidingEventTimeWindows, Window};
use serbuffer::types;

#[test]
fn watermark_monotonicity() {
    let mut extractor = BoundedOutOfOrdernessTimestampExtractor::new(1000);
    let inputs = [1000u64, 500, 2000, 1800];
    let expected = [None, None, Some(1000u64), Some(1000u64)];
    for k in 0..inputs.len() {
        extractor.observe_timestamp(inputs[k]);
        assert_eq!(extractor.current_watermark(), expected[k]);
    }
}

#[test]
fn watermark_never_decreases() {
    let mut extractor = BoundedOutOfOrdernessTimestampExtractor::new(10);
    let mut last: u64 = 0;
    for ts in [100u64, 90, 500, 5, 499, 501] {
        extractor.observe_timestamp(ts);
        if let Some(w) = extractor.current_watermark() {
            assert!(w >= last);
            last = w;
        }
    }
    assert_eq!(last, 491);
}

#[test]
fn schema_base_timestamp_assigner_reads_column() {
    let data_types = vec![types::U32, types::U64];
    let assigner = SchemaBaseTimestampAssigner::new(1, &data_types);
    let mut record = Record::new();
    {
        let mut writer = record.as_buffer().as_writer(&data_types);
        writer.set_u32(7).unwrap();
        writer.set_u64(987654321).unwrap();
    }
    let ts = assigner.extract_timestamp(&mut record, 0);
    assert_eq!(ts, 987654321);
    assert_eq!(assigner.get_name(), "SchemaBaseTimestampAssigner");
}

#[test]
fn tumbling_window_assignment() {
    let windows = SlidingEventTimeWindows::new(60000, 60000, None);
    let assigned = windows.assign_windows(0);
    assert_eq!(assigned.len(), 1);
    assert_eq!(assigned[0], Window { start: 0, end: 60000 });

    let assigned = windows.assign_windows(30000);
    assert_eq!(assigned, vec![Window { start: 0, end: 60000 }]);

    let assigned = windows.assign_windows(65000);
    assert_eq!(assigned, vec![Window { start: 60000, end: 120000 }]);
}

#[test]
fn sliding_window_assignment_count() {
    // size 60 s, slide 20 s: every timestamp past the first full window
    // falls in exactly three windows.
    let windows = SlidingEventTimeWindows::new(60000, 20000, None);
    let assigned = windows.assign_windows(130000);
    assert_eq!(
        assigned,
        vec![
            Window { start: 120000, end: 180000 },
            Window { start: 100000, end: 160000 },
            Window { start: 80000, end: 140000 },
        ]
    );
    for w in &assigned {
        assert!(w.start <= 130000 && 130000 < w.end);
    }
}

#[test]
fn sliding_window_assignment_near_zero() {
    // close to the epoch there is no earlier window to assign.
    let windows = SlidingEventTimeWindows::new(60000, 20000, None);
    let assigned = windows.assign_windows(10000);
    assert_eq!(assigned, vec![Window { start: 0, end: 60000 }]);
}

#[test]
fn window_firing() {
    let windows = SlidingEventTimeWindows::new(60000, 60000, None);
    let mut state = KeyedWindowState::new();
    let key = b"k";
    for ts in [0u64, 30000, 65000] {
        for window in windows.assign_windows(ts) {
            state.fold(key, window, 1);
        }
    }
    let fired = state.fire(60000);
    assert_eq!(fired.len(), 1);
    assert_eq!(fired[0].window, Window { start: 0, end: 60000 });
    assert_eq!(fired[0].acc, 2);
    assert_eq!(state.entries.len(), 1);
    assert_eq!(state.entries[0].window, Window { start: 60000, end: 120000 });
    assert_eq!(state.entries[0].acc, 1);
}

#[test]
fn keyed_state_separates_keys() {
    let window = Window { start: 0, end: 10 };
    let mut state = KeyedWindowState::new();
    state.fold(b"a", window, 2);
    state.fold(b"b", window, 3);
    state.fold(b"a", window, 5);
    assert_eq!(state.entries.len(), 2);
    assert_eq!(state.entries[0].acc, 7);
    assert_eq!(state.entries[1].acc, 3);
}

#[test]
fn aligned_watermark_is_min() {
    let mut alignment = WatermarkAlignment::new(3);
    alignment.on_watermark(0, 50);
    alignment.on_watermark(1, 30);
    alignment.on_watermark(2, 40);
    assert_eq!(alignment.aligned_watermark(), 30);
    alignment.on_watermark(1, 60);
    assert_eq!(alignment.aligned_watermark(), 40);
    // a stale watermark cannot pull a channel backwards
    alignment.on_watermark(2, 10);
    assert_eq!(alignment.aligned_watermark(), 40);
}

#[test]
fn end_of_stream_final_watermark() {
    let mut alignment = WatermarkAlignment::new(2);
    alignment.on_watermark(0, 100);
    alignment.on_watermark(1, 200);
    alignment.on_stream_status(0, true);
    assert!(!alignment.all_ended());
    assert_eq!(alignment.aligned_watermark(), 100);
    alignment.on_stream_status(1, true);
    assert!(alignment.all_ended());
    assert_eq!(alignment.aligned_watermark(), u64::MAX);

    // every remaining window drains at the final watermark
    let mut state = KeyedWindowState::new();
    state.fold(b"k", Window { start: 0, end: 60000 }, 1);
    state.fold(b"k", Window { start: 60000, end: 120000 }, 1);
    let fired = state.fire(u64::MAX);
    assert_eq!(fired.len(), 2);
    assert_eq!(state.entries.len(), 0);
}

#[test]
fn sliding_window_assignment_slide_not_dividing_size() {
    // size 5 s, slide 3 s: a timestamp right at an earlier window's end
    // gets one window fewer than the two a mid-window timestamp gets.
    let windows = SlidingEventTimeWindows::new(5000, 3000, None);
    let at_boundary = windows.assign_windows(5000);
    assert_eq!(at_boundary, vec![Window { start: 3000, end: 8000 }]);
    let mid_window = windows.assign_windows(7000);
    assert_eq!(
        mid_window,
        vec![Window { start: 6000, end: 11000 }, Window { start: 3000, end: 8000 }]
    );
}
