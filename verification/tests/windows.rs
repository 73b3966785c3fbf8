use drawboy::mode::{OperationMode, ThreadingMode};
use drawboy::pattern::{PatternData, Rgb};
use drawboy::window::{row_window, threading_window, window_cells};

fn empty_pattern() -> PatternData {
    PatternData {
        shaft_count: None,
        treadle_count: None,
        weft_threads: None,
        warp_threads: None,
        liftplan: Vec::new(),
        treadling: Vec::new(),
        threading: Vec::new(),
        weft_colors: Vec::new(),
        warp_colors: Vec::new(),
    }
}

#[test]
fn continuous_window_starts_two_before_current() {
    // current thread 10, batch 8: threads 8..=15 are visible.
    let w = threading_window(10, 100, ThreadingMode::Continuous, 8);
    let expect: Vec<Option<u32>> = (8..=15).map(Some).collect();
    assert_eq!(w, expect);
}

#[test]
fn continuous_window_near_start_has_placeholders_not_wraps() {
    let w = threading_window(1, 100, ThreadingMode::Continuous, 8);
    assert_eq!(w[0], None);
    assert_eq!(w[1], None);
    let expect: Vec<Option<u32>> = (1..=6).map(Some).collect();
    assert_eq!(&w[2..], &expect[..]);
}

#[test]
fn batched_window_aligns_to_batch_boundaries() {
    // current thread 10, batch 8: start = floor(9 / 8) * 8 + 1 = 9,
    // covering 9..=16.
    let w = threading_window(10, 100, ThreadingMode::Batched, 8);
    let expect: Vec<Option<u32>> = (9..=16).map(Some).collect();
    assert_eq!(w, expect);

    // current thread 17: the window covers 17..=24.
    let w = threading_window(17, 100, ThreadingMode::Batched, 8);
    let expect: Vec<Option<u32>> = (17..=24).map(Some).collect();
    assert_eq!(w, expect);
}

#[test]
fn batched_window_is_stable_within_a_batch() {
    let first = threading_window(9, 100, ThreadingMode::Batched, 8);
    for current in 9..=16 {
        assert_eq!(threading_window(current, 100, ThreadingMode::Batched, 8), first);
    }
    assert_ne!(threading_window(17, 100, ThreadingMode::Batched, 8), first);
}

#[test]
fn window_slots_past_last_are_placeholders() {
    let w = threading_window(10, 12, ThreadingMode::Continuous, 8);
    let expect = vec![
        Some(8),
        Some(9),
        Some(10),
        Some(11),
        Some(12),
        None,
        None,
        None,
    ];
    assert_eq!(w, expect);
}

#[test]
fn row_window_covers_offsets_two_back_through_six_forward() {
    let w = row_window(5, 100);
    let expect: Vec<Option<u32>> = (3..=11).map(Some).collect();
    assert_eq!(w, expect);
}

#[test]
fn row_window_at_pattern_edges() {
    let w = row_window(1, 4);
    assert_eq!(
        w,
        vec![None, None, Some(1), Some(2), Some(3), Some(4), None, None, None]
    );
}

#[test]
fn placeholder_slots_stay_placeholders_in_cells() {
    // Out-of-range slots become placeholder cells, with no data attached.
    let data = empty_pattern();
    let slots = row_window(1, 2);
    let cells = window_cells(&data, OperationMode::Liftplan, &slots);
    assert_eq!(cells.len(), 9);
    assert!(cells[0].is_none());
    assert!(cells[1].is_none());
    assert!(cells[2].is_some());
    assert!(cells[3].is_some());
    for k in 4..9 {
        assert!(cells[k].is_none());
    }
}

#[test]
fn cells_carry_the_data_stored_for_their_index() {
    let mut data = empty_pattern();
    data.weft_threads = Some(3);
    data.liftplan = vec![Some(vec![1, 3]), None, Some(vec![2])];
    data.weft_colors = vec![
        Some(Rgb {
            red: 10,
            green: 20,
            blue: 30,
        }),
        None,
        None,
    ];
    let slots = row_window(1, 3);
    let cells = window_cells(&data, OperationMode::Liftplan, &slots);

    let c1 = cells[2].as_ref().unwrap();
    assert_eq!(c1.index, 1);
    assert_eq!(c1.shafts, Some(vec![1, 3]));
    assert_eq!(
        c1.color,
        Some(Rgb {
            red: 10,
            green: 20,
            blue: 30,
        })
    );

    // Row 2 is in range but the pattern has no entry: no shafts active, not
    // an error.
    let c2 = cells[3].as_ref().unwrap();
    assert_eq!(c2.index, 2);
    assert_eq!(c2.shafts, None);
    assert_eq!(c2.color, None);

    let c3 = cells[4].as_ref().unwrap();
    assert_eq!(c3.index, 3);
    assert_eq!(c3.shafts, Some(vec![2]));
}

#[test]
fn threading_cells_read_threading_data_and_warp_colors() {
    let mut data = empty_pattern();
    data.warp_threads = Some(2);
    data.threading = vec![Some(vec![4]), Some(vec![1])];
    data.warp_colors = vec![
        None,
        Some(Rgb {
            red: 1,
            green: 2,
            blue: 3,
        }),
    ];
    let slots = threading_window(1, 2, ThreadingMode::Batched, 4);
    let cells = window_cells(&data, OperationMode::Threading, &slots);
    assert_eq!(cells.len(), 4);
    let c1 = cells[0].as_ref().unwrap();
    assert_eq!(c1.index, 1);
    assert_eq!(c1.shafts, Some(vec![4]));
    assert_eq!(c1.color, None);
    let c2 = cells[1].as_ref().unwrap();
    assert_eq!(c2.index, 2);
    assert_eq!(c2.shafts, Some(vec![1]));
    assert_eq!(
        c2.color,
        Some(Rgb {
            red: 1,
            green: 2,
            blue: 3,
        })
    );
    assert!(cells[2].is_none());
    assert!(cells[3].is_none());
}

#[test]
fn structural_counts_fall_back_when_missing() {
    let mut data = empty_pattern();
    assert_eq!(data.display_slots(OperationMode::Liftplan), 4);
    assert_eq!(data.display_slots(OperationMode::Threading), 4);
    assert_eq!(data.display_slots(OperationMode::Treadling), 6);
    assert_eq!(data.last_index(OperationMode::Liftplan), 1);
    assert_eq!(data.last_index(OperationMode::Threading), 1);

    data.shaft_count = Some(8);
    data.treadle_count = Some(10);
    data.weft_threads = Some(120);
    data.warp_threads = Some(90);
    assert_eq!(data.display_slots(OperationMode::Liftplan), 8);
    assert_eq!(data.display_slots(OperationMode::Treadling), 10);
    assert_eq!(data.last_index(OperationMode::Treadling), 120);
    assert_eq!(data.last_index(OperationMode::Threading), 90);
}

#[test]
fn treadling_lookup_reads_the_treadling_source() {
    let mut data = empty_pattern();
    data.weft_threads = Some(2);
    data.treadling = vec![Some(vec![6]), Some(vec![2, 5])];
    let c = data.lookup(OperationMode::Treadling, 2);
    assert_eq!(c, Some(vec![2, 5]));
    // Past the stored data: no entry.
    assert_eq!(data.lookup(OperationMode::Treadling, 3), None);
}
