use std::time::Duration;
use timer_cli::export::{export_csv, header_fields, lap_fields};
use timer_cli::report::{label_string, lap_rows, LapRow};
use timer_cli::{Lap, Timer};

fn lap(index: u32, at_ms: u128, label: Option<&str>) -> Lap {
    Lap { index, at_ms, label: label.map(|s| s.to_string()) }
}

fn row(index: u32, at: &str, delta: &str, label: &str) -> LapRow {
    LapRow { index, at: at.to_string(), delta: delta.to_string(), label: label.to_string() }
}

#[test]
fn no_laps_no_rows() {
    assert_eq!(lap_rows(&[]), Vec::<LapRow>::new());
}

#[test]
fn first_delta_is_measured_from_zero() {
    assert_eq!(
        lap_rows(&[lap(1, 1_500, Some("a"))]),
        vec![row(1, "00:00:01.500", "00:00:01.500", "a")]
    );
}

#[test]
fn later_deltas_are_measured_from_the_lap_before() {
    let laps = [lap(1, 1_500, Some("a")), lap(2, 61_750, None), lap(3, 61_750, Some("same"))];
    assert_eq!(
        lap_rows(&laps),
        vec![
            row(1, "00:00:01.500", "00:00:01.500", "a"),
            row(2, "00:01:01.750", "00:01:00.250", ""),
            row(3, "00:01:01.750", "00:00:00.000", "same"),
        ]
    );
}

#[test]
fn delta_is_zero_where_a_lap_is_earlier_than_the_one_before() {
    let laps = [lap(1, 500, None), lap(2, 200, None)];
    assert_eq!(
        lap_rows(&laps),
        vec![
            row(1, "00:00:00.500", "00:00:00.500", ""),
            row(2, "00:00:00.200", "00:00:00.000", ""),
        ]
    );
}

#[test]
fn rows_show_offsets_beyond_sixty_four_bits() {
    let big: u128 = (u64::MAX as u128) + 1;
    assert_eq!(
        lap_rows(&[lap(1, big, None)]),
        vec![row(1, "5124095576030:25:51.616", "5124095576030:25:51.616", "")]
    );
}

#[test]
fn rows_of_a_timer() {
    let mut t = Timer::new();
    t.start().unwrap();
    t.lap_after(Duration::from_millis(20), Some("x".to_string())).unwrap();
    t.lap_after(Duration::from_millis(50), None).unwrap();
    assert_eq!(
        lap_rows(t.laps()),
        vec![
            row(1, "00:00:00.020", "00:00:00.020", "x"),
            row(2, "00:00:00.050", "00:00:00.030", ""),
        ]
    );
}

#[test]
fn label_string_is_empty_without_label() {
    assert_eq!(label_string(&lap(1, 0, None)), "");
    assert_eq!(label_string(&lap(1, 0, Some(""))), "");
    assert_eq!(label_string(&lap(1, 0, Some("warm up"))), "warm up");
}

#[test]
fn csv_of_empty_log_is_the_header_alone() {
    assert_eq!(export_csv(&[]), "index,time_ms,label\n");
    assert_eq!(export_csv(Timer::new().laps()), "index,time_ms,label\n");
}

#[test]
fn csv_has_one_line_for_each_lap() {
    let laps = [lap(1, 12, Some("a")), lap(2, 3_400, None), lap(3, 3_400, Some("b"))];
    assert_eq!(export_csv(&laps), "index,time_ms,label\n1,12,a\n2,3400,\n3,3400,b\n");
}

#[test]
fn csv_quotes_labels_where_needed() {
    let laps = [
        lap(1, 1, Some("a,b")),
        lap(2, 2, Some("say \"hi\"")),
        lap(3, 3, Some("two\nlines")),
        lap(4, 4, Some("caf\u{e9}")),
        lap(5, 5, Some("a\rb")),
        lap(6, 6, Some(" spaced out ")),
        lap(7, 7, Some("")),
        lap(8, 8, Some("\"")),
    ];
    assert_eq!(
        export_csv(&laps),
        "index,time_ms,label\n1,1,\"a,b\"\n2,2,\"say \"\"hi\"\"\"\n3,3,\"two\nlines\"\n4,4,caf\u{e9}\n5,5,\"a\rb\"\n6,6, spaced out \n7,7,\n8,8,\"\"\"\"\n"
    );
}

#[test]
fn csv_writes_large_offsets_in_full() {
    let laps = [lap(u32::MAX, u128::MAX, None)];
    assert_eq!(
        export_csv(&laps),
        format!("index,time_ms,label\n4294967295,{},\n", u128::MAX)
    );
}

#[test]
fn csv_records() {
    assert_eq!(header_fields(), vec!["index".to_string(), "time_ms".to_string(), "label".to_string()]);
    assert_eq!(
        lap_fields(&lap(7, 1_234, Some("x y"))),
        vec!["7".to_string(), "1234".to_string(), "x y".to_string()]
    );
    assert_eq!(
        lap_fields(&lap(10, 0, None)),
        vec!["10".to_string(), "0".to_string(), "".to_string()]
    );
}
