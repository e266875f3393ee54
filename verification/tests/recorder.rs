//! Behavioural tests for the keystroke recorder.

use keystroke_capture::log::KeystrokeCapture;
use keystroke_capture::record::CaptureError;

#[test]
fn capacity_two_scenario() {
    let mut log = KeystrokeCapture::new(2);
    assert!(log.capture_keystroke("a".to_string(), false, 12_345_678).is_ok());
    assert!(log.capture_keystroke("a".to_string(), true, 12_400_000).is_ok());
    let third = log.capture_keystroke("b".to_string(), false, 12_500_000);
    assert_eq!(third, Err(CaptureError::CapacityExceeded));
    assert_eq!(log.get_event_count(), 2);
    let csv = log.export_as_csv();
    assert_eq!(
        csv,
        "Press or Release,Key,Time\nP,a,1735660012345\nR,a,1735660012400\n"
    );
}

#[test]
fn count_matches_successful_appends() {
    let mut log = KeystrokeCapture::new(3);
    assert_eq!(log.get_event_count(), 0);
    for i in 0..3u64 {
        let r = log.capture_keystroke(format!("k{}", i), i % 2 == 1, i * 1000);
        assert!(r.is_ok());
        assert_eq!(log.get_event_count(), (i + 1) as usize);
    }
    let raw = log.get_raw_data();
    assert_eq!(raw.len(), 3);
    for (i, entry) in raw.iter().enumerate() {
        assert_eq!(entry.key, format!("k{}", i));
    }
}

#[test]
fn append_beyond_capacity_fails_and_changes_nothing() {
    let mut log = KeystrokeCapture::new(1);
    assert!(log.capture_keystroke("x".to_string(), false, 5).is_ok());
    for _ in 0..4 {
        let r = log.capture_keystroke("y".to_string(), true, 6);
        assert_eq!(r, Err(CaptureError::CapacityExceeded));
        assert_eq!(log.get_event_count(), 1);
    }
    let raw = log.get_raw_data();
    assert_eq!(raw.len(), 1);
    assert_eq!(raw[0].key, "x");
}

#[test]
fn capacity_zero_rejects_every_append() {
    let mut log = KeystrokeCapture::new(0);
    let r = log.capture_keystroke("a".to_string(), false, 0);
    assert_eq!(r, Err(CaptureError::CapacityExceeded));
    assert_eq!(log.get_event_count(), 0);
    assert_eq!(log.export_as_csv(), "Press or Release,Key,Time\n");
    assert_eq!(log.get_last_10_events(), "");
    assert!(log.get_raw_data().is_empty());
}

#[test]
fn clear_empties_but_keeps_capacity() {
    let mut log = KeystrokeCapture::new(2);
    assert!(log.capture_keystroke("a".to_string(), false, 1).is_ok());
    assert!(log.capture_keystroke("b".to_string(), true, 2).is_ok());
    log.clear();
    assert_eq!(log.get_event_count(), 0);
    assert_eq!(log.export_as_csv(), "Press or Release,Key,Time\n");
    assert!(log.capture_keystroke("c".to_string(), false, 3).is_ok());
    assert!(log.capture_keystroke("d".to_string(), false, 4).is_ok());
    assert_eq!(
        log.capture_keystroke("e".to_string(), false, 5),
        Err(CaptureError::CapacityExceeded)
    );
}

#[test]
fn clear_on_empty_log_is_harmless() {
    let mut log = KeystrokeCapture::new(1);
    log.clear();
    assert_eq!(log.get_event_count(), 0);
    assert!(log.capture_keystroke("a".to_string(), false, 1).is_ok());
}

#[test]
fn comma_key_is_escaped_in_both_exports() {
    let mut log = KeystrokeCapture::new(2);
    assert!(log.capture_keystroke(",".to_string(), false, 0).is_ok());
    assert!(log.capture_keystroke("a".to_string(), true, 1000).is_ok());
    let csv = log.export_as_csv();
    assert_eq!(
        csv,
        "Press or Release,Key,Time\nP,Key.comma,1735660000000\nR,a,1735660000001\n"
    );
    let raw = log.get_raw_data();
    assert_eq!(raw[0].key, "Key.comma");
    assert_eq!(raw[1].key, "a");
}

#[test]
fn multi_character_keys_pass_through_unmodified() {
    let mut log = KeystrokeCapture::new(2);
    assert!(log.capture_keystroke("Shift".to_string(), false, 0).is_ok());
    assert!(log.capture_keystroke(",,".to_string(), false, 0).is_ok());
    let raw = log.get_raw_data();
    assert_eq!(raw[0].key, "Shift");
    assert_eq!(raw[1].key, ",,");
    let csv = log.export_as_csv();
    assert!(csv.contains("P,Shift,"));
    assert!(csv.contains("P,,,,"));
}

#[test]
fn tail_does_not_escape_the_comma_key() {
    let mut log = KeystrokeCapture::new(1);
    assert!(log.capture_keystroke(",".to_string(), false, 2_000_000).is_ok());
    assert_eq!(log.get_last_10_events(), "P , 2000\n");
}

#[test]
fn csv_truncates_while_raw_export_keeps_microseconds() {
    let mut log = KeystrokeCapture::new(1);
    assert!(log.capture_keystroke("a".to_string(), false, 999_999).is_ok());
    let csv = log.export_as_csv();
    assert_eq!(csv, "Press or Release,Key,Time\nP,a,1735660000999\n");
    let raw = log.get_raw_data();
    assert_eq!(raw[0].abs_time_micros, 1_735_660_000_999_999);
    assert_eq!(raw[0].kind_code, 'P');
}

#[test]
fn raw_export_preserves_call_order_and_kinds() {
    let mut log = KeystrokeCapture::new(3);
    assert!(log.capture_keystroke("a".to_string(), false, 10_000).is_ok());
    assert!(log.capture_keystroke("b".to_string(), true, 20_000).is_ok());
    assert!(log.capture_keystroke("c".to_string(), false, 30_000).is_ok());
    let raw = log.get_raw_data();
    let rendered: Vec<(char, String, u64)> = raw
        .iter()
        .map(|e| (e.kind_code, e.key.clone(), e.abs_time_micros))
        .collect();
    assert_eq!(
        rendered,
        vec![
            ('P', "a".to_string(), 1_735_660_000_010_000),
            ('R', "b".to_string(), 1_735_660_000_020_000),
            ('P', "c".to_string(), 1_735_660_000_030_000),
        ]
    );
}

#[test]
fn tail_of_fifteen_records_shows_the_last_ten() {
    let mut log = KeystrokeCapture::new(15);
    for i in 0..15u64 {
        assert!(log
            .capture_keystroke(format!("k{}", i), false, i * 1_000_000)
            .is_ok());
    }
    let tail = log.get_last_10_events();
    let expected: String = (5..15u64)
        .map(|i| format!("P k{} {}\n", i, i * 1000))
        .collect();
    assert_eq!(tail, expected);
}

#[test]
fn tail_of_three_records_shows_all_three() {
    let mut log = KeystrokeCapture::new(5);
    for i in 0..3u64 {
        assert!(log
            .capture_keystroke(format!("k{}", i), i == 1, i * 1_000_000)
            .is_ok());
    }
    assert_eq!(log.get_last_10_events(), "P k0 0\nR k1 1000\nP k2 2000\n");
}

#[test]
fn tail_rounds_milliseconds_with_ties_to_even() {
    let mut log = KeystrokeCapture::new(4);
    assert!(log.capture_keystroke("a".to_string(), false, 2_500).is_ok());
    assert!(log.capture_keystroke("b".to_string(), false, 1_500).is_ok());
    assert!(log.capture_keystroke("c".to_string(), false, 3_501).is_ok());
    assert!(log.capture_keystroke("d".to_string(), false, 3_499).is_ok());
    assert_eq!(log.get_last_10_events(), "P a 2\nP b 2\nP c 4\nP d 3\n");
}

#[test]
fn timing_report_formats_extreme_deltas() {
    let samples: Vec<u64> = vec![0, 100, 350, 1_000, 1_000, 2_000, 3_500, 3_600, 10_000, 10_001];
    let report = KeystrokeCapture::test_timing_precision(&samples);
    assert_eq!(
        report,
        "Timing test - Min delta: 0.000ms, Max delta: 6.400ms"
    );
}

#[test]
fn timing_report_on_a_stalled_clock() {
    let samples: Vec<u64> = vec![7_000; 10];
    let report = KeystrokeCapture::test_timing_precision(&samples);
    assert_eq!(
        report,
        "Timing test - Min delta: 0.000ms, Max delta: 0.000ms"
    );
}

#[test]
fn timing_report_with_millisecond_steps() {
    let samples: Vec<u64> = (0..10u64).map(|i| i * 1_234).collect();
    let report = KeystrokeCapture::test_timing_precision(&samples);
    assert_eq!(
        report,
        "Timing test - Min delta: 1.234ms, Max delta: 1.234ms"
    );
}

#[test]
fn error_messages_are_fixed() {
    assert_eq!(
        CaptureError::CapacityExceeded.message(),
        "Capacity exceeded"
    );
    assert_eq!(
        CaptureError::ClockUnavailable.message(),
        "Clock source unavailable"
    );
}
