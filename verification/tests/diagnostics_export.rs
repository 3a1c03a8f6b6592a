use stellarator_transport::diagnostics::DiagnosticsLog;

fn as_text(bytes: Vec<u8>) -> String {
    match String::from_utf8(bytes) {
        Ok(s) => s,
        Err(_) => panic!("the export must be ASCII text"),
    }
}

#[test]
fn record_appends_in_insertion_order() {
    let mut log = DiagnosticsLog::new();
    log.record(0, 1, 2, 3);
    log.record(20, 4, 5, 6);
    assert_eq!(log.len(), 2);
    assert_eq!(log.time, vec![0, 20]);
    assert_eq!(log.center_impurity, vec![1, 4]);
    assert_eq!(log.edge_impurity, vec![2, 5]);
    assert_eq!(log.edge_turbulence, vec![3, 6]);
}

#[test]
fn two_recorded_steps_export_as_three_lines() {
    let mut log = DiagnosticsLog::new();
    log.record(0, 1_500_000, 2_000_000, 450_000);
    log.record(20, 1_600_000, 2_100_000, 7_500_000);
    let text = as_text(log.export_csv());
    let lines: Vec<&str> = text.split('\n').filter(|l| !l.is_empty()).collect();
    assert_eq!(lines.len(), 3);
    assert_eq!(lines[0], "time,center_impurity,edge_impurity,turbulence");
    assert_eq!(lines[1], "0.000000,1.500000,2.000000,0.450000");
    assert_eq!(lines[2], "0.000020,1.600000,2.100000,7.500000");
    // Every line, the header included, is newline-terminated.
    assert_eq!(text.matches('\n').count(), 3);
}

#[test]
fn empty_log_exports_the_header_alone() {
    let log = DiagnosticsLog::new();
    let text = as_text(log.export_csv());
    assert_eq!(text, "time,center_impurity,edge_impurity,turbulence\n");
}

#[test]
fn negative_and_large_values_render_exactly() {
    let mut log = DiagnosticsLog::new();
    log.record(-1_500_000, 1_000_000_000, 0, 123_456_789);
    let text = as_text(log.export_csv());
    let lines: Vec<&str> = text.split('\n').filter(|l| !l.is_empty()).collect();
    assert_eq!(lines[1], "-1.500000,1000.000000,0.000000,123.456789");
}
