use yamc::error::ConversionError;
use yamc::subprocess::{
    conversion_result, converter_args, probe_args, probe_result, RunOutcome, CONVERTER_INSTALL_HINT,
};

#[test]
fn failing_converter_reports_its_stderr() {
    let r = conversion_result(RunOutcome::Exited { success: false, stderr: "boom".to_string() });
    match r {
        Err(ConversionError::ConversionFailure(s)) => assert_eq!(s, "boom"),
        other => panic!("unexpected {:?}", other),
    }
}

#[test]
fn successful_converter_is_ok() {
    assert!(conversion_result(RunOutcome::Exited { success: true, stderr: String::new() }).is_ok());
}

#[test]
fn converter_that_cannot_start_is_unavailable() {
    match conversion_result(RunOutcome::NotStarted) {
        Err(ConversionError::ProcessUnavailable(s)) => assert_eq!(s, CONVERTER_INSTALL_HINT),
        other => panic!("unexpected {:?}", other),
    }
}

#[test]
fn probe_decides_availability() {
    assert!(probe_result(&RunOutcome::Exited { success: true, stderr: String::new() }).is_ok());
    for probe in [RunOutcome::NotStarted, RunOutcome::Exited { success: false, stderr: "x".to_string() }] {
        match probe_result(&probe) {
            Err(ConversionError::ProcessUnavailable(s)) => assert!(s.contains("apt-get install")),
            other => panic!("unexpected {:?}", other),
        }
    }
}

#[test]
fn converter_arguments_are_fixed() {
    assert_eq!(
        converter_args("in.html", "out.pdf"),
        vec![
            "--enable-local-file-access",
            "--print-media-type",
            "--margin-top",
            "20mm",
            "--margin-bottom",
            "20mm",
            "--margin-left",
            "20mm",
            "--margin-right",
            "20mm",
            "--page-size",
            "A4",
            "--encoding",
            "UTF-8",
            "in.html",
            "out.pdf",
        ]
    );
    assert_eq!(probe_args(), vec!["--version"]);
}
