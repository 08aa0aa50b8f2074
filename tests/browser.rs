use yamc::browser::{browser_args, print_options, Action, Event, Orchestrator, Phase, TargetInfo};
use yamc::error::{ConversionError, ErrorKind};

fn target(kind: &str, ws: Option<&str>) -> TargetInfo {
    TargetInfo { target_type: Some(kind.to_string()), ws_url: ws.map(|s| s.to_string()) }
}

fn spawned(html: &str) -> Orchestrator {
    let (mut o, _) = Orchestrator::begin(html);
    assert!(matches!(o.step(Event::Started), Action::Wait(1000)));
    assert!(matches!(o.step(Event::Waited), Action::ListTargets(_)));
    o
}

fn with_tab(html: &str) -> Orchestrator {
    let mut o = spawned(html);
    let a = o.step(Event::Targets(vec![target("page", Some("ws://x"))]));
    assert!(matches!(a, Action::NewTab(_)));
    let a = o.step(Event::TabCreated(Some("T1".to_string())));
    assert!(matches!(a, Action::Navigate { .. }));
    o
}

fn finish(o: &mut Orchestrator, mut a: Action) -> Vec<Action> {
    let mut seen = Vec::new();
    for _ in 0..4 {
        if let Action::Finish = a {
            break;
        }
        seen.push(a);
        a = o.step(Event::CleanedUp);
    }
    assert!(matches!(a, Action::Finish));
    assert!(!o.process_live);
    assert!(o.tab_id.is_none());
    assert_eq!(o.phase, Phase::Closed);
    seen
}

fn error_of(o: &Orchestrator) -> (ErrorKind, String) {
    match &o.outcome {
        Some(Err(e)) => (e.kind(), e.message()),
        other => panic!("no error: {:?}", other),
    }
}

#[test]
fn no_browser_is_unavailable_and_holds_nothing() {
    let (mut o, first) = Orchestrator::begin("/tmp/a.html");
    match first {
        Action::Spawn(name) => assert_eq!(name, "chrome"),
        other => panic!("unexpected {:?}", other),
    }
    match o.step(Event::StartFailed) {
        Action::Spawn(name) => assert_eq!(name, "chromium"),
        other => panic!("unexpected {:?}", other),
    }
    match o.step(Event::StartFailed) {
        Action::Spawn(name) => assert_eq!(name, "google-chrome"),
        other => panic!("unexpected {:?}", other),
    }
    assert!(matches!(o.step(Event::StartFailed), Action::Finish));
    assert!(!o.process_live);
    assert!(o.tab_id.is_none());
    match &o.outcome {
        Some(Err(ConversionError::ProcessUnavailable(s))) => {
            assert_eq!(s, "Could not start Chrome/Chromium. Please ensure Chrome or Chromium is installed.")
        },
        other => panic!("unexpected {:?}", other),
    }
}

#[test]
fn full_print_run() {
    let (mut o, _) = Orchestrator::begin("/tmp/doc.html");
    assert!(matches!(o.step(Event::Started), Action::Wait(1000)));
    match o.step(Event::Waited) {
        Action::ListTargets(url) => assert_eq!(url, "http://localhost:9222/json"),
        other => panic!("unexpected {:?}", other),
    }
    let targets = vec![target("service_worker", Some("ws://a")), target("page", Some("ws://b"))];
    match o.step(Event::Targets(targets)) {
        Action::NewTab(url) => assert_eq!(url, "http://localhost:9222/json/new"),
        other => panic!("unexpected {:?}", other),
    }
    match o.step(Event::TabCreated(Some("T1".to_string()))) {
        Action::Navigate { url, page_url } => {
            assert_eq!(url, "http://localhost:9222/json/navigate/T1");
            assert_eq!(page_url, "file:///tmp/doc.html");
        },
        other => panic!("unexpected {:?}", other),
    }
    assert!(matches!(o.step(Event::Navigated(true)), Action::Wait(2000)));
    match o.step(Event::Waited) {
        Action::Print { url, options } => {
            assert_eq!(url, "http://localhost:9222/json/print/T1");
            assert_eq!(options, print_options());
            assert_eq!(options.paper_width, 827);
            assert_eq!(options.paper_height, 1169);
            assert_eq!(options.margin_left, 40);
            assert!(options.print_background && options.prefer_css_page_size && !options.landscape);
        },
        other => panic!("unexpected {:?}", other),
    }
    match o.step(Event::PrintReply { ok: true, data: Some("JVBERi0=".to_string()) }) {
        Action::WritePdf(bytes) => assert_eq!(bytes, b"%PDF-".to_vec()),
        other => panic!("unexpected {:?}", other),
    }
    let a = o.step(Event::Written);
    match &a {
        Action::CloseTab(url) => assert_eq!(url, "http://localhost:9222/json/close/T1"),
        other => panic!("unexpected {:?}", other),
    }
    let seen = finish(&mut o, a);
    assert_eq!(seen.len(), 2);
    assert!(matches!(seen[1], Action::Kill));
    assert!(matches!(o.outcome, Some(Ok(()))));
}

#[test]
fn no_page_target_fails_and_kills() {
    let mut o = spawned("/tmp/a.html");
    let a = o.step(Event::Targets(vec![target("background_page", Some("ws://a"))]));
    assert!(matches!(a, Action::Kill));
    finish(&mut o, a);
    assert_eq!(error_of(&o), (ErrorKind::Remote, "Chrome error: No page target found".to_string()));
}

#[test]
fn page_without_websocket_fails() {
    let mut o = spawned("/tmp/a.html");
    let a = o.step(Event::Targets(vec![target("page", None), target("page", Some("ws://b"))]));
    finish(&mut o, a);
    assert_eq!(error_of(&o), (ErrorKind::Remote, "Chrome error: No WebSocket URL found".to_string()));
}

#[test]
fn missing_tab_id_fails() {
    let mut o = spawned("/tmp/a.html");
    o.step(Event::Targets(vec![target("page", Some("ws://b"))]));
    let a = o.step(Event::TabCreated(None));
    finish(&mut o, a);
    assert_eq!(error_of(&o).1, "Chrome error: Failed to get tab ID");
}

#[test]
fn failed_navigation_closes_tab_first() {
    let mut o = with_tab("/tmp/a.html");
    let a = o.step(Event::Navigated(false));
    match &a {
        Action::CloseTab(url) => assert_eq!(url, "http://localhost:9222/json/close/T1"),
        other => panic!("unexpected {:?}", other),
    }
    let seen = finish(&mut o, a);
    assert!(matches!(seen[1], Action::Kill));
    assert_eq!(error_of(&o).1, "Chrome error: Failed to navigate to HTML file");
}

#[test]
fn print_failures() {
    let mut o = with_tab("/tmp/a.html");
    o.step(Event::Navigated(true));
    o.step(Event::Waited);
    let a = o.step(Event::PrintReply { ok: false, data: Some("JVBERi0=".to_string()) });
    finish(&mut o, a);
    assert_eq!(error_of(&o).1, "Chrome error: Failed to generate PDF");

    let mut o = with_tab("/tmp/a.html");
    o.step(Event::Navigated(true));
    o.step(Event::Waited);
    let a = o.step(Event::PrintReply { ok: true, data: None });
    finish(&mut o, a);
    assert_eq!(error_of(&o).1, "Chrome error: No PDF data received");
}

#[test]
fn undecodable_pdf_is_conversion_failure() {
    let mut o = with_tab("/tmp/a.html");
    o.step(Event::Navigated(true));
    o.step(Event::Waited);
    let a = o.step(Event::PrintReply { ok: true, data: Some("!!not base64!!".to_string()) });
    assert!(matches!(a, Action::CloseTab(_)));
    finish(&mut o, a);
    let (kind, msg) = error_of(&o);
    assert_eq!(kind, ErrorKind::Conversion);
    assert!(msg.starts_with("PDF conversion failed: Failed to decode PDF data: "));
}

#[test]
fn take_pdf_decides_on_decoded_payload() {
    let mut o = with_tab("/tmp/a.html");
    o.step(Event::Navigated(true));
    o.step(Event::Waited);
    match o.take_pdf(Ok(vec![1, 2, 3])) {
        Action::WritePdf(b) => assert_eq!(b, vec![1, 2, 3]),
        other => panic!("unexpected {:?}", other),
    }
    let mut o = with_tab("/tmp/a.html");
    o.step(Event::Navigated(true));
    o.step(Event::Waited);
    let a = o.take_pdf(Err("bad".to_string()));
    finish(&mut o, a);
    assert_eq!(error_of(&o).1, "PDF conversion failed: Failed to decode PDF data: bad");
}

#[test]
fn write_failure_is_io_failure() {
    let mut o = with_tab("/tmp/a.html");
    o.step(Event::Navigated(true));
    o.step(Event::Waited);
    o.step(Event::PrintReply { ok: true, data: Some("JVBERi0=".to_string()) });
    let a = o.step(Event::WriteFailed("denied".to_string()));
    finish(&mut o, a);
    assert_eq!(error_of(&o), (ErrorKind::Io, "I/O error: denied".to_string()));
}

#[test]
fn unreachable_endpoint_is_network_failure() {
    let mut o = spawned("/tmp/a.html");
    let a = o.step(Event::Unreachable("connection refused".to_string()));
    assert!(matches!(a, Action::Kill));
    finish(&mut o, a);
    assert_eq!(error_of(&o), (ErrorKind::Network, "Network error: connection refused".to_string()));
}

#[test]
fn unexpected_event_fails() {
    let mut o = spawned("/tmp/a.html");
    let a = o.step(Event::Navigated(true));
    finish(&mut o, a);
    assert_eq!(error_of(&o).1, "Chrome error: Unexpected reply from the browser");
}

#[test]
fn finished_orchestrator_stays_finished() {
    let mut o = spawned("/tmp/a.html");
    let a = o.step(Event::Unreachable("x".to_string()));
    finish(&mut o, a);
    assert!(matches!(o.step(Event::Waited), Action::Finish));
    assert_eq!(error_of(&o).0, ErrorKind::Network);
}

#[test]
fn browser_flags() {
    assert_eq!(
        browser_args(),
        vec![
            "--headless",
            "--disable-gpu",
            "--no-sandbox",
            "--disable-dev-shm-usage",
            "--remote-debugging-port=9222",
            "--disable-web-security",
            "--allow-running-insecure-content",
        ]
    );
}
