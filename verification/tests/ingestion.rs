use openvy::ingestion::{
    ocr_text_or_placeholder, report_capture, CaptureAction, CaptureError, CaptureEvent,
    CaptureReport, CaptureRequest, CaptureStage, IngestionService, ScreenData, Timestamp,
    CAPTURE_INTERVAL_SECS, OCR_CHAR_WHITELIST, OCR_LANGUAGE,
};

const NOW: Timestamp = Timestamp { secs: 1_725_029_869, nanos: 42 };

fn run(service: &IngestionService, answers: Vec<CaptureEvent>) -> (Vec<CaptureAction>, CaptureStage) {
    let mut round = service.begin_capture();
    let mut actions = vec![round.step(CaptureEvent::Started)];
    for event in answers {
        assert!(round.expects(&event));
        actions.push(round.step(event));
    }
    (actions, round.current_stage())
}

fn window(app: &str, title: &str) -> CaptureEvent {
    CaptureEvent::ActiveWindowRead { window: Some((app.to_string(), title.to_string())) }
}

#[test]
fn service_remembers_engine_probe() {
    assert!(IngestionService::new(true).is_tesseract_available());
    assert!(!IngestionService::new(false).is_tesseract_available());
}

#[test]
fn full_round_with_recognition() {
    let service = IngestionService::new(true);
    let (actions, stage) = run(
        &service,
        vec![
            CaptureEvent::MonitorsListed { listed: Ok(2) },
            CaptureEvent::ScreenCaptured { captured: Ok(()) },
            window("notepad.exe", "Untitled - Notepad"),
            CaptureEvent::TextRecognized { recognized: Ok("Hello World\n".to_string()) },
            CaptureEvent::ClockRead { now: NOW },
        ],
    );
    assert_eq!(stage, CaptureStage::Finished);
    assert_eq!(
        actions,
        vec![
            CaptureAction::Request(CaptureRequest::ListMonitors),
            CaptureAction::Request(CaptureRequest::CaptureMonitor { index: 0 }),
            CaptureAction::Request(CaptureRequest::ReadActiveWindow),
            CaptureAction::Request(CaptureRequest::RecognizeText),
            CaptureAction::Request(CaptureRequest::ReadClock),
            CaptureAction::Done(Ok(ScreenData {
                timestamp: NOW,
                app_name: "notepad.exe".to_string(),
                window_title: "Untitled - Notepad".to_string(),
                ocr_text: "Hello World\n".to_string(),
            })),
        ]
    );
}

#[test]
fn round_without_engine_skips_recognition() {
    let service = IngestionService::new(false);
    let (actions, _) = run(
        &service,
        vec![
            CaptureEvent::MonitorsListed { listed: Ok(1) },
            CaptureEvent::ScreenCaptured { captured: Ok(()) },
            window("code", "main.rs"),
            CaptureEvent::ClockRead { now: NOW },
        ],
    );
    assert_eq!(actions[3], CaptureAction::Request(CaptureRequest::ReadClock));
    assert!(!actions.contains(&CaptureAction::Request(CaptureRequest::RecognizeText)));
    assert_eq!(
        actions[4],
        CaptureAction::Done(Ok(ScreenData {
            timestamp: NOW,
            app_name: "code".to_string(),
            window_title: "main.rs".to_string(),
            ocr_text: String::new(),
        }))
    );
}

#[test]
fn unknown_window_and_blank_text() {
    let service = IngestionService::new(true);
    let (actions, _) = run(
        &service,
        vec![
            CaptureEvent::MonitorsListed { listed: Ok(1) },
            CaptureEvent::ScreenCaptured { captured: Ok(()) },
            CaptureEvent::ActiveWindowRead { window: None },
            CaptureEvent::TextRecognized { recognized: Ok(" \n\t ".to_string()) },
            CaptureEvent::ClockRead { now: NOW },
        ],
    );
    assert_eq!(
        actions[5],
        CaptureAction::Done(Ok(ScreenData {
            timestamp: NOW,
            app_name: "Unknown".to_string(),
            window_title: "Unknown".to_string(),
            ocr_text: "[Nenhum texto detectado]".to_string(),
        }))
    );
}

#[test]
fn monitor_list_failure_ends_round() {
    let service = IngestionService::new(true);
    let (actions, stage) =
        run(&service, vec![CaptureEvent::MonitorsListed { listed: Err("no display".to_string()) }]);
    assert_eq!(stage, CaptureStage::Finished);
    let expected = CaptureError::MonitorQuery { detail: "no display".to_string() };
    assert_eq!(expected.message(), "Failed to get monitors: no display");
    assert_eq!(actions[1], CaptureAction::Done(Err(expected)));
}

#[test]
fn no_monitor_ends_round() {
    let service = IngestionService::new(true);
    let (actions, _) = run(&service, vec![CaptureEvent::MonitorsListed { listed: Ok(0) }]);
    assert_eq!(actions[1], CaptureAction::Done(Err(CaptureError::NoMonitor)));
    assert_eq!(CaptureError::NoMonitor.message(), "No monitor found");
}

#[test]
fn screenshot_failure_ends_round() {
    let service = IngestionService::new(false);
    let (actions, _) = run(
        &service,
        vec![
            CaptureEvent::MonitorsListed { listed: Ok(3) },
            CaptureEvent::ScreenCaptured { captured: Err("permission denied".to_string()) },
        ],
    );
    let e = CaptureError::Screenshot { detail: "permission denied".to_string() };
    assert_eq!(e.message(), "Screenshot failed: permission denied");
    assert_eq!(actions[2], CaptureAction::Done(Err(e)));
}

#[test]
fn recognition_failure_ends_round() {
    let service = IngestionService::new(true);
    let failure = || CaptureError::Recognition { detail: "boom".to_string() };
    let (actions, stage) = run(
        &service,
        vec![
            CaptureEvent::MonitorsListed { listed: Ok(1) },
            CaptureEvent::ScreenCaptured { captured: Ok(()) },
            window("a", "b"),
            CaptureEvent::TextRecognized { recognized: Err(failure()) },
        ],
    );
    assert_eq!(stage, CaptureStage::Finished);
    assert_eq!(actions[4], CaptureAction::Done(Err(failure())));
}

#[test]
fn round_only_expects_the_answer_it_asked_for() {
    let service = IngestionService::new(true);
    let mut round = service.begin_capture();
    assert_eq!(round.current_stage(), CaptureStage::Idle);
    assert!(round.expects(&CaptureEvent::Started));
    assert!(!round.expects(&CaptureEvent::ClockRead { now: NOW }));
    round.step(CaptureEvent::Started);
    assert_eq!(round.current_stage(), CaptureStage::AwaitingMonitors);
    assert!(!round.expects(&CaptureEvent::Started));
    assert!(round.expects(&CaptureEvent::MonitorsListed { listed: Ok(1) }));
}

#[test]
fn error_messages() {
    let d = || "x".to_string();
    assert_eq!(
        CaptureError::ImageConversion { detail: d() }.message(),
        "Erro converter imagem p/ Tesseract: x"
    );
    assert_eq!(
        CaptureError::Recognition { detail: d() }.message(),
        "Erro Tesseract (Verifique instalação): x"
    );
    assert_eq!(CaptureError::Task { detail: d() }.message(), "x");
}

#[test]
fn placeholder_for_blank_text() {
    assert_eq!(ocr_text_or_placeholder(String::new()), "[Nenhum texto detectado]");
    assert_eq!(ocr_text_or_placeholder("  \r\n\u{a0}\u{3000}".to_string()), "[Nenhum texto detectado]");
    assert_eq!(ocr_text_or_placeholder(" ok ".to_string()), " ok ");
    assert_eq!(ocr_text_or_placeholder("x".to_string()), "x");
}

#[test]
fn report_of_a_capture() {
    let data = ScreenData {
        timestamp: NOW,
        app_name: "firefox".to_string(),
        window_title: "t".to_string(),
        ocr_text: "ação".to_string(),
    };
    assert_eq!(
        report_capture(&Ok(data)),
        CaptureReport::Captured { timestamp: NOW, app_name: "firefox".to_string(), text_len: 6 }
    );
}

#[test]
fn report_of_missing_engine() {
    let e = CaptureError::Recognition {
        detail: "Tesseract not found. Please check installation path!".to_string(),
    };
    assert_eq!(report_capture(&Err(e)), CaptureReport::EngineMissing);
    let e = CaptureError::Task { detail: "Tesseract not found".to_string() };
    assert_eq!(report_capture(&Err(e)), CaptureReport::EngineMissing);
}

#[test]
fn report_of_other_errors() {
    let e = CaptureError::Screenshot { detail: "Tesseract not foun".to_string() };
    assert_eq!(
        report_capture(&Err(e)),
        CaptureReport::Failed { message: "Screenshot failed: Tesseract not foun".to_string() }
    );
    assert_eq!(
        report_capture(&Err(CaptureError::NoMonitor)),
        CaptureReport::Failed { message: "No monitor found".to_string() }
    );
}

#[test]
fn recognition_settings() {
    assert_eq!(CAPTURE_INTERVAL_SECS, 5);
    assert_eq!(OCR_LANGUAGE, "eng");
    assert!(OCR_CHAR_WHITELIST.starts_with("abcdefghijklmnopqrstuvwxyzABCDEFGHIJKLMNOPQRSTUVWXYZ0123456789"));
    assert!(OCR_CHAR_WHITELIST.ends_with("{}/\\\"'"));
}
