use sharekit::kit::{Platform, ShareKit, ShareRequest};
use sharekit::models::ShareTextOptions;
use sharekit::session::{SessionPhase, ShareSession, ShareSignal};
use sharekit::ShareError;

#[test]
fn immediate_cancellation_reports_share_cancelled() {
    let kit = ShareKit::new(Platform::Windows, "Demo App".to_string());
    let request = kit.share_text("hello".to_string(), ShareTextOptions::default()).unwrap();
    assert!(matches!(request, ShareRequest::Text { .. }));
    let mut session = ShareSession::new();
    assert_eq!(session.on_signal(ShareSignal::DataPopulated), None);
    assert_eq!(session.on_signal(ShareSignal::Canceled), Some(Err(ShareError::ShareCancelled)));
    assert_eq!(session.phase(), SessionPhase::Finished);
}

#[test]
fn completion_reports_success() {
    let mut session = ShareSession::new();
    assert_eq!(session.phase(), SessionPhase::AwaitingData);
    assert_eq!(session.on_signal(ShareSignal::DataPopulated), None);
    assert_eq!(session.phase(), SessionPhase::AwaitingOutcome);
    assert_eq!(session.on_signal(ShareSignal::Completed), Some(Ok(())));
}

#[test]
fn data_failure_ends_the_session_with_its_message() {
    let mut session = ShareSession::new();
    assert_eq!(
        session.on_signal(ShareSignal::DataFailed("file not found".to_string())),
        Some(Err(ShareError::NativeApiFailure("file not found".to_string())))
    );
    assert_eq!(session.phase(), SessionPhase::Finished);
}

#[test]
fn later_signals_are_ignored() {
    let mut session = ShareSession::new();
    session.on_signal(ShareSignal::DataPopulated);
    assert_eq!(session.on_signal(ShareSignal::Completed), Some(Ok(())));
    assert_eq!(session.on_signal(ShareSignal::Canceled), None);
    assert_eq!(session.on_signal(ShareSignal::Completed), None);
    assert_eq!(session.phase(), SessionPhase::Finished);
}

#[test]
fn outcome_before_data_is_ignored() {
    let mut session = ShareSession::new();
    assert_eq!(session.on_signal(ShareSignal::Canceled), None);
    assert_eq!(session.phase(), SessionPhase::AwaitingData);
    assert_eq!(session.on_signal(ShareSignal::DataPopulated), None);
    assert_eq!(session.on_signal(ShareSignal::DataPopulated), None);
    assert_eq!(session.phase(), SessionPhase::AwaitingOutcome);
}
