use sharekit::activation::{
    on_warm_activation, shared_content_event, ActivationAction, ActivationEvent, Coordinator,
    CoordinatorState, LaunchActivation, Role, WarmAction,
};
use sharekit::kit::{Platform, ShareKit};
use sharekit::models::SharedContent;
use sharekit::ShareError;

fn kit() -> ShareKit {
    ShareKit::new(Platform::Windows, "Demo App".to_string())
}

#[test]
fn secondary_forwards_and_leaves_pending_alone() {
    let mut kit = kit();
    kit.receive(SharedContent::from_text("earlier".to_string()));
    let mut c = Coordinator::new();
    assert_eq!(c.step(ActivationEvent::PackageChecked(true), &mut kit), ActivationAction::ClaimInstanceKey);
    assert_eq!(c.step(ActivationEvent::ClaimResolved(false), &mut kit), ActivationAction::ForwardToPrimary);
    assert_eq!(c.state(), CoordinatorState::Forwarding);
    assert_eq!(
        c.step(ActivationEvent::ForwardFinished, &mut kit),
        ActivationAction::Finish { role: Role::Secondary, acknowledge: false }
    );
    assert_eq!(c.state(), CoordinatorState::Done(Role::Secondary));
    let pending = kit.get_pending_shared_content().unwrap().unwrap();
    assert_eq!(pending.text.as_deref(), Some("earlier"));
}

#[test]
fn unpackaged_run_is_inactive() {
    let mut kit = kit();
    let mut c = Coordinator::new();
    assert_eq!(
        c.step(ActivationEvent::PackageChecked(false), &mut kit),
        ActivationAction::Finish { role: Role::Inactive, acknowledge: false }
    );
    assert_eq!(c.state(), CoordinatorState::Done(Role::Inactive));
    assert_eq!(c.step(ActivationEvent::ClaimResolved(true), &mut kit), ActivationAction::Ignore);
}

#[test]
fn cold_start_keeps_content_and_acknowledges() {
    let mut kit = kit();
    let mut c = Coordinator::new();
    c.step(ActivationEvent::PackageChecked(true), &mut kit);
    assert_eq!(
        c.step(ActivationEvent::ClaimResolved(true), &mut kit),
        ActivationAction::InstallHandlerAndInspectLaunch
    );
    let launch = LaunchActivation::Extracted(Ok(SharedContent::from_text("hello".to_string())));
    assert_eq!(
        c.step(ActivationEvent::LaunchInspected(launch), &mut kit),
        ActivationAction::Finish { role: Role::Primary, acknowledge: true }
    );
    let pending = kit.get_pending_shared_content().unwrap().unwrap();
    assert_eq!(pending.text.as_deref(), Some("hello"));
}

#[test]
fn failed_cold_start_extraction_is_still_acknowledged() {
    let mut kit = kit();
    let mut c = Coordinator::new();
    c.step(ActivationEvent::PackageChecked(true), &mut kit);
    c.step(ActivationEvent::ClaimResolved(true), &mut kit);
    let launch = LaunchActivation::Extracted(Err(ShareError::NoShareableContent));
    assert_eq!(
        c.step(ActivationEvent::LaunchInspected(launch), &mut kit),
        ActivationAction::Finish { role: Role::Primary, acknowledge: true }
    );
    assert!(kit.get_pending_shared_content().unwrap().is_none());
}

#[test]
fn plain_launch_of_primary_is_not_acknowledged() {
    let mut kit = kit();
    let mut c = Coordinator::new();
    c.step(ActivationEvent::PackageChecked(true), &mut kit);
    c.step(ActivationEvent::ClaimResolved(true), &mut kit);
    assert_eq!(
        c.step(ActivationEvent::LaunchInspected(LaunchActivation::NotShareTarget), &mut kit),
        ActivationAction::Finish { role: Role::Primary, acknowledge: false }
    );
    assert_eq!(c.state(), CoordinatorState::Done(Role::Primary));
    assert!(kit.get_pending_shared_content().unwrap().is_none());
}

#[test]
fn warm_activation_broadcasts_or_abandons() {
    assert_eq!(shared_content_event(), "sharedContent");
    match on_warm_activation(Ok(SharedContent::from_text("hi".to_string()))) {
        WarmAction::AcknowledgeAndBroadcast(c) => assert_eq!(c.text.as_deref(), Some("hi")),
        other => panic!("unexpected action {:?}", other),
    }
    match on_warm_activation(Err(ShareError::NoShareableContent)) {
        WarmAction::Abandon(e) => assert_eq!(e, ShareError::NoShareableContent),
        other => panic!("unexpected action {:?}", other),
    }
}
