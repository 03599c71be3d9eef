use sharekit::commands;
use sharekit::kit::{Platform, ShareKit, ShareRequest};
use sharekit::models::{SharedContent, SharedContentType, ShareFileOptions, ShareTextOptions};
use sharekit::ShareError;

fn windows_kit() -> ShareKit {
    ShareKit::new(Platform::Windows, "Demo App".to_string())
}

#[test]
fn clear_twice_then_nothing_pending() {
    let mut kit = windows_kit();
    kit.receive(SharedContent::from_text("hello".to_string()));
    assert!(commands::clear_pending_shared_content(&mut kit).is_ok());
    assert!(commands::clear_pending_shared_content(&mut kit).is_ok());
    assert!(commands::get_pending_shared_content(&kit).unwrap().is_none());
    assert_eq!(kit.clear_pending_shared_content(), Ok(()));
    assert!(kit.get_pending_shared_content().unwrap().is_none());
}

#[test]
fn pending_read_does_not_take_the_content() {
    let mut kit = windows_kit();
    kit.receive(SharedContent::from_text("hello".to_string()));
    let a = kit.get_pending_shared_content().unwrap().unwrap();
    let b = commands::get_pending_shared_content(&kit).unwrap().unwrap();
    assert_eq!(a.text.as_deref(), Some("hello"));
    assert_eq!(b.text.as_deref(), Some("hello"));
    assert_eq!(b.content_type, SharedContentType::Text);
}

#[test]
fn unsupported_platform_refuses_every_operation() {
    let mut kit = ShareKit::new(Platform::OtherDesktop, "Demo App".to_string());
    assert_eq!(
        kit.share_text("hello".to_string(), ShareTextOptions::default()).unwrap_err(),
        ShareError::UnsupportedPlatform
    );
    assert_eq!(
        kit.share_file("/tmp/a.txt".to_string(), ShareFileOptions::default()).unwrap_err(),
        ShareError::UnsupportedPlatform
    );
    assert_eq!(kit.get_pending_shared_content().unwrap_err(), ShareError::UnsupportedPlatform);
    assert_eq!(kit.clear_pending_shared_content(), Err(ShareError::UnsupportedPlatform));
    assert_eq!(
        commands::clear_pending_shared_content(&mut kit),
        Err("sharing is not supported on this platform".to_string())
    );
    assert_eq!(
        commands::share_text(&kit, "hello".to_string(), None).unwrap_err(),
        "sharing is not supported on this platform"
    );
}

#[test]
fn text_share_is_titled_with_app_name() {
    let kit = windows_kit();
    let q = commands::share_text(&kit, "hello".to_string(), Some("text/plain".to_string())).unwrap();
    assert_eq!(
        q,
        ShareRequest::Text {
            title: "Demo App".to_string(),
            description: "hello".to_string(),
            text: "hello".to_string(),
            mime_type: Some("text/plain".to_string()),
        }
    );
}

#[test]
fn file_share_title_falls_back_to_app_name() {
    let kit = ShareKit::new(Platform::MacOs, "Demo App".to_string());
    let q = commands::share_file(&kit, "/tmp/a.txt".to_string(), None, None).unwrap();
    assert_eq!(
        q,
        ShareRequest::File {
            title: "Demo App".to_string(),
            description: "Demo App".to_string(),
            url: "/tmp/a.txt".to_string(),
            mime_type: None,
        }
    );
    let q = commands::share_file(
        &kit,
        "/tmp/a.txt".to_string(),
        Some("text/plain".to_string()),
        Some("Notes".to_string()),
    )
    .unwrap();
    assert_eq!(
        q,
        ShareRequest::File {
            title: "Notes".to_string(),
            description: "Notes".to_string(),
            url: "/tmp/a.txt".to_string(),
            mime_type: Some("text/plain".to_string()),
        }
    );
}

#[test]
fn error_messages() {
    assert_eq!(ShareError::UnsupportedPlatform.message(), "sharing is not supported on this platform");
    assert_eq!(ShareError::WindowNotFound.message(), "window not found");
    assert_eq!(
        ShareError::NativeApiFailure("access denied".to_string()).message(),
        "native API error: access denied"
    );
    assert_eq!(ShareError::ShareCancelled.message(), "share cancelled");
    assert_eq!(ShareError::NoShareableContent.message(), "no shareable content");
    assert_eq!(ShareError::InvalidData.message(), "invalid data");
}

#[test]
fn platform_is_kept() {
    assert_eq!(windows_kit().platform(), Platform::Windows);
}
