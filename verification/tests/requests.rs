//! Request decisions and outcomes: action mapping, settings deep links, and
//! the launch-report rule.

use macos_permissions::adapter::{
    complete_request, request_action, RequestAction, SettingsLaunch,
};
use macos_permissions::kinds::{MediaType, PermissionKind, Platform};
use macos_permissions::settings::settings_url;

const ALL_KINDS: [PermissionKind; 7] = [
    PermissionKind::Accessibility,
    PermissionKind::FullDiskAccess,
    PermissionKind::ScreenRecording,
    PermissionKind::Microphone,
    PermissionKind::Camera,
    PermissionKind::InputMonitoring,
    PermissionKind::SystemAudioRecording,
];

#[test]
fn settings_urls_match_the_privacy_sections() {
    assert_eq!(
        settings_url(PermissionKind::FullDiskAccess),
        Some("x-apple.systempreferences:com.apple.preference.security?Privacy_AllFiles")
    );
    assert_eq!(
        settings_url(PermissionKind::InputMonitoring),
        Some("x-apple.systempreferences:com.apple.preference.security?Privacy_ListenEvent")
    );
    // System audio capture is governed by the screen-recording section.
    assert_eq!(
        settings_url(PermissionKind::SystemAudioRecording),
        Some("x-apple.systempreferences:com.apple.preference.security?Privacy_ScreenCapture")
    );
    assert_eq!(settings_url(PermissionKind::Accessibility), None);
    assert_eq!(settings_url(PermissionKind::ScreenRecording), None);
    assert_eq!(settings_url(PermissionKind::Microphone), None);
    assert_eq!(settings_url(PermissionKind::Camera), None);
}

#[test]
fn each_kind_maps_to_its_action() {
    match request_action(Platform::MacOs, PermissionKind::Accessibility) {
        RequestAction::PromptForTrust => {}
        _ => panic!("accessibility must prompt for trust"),
    }
    match request_action(Platform::MacOs, PermissionKind::ScreenRecording) {
        RequestAction::PromptForScreenCapture => {}
        _ => panic!("screen recording must trigger the capture prompt"),
    }
    match request_action(Platform::MacOs, PermissionKind::Microphone) {
        RequestAction::PromptForMedia { media } => assert_eq!(media, MediaType::Audio),
        _ => panic!("microphone must prompt for audio capture"),
    }
    match request_action(Platform::MacOs, PermissionKind::Camera) {
        RequestAction::PromptForMedia { media } => assert_eq!(media, MediaType::Video),
        _ => panic!("camera must prompt for video capture"),
    }
    for kind in [
        PermissionKind::FullDiskAccess,
        PermissionKind::InputMonitoring,
        PermissionKind::SystemAudioRecording,
    ] {
        match request_action(Platform::MacOs, kind) {
            RequestAction::OpenSettingsPane { url } => {
                assert_eq!(Some(url.as_str()), settings_url(kind));
            }
            _ => panic!("kind without a native prompt must open the settings pane"),
        }
    }
}

#[test]
fn unsupported_platform_requests_do_nothing_and_succeed() {
    for kind in ALL_KINDS {
        match request_action(Platform::Unsupported, kind) {
            RequestAction::NoAction => {}
            _ => panic!("the stub must not touch the native subsystems"),
        }
        let failed = SettingsLaunch::Failed {
            message: String::from("unlaunchable"),
        };
        assert_eq!(complete_request(Platform::Unsupported, kind, failed), Ok(()));
    }
}

#[test]
fn settings_request_reports_a_failed_launch() {
    for kind in [
        PermissionKind::FullDiskAccess,
        PermissionKind::InputMonitoring,
        PermissionKind::SystemAudioRecording,
    ] {
        let opened = complete_request(Platform::MacOs, kind, SettingsLaunch::Opened);
        assert_eq!(opened, Ok(()));
        let failed = SettingsLaunch::Failed {
            message: String::from("No such file or directory (os error 2)"),
        };
        let outcome = complete_request(Platform::MacOs, kind, failed);
        assert_eq!(
            outcome,
            Err(String::from("No such file or directory (os error 2)"))
        );
    }
}

#[test]
fn prompt_requests_succeed_without_waiting() {
    for kind in [
        PermissionKind::Accessibility,
        PermissionKind::ScreenRecording,
        PermissionKind::Microphone,
        PermissionKind::Camera,
    ] {
        // The outcome is fixed before any user decision, whatever the
        // (irrelevant) launch report says.
        assert_eq!(
            complete_request(Platform::MacOs, kind, SettingsLaunch::Opened),
            Ok(())
        );
        let failed = SettingsLaunch::Failed {
            message: String::from("irrelevant"),
        };
        assert_eq!(complete_request(Platform::MacOs, kind, failed), Ok(()));
    }
}
