//! The permission adapter set: one check/request pair per permission kind.
//!
//! Every adapter is stateless. A check is a pure function of the
//! authorization state the operating system reports, gathered by the host
//! binary into an [`OsSnapshot`]; a request is a decision — which native
//! prompt to show, or which settings pane to open — followed by a verified
//! mapping of the launch report to the caller-visible outcome.

use vstd::prelude::*;
use vstd::string::StringExecFns;

use crate::disk::{full_disk_access_from_probes, spec_any_probe_succeeded};
use crate::kinds::{MediaType, PermissionKind, Platform};
use crate::native::{
    hid_status_granted, media_status_granted, spec_hid_granted, spec_media_granted,
    spec_system_audio_granted, system_audio_probe_granted,
};
use crate::settings::{spec_opens_settings, spec_settings_url};

verus! {

/// The authorization state the operating system reports at one moment, as
/// raw native values. The host binary fills it by querying each native
/// subsystem; this crate only reads it. One field (or field pair) per
/// permission kind — no kind's answer depends on another's state.
pub struct OsSnapshot {
    /// Whether the trust registry lists the current process as a trusted
    /// accessibility client.
    pub accessibility_trusted: bool,
    /// The outcome of one protected-directory enumeration attempt per entry
    /// of the fixed probe list.
    pub protected_dir_readable: Vec<bool>,
    /// Whether the non-mutating screen-capture preflight reports access.
    pub screen_capture_allowed: bool,
    /// Raw media-capture authorization status for audio.
    pub microphone_status: i32,
    /// Raw media-capture authorization status for video.
    pub camera_status: i32,
    /// Raw input-device access status for the listen-event request type.
    pub input_monitoring_status: u32,
    /// Status code of the system-audio metadata probe.
    pub system_audio_status: i32,
    /// Object handle the system-audio metadata probe returned.
    pub system_audio_object: u32,
}

/// What a check of `kind` reports given the state in `s`.
pub open spec fn spec_check(kind: PermissionKind, s: OsSnapshot) -> bool {
    match kind {
        PermissionKind::Accessibility => s.accessibility_trusted,
        PermissionKind::FullDiskAccess => spec_any_probe_succeeded(s.protected_dir_readable@),
        PermissionKind::ScreenRecording => s.screen_capture_allowed,
        PermissionKind::Microphone => spec_media_granted(s.microphone_status),
        PermissionKind::Camera => spec_media_granted(s.camera_status),
        PermissionKind::InputMonitoring => spec_hid_granted(s.input_monitoring_status),
        PermissionKind::SystemAudioRecording => spec_system_audio_granted(
            s.system_audio_status,
            s.system_audio_object,
        ),
    }
}

/// What a check of `kind` reports on `platform`: the real rule on the target
/// platform, unconditionally granted on an unsupported one.
pub open spec fn spec_check_on(platform: Platform, kind: PermissionKind, s: OsSnapshot) -> bool {
    match platform {
        Platform::MacOs => spec_check(kind, s),
        Platform::Unsupported => true,
    }
}

/// Check one permission against a snapshot of the reported state.
///
/// Reading a snapshot mutates nothing, so any number of checks against the
/// same state return the same answer.
pub fn check_permission(platform: Platform, kind: PermissionKind, snapshot: &OsSnapshot) -> (granted:
    bool)
    ensures
        granted == spec_check_on(platform, kind, *snapshot),
{
    match platform {
        Platform::Unsupported => true,
        Platform::MacOs => match kind {
            PermissionKind::Accessibility => snapshot.accessibility_trusted,
            PermissionKind::FullDiskAccess => full_disk_access_from_probes(
                &snapshot.protected_dir_readable,
            ),
            PermissionKind::ScreenRecording => snapshot.screen_capture_allowed,
            PermissionKind::Microphone => media_status_granted(snapshot.microphone_status),
            PermissionKind::Camera => media_status_granted(snapshot.camera_status),
            PermissionKind::InputMonitoring => hid_status_granted(
                snapshot.input_monitoring_status,
            ),
            PermissionKind::SystemAudioRecording => system_audio_probe_granted(
                snapshot.system_audio_status,
                snapshot.system_audio_object,
            ),
        },
    }
}

/// The native side effect a request triggers. The host binary performs it;
/// none of the prompt actions waits for the user's answer.
pub enum RequestAction {
    /// Query the trust registry with the prompt option set: the standard
    /// accessibility consent dialog appears if the process is not yet
    /// trusted.
    PromptForTrust,
    /// Trigger the screen-capture access request: the system prompt appears
    /// if the user has not yet decided.
    PromptForScreenCapture,
    /// Invoke the media-capture authorization request for one capture type
    /// with a no-op completion: the decision is made later and observed only
    /// by a fresh check.
    PromptForMedia { media: MediaType },
    /// Open the system privacy settings at the pane reached by `url`; no
    /// programmatic prompt exists for the kind.
    OpenSettingsPane { url: String },
    /// Nothing to do: the platform has no native permission model.
    NoAction,
}

/// Decide which native side effect a request of `kind` on `platform`
/// triggers. Each kind maps to exactly one action, and the three kinds
/// without a programmatic prompt map to their settings deep link.
pub fn request_action(platform: Platform, kind: PermissionKind) -> (action: RequestAction)
    ensures
        platform is Unsupported ==> action is NoAction,
        platform is MacOs ==> match kind {
            PermissionKind::Accessibility => action is PromptForTrust,
            PermissionKind::ScreenRecording => action is PromptForScreenCapture,
            PermissionKind::Microphone => action matches RequestAction::PromptForMedia { media }
                && media is Audio,
            PermissionKind::Camera => action matches RequestAction::PromptForMedia { media }
                && media is Video,
            _ => action matches RequestAction::OpenSettingsPane { url } && spec_settings_url(kind)
                == Some(url@),
        },
{
    match platform {
        Platform::Unsupported => RequestAction::NoAction,
        Platform::MacOs => match kind {
            PermissionKind::Accessibility => RequestAction::PromptForTrust,
            PermissionKind::ScreenRecording => RequestAction::PromptForScreenCapture,
            PermissionKind::Microphone => RequestAction::PromptForMedia {
                media: MediaType::Audio,
            },
            PermissionKind::Camera => RequestAction::PromptForMedia { media: MediaType::Video },
            PermissionKind::FullDiskAccess => RequestAction::OpenSettingsPane {
                url: String::from_str(
                    "x-apple.systempreferences:com.apple.preference.security?Privacy_AllFiles",
                ),
            },
            PermissionKind::InputMonitoring => RequestAction::OpenSettingsPane {
                url: String::from_str(
                    "x-apple.systempreferences:com.apple.preference.security?Privacy_ListenEvent",
                ),
            },
            PermissionKind::SystemAudioRecording => RequestAction::OpenSettingsPane {
                url: String::from_str(
                    "x-apple.systempreferences:com.apple.preference.security?Privacy_ScreenCapture",
                ),
            },
        },
    }
}

/// The host binary's report of a settings-pane launch attempt.
pub enum SettingsLaunch {
    /// The settings surface was opened (the launcher process was spawned).
    Opened,
    /// The launcher could not be spawned; `message` describes the failure.
    Failed { message: String },
}

/// Whether a request of `kind` on `platform` succeeds given the launch
/// report. Prompt-style requests and the unsupported-platform stub always
/// succeed; a settings-pane request succeeds exactly when the pane was
/// opened.
pub open spec fn spec_request_succeeds(
    platform: Platform,
    kind: PermissionKind,
    launch: SettingsLaunch,
) -> bool {
    match platform {
        Platform::Unsupported => true,
        Platform::MacOs => spec_opens_settings(kind) ==> launch is Opened,
    }
}

/// Turn a request's launch report into the caller-visible outcome.
///
/// Success never hides a failed launch: for the kinds that open a settings
/// pane the result is `Ok` exactly when the pane was opened, and a failed
/// launch surfaces its message unchanged. The prompt kinds are infallible
/// by construction — their native calls return nothing — so their outcome
/// is `Ok` whatever the report says, and whatever the user later decides.
pub fn complete_request(platform: Platform, kind: PermissionKind, launch: SettingsLaunch) -> (outcome:
    Result<(), String>)
    ensures
        outcome is Ok <==> spec_request_succeeds(platform, kind, launch),
        !spec_request_succeeds(platform, kind, launch) ==> (outcome matches Err(m) && launch
            matches SettingsLaunch::Failed { message } && m@ == message@),
{
    match platform {
        Platform::Unsupported => Ok(()),
        Platform::MacOs => {
            if settings_pane_kind(kind) {
                match launch {
                    SettingsLaunch::Opened => Ok(()),
                    SettingsLaunch::Failed { message } => Err(message),
                }
            } else {
                Ok(())
            }
        },
    }
}

/// Whether `kind` is one of the three kinds whose request opens a settings
/// pane.
fn settings_pane_kind(kind: PermissionKind) -> (opens: bool)
    ensures
        opens == spec_opens_settings(kind),
{
    match kind {
        PermissionKind::FullDiskAccess => true,
        PermissionKind::InputMonitoring => true,
        PermissionKind::SystemAudioRecording => true,
        _ => false,
    }
}

} // verus!
