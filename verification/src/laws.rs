//! The properties that hold of the adapter set as a whole.
//!
//! Each proof function below states one guarantee the crate makes across its
//! operations: checks are repeatable and independent of one another, the
//! unsupported-platform stub is unconditional, prompt-style requests never
//! wait on the user, and settings-pane requests never report success for a
//! failed launch.

use vstd::prelude::*;

use crate::adapter::{
    spec_check, spec_check_on, spec_request_succeeds, OsSnapshot, SettingsLaunch,
};
use crate::kinds::{PermissionKind, Platform};
use crate::native::{AV_AUTHORIZATION_STATUS_AUTHORIZED, IOHID_ACCESS_GRANTED};
use crate::settings::spec_opens_settings;

verus! {

/// A check is idempotent and side-effect-free: it is a pure function of the
/// reported state, so any number of calls without an intervening request or
/// OS-level change — that is, against the same snapshot — all return the
/// same value.
pub proof fn lemma_check_idempotent(
    platform: Platform,
    kind: PermissionKind,
    s: OsSnapshot,
    results: Seq<bool>,
)
    requires
        forall|n: int| 0 <= n < results.len() ==> results[n] == spec_check_on(platform, kind, s),
    ensures
        forall|n: int, m: int|
            0 <= n < results.len() && 0 <= m < results.len() ==> results[n] == results[m],
{
}

/// On a platform without the native permission model, every check reports
/// granted and every request succeeds, whatever state the snapshot holds and
/// whatever the launch report says.
pub proof fn lemma_unsupported_platform_stub(
    kind: PermissionKind,
    s: OsSnapshot,
    launch: SettingsLaunch,
)
    ensures
        spec_check_on(Platform::Unsupported, kind, s),
        spec_request_succeeds(Platform::Unsupported, kind, launch),
{
}

/// Requests for the kinds with a native consent prompt are fire-and-forget:
/// their outcome is success, the same for every launch report and fixed
/// before the user has answered any prompt — the caller never waits, and
/// learns the decision only from a later check.
pub proof fn lemma_prompt_request_never_blocks(
    kind: PermissionKind,
    launch: SettingsLaunch,
    other: SettingsLaunch,
)
    requires
        kind is Microphone || kind is Camera || kind is Accessibility || kind is ScreenRecording,
    ensures
        spec_request_succeeds(Platform::MacOs, kind, launch),
        spec_request_succeeds(Platform::MacOs, kind, launch) == spec_request_succeeds(
            Platform::MacOs,
            kind,
            other,
        ),
{
}

/// Requests for the kinds without a programmatic prompt either open a
/// settings pane and succeed, or fail exactly when the pane could not be
/// launched: success never hides a failed launch.
pub proof fn lemma_settings_request_reports_launch(kind: PermissionKind, launch: SettingsLaunch)
    requires
        spec_opens_settings(kind),
    ensures
        spec_request_succeeds(Platform::MacOs, kind, launch) <==> launch is Opened,
{
}

/// The part of the reported state that a check of `kind` reads; two
/// snapshots that agree on it are indistinguishable to that kind.
pub open spec fn spec_same_inputs_for(kind: PermissionKind, s1: OsSnapshot, s2: OsSnapshot) -> bool {
    match kind {
        PermissionKind::Accessibility => s1.accessibility_trusted == s2.accessibility_trusted,
        PermissionKind::FullDiskAccess => s1.protected_dir_readable@ == s2.protected_dir_readable@,
        PermissionKind::ScreenRecording => s1.screen_capture_allowed == s2.screen_capture_allowed,
        PermissionKind::Microphone => s1.microphone_status == s2.microphone_status,
        PermissionKind::Camera => s1.camera_status == s2.camera_status,
        PermissionKind::InputMonitoring => s1.input_monitoring_status == s2.input_monitoring_status,
        PermissionKind::SystemAudioRecording => s1.system_audio_status == s2.system_audio_status
            && s1.system_audio_object == s2.system_audio_object,
    }
}

/// Each kind's check reads only its own part of the state: snapshots that
/// agree there give the same answer, however the rest differs.
pub proof fn lemma_check_reads_only_own_state(kind: PermissionKind, s1: OsSnapshot, s2: OsSnapshot)
    requires
        spec_same_inputs_for(kind, s1, s2),
    ensures
        spec_check(kind, s1) == spec_check(kind, s2),
{
}

/// Granting or revoking one permission changes no other kind's check: if a
/// state change touches only the part of the state that `changed` reads,
/// every other kind's answer is the same before and after.
pub proof fn lemma_kinds_independent(changed: PermissionKind, s1: OsSnapshot, s2: OsSnapshot)
    requires
        forall|k: PermissionKind| k != changed ==> spec_same_inputs_for(k, s1, s2),
    ensures
        forall|k: PermissionKind| k != changed ==> spec_check(k, s1) == spec_check(k, s2),
{
    assert forall|k: PermissionKind| k != changed implies spec_check(k, s1) == spec_check(
        k,
        s2,
    ) by {
        lemma_check_reads_only_own_state(k, s1, s2);
    }
}

/// A fresh account: nothing granted anywhere — the process is not trusted,
/// the capture preflight denies, both media statuses are something other
/// than explicitly authorized, input access is not granted, every
/// protected-directory probe failed, and the system-audio probe gave no
/// usable handle.
pub open spec fn spec_fresh_state(s: OsSnapshot) -> bool {
    &&& !s.accessibility_trusted
    &&& forall|i: int| 0 <= i < s.protected_dir_readable@.len() ==> !s.protected_dir_readable@[i]
    &&& !s.screen_capture_allowed
    &&& s.microphone_status != AV_AUTHORIZATION_STATUS_AUTHORIZED
    &&& s.camera_status != AV_AUTHORIZATION_STATUS_AUTHORIZED
    &&& s.input_monitoring_status != IOHID_ACCESS_GRANTED
    &&& !(s.system_audio_status == 0 && s.system_audio_object != 0)
}

/// On a fresh account every check reports not granted, for every kind.
pub proof fn lemma_fresh_state_denies_all(kind: PermissionKind, s: OsSnapshot)
    requires
        spec_fresh_state(s),
    ensures
        !spec_check(kind, s),
{
}

} // verus!
