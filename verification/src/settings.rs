//! Settings deep links.
//!
//! Three permission kinds have no programmatic consent prompt; requesting
//! them opens the system privacy settings at the section that governs the
//! permission. The deep-link URLs are fixed and must match exactly for the
//! operating system to route to the right section.

use vstd::prelude::*;

use crate::kinds::PermissionKind;

verus! {

/// The settings deep link of a permission kind, or `None` for the kinds that
/// have a native consent prompt instead.
///
/// System audio recording reuses the screen-recording section: that section
/// also governs system-audio capture, and no closer user-facing control
/// surface exists.
pub open spec fn spec_settings_url(kind: PermissionKind) -> Option<Seq<char>> {
    match kind {
        PermissionKind::FullDiskAccess => Some(
            "x-apple.systempreferences:com.apple.preference.security?Privacy_AllFiles"@,
        ),
        PermissionKind::InputMonitoring => Some(
            "x-apple.systempreferences:com.apple.preference.security?Privacy_ListenEvent"@,
        ),
        PermissionKind::SystemAudioRecording => Some(
            "x-apple.systempreferences:com.apple.preference.security?Privacy_ScreenCapture"@,
        ),
        _ => None,
    }
}

/// Whether requesting a kind opens the settings pane rather than showing a
/// native consent prompt.
pub open spec fn spec_opens_settings(kind: PermissionKind) -> bool {
    spec_settings_url(kind) is Some
}

/// The settings deep link to open when requesting `kind`, or `None` for the
/// kinds whose request shows a native prompt instead.
pub fn settings_url(kind: PermissionKind) -> (url: Option<&'static str>)
    ensures
        url is Some <==> spec_settings_url(kind) is Some,
        url matches Some(u) ==> spec_settings_url(kind) == Some(u@),
{
    match kind {
        PermissionKind::FullDiskAccess => Some(
            "x-apple.systempreferences:com.apple.preference.security?Privacy_AllFiles",
        ),
        PermissionKind::InputMonitoring => Some(
            "x-apple.systempreferences:com.apple.preference.security?Privacy_ListenEvent",
        ),
        PermissionKind::SystemAudioRecording => Some(
            "x-apple.systempreferences:com.apple.preference.security?Privacy_ScreenCapture",
        ),
        _ => None,
    }
}

} // verus!
