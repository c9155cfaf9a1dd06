//! Interpretation of raw native status codes.
//!
//! The host binary makes the actual native calls (media-capture authorization
//! lookup, input-device access check, audio-object metadata probe) and hands
//! the raw codes to these functions; the meaning of each code is fixed here
//! and verified.

use vstd::prelude::*;

use crate::kinds::MediaType;

verus! {

/// Media-capture authorization status meaning "explicitly authorized by the
/// user". The other statuses (not determined, restricted, denied) are lower
/// values and all count as not granted.
pub const AV_AUTHORIZATION_STATUS_AUTHORIZED: i32 = 3;

/// Request code for the input-device access check: access to listen to input
/// events.
pub const IOHID_REQUEST_TYPE_LISTEN_EVENT: u32 = 1;

/// Input-device access status meaning granted; every other status counts as
/// not granted.
pub const IOHID_ACCESS_GRANTED: u32 = 0;

/// Audio-object property selector that translates a process identifier into
/// an audio process object (the four characters of "pid2").
pub const AUDIO_HARDWARE_PROPERTY_TRANSLATE_PID_TO_PROCESS_OBJECT: u32 = 0x70696432;

/// The identifier of the system audio object, the root of the audio object
/// graph against which the translation property is queried.
pub const AUDIO_OBJECT_SYSTEM_OBJECT: u32 = 1;

/// Global property scope (the four characters of "glob").
pub const AUDIO_OBJECT_PROPERTY_SCOPE_GLOBAL: u32 = 0x676c6f62;

/// Main property element.
pub const AUDIO_OBJECT_PROPERTY_ELEMENT_MAIN: u32 = 0;

/// The reserved process identifier that stands for the system itself; the
/// system-audio probe asks the audio subsystem to translate it.
pub const SYSTEM_AUDIO_PROBE_PID: u32 = 0;

/// An audio-object property address: which property of an audio object a
/// metadata query asks for.
pub struct AudioPropertyAddress {
    pub selector: u32,
    pub scope: u32,
    pub element: u32,
}

/// A media-capture authorization status is granted exactly when it equals the
/// explicitly-authorized value.
pub open spec fn spec_media_granted(status: i32) -> bool {
    status == AV_AUTHORIZATION_STATUS_AUTHORIZED
}

/// Whether a raw media-capture authorization status means granted.
pub fn media_status_granted(status: i32) -> (granted: bool)
    ensures
        granted == spec_media_granted(status),
{
    status == AV_AUTHORIZATION_STATUS_AUTHORIZED
}

/// An input-device access status is granted exactly when it equals the
/// granted code.
pub open spec fn spec_hid_granted(status: u32) -> bool {
    status == IOHID_ACCESS_GRANTED
}

/// Whether a raw input-device access status means granted.
pub fn hid_status_granted(status: u32) -> (granted: bool)
    ensures
        granted == spec_hid_granted(status),
{
    status == IOHID_ACCESS_GRANTED
}

/// The system-audio probe counts as evidence of permission exactly when the
/// metadata query returned a zero status and a non-zero object handle. Any
/// other combination (non-zero status, zero handle, or both) means not
/// granted.
pub open spec fn spec_system_audio_granted(status: i32, object: u32) -> bool {
    status == 0 && object != 0
}

/// Whether the system-audio metadata probe's raw result counts as granted.
///
/// This is a heuristic, not an authoritative state: the underlying permission
/// is granted lazily on the first real capture attempt, so a `false` here may
/// be a false negative.
pub fn system_audio_probe_granted(status: i32, object: u32) -> (granted: bool)
    ensures
        granted == spec_system_audio_granted(status, object),
{
    status == 0 && object != 0
}

/// The property address of the system-audio probe: translate the reserved
/// system process identifier into an audio process object, in the global
/// scope, at the main element.
pub fn system_audio_probe_address() -> (address: AudioPropertyAddress)
    ensures
        address.selector == AUDIO_HARDWARE_PROPERTY_TRANSLATE_PID_TO_PROCESS_OBJECT,
        address.scope == AUDIO_OBJECT_PROPERTY_SCOPE_GLOBAL,
        address.element == AUDIO_OBJECT_PROPERTY_ELEMENT_MAIN,
{
    AudioPropertyAddress {
        selector: AUDIO_HARDWARE_PROPERTY_TRANSLATE_PID_TO_PROCESS_OBJECT,
        scope: AUDIO_OBJECT_PROPERTY_SCOPE_GLOBAL,
        element: AUDIO_OBJECT_PROPERTY_ELEMENT_MAIN,
    }
}

/// The four-character tag of a media capture type.
pub open spec fn spec_media_tag(media: MediaType) -> Seq<char> {
    match media {
        MediaType::Audio => "soun"@,
        MediaType::Video => "vide"@,
    }
}

/// The tag the native media-capture subsystem uses for a capture type:
/// "soun" for audio (the microphone), "vide" for video (the camera).
pub fn media_type_tag(media: MediaType) -> (tag: &'static str)
    ensures
        tag@ == spec_media_tag(media),
{
    match media {
        MediaType::Audio => "soun",
        MediaType::Video => "vide",
    }
}

} // verus!
