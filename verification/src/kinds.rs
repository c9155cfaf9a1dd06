//! The closed sets of permission kinds, media capture types, and platforms.

use vstd::prelude::*;

verus! {

/// The privacy permissions this crate can query and request. The set is
/// fixed: one independent adapter exists per kind, and no kind's state ever
/// influences another's.
#[derive(Clone, Copy, Debug, PartialEq, Eq, Structural)]
pub enum PermissionKind {
    Accessibility,
    FullDiskAccess,
    ScreenRecording,
    Microphone,
    Camera,
    InputMonitoring,
    SystemAudioRecording,
}

/// The spec-level list of every permission kind, in the order the adapters
/// are presented.
pub open spec fn spec_all_kinds() -> Seq<PermissionKind> {
    seq![
        PermissionKind::Accessibility,
        PermissionKind::FullDiskAccess,
        PermissionKind::ScreenRecording,
        PermissionKind::Microphone,
        PermissionKind::Camera,
        PermissionKind::InputMonitoring,
        PermissionKind::SystemAudioRecording,
    ]
}

/// Every permission kind, once each: the host registers one check/request
/// pair per entry.
pub fn all_kinds() -> (kinds: Vec<PermissionKind>)
    ensures
        kinds@ == spec_all_kinds(),
{
    let mut kinds: Vec<PermissionKind> = Vec::new();
    kinds.push(PermissionKind::Accessibility);
    kinds.push(PermissionKind::FullDiskAccess);
    kinds.push(PermissionKind::ScreenRecording);
    kinds.push(PermissionKind::Microphone);
    kinds.push(PermissionKind::Camera);
    kinds.push(PermissionKind::InputMonitoring);
    kinds.push(PermissionKind::SystemAudioRecording);
    assert(kinds@ =~= spec_all_kinds());
    kinds
}

/// The kind set is closed: every permission kind stands in the list.
pub proof fn lemma_all_kinds_complete(kind: PermissionKind)
    ensures
        spec_all_kinds().contains(kind),
{
    match kind {
        PermissionKind::Accessibility => assert(spec_all_kinds()[0] == kind),
        PermissionKind::FullDiskAccess => assert(spec_all_kinds()[1] == kind),
        PermissionKind::ScreenRecording => assert(spec_all_kinds()[2] == kind),
        PermissionKind::Microphone => assert(spec_all_kinds()[3] == kind),
        PermissionKind::Camera => assert(spec_all_kinds()[4] == kind),
        PermissionKind::InputMonitoring => assert(spec_all_kinds()[5] == kind),
        PermissionKind::SystemAudioRecording => assert(spec_all_kinds()[6] == kind),
    }
}

/// The media capture types of the microphone and camera adapters, which share
/// one native authorization entry point parameterized by a media-type tag.
#[derive(Clone, Copy, Debug, PartialEq, Eq, Structural)]
pub enum MediaType {
    Audio,
    Video,
}

/// The platform an adapter runs on, selected once at startup by the host.
///
/// On `Unsupported` every check reports granted and every request succeeds:
/// a compatibility stub, not a real permission model, kept so that calling
/// code ports unchanged to platforms without these native APIs.
#[derive(Clone, Copy, Debug, PartialEq, Eq, Structural)]
pub enum Platform {
    MacOs,
    Unsupported,
}

} // verus!
