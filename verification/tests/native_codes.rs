//! Interpretation of raw native status codes.

use macos_permissions::kinds::MediaType;
use macos_permissions::native::{
    hid_status_granted, media_status_granted, media_type_tag, system_audio_probe_address,
    system_audio_probe_granted, AUDIO_HARDWARE_PROPERTY_TRANSLATE_PID_TO_PROCESS_OBJECT,
    AUDIO_OBJECT_PROPERTY_ELEMENT_MAIN, AUDIO_OBJECT_PROPERTY_SCOPE_GLOBAL,
    AUDIO_OBJECT_SYSTEM_OBJECT, SYSTEM_AUDIO_PROBE_PID,
};

#[test]
fn media_status_granted_only_when_authorized() {
    // 0 = not determined, 1 = restricted, 2 = denied, 3 = authorized.
    assert_eq!(media_status_granted(0), false);
    assert_eq!(media_status_granted(1), false);
    assert_eq!(media_status_granted(2), false);
    assert_eq!(media_status_granted(3), true);
    assert_eq!(media_status_granted(4), false);
    assert_eq!(media_status_granted(-1), false);
}

#[test]
fn hid_status_granted_only_on_granted_code() {
    // 0 = granted, 1 = denied, 2 = unknown.
    assert_eq!(hid_status_granted(0), true);
    assert_eq!(hid_status_granted(1), false);
    assert_eq!(hid_status_granted(2), false);
    assert_eq!(hid_status_granted(u32::MAX), false);
}

#[test]
fn system_audio_probe_needs_zero_status_and_nonzero_handle() {
    assert_eq!(system_audio_probe_granted(0, 1), true);
    assert_eq!(system_audio_probe_granted(0, 4242), true);
    assert_eq!(system_audio_probe_granted(0, 0), false);
    assert_eq!(system_audio_probe_granted(1, 1), false);
    assert_eq!(system_audio_probe_granted(-50, 1), false);
    assert_eq!(system_audio_probe_granted(-50, 0), false);
}

#[test]
fn probe_address_uses_the_translation_selector() {
    let address = system_audio_probe_address();
    // 'pid2' and 'glob' as four-character codes.
    assert_eq!(address.selector, 0x70696432);
    assert_eq!(address.selector, AUDIO_HARDWARE_PROPERTY_TRANSLATE_PID_TO_PROCESS_OBJECT);
    assert_eq!(address.scope, 0x676c6f62);
    assert_eq!(address.scope, AUDIO_OBJECT_PROPERTY_SCOPE_GLOBAL);
    assert_eq!(address.element, AUDIO_OBJECT_PROPERTY_ELEMENT_MAIN);
    assert_eq!(address.element, 0);
}

#[test]
fn probe_constants_match_the_audio_subsystem() {
    assert_eq!(AUDIO_OBJECT_SYSTEM_OBJECT, 1);
    assert_eq!(SYSTEM_AUDIO_PROBE_PID, 0);
}

#[test]
fn media_tags_are_four_character_codes() {
    assert_eq!(media_type_tag(MediaType::Audio), "soun");
    assert_eq!(media_type_tag(MediaType::Video), "vide");
}
