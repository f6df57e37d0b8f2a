use mutebtn::pulse::{
    all_muted, audio_dispatch, mute_status_all, mute_status_default, mute_status_named,
    query_device, set_device, AudioAction, AudioInput, AudioMessage, PulseMuteDevice,
    PulseSettings,
};

#[test]
fn default_pulse_settings_address_all_devices() {
    let s = PulseSettings::default();
    assert_eq!(s.mute_device, PulseMuteDevice::All);
    assert_eq!(s.unmute_device, Some(PulseMuteDevice::All));
}

#[test]
fn query_prefers_the_unmute_selection() {
    let s = PulseSettings {
        mute_device: PulseMuteDevice::All,
        unmute_device: Some(PulseMuteDevice::Selected(String::from("mic"))),
    };
    assert_eq!(query_device(&s), &PulseMuteDevice::Selected(String::from("mic")));
    let fallback = PulseSettings { mute_device: PulseMuteDevice::Default, unmute_device: None };
    assert_eq!(query_device(&fallback), &PulseMuteDevice::Default);
}

#[test]
fn set_selection_depends_on_the_direction() {
    let s = PulseSettings {
        mute_device: PulseMuteDevice::Default,
        unmute_device: Some(PulseMuteDevice::Selected(String::from("mic"))),
    };
    assert_eq!(set_device(&s, true), &PulseMuteDevice::Default);
    assert_eq!(set_device(&s, false), &PulseMuteDevice::Selected(String::from("mic")));
    let fallback = PulseSettings { mute_device: PulseMuteDevice::Default, unmute_device: None };
    assert_eq!(set_device(&fallback, false), &PulseMuteDevice::Default);
}

#[test]
fn all_devices_muted_requires_every_flag() {
    assert!(all_muted(&Vec::new())); // an empty listing counts as muted
    assert!(all_muted(&vec![true, true, true]));
    assert!(!all_muted(&vec![true, false, true]));
}

#[test]
fn query_over_all_devices_fails_open() {
    assert!(mute_status_all(&Some(vec![true, true])));
    assert!(!mute_status_all(&Some(vec![true, false])));
    assert!(!mute_status_all(&None)); // listing failure resolves to unmuted
}

#[test]
fn query_of_a_named_device_fails_open() {
    assert!(mute_status_named(&Some(true)));
    assert!(!mute_status_named(&Some(false)));
    assert!(!mute_status_named(&None)); // lookup failure resolves to unmuted
}

#[test]
fn query_of_the_default_device_fails_open() {
    let name = Some(Some(String::from("mic")));
    assert!(mute_status_default(&name, &Some(true)));
    assert!(!mute_status_default(&name, &Some(false)));
    assert!(!mute_status_default(&name, &None)); // lookup failed
    assert!(!mute_status_default(&Some(None), &None)); // no default source
    assert!(!mute_status_default(&None, &None)); // server info failed
}

#[test]
fn audio_bridge_dispatch() {
    assert_eq!(
        audio_dispatch(&AudioInput::Message(AudioMessage::GetMuteStatus)),
        AudioAction::Query
    );
    assert_eq!(
        audio_dispatch(&AudioInput::Message(AudioMessage::SetMuteStatus(true))),
        AudioAction::Apply(true)
    );
    assert_eq!(audio_dispatch(&AudioInput::Message(AudioMessage::Terminate)), AudioAction::Stop);
    assert_eq!(audio_dispatch(&AudioInput::Disconnected), AudioAction::Stop);
}
