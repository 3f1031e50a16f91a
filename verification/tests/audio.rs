use platformctl::cache::{SinkInfoReply, SinkItem, StateCache};
use platformctl::cli::parse_bool;
use platformctl::connection::{bootstrap_step, pump_ok, BootstrapStep, ContextState, IterateOutcome};
use platformctl::device::{AudioError, PulseAudioSoundDevice};
use platformctl::request::{subscribe_decision, ClientRequest, SubscriptionFacility};
use platformctl::volume::{ChannelLevels, VOLUME_NORM};

fn levels(raw: Vec<u32>) -> ChannelLevels {
    ChannelLevels::from_levels(raw).expect("levels accepted")
}

fn item(name: &str, raw: Vec<u32>, mute: bool) -> SinkInfoReply {
    SinkInfoReply::Item(SinkItem { name: Some(name.to_owned()), volume: levels(raw), mute })
}

#[test]
fn fresh_cache_uses_default_alias() {
    let cache = StateCache::new();
    assert_eq!(cache.default_sink(), "@DEFAULT_SINK@");
    assert!(cache.get_sink(&"anything".to_owned()).is_none());
}

#[test]
fn server_info_callback_replaces_default() {
    let mut cache = StateCache::new();
    cache.server_info_callback(Some("alsa_output.internal".to_owned()));
    assert_eq!(cache.default_sink(), "alsa_output.internal");
    cache.server_info_callback(None);
    assert_eq!(cache.default_sink(), "alsa_output.internal");
}

#[test]
fn sink_info_callback_stores_and_replaces_entries() {
    let mut cache = StateCache::new();
    assert!(cache.sink_info_callback(item("a", vec![10, 20], false)));
    assert!(cache.sink_info_callback(item("b", vec![30], true)));
    {
        let a = cache.get_sink(&"a".to_owned()).expect("entry for a");
        assert!(!a.mute);
        assert_eq!(a.volume.level(1), 20);
    }
    assert!(cache.sink_info_callback(item("a", vec![99, 98], true)));
    let a = cache.get_sink(&"a".to_owned()).expect("entry for a");
    assert!(a.mute);
    assert_eq!(a.volume.level(0), 99);
    let b = cache.get_sink(&"b".to_owned()).expect("entry for b");
    assert_eq!(b.volume.level(0), 30);
}

#[test]
fn sink_info_callback_ignores_end_error_and_nameless() {
    let mut cache = StateCache::new();
    assert!(!cache.sink_info_callback(SinkInfoReply::End));
    assert!(!cache.sink_info_callback(SinkInfoReply::Error));
    let nameless = SinkInfoReply::Item(SinkItem { name: None, volume: levels(vec![5]), mute: true });
    assert!(!cache.sink_info_callback(nameless));
    assert!(cache.get_sink(&"".to_owned()).is_none());
}

#[test]
fn subscribe_decision_maps_facilities() {
    assert!(matches!(
        subscribe_decision(Some(SubscriptionFacility::Server), 7),
        Some(ClientRequest::GetDefaultDevice)
    ));
    assert!(matches!(
        subscribe_decision(Some(SubscriptionFacility::Sink), 7),
        Some(ClientRequest::GetSinkInfoByIndex(7))
    ));
    assert!(subscribe_decision(Some(SubscriptionFacility::Other), 7).is_none());
    assert!(subscribe_decision(None, 7).is_none());
}

#[test]
fn subscription_event_refreshes_default_device() {
    // A "server" change notification becomes a get-default-device request;
    // feeding that request's reply to the cache updates the default name.
    let mut cache = StateCache::new();
    let req = subscribe_decision(Some(SubscriptionFacility::Server), 0);
    assert!(matches!(req, Some(ClientRequest::GetDefaultDevice)));
    cache.server_info_callback(Some("new_default".to_owned()));
    assert_eq!(cache.default_sink(), "new_default");
}

#[test]
fn bootstrap_step_decisions() {
    assert!(matches!(bootstrap_step(&ContextState::Ready), BootstrapStep::Done));
    assert!(matches!(bootstrap_step(&ContextState::Failed), BootstrapStep::Fail));
    assert!(matches!(bootstrap_step(&ContextState::Terminated), BootstrapStep::Fail));
    assert!(matches!(bootstrap_step(&ContextState::Unconnected), BootstrapStep::Wait));
    assert!(matches!(bootstrap_step(&ContextState::Connecting), BootstrapStep::Wait));
    assert!(matches!(bootstrap_step(&ContextState::Authorizing), BootstrapStep::Wait));
    assert!(matches!(bootstrap_step(&ContextState::SettingName), BootstrapStep::Wait));
}

#[test]
fn pump_ok_only_on_success() {
    assert!(pump_ok(&IterateOutcome::Success(3)));
    assert!(!pump_ok(&IterateOutcome::Quit(0)));
    assert!(!pump_ok(&IterateOutcome::Failure));
}

#[test]
fn signals_on_submit_only_for_mutations() {
    assert!(!ClientRequest::GetDefaultDevice.signals_on_submit());
    assert!(!ClientRequest::GetSinkInfoByIndex(1).signals_on_submit());
    assert!(!ClientRequest::GetSinkInfoByName("x".to_owned()).signals_on_submit());
    assert!(ClientRequest::SetSinkVolumeByName("x".to_owned(), levels(vec![1])).signals_on_submit());
    assert!(ClientRequest::SetSinkMuteByName("x".to_owned(), true).signals_on_submit());
}

#[test]
fn device_resolves_name_with_fallback() {
    let named = PulseAudioSoundDevice::new(Some("card".to_owned()));
    let fallback = PulseAudioSoundDevice::new(None);
    let default = "the_default".to_owned();
    assert_eq!(named.name(&default), "card");
    assert_eq!(fallback.name(&default), "the_default");
}

#[test]
fn add_volume_before_any_snapshot_is_stale() {
    let mut d = PulseAudioSoundDevice::new(Some("card".to_owned()));
    let r = d.add_volume(100, None, &"d".to_owned());
    assert!(matches!(r, Err(AudioError::StaleState)));
    assert_eq!(d.volume(), 0);
}

#[test]
fn add_volume_step_scenario() {
    // Cached volume 0.50; a +0.10 step in raw units raises it to ~0.60.
    let mut d = PulseAudioSoundDevice::new(Some("card".to_owned()));
    d.update_volume(levels(vec![32768, 32768]));
    let step = (0.10f32 * VOLUME_NORM as f32).round() as i32;
    let req = d.add_volume(step, None, &"d".to_owned()).expect("snapshot present");
    let frac = d.volume() as f32 / VOLUME_NORM as f32;
    assert!((frac - 0.60).abs() < 0.001);
    match req {
        ClientRequest::SetSinkVolumeByName(name, lv) => {
            assert_eq!(name, "card");
            assert_eq!(lv.level(0), 32768 + 6554);
            assert_eq!(lv.level(1), 32768 + 6554);
        }
        _ => panic!("expected a set-volume request"),
    }
}

#[test]
fn add_volume_cap_scenario() {
    // Cached volume 0.90; +0.20 with a 0.95 cap clamps to exactly the cap.
    let mut d = PulseAudioSoundDevice::new(Some("card".to_owned()));
    d.update_volume(levels(vec![58982]));
    let step = (0.20f32 * VOLUME_NORM as f32).round() as i32;
    let cap = (0.95f32 * VOLUME_NORM as f32).round() as u32;
    d.add_volume(step, Some(cap), &"d".to_owned()).expect("snapshot present");
    assert_eq!(d.volume(), cap);
    let frac = d.volume() as f32 / VOLUME_NORM as f32;
    assert!((frac - 0.95).abs() < 0.001);
}

#[test]
fn add_volume_round_trip_restores_cached_volume() {
    let mut d = PulseAudioSoundDevice::new(Some("card".to_owned()));
    d.update_volume(levels(vec![32768, 32768]));
    d.add_volume(6554, None, &"d".to_owned()).expect("snapshot present");
    d.add_volume(-6554, None, &"d".to_owned()).expect("snapshot present");
    assert_eq!(d.volume(), 32768);
}

#[test]
fn set_muted_then_unmuted_reads_unmuted() {
    let mut d = PulseAudioSoundDevice::new(Some("card".to_owned()));
    let default = "d".to_owned();
    d.set_muted(true, &default);
    d.set_muted(false, &default);
    assert!(!d.muted());
}

#[test]
fn set_muted_returns_request_for_resolved_name() {
    let mut d = PulseAudioSoundDevice::new(None);
    let default = "fallback".to_owned();
    let req = d.set_muted(true, &default);
    match req {
        ClientRequest::SetSinkMuteByName(name, m) => {
            assert_eq!(name, "fallback");
            assert!(m);
        }
        _ => panic!("expected a set-mute request"),
    }
}

#[test]
fn toggle_scenario_flips_twice() {
    // "toggle" resolved against an unmuted device mutes it; resolving and
    // applying it again unmutes it.
    let mut d = PulseAudioSoundDevice::new(Some("card".to_owned()));
    let default = "d".to_owned();
    assert!(!d.muted());
    let first = parse_bool("toggle", d.muted()).expect("toggle is valid");
    assert!(first);
    d.set_muted(first, &default);
    assert!(d.muted());
    let second = parse_bool("toggle", d.muted()).expect("toggle is valid");
    assert!(!second);
    d.set_muted(second, &default);
    assert!(!d.muted());
}

#[test]
fn get_then_set_then_get_observes_the_write() {
    // Single-caller ordering: the read issued after a write sees it.
    let mut d = PulseAudioSoundDevice::new(Some("card".to_owned()));
    let default = "d".to_owned();
    let before = d.muted();
    assert!(!before);
    d.set_muted(true, &default);
    assert!(d.muted());
}

#[test]
fn get_info_copies_cache_entry_wholesale() {
    let mut cache = StateCache::new();
    assert!(cache.sink_info_callback(item("card", vec![100, 300], true)));
    let mut d = PulseAudioSoundDevice::new(Some("card".to_owned()));
    d.get_info(&cache);
    assert_eq!(d.volume(), 200);
    assert!(d.muted());
}

#[test]
fn get_info_without_entry_changes_nothing() {
    let cache = StateCache::new();
    let mut d = PulseAudioSoundDevice::new(Some("absent".to_owned()));
    d.get_info(&cache);
    assert_eq!(d.volume(), 0);
    assert!(!d.muted());
}

#[test]
fn get_info_uses_default_when_unnamed() {
    let mut cache = StateCache::new();
    cache.server_info_callback(Some("real_default".to_owned()));
    assert!(cache.sink_info_callback(item("real_default", vec![42], false)));
    let mut d = PulseAudioSoundDevice::new(None);
    d.get_info(&cache);
    assert_eq!(d.volume(), 42);
}
