use syncwatch::{
    apply_inbound, is_toggle_binding, join_request, Action, Config, EchoSuppressor, HostEvent,
    Inbound, JoinHandshake, MediaPlayerEvent, Plugin, RemoteApplication, RoomEvent, Transition,
    JOIN_SETTLE_MS,
};

fn config() -> Config {
    Config {
        enable_on_start: false,
        server_url: "http://localhost:3000".to_string(),
        name: "alice".to_string(),
        room_name: "room1".to_string(),
    }
}

fn fields(tag: &str, t: f64) -> Inbound {
    Inbound::Fields {
        location: "room1".to_string(),
        type_tag: tag.to_string(),
        element: 0,
        current_time: t.to_bits(),
        playback_rate: 1.0f64.to_bits(),
    }
}

fn words(ws: &[&str]) -> Vec<String> {
    ws.iter().map(|w| w.to_string()).collect()
}

#[test]
fn suppressor_starts_at_one_and_swallows_first_notification() {
    let mut plugin = Plugin::new(config());
    let mut s = EchoSuppressor::new();
    assert_eq!(s.pending, 1);
    assert_eq!(plugin.on_event(HostEvent::PauseChanged(Some(false)), &mut s), Action::Suppressed);
    assert_eq!(s.pending, 0);
    assert_eq!(
        plugin.on_event(HostEvent::PauseChanged(Some(true)), &mut s),
        Action::Forward(MediaPlayerEvent::Pause)
    );
    assert_eq!(s.pending, 0);
}

#[test]
fn suppression_counts_interleaved_remote_events() {
    let mut plugin = Plugin::new(config());
    let mut s = EchoSuppressor { pending: 0 };
    let mut suppressed = 0;
    let mut forwarded = 0;
    // two remote events, their two echoes, and one user action, interleaved
    for step in ["remote", "remote", "local", "local", "local"] {
        if step == "remote" {
            assert!(apply_inbound(fields("play", 3.0), &mut s).is_some());
        } else {
            match plugin.on_event(HostEvent::PauseChanged(Some(false)), &mut s) {
                Action::Suppressed => suppressed += 1,
                Action::Forward(_) => forwarded += 1,
                other => panic!("unexpected {:?}", other),
            }
        }
    }
    assert_eq!(suppressed, 2);
    assert_eq!(forwarded, 1);
    assert_eq!(s.pending, 0);
}

#[test]
fn absorb_saturates() {
    let mut s = EchoSuppressor { pending: u64::MAX };
    s.absorb_one();
    assert_eq!(s.pending, u64::MAX);
    let mut t = EchoSuppressor { pending: 7 };
    t.absorb_one();
    assert_eq!(t.pending, 8);
    assert!(t.try_consume());
    assert_eq!(t.pending, 7);
    let mut z = EchoSuppressor { pending: 0 };
    assert!(!z.try_consume());
    assert_eq!(z.pending, 0);
}

#[test]
fn wire_tags_round_trip() {
    for k in [MediaPlayerEvent::Play, MediaPlayerEvent::Pause, MediaPlayerEvent::Seeked] {
        assert_eq!(MediaPlayerEvent::from_wire_name(&k.wire_name()), Some(k));
    }
    assert_eq!(MediaPlayerEvent::Play.wire_name(), "play");
    assert_eq!(MediaPlayerEvent::Pause.wire_name(), "pause");
    assert_eq!(MediaPlayerEvent::Seeked.wire_name(), "seeked");
    assert_eq!(MediaPlayerEvent::from_wire_name(&"Pause".to_string()), None);
    assert_eq!(MediaPlayerEvent::from_wire_name(&"stop".to_string()), None);
}

#[test]
fn decode_then_encode_gives_the_fields_back() {
    let ev = RoomEvent::decode("room1".to_string(), &"seeked".to_string(), 0, 12.5f64.to_bits(), 1.0f64.to_bits())
        .expect("well-formed");
    assert_eq!(ev.location, "room1");
    assert_eq!(ev.event_type, MediaPlayerEvent::Seeked);
    assert_eq!(ev.type_tag(), "seeked");
    assert_eq!(f64::from_bits(ev.current_time), 12.5);
    assert_eq!(f64::from_bits(ev.playback_rate), 1.0);
    let again = RoomEvent::decode(ev.location.clone(), &ev.type_tag(), ev.element, ev.current_time, ev.playback_rate);
    assert_eq!(again, Some(ev));
}

#[test]
fn decode_rejects_unknown_tag() {
    assert_eq!(RoomEvent::decode("room1".to_string(), &"rewind".to_string(), 0, 0, 0), None);
}

#[test]
fn malformed_payloads_change_nothing() {
    let mut s = EchoSuppressor { pending: 3 };
    for p in [Inbound::NonText, Inbound::Empty, Inbound::Malformed, fields("stop", 9.0), fields("", 1.0)] {
        assert_eq!(apply_inbound(p, &mut s), None);
        assert_eq!(s.pending, 3);
    }
}

#[test]
fn toggle_twice_from_disabled() {
    let mut plugin = Plugin::new(config());
    assert!(!plugin.is_enabled());
    let first = plugin.toggle();
    assert_eq!(first, Transition::Enabled);
    assert!(plugin.is_enabled());
    let second = plugin.toggle();
    assert_eq!(second, Transition::Disabled);
    assert!(!plugin.is_enabled());
    assert_eq!(first.notice(), "syncwatch enabled");
    assert_eq!(second.notice(), "syncwatch disabled");
}

#[test]
fn enable_and_disable_are_idempotent() {
    let mut plugin = Plugin::new(config());
    assert!(!plugin.disable());
    assert!(plugin.enable());
    assert!(!plugin.enable());
    assert!(plugin.is_enabled());
    assert!(plugin.disable());
    assert!(!plugin.disable());
    assert_eq!(plugin.config().room_name, "room1");
}

#[test]
fn scenario_remote_pause_applied() {
    let mut plugin = Plugin::new(config());
    plugin.enable();
    let mut s = EchoSuppressor { pending: 0 };
    let applied = apply_inbound(fields("pause", 12.5), &mut s).expect("applied");
    assert_eq!(applied, RemoteApplication { position: 12.5f64.to_bits(), pause: true });
    assert_eq!(s.pending, 1);
    assert_eq!(plugin.on_event(HostEvent::PauseChanged(Some(true)), &mut s), Action::Suppressed);
    assert_eq!(s.pending, 0);
}

#[test]
fn remote_play_unpauses() {
    let mut s = EchoSuppressor { pending: 0 };
    let applied = apply_inbound(fields("play", 4.0), &mut s).expect("applied");
    assert!(!applied.pause);
    let seeked = apply_inbound(fields("seeked", 8.0), &mut s).expect("applied");
    assert_eq!(seeked, RemoteApplication { position: 8.0f64.to_bits(), pause: false });
    assert_eq!(s.pending, 2);
}

#[test]
fn scenario_genuine_local_pause() {
    let mut plugin = Plugin::new(config());
    plugin.enable();
    let mut s = EchoSuppressor { pending: 0 };
    let action = plugin.on_event(HostEvent::PauseChanged(Some(true)), &mut s);
    assert_eq!(action, Action::Forward(MediaPlayerEvent::Pause));
    let ev = plugin.outbound_event(MediaPlayerEvent::Pause, 42.0f64.to_bits());
    assert_eq!(ev.location, "room1");
    assert_eq!(ev.type_tag(), "pause");
    assert_eq!(ev.element, 0);
    assert_eq!(f64::from_bits(ev.current_time), 42.0);
    assert_eq!(f64::from_bits(ev.playback_rate), 0.0);
}

#[test]
fn outbound_position_is_never_negative() {
    let plugin = Plugin::new(config());
    let ev = plugin.outbound_event(MediaPlayerEvent::Play, (-3.0f64).to_bits());
    assert_eq!(ev.current_time, 0);
    assert_eq!(ev.event_type, MediaPlayerEvent::Play);
}

#[test]
fn scenario_join_handshake_waits_to_settle() {
    let mut h = JoinHandshake::new();
    assert!(!h.join_due(0));
    assert_eq!(h.settle_remaining(0), JOIN_SETTLE_MS);
    h.on_connected(1000);
    assert!(!h.join_due(1000));
    assert_eq!(h.settle_remaining(1000), 500);
    assert!(!h.join_due(1499));
    assert_eq!(h.settle_remaining(1499), 1);
    assert!(h.join_due(1500));
    assert_eq!(h.settle_remaining(1500), 0);
    let (name, room) = join_request(&config());
    assert_eq!(name, "alice");
    assert_eq!(room, "room1");
}

#[test]
fn scenario_disabled_sends_nothing() {
    let mut plugin = Plugin::new(config());
    assert!(!plugin.is_enabled());
    let mut s = EchoSuppressor::new();
    assert_eq!(plugin.on_event(HostEvent::Other, &mut s), Action::Ignore);
    assert!(!plugin.is_enabled());
    assert_eq!(s.pending, 1);
}

#[test]
fn dispatch_handles_shutdown_toggle_and_others() {
    let mut plugin = Plugin::new(config());
    let mut s = EchoSuppressor::new();
    assert_eq!(plugin.on_event(HostEvent::Shutdown, &mut s), Action::Stop);
    assert_eq!(plugin.on_event(HostEvent::PauseChanged(None), &mut s), Action::Ignore);
    assert_eq!(s.pending, 1);
    let msg = words(&["key-binding", "toggle", "u--", "extra"]);
    assert!(is_toggle_binding(&msg));
    assert_eq!(
        plugin.on_event(HostEvent::ClientMessage(msg), &mut s),
        Action::Switched(Transition::Enabled)
    );
    assert!(plugin.is_enabled());
    assert_eq!(
        plugin.on_event(HostEvent::ClientMessage(words(&["key-binding", "toggle", "u--"])), &mut s),
        Action::Switched(Transition::Disabled)
    );
    assert_eq!(
        plugin.on_event(HostEvent::ClientMessage(words(&["key-binding", "other", "u--"])), &mut s),
        Action::Ignore
    );
    assert!(!is_toggle_binding(&words(&["key-binding", "toggle"])));
    assert!(!plugin.is_enabled());
}
