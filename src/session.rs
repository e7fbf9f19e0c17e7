use vstd::prelude::*;
use crate::event::{sign_clear, MediaPlayerEvent, RoomEvent};
use crate::suppressor::{consumed, run, EchoSuppressor, Step};

verus! {

/// The startup settings of a session.
#[derive(Debug, Clone)]
pub struct Config {
    pub enable_on_start: bool,
    pub server_url: String,
    pub name: String,
    pub room_name: String,
}

/// A change of the enabled state, which the host shows as a notice.
#[derive(Debug, Clone, Copy, PartialEq, Eq, Structural)]
pub enum Transition {
    Enabled,
    Disabled,
}

/// The enabled state and the transition that toggling from `enabled` gives.
pub open spec fn toggled(enabled: bool) -> (bool, Transition) {
    if enabled {
        (false, Transition::Disabled)
    } else {
        (true, Transition::Enabled)
    }
}

/// The notice that the host shows for a transition.
pub open spec fn notice_text(t: Transition) -> Seq<char> {
    match t {
        Transition::Enabled => "syncwatch enabled"@,
        Transition::Disabled => "syncwatch disabled"@,
    }
}

impl Transition {
    /// The on-screen notice for this transition.
    pub fn notice(&self) -> (r: String)
        ensures
            r@ == notice_text(*self),
    {
        match self {
            Transition::Enabled => String::from_str("syncwatch enabled"),
            Transition::Disabled => String::from_str("syncwatch disabled"),
        }
    }
}

/// Toggling twice from the disabled state comes back to it, by way of exactly
/// one enable transition followed by one disable transition.
pub proof fn lemma_toggle_twice(enabled: bool)
    requires
        !enabled,
    ensures
        toggled(toggled(enabled).0).0 == enabled,
        toggled(enabled).1 == Transition::Enabled,
        toggled(toggled(enabled).0).1 == Transition::Disabled,
{
}

/// An event that the host hands to the dispatch loop.
pub enum HostEvent {
    /// The host shuts the session down.
    Shutdown,
    /// The observed pause property changed; `None` when its data is not a flag.
    PauseChanged(Option<bool>),
    /// A client message, as its tokens.
    ClientMessage(Vec<String>),
    /// Anything else.
    Other,
}

/// What the dispatch loop does with a host event.
#[derive(Debug, Clone, Copy, PartialEq, Eq)]
pub enum Action {
    /// Leave the loop.
    Stop,
    /// Nothing to do.
    Ignore,
    /// The change was self-inflicted and is swallowed.
    Suppressed,
    /// A genuine local change, to be sent to the room as an event of this kind.
    Forward(MediaPlayerEvent),
    /// The enabled state changed: start or stop observing the pause property,
    /// and show the notice.
    Switched(Transition),
}

/// Whether client message tokens are the toggle key binding.
pub open spec fn is_toggle_message(args: Seq<Seq<char>>) -> bool {
    &&& args.len() >= 3
    &&& args[0] == "key-binding"@
    &&& args[1] == "toggle"@
    &&& args[2] == "u--"@
}

/// Whether client message tokens are the toggle key binding: they begin with
/// `key-binding`, `toggle`, `u--`.
pub fn is_toggle_binding(args: &Vec<String>) -> (r: bool)
    ensures
        r == is_toggle_message(args@.map_values(|s: String| s@)),
{
    let ghost m = args@.map_values(|s: String| s@);
    if args.len() < 3 {
        return false;
    }
    let r = args[0] == String::from_str("key-binding") && args[1] == String::from_str("toggle")
        && args[2] == String::from_str("u--");
    assert(m[0] == args@[0]@ && m[1] == args@[1]@ && m[2] == args@[2]@);
    r
}

/// The session controller: the settings and whether syncing is enabled.
pub struct Plugin {
    config: Config,
    is_enabled: bool,
}

impl Plugin {
    /// A disabled session with these settings.
    pub fn new(config: Config) -> (r: Plugin)
        ensures
            !r.enabled(),
            r.config_view() == config,
    {
        Plugin { config, is_enabled: false }
    }

    pub closed spec fn enabled(&self) -> bool {
        self.is_enabled
    }

    pub closed spec fn config_view(&self) -> Config {
        self.config
    }

    pub fn is_enabled(&self) -> (r: bool)
        ensures
            r == self.enabled(),
    {
        self.is_enabled
    }

    pub fn config(&self) -> (r: &Config)
        ensures
            *r == self.config_view(),
    {
        &self.config
    }

    /// Enables syncing; returns whether the state changed, in which case the
    /// pause property is to be observed and the enable notice shown.
    pub fn enable(&mut self) -> (r: bool)
        ensures
            final(self).enabled(),
            r == !old(self).enabled(),
            final(self).config_view() == old(self).config_view(),
    {
        if !self.is_enabled {
            self.is_enabled = true;
            true
        } else {
            false
        }
    }

    /// Disables syncing; returns whether the state changed, in which case the
    /// observation is to be dropped and the disable notice shown.
    pub fn disable(&mut self) -> (r: bool)
        ensures
            !final(self).enabled(),
            r == old(self).enabled(),
            final(self).config_view() == old(self).config_view(),
    {
        if self.is_enabled {
            self.is_enabled = false;
            true
        } else {
            false
        }
    }

    /// Disables syncing when enabled, else enables it.
    pub fn toggle(&mut self) -> (r: Transition)
        ensures
            (final(self).enabled(), r) == toggled(old(self).enabled()),
            final(self).config_view() == old(self).config_view(),
    {
        if self.is_enabled {
            self.disable();
            Transition::Disabled
        } else {
            self.enable();
            Transition::Enabled
        }
    }

    /// Decides on a local pause change: swallowed while self-inflicted changes
    /// are pending, else forwarded as a pause or play event.
    pub fn handle_pause_unpause(is_paused: bool, suppressor: &mut EchoSuppressor) -> (r: Action)
        ensures
            final(suppressor).pending == consumed(old(suppressor).pending),
            final(suppressor).pending as nat == run(old(suppressor).pending as nat, seq![Step::Local]).0,
            old(suppressor).pending > 0 ==> r == Action::Suppressed,
            old(suppressor).pending == 0 ==> r == Action::Forward(
                if is_paused { MediaPlayerEvent::Pause } else { MediaPlayerEvent::Play },
            ),
    {
        if suppressor.try_consume() {
            Action::Suppressed
        } else {
            Action::Forward(MediaPlayerEvent::from_paused(is_paused))
        }
    }

    /// The event that tells the room of a genuine local change at `position`
    /// (a binary64 bit pattern, in seconds): in the configured room, for element
    /// 0, at rate 0.0. A position with its sign bit set is sent as 0.0.
    pub fn outbound_event(&self, kind: MediaPlayerEvent, position: u64) -> (r: RoomEvent)
        ensures
            r.location@ == self.config_view().room_name@,
            r.event_type == kind,
            r.element == 0,
            r.current_time == (if sign_clear(position) { position } else { 0 }),
            sign_clear(r.current_time),
            r.playback_rate == 0,
    {
        let t: u64 = if position < crate::event::SIGN_BIT { position } else { 0 };
        RoomEvent::new(self.config.room_name.clone(), kind, 0, t, 0)
    }

    /// One step of the dispatch loop: what to do with a host event.
    pub fn on_event(&mut self, ev: HostEvent, suppressor: &mut EchoSuppressor) -> (r: Action)
        ensures
            final(self).config_view() == old(self).config_view(),
            match ev {
                HostEvent::Shutdown => r == Action::Stop && final(self).enabled() == old(self).enabled()
                    && final(suppressor).pending == old(suppressor).pending,
                HostEvent::PauseChanged(None) => r == Action::Ignore && final(self).enabled()
                    == old(self).enabled() && final(suppressor).pending == old(suppressor).pending,
                HostEvent::PauseChanged(Some(p)) => {
                    &&& final(self).enabled() == old(self).enabled()
                    &&& final(suppressor).pending == consumed(old(suppressor).pending)
                    &&& final(suppressor).pending as nat == run(
                        old(suppressor).pending as nat,
                        seq![Step::Local],
                    ).0
                    &&& old(suppressor).pending > 0 ==> r == Action::Suppressed
                    &&& old(suppressor).pending == 0 ==> r == Action::Forward(
                        if p { MediaPlayerEvent::Pause } else { MediaPlayerEvent::Play },
                    )
                },
                HostEvent::ClientMessage(args) => {
                    &&& final(suppressor).pending == old(suppressor).pending
                    &&& is_toggle_message(args@.map_values(|s: String| s@)) ==> (final(self).enabled(),
                        r) == (toggled(old(self).enabled()).0, Action::Switched(
                        toggled(old(self).enabled()).1,
                    ))
                    &&& !is_toggle_message(args@.map_values(|s: String| s@)) ==> r == Action::Ignore
                        && final(self).enabled() == old(self).enabled()
                },
                HostEvent::Other => r == Action::Ignore && final(self).enabled() == old(self).enabled()
                    && final(suppressor).pending == old(suppressor).pending,
            },
    {
        match ev {
            HostEvent::Shutdown => Action::Stop,
            HostEvent::PauseChanged(None) => Action::Ignore,
            HostEvent::PauseChanged(Some(p)) => Plugin::handle_pause_unpause(p, suppressor),
            HostEvent::ClientMessage(args) => {
                if is_toggle_binding(&args) {
                    Action::Switched(self.toggle())
                } else {
                    Action::Ignore
                }
            },
            HostEvent::Other => Action::Ignore,
        }
    }
}

/// The wait, in milliseconds, between the connection reporting itself
/// established and the join message: the transport drops messages sent
/// before its handshake has settled on the relay side.
pub const JOIN_SETTLE_MS: u64 = 500;

/// The join handshake: when the connection came up, and so when the join
/// message may go out.
pub struct JoinHandshake {
    connected_at: Option<u64>,
}

impl JoinHandshake {
    pub closed spec fn connected_at_view(&self) -> Option<u64> {
        self.connected_at
    }

    /// A handshake whose connection has not come up yet.
    pub fn new() -> (r: JoinHandshake)
        ensures
            r.connected_at_view() is None,
    {
        JoinHandshake { connected_at: None }
    }

    /// Records that the connection reported itself established at `now` (ms).
    pub fn on_connected(&mut self, now: u64)
        ensures
            final(self).connected_at_view() == Some(now),
    {
        self.connected_at = Some(now);
    }

    /// Whether the join message may go out at `now`: only once the settling
    /// delay has fully elapsed since the connection came up.
    pub fn join_due(&self, now: u64) -> (r: bool)
        ensures
            r == (self.connected_at_view() is Some && now as int >= self.connected_at_view()->0
                + JOIN_SETTLE_MS),
    {
        match self.connected_at {
            Some(at) => now >= at && now - at >= JOIN_SETTLE_MS,
            None => false,
        }
    }

    /// How long to wait still, at `now`, before the join message may go out;
    /// the whole delay while the connection is not up.
    pub fn settle_remaining(&self, now: u64) -> (r: u64)
        ensures
            self.connected_at_view() is None ==> r == JOIN_SETTLE_MS,
            self.connected_at_view() is Some ==> r as int == (if now as int >= self.connected_at_view()->0
                + JOIN_SETTLE_MS {
                0
            } else if now < self.connected_at_view()->0 {
                JOIN_SETTLE_MS as int
            } else {
                self.connected_at_view()->0 + JOIN_SETTLE_MS - now
            }),
    {
        match self.connected_at {
            Some(at) => if now < at {
                JOIN_SETTLE_MS
            } else if now - at >= JOIN_SETTLE_MS {
                0
            } else {
                JOIN_SETTLE_MS - (now - at)
            },
            None => JOIN_SETTLE_MS,
        }
    }
}

/// The join message's fields: the display name and the room.
pub fn join_request(config: &Config) -> (r: (String, String))
    ensures
        r.0@ == config.name@,
        r.1@ == config.room_name@,
{
    (config.name.clone(), config.room_name.clone())
}

} // verus!
