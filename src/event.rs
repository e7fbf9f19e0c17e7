use vstd::prelude::*;

verus! {

/// The kind of a room event.
#[derive(Debug, Clone, Copy, PartialEq, Eq, Structural)]
pub enum MediaPlayerEvent {
    Play,
    Pause,
    Seeked,
}

/// The tag that stands for `e` in the wire's `"type"` field.
pub open spec fn wire_name(e: MediaPlayerEvent) -> Seq<char> {
    match e {
        MediaPlayerEvent::Play => "play"@,
        MediaPlayerEvent::Pause => "pause"@,
        MediaPlayerEvent::Seeked => "seeked"@,
    }
}

/// The event kind that the wire tag `s` names, if any.
pub open spec fn event_of_wire_name(s: Seq<char>) -> Option<MediaPlayerEvent> {
    if s == "play"@ {
        Some(MediaPlayerEvent::Play)
    } else if s == "pause"@ {
        Some(MediaPlayerEvent::Pause)
    } else if s == "seeked"@ {
        Some(MediaPlayerEvent::Seeked)
    } else {
        None
    }
}

impl MediaPlayerEvent {
    /// The event kind for a local pause state: `Pause` when paused, else `Play`.
    pub fn from_paused(is_paused: bool) -> (r: MediaPlayerEvent)
        ensures
            r == (if is_paused { MediaPlayerEvent::Pause } else { MediaPlayerEvent::Play }),
    {
        if is_paused {
            MediaPlayerEvent::Pause
        } else {
            MediaPlayerEvent::Play
        }
    }

    /// The wire tag of this kind.
    pub fn wire_name(&self) -> (r: String)
        ensures
            r@ == wire_name(*self),
    {
        match self {
            MediaPlayerEvent::Play => String::from_str("play"),
            MediaPlayerEvent::Pause => String::from_str("pause"),
            MediaPlayerEvent::Seeked => String::from_str("seeked"),
        }
    }

    /// Reads a wire tag; an unknown tag is a decode failure, never a default.
    pub fn from_wire_name(s: &String) -> (r: Option<MediaPlayerEvent>)
        ensures
            r == event_of_wire_name(s@),
    {
        proof {
            reveal_strlit("play");
            reveal_strlit("pause");
            reveal_strlit("seeked");
        }
        if *s == String::from_str("play") {
            Some(MediaPlayerEvent::Play)
        } else if *s == String::from_str("pause") {
            Some(MediaPlayerEvent::Pause)
        } else if *s == String::from_str("seeked") {
            Some(MediaPlayerEvent::Seeked)
        } else {
            None
        }
    }
}

/// Reading the tag that a kind is written as gives back that kind, and a tag
/// that reads as a kind is the one that kind is written as.
pub proof fn lemma_wire_name_round_trip(e: MediaPlayerEvent, s: Seq<char>)
    ensures
        event_of_wire_name(wire_name(e)) == Some(e),
        event_of_wire_name(s) is Some ==> wire_name(event_of_wire_name(s)->0) == s,
        (event_of_wire_name(s) == Some(MediaPlayerEvent::Pause)) == (s == "pause"@),
{
    reveal_strlit("play");
    reveal_strlit("pause");
    reveal_strlit("seeked");
    assert("play"@.len() == 4 && "pause"@.len() == 5 && "seeked"@.len() == 6);
}

/// The unit of synchronisation that travels between the players of a room.
///
/// Positions and rates are seconds and multipliers in IEEE 754 binary64; they
/// are held here as their bit patterns, which the library carries unchanged.
#[derive(Debug, Clone, PartialEq, Eq)]
pub struct RoomEvent {
    pub location: String,
    pub event_type: MediaPlayerEvent,
    pub element: u32,
    pub current_time: u64,
    pub playback_rate: u64,
}

/// The sign bit of a binary64 bit pattern.
pub const SIGN_BIT: u64 = 0x8000_0000_0000_0000;

/// Whether a binary64 bit pattern has its sign bit clear.
pub open spec fn sign_clear(bits: u64) -> bool {
    bits < SIGN_BIT
}

/// The fields of a room event as the wire carries them, with the kind as its tag.
pub open spec fn wire_fields(e: RoomEvent) -> (Seq<char>, Seq<char>, u32, u64, u64) {
    (e.location@, wire_name(e.event_type), e.element, e.current_time, e.playback_rate)
}

/// The event that wire fields decode to: none when the tag is unknown.
pub open spec fn decoded(
    location: Seq<char>,
    type_tag: Seq<char>,
    element: u32,
    current_time: u64,
    playback_rate: u64,
) -> Option<(Seq<char>, MediaPlayerEvent, u32, u64, u64)> {
    match event_of_wire_name(type_tag) {
        Some(k) => Some((location, k, element, current_time, playback_rate)),
        None => None,
    }
}

/// The model of a room event: its location as text and its other fields.
pub open spec fn event_model(e: RoomEvent) -> (Seq<char>, MediaPlayerEvent, u32, u64, u64) {
    (e.location@, e.event_type, e.element, e.current_time, e.playback_rate)
}

impl RoomEvent {
    pub fn new(
        location: String,
        event_type: MediaPlayerEvent,
        element: u32,
        current_time: u64,
        playback_rate: u64,
    ) -> (r: RoomEvent)
        ensures
            r.location@ == location@,
            r.event_type == event_type,
            r.element == element,
            r.current_time == current_time,
            r.playback_rate == playback_rate,
    {
        RoomEvent { location, event_type, element, current_time, playback_rate }
    }

    /// Builds an event from its wire fields; fails exactly when the tag names
    /// no kind.
    pub fn decode(
        location: String,
        type_tag: &String,
        element: u32,
        current_time: u64,
        playback_rate: u64,
    ) -> (r: Option<RoomEvent>)
        ensures
            r is Some <==> event_of_wire_name(type_tag@) is Some,
            r is Some ==> Some(event_model(r->0)) == decoded(
                location@,
                type_tag@,
                element,
                current_time,
                playback_rate,
            ),
    {
        match MediaPlayerEvent::from_wire_name(type_tag) {
            Some(k) => Some(RoomEvent::new(location, k, element, current_time, playback_rate)),
            None => None,
        }
    }

    /// The tag that the wire's `"type"` field carries for this event.
    pub fn type_tag(&self) -> (r: String)
        ensures
            r@ == wire_name(self.event_type),
    {
        self.event_type.wire_name()
    }
}

/// Decoding the wire fields of an event gives back that event, and encoding
/// what well-formed fields decode to gives back those fields.
pub proof fn lemma_decode_encode_round_trip(
    e: RoomEvent,
    location: Seq<char>,
    type_tag: Seq<char>,
    element: u32,
    current_time: u64,
    playback_rate: u64,
)
    ensures
        ({
            let f = wire_fields(e);
            decoded(f.0, f.1, f.2, f.3, f.4) == Some(event_model(e))
        }),
        decoded(location, type_tag, element, current_time, playback_rate) is Some ==> {
            let m = decoded(location, type_tag, element, current_time, playback_rate)->0;
            (m.0, wire_name(m.1), m.2, m.3, m.4) == (
                location,
                type_tag,
                element,
                current_time,
                playback_rate,
            )
        },
{
    lemma_wire_name_round_trip(e.event_type, type_tag);
}

} // verus!
