//! Playback synchronisation between media players joined to a shared room.
//!
//! The library holds the decisions of the engine: the room event model and its
//! wire tags, the echo suppressor that tells self-inflicted pause changes from
//! genuine ones, and the session controller that turns host events into actions.
pub mod event;
pub mod session;
pub mod suppressor;

pub use event::{MediaPlayerEvent, RoomEvent};
pub use session::{
    is_toggle_binding, join_request, Action, Config, HostEvent, JoinHandshake, Plugin, Transition,
    JOIN_SETTLE_MS,
};
pub use suppressor::{apply_inbound, EchoSuppressor, Inbound, RemoteApplication};
