use vstd::prelude::*;
use crate::event::{
    decoded, event_of_wire_name, lemma_wire_name_round_trip, MediaPlayerEvent, RoomEvent,
};

verus! {

/// The count of pending self-inflicted pause changes still to be swallowed.
///
/// It starts at one, to absorb the notification that the host fires as soon
/// as interest in the pause property is registered.
#[derive(Debug)]
pub struct EchoSuppressor {
    pub pending: u64,
}

/// One step seen by the suppressor: a remote event applied to the player, or a
/// local pause-change notification.
pub enum Step {
    Remote,
    Local,
}

/// What the counter and the forwarded count become after `steps`, starting
/// from a counter of `c`.
pub open spec fn run(c: nat, steps: Seq<Step>) -> (nat, nat)
    decreases steps.len(),
{
    if steps.len() == 0 {
        (c, 0)
    } else {
        let rest = steps.drop_first();
        match steps[0] {
            Step::Remote => run(c + 1, rest),
            Step::Local => if c > 0 {
                run((c - 1) as nat, rest)
            } else {
                let r = run(c, rest);
                (r.0, r.1 + 1)
            },
        }
    }
}

/// The number of remote steps in `steps`.
pub open spec fn remotes(steps: Seq<Step>) -> nat
    decreases steps.len(),
{
    if steps.len() == 0 {
        0
    } else {
        (if steps[0] is Remote { 1nat } else { 0nat }) + remotes(steps.drop_first())
    }
}

/// The number of local notifications in `steps`.
pub open spec fn locals(steps: Seq<Step>) -> nat
    decreases steps.len(),
{
    if steps.len() == 0 {
        0
    } else {
        (if steps[0] is Local { 1nat } else { 0nat }) + locals(steps.drop_first())
    }
}

/// Each remote step can be matched with a later local notification of its own
/// (its echo): every suffix holds at least as many notifications as remote steps.
pub open spec fn echoes_follow(steps: Seq<Step>) -> bool {
    forall|k: int| 0 <= k <= steps.len() ==> #[trigger] locals(steps.subrange(k, steps.len() as int))
        >= remotes(steps.subrange(k, steps.len() as int))
}

proof fn lemma_run_conserves(c: nat, steps: Seq<Step>)
    ensures
        run(c, steps).1 <= locals(steps),
        run(c, steps).0 + (locals(steps) - run(c, steps).1) == c + remotes(steps),
    decreases steps.len(),
{
    if steps.len() > 0 {
        let rest = steps.drop_first();
        match steps[0] {
            Step::Remote => lemma_run_conserves(c + 1, rest),
            Step::Local => if c > 0 {
                lemma_run_conserves((c - 1) as nat, rest);
            } else {
                lemma_run_conserves(c, rest);
            },
        }
    }
}

proof fn lemma_run_drains(c: nat, steps: Seq<Step>)
    requires
        echoes_follow(steps),
        locals(steps) >= c + remotes(steps),
    ensures
        run(c, steps).0 == 0,
    decreases steps.len(),
{
    if steps.len() > 0 {
        let rest = steps.drop_first();
        assert forall|k: int| 0 <= k <= rest.len() implies #[trigger] locals(rest.subrange(k, rest.len() as int))
            >= remotes(rest.subrange(k, rest.len() as int)) by {
            assert(rest.subrange(k, rest.len() as int) =~= steps.subrange(k + 1, steps.len() as int));
            assert(locals(steps.subrange(k + 1, steps.len() as int)) >= remotes(steps.subrange(k + 1, steps.len() as int)));
        }
        assert(steps.subrange(1, steps.len() as int) =~= rest);
        assert(locals(steps.subrange(1, steps.len() as int)) >= remotes(steps.subrange(1, steps.len() as int)));
        match steps[0] {
            Step::Remote => lemma_run_drains(c + 1, rest),
            Step::Local => if c > 0 {
                lemma_run_drains((c - 1) as nat, rest);
            } else {
                lemma_run_drains(c, rest);
            },
        }
    } else {
        assert(steps.subrange(0, 0) =~= steps);
    }
}

/// Whatever the interleaving, with a counter starting at `c`, when the `c`
/// pending echoes and one echo of each of the N remote steps (after that step)
/// are among the notifications, exactly `c` + N notifications are suppressed and
/// every other notification is forwarded.
pub proof fn lemma_suppression(c: nat, steps: Seq<Step>)
    requires
        echoes_follow(steps),
        locals(steps) >= c + remotes(steps),
    ensures
        locals(steps) - run(c, steps).1 == c + remotes(steps),
        run(c, steps).1 == locals(steps) - c - remotes(steps),
        run(c, steps).0 == 0,
{
    lemma_run_conserves(c, steps);
    lemma_run_drains(c, steps);
}

impl EchoSuppressor {
    /// A suppressor that waits for the host's first notification.
    pub fn new() -> (r: EchoSuppressor)
        ensures
            r.pending == 1,
    {
        EchoSuppressor { pending: 1 }
    }

    /// Counts one more self-inflicted change to come. The count saturates at
    /// the largest `u64`.
    pub fn absorb_one(&mut self)
        ensures
            final(self).pending == absorbed(old(self).pending),
            old(self).pending < u64::MAX ==> final(self).pending as nat == run(
                old(self).pending as nat,
                seq![Step::Remote],
            ).0,
    {
        proof {
            let s = seq![Step::Remote];
            assert(s.drop_first() =~= Seq::<Step>::empty());
            reveal_with_fuel(run, 2);
        }
        if self.pending < u64::MAX {
            self.pending = self.pending + 1;
        }
    }

    /// Consumes one pending change if there is one; returns whether it did.
    pub fn try_consume(&mut self) -> (r: bool)
        ensures
            r == (old(self).pending > 0),
            final(self).pending == consumed(old(self).pending),
            final(self).pending as nat == run(old(self).pending as nat, seq![Step::Local]).0,
            !r <==> run(old(self).pending as nat, seq![Step::Local]).1 == 1,
    {
        proof {
            let s = seq![Step::Local];
            assert(s.drop_first() =~= Seq::<Step>::empty());
            reveal_with_fuel(run, 2);
        }
        if self.pending > 0 {
            self.pending = self.pending - 1;
            true
        } else {
            false
        }
    }
}

/// An inbound "message" payload as the transport handed it over.
pub enum Inbound {
    /// A payload that is not text.
    NonText,
    /// A text payload with no element.
    Empty,
    /// A first element whose JSON does not have the shape of a room event.
    Malformed,
    /// The fields of a first element that has that shape; its tag may still be
    /// unknown.
    Fields {
        location: String,
        type_tag: String,
        element: u32,
        current_time: u64,
        playback_rate: u64,
    },
}

/// What applying a remote event asks of the local player: seek to
/// `position`, then set its pause state to `pause`.
#[derive(Debug, Clone, Copy, PartialEq, Eq)]
pub struct RemoteApplication {
    pub position: u64,
    pub pause: bool,
}

/// Whether an inbound payload decodes to a room event.
pub open spec fn well_formed(p: Inbound) -> bool {
    match p {
        Inbound::Fields { type_tag, .. } => event_of_wire_name(type_tag@) is Some,
        _ => false,
    }
}

/// The counter after one more absorbed change, saturating at the largest `u64`.
pub open spec fn absorbed(pending: u64) -> u64 {
    if pending < u64::MAX { (pending + 1) as u64 } else { pending }
}

/// The counter after a local notification: one less while changes are pending.
pub open spec fn consumed(pending: u64) -> u64 {
    if pending > 0 { (pending - 1) as u64 } else { pending }
}

/// The counter after an inbound payload has been taken.
pub open spec fn after_inbound(pending: u64, p: Inbound) -> u64 {
    if well_formed(p) { absorbed(pending) } else { pending }
}

/// The counter, and the number of changes asked of the player, after a
/// sequence of inbound payloads.
pub open spec fn after_all_inbound(pending: u64, payloads: Seq<Inbound>) -> (u64, nat)
    decreases payloads.len(),
{
    if payloads.len() == 0 {
        (pending, 0)
    } else {
        let r = after_all_inbound(after_inbound(pending, payloads[0]), payloads.drop_first());
        (r.0, r.1 + if well_formed(payloads[0]) { 1nat } else { 0nat })
    }
}

/// Takes an inbound payload. A payload that does not decode to a room event is
/// dropped, and nothing changes. A room event asks the player to seek to its
/// position and to pause exactly when it is a pause event, and counts one more
/// change to absorb, before the player is touched.
pub fn apply_inbound(p: Inbound, suppressor: &mut EchoSuppressor) -> (r: Option<RemoteApplication>)
    ensures
        r is Some <==> well_formed(p),
        !well_formed(p) ==> final(suppressor).pending == old(suppressor).pending,
        final(suppressor).pending == after_inbound(old(suppressor).pending, p),
        match p {
            Inbound::Fields { location, type_tag, element, current_time, playback_rate } => {
                r is Some ==> {
                    let m = decoded(location@, type_tag@, element, current_time, playback_rate)->0;
                    &&& r->0.position == current_time
                    &&& r->0.pause == (m.1 == MediaPlayerEvent::Pause)
                    &&& r->0.pause == (type_tag@ == "pause"@)
                }
            },
            _ => true,
        },
{
    match p {
        Inbound::Fields { location, type_tag, element, current_time, playback_rate } => {
            proof {
                lemma_wire_name_round_trip(MediaPlayerEvent::Pause, type_tag@);
            }
            match RoomEvent::decode(location, &type_tag, element, current_time, playback_rate) {
                Some(ev) => {
                    suppressor.absorb_one();
                    let pause = match ev.event_type {
                        MediaPlayerEvent::Pause => true,
                        _ => false,
                    };
                    Some(RemoteApplication { position: ev.current_time, pause })
                },
                None => None,
            }
        },
        _ => None,
    }
}

/// Any sequence of payloads that do not decode to room events leaves the
/// suppressor as it was and asks nothing of the player.
pub proof fn lemma_malformed_payloads_change_nothing(pending: u64, payloads: Seq<Inbound>)
    requires
        forall|i: int| 0 <= i < payloads.len() ==> !well_formed(#[trigger] payloads[i]),
    ensures
        after_all_inbound(pending, payloads) == (pending, 0nat),
    decreases payloads.len(),
{
    if payloads.len() > 0 {
        let rest = payloads.drop_first();
        assert forall|i: int| 0 <= i < rest.len() implies !well_formed(#[trigger] rest[i]) by {
            assert(rest[i] == payloads[i + 1]);
        }
        assert(!well_formed(payloads[0]));
        lemma_malformed_payloads_change_nothing(pending, rest);
    }
}

} // verus!
