//! The sides of a wager.

use vstd::prelude::*;

verus! {

/// A participant's prediction relative to the strike price. `Unknown` is the
/// placeholder of a side that nobody has taken yet.
#[derive(Clone, Copy, Debug, PartialEq, Eq, Structural)]
pub enum ParticipantPosition {
    Long,
    Short,
    Unknown,
}

/// The two participants of a wager: the creator is `First`, the taker is
/// `Second`.
#[derive(Clone, Copy, Debug, PartialEq, Eq, Structural)]
pub enum Participants {
    First,
    Second,
    Unknown,
}

/// Whether two positions are the two opposite sides: one `Long`, one `Short`.
pub open spec fn opposed(a: ParticipantPosition, b: ParticipantPosition) -> bool {
    (a == ParticipantPosition::Long && b == ParticipantPosition::Short) || (a
        == ParticipantPosition::Short && b == ParticipantPosition::Long)
}

/// Whether `a` and `b` are one `Long` and one `Short`, in either order.
pub fn positions_opposed(a: ParticipantPosition, b: ParticipantPosition) -> (r: bool)
    ensures
        r == opposed(a, b),
{
    match (a, b) {
        (ParticipantPosition::Long, ParticipantPosition::Short) => true,
        (ParticipantPosition::Short, ParticipantPosition::Long) => true,
        _ => false,
    }
}

} // verus!
