//! Stereo channel gate: a two-valued slot flag that alternates on every
//! pull, deciding whether a pull lands on the tone-bearing channel or on
//! the silent one of the interleaved stereo stream.

use vstd::prelude::*;

verus! {

/// The channel under test: which ear the tone burst is delivered to.
#[derive(Clone, Copy, Debug, PartialEq, Eq, Structural)]
pub enum Channel {
    Left,
    Right,
}

/// The interleave slot of the current pull. Slots strictly alternate
/// `SlotA, SlotB, SlotA, ...`; `SlotA` carries the left channel and
/// `SlotB` the right one of each stereo frame.
#[derive(Clone, Copy, Debug, PartialEq, Eq, Structural)]
pub enum ChannelSlot {
    SlotA,
    SlotB,
}

/// The slot the next pull will land on: slots alternate on every pull.
pub open spec fn flip(slot: ChannelSlot) -> ChannelSlot {
    match slot {
        ChannelSlot::SlotA => ChannelSlot::SlotB,
        ChannelSlot::SlotB => ChannelSlot::SlotA,
    }
}

/// Whether a pull landing on `slot` belongs to the channel under test.
pub open spec fn slot_matches(slot: ChannelSlot, active: Channel) -> bool {
    match (slot, active) {
        (ChannelSlot::SlotA, Channel::Left) => true,
        (ChannelSlot::SlotB, Channel::Right) => true,
        _ => false,
    }
}

impl ChannelSlot {
    /// The slot the next pull will land on.
    pub fn next(self) -> (s: ChannelSlot)
        ensures
            s == flip(self),
    {
        match self {
            ChannelSlot::SlotA => ChannelSlot::SlotB,
            ChannelSlot::SlotB => ChannelSlot::SlotA,
        }
    }

    /// Whether a pull landing on this slot belongs to the channel under test.
    pub fn is_active_for(self, active: Channel) -> (b: bool)
        ensures
            b == slot_matches(self, active),
    {
        match (self, active) {
            (ChannelSlot::SlotA, Channel::Left) => true,
            (ChannelSlot::SlotB, Channel::Right) => true,
            _ => false,
        }
    }
}

/// The slot reached after `k` pulls from `slot`: slots alternate, so only
/// the parity of `k` matters.
pub open spec fn slot_after(slot: ChannelSlot, k: nat) -> ChannelSlot {
    if k % 2 == 0 {
        slot
    } else {
        flip(slot)
    }
}

/// Alternation is involutive: flipping twice returns to the same slot, so
/// `slot_after` advances by one flip per pull.
pub proof fn lemma_slot_after_step(slot: ChannelSlot, k: nat)
    ensures
        slot_after(slot, k + 1) == flip(slot_after(slot, k)),
{
}

} // verus!
