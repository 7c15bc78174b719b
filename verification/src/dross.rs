//! Dross, the currency of the faeries, and its transfer.

use crate::faery::Faery;
use vstd::prelude::*;

verus! {

/// Why a change of a holding was refused.
#[derive(Clone, Copy, Debug, PartialEq, Eq, Structural)]
pub enum DrossError {
    /// The holder has less dross than is to be taken.
    NotEnoughDross,
    /// An increment of nothing.
    InvalidIncrement,
    /// A decrement of nothing.
    InvalidDecrement,
}

pub type DrossResult = Result<u32, DrossError>;

/// What an increment of `amount` returns on a holding of `holding`.
pub open spec fn incremented(holding: u32, amount: u32) -> DrossResult
    recommends
        holding + amount <= u32::MAX,
{
    if amount == 0 {
        Err(DrossError::InvalidIncrement)
    } else {
        Ok((holding + amount) as u32)
    }
}

/// What a decrement of `amount` returns on a holding of `holding`.
pub open spec fn decremented(holding: u32, amount: u32) -> DrossResult {
    if amount == 0 {
        Err(DrossError::InvalidDecrement)
    } else if amount > holding {
        Err(DrossError::NotEnoughDross)
    } else {
        Ok((holding - amount) as u32)
    }
}

/// The holding that a change leaves: the new holding where the change was
/// made, the old one where it was refused.
pub open spec fn holding_after(holding: u32, change: DrossResult) -> u32 {
    match change {
        Ok(updated) => updated,
        Err(_) => holding,
    }
}

/// Something that holds dross.
pub trait DrossHolder {
    /// The dross held.
    spec fn holding(&self) -> u32;

    /// Adds `amount` to the holding and returns the new holding. An
    /// increment of nothing is refused.
    fn increment_dross(&mut self, amount: u32) -> (change: DrossResult)
        requires
            old(self).holding() + amount <= u32::MAX,
        ensures
            change == incremented(old(self).holding(), amount),
            final(self).holding() == holding_after(old(self).holding(), change),
    ;

    /// Takes `amount` from the holding and returns the new holding. A
    /// decrement of nothing, or of more than is held, is refused.
    fn decrement_dross(&mut self, amount: u32) -> (change: DrossResult)
        ensures
            change == decremented(old(self).holding(), amount),
            final(self).holding() == holding_after(old(self).holding(), change),
    ;

    /// The dross held.
    fn dross(&self) -> (held: DrossResult)
        ensures
            held == Ok::<u32, DrossError>(self.holding()),
    ;
}

/// Whether `amount` can pass from a holding of `sender`.
pub open spec fn can_send(sender: u32, amount: u32) -> bool {
    0 < amount <= sender
}

/// Moves `amount` of dross from `sender` to `receiver` and returns the new
/// holding of the receiver. Where the sender cannot give the amount, the
/// refusal is returned and neither holding changes.
pub fn transfer_dross(sender: &mut Faery, receiver: &mut Faery, amount: u32) -> (change:
    DrossResult)
    requires
        can_send(old(sender).dross, amount) ==> old(receiver).dross + amount <= u32::MAX,
    ensures
        change == if can_send(old(sender).dross, amount) {
            Ok::<u32, DrossError>((old(receiver).dross + amount) as u32)
        } else {
            decremented(old(sender).dross, amount)
        },
        *final(sender) == (Faery {
            dross: if can_send(old(sender).dross, amount) {
                (old(sender).dross - amount) as u32
            } else {
                old(sender).dross
            },
            ..*old(sender)
        }),
        *final(receiver) == (Faery {
            dross: if can_send(old(sender).dross, amount) {
                (old(receiver).dross + amount) as u32
            } else {
                old(receiver).dross
            },
            ..*old(receiver)
        }),
        final(sender).dross + final(receiver).dross == old(sender).dross + old(receiver).dross,
{
    match sender.decrement_dross(amount) {
        Ok(_) => receiver.increment_dross(amount),
        Err(error) => Err(error),
    }
}

} // verus!
