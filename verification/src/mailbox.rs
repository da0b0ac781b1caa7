//! The hand-over of scenes from the thread that edits them to the thread that
//! renders them: a slot for one value, in which a newer value replaces an
//! older one that was not yet taken, and the record of what was last handed
//! over.

use vstd::prelude::*;

verus! {

/// What waits in a slot after `value` was sent: that value, whatever waited
/// before.
pub open spec fn after_send<T>(slot: Option<T>, value: T) -> Option<T> {
    Some(value)
}

/// What a receiver gets from a slot: the value that waits, if any.
pub open spec fn taken<T>(slot: Option<T>) -> Option<T> {
    slot
}

/// What waits in a slot after the receiver looked: nothing.
pub open spec fn after_recv<T>(slot: Option<T>) -> Option<T> {
    None
}

/// A slot that holds the latest value sent and not yet received.
pub struct SceneSlot<T> {
    held: Option<T>,
}

impl<T> SceneSlot<T> {
    /// The value that waits in the slot, if any.
    pub closed spec fn view(&self) -> Option<T> {
        self.held
    }

    /// An empty slot.
    pub fn new() -> (s: SceneSlot<T>)
        ensures
            s@.is_none(),
    {
        SceneSlot { held: None }
    }

    /// Puts a value into the slot and hands back the value it replaces, if
    /// one was waiting.
    pub fn send(&mut self, value: T) -> (displaced: Option<T>)
        ensures
            final(self)@ == after_send(old(self)@, value),
            displaced == old(self)@,
    {
        let mut incoming = Some(value);
        std::mem::swap(&mut self.held, &mut incoming);
        incoming
    }

    /// Takes the waiting value out of the slot, if there is one.
    pub fn try_recv(&mut self) -> (value: Option<T>)
        ensures
            value == taken(old(self)@),
            final(self)@ == after_recv(old(self)@),
    {
        let mut taken = None;
        std::mem::swap(&mut self.held, &mut taken);
        taken
    }

    /// Whether no value waits.
    pub fn is_empty(&self) -> (r: bool)
        ensures
            r == self@.is_none(),
    {
        self.held.is_none()
    }
}

/// Of two values sent before the receiver looks, the receiver gets the later
/// one; the earlier one is dropped, and a second look finds nothing.
pub proof fn lemma_last_write_wins<T>(before: Option<T>, first: T, second: T)
    ensures
        taken(after_send(after_send(before, first), second)) == Some(second),
        taken(after_recv(after_send(after_send(before, first), second))) == None::<T>,
{
}

/// The hash on record after a scene with content hash `hash` was offered,
/// where `accepted` tells whether the way to the renderer took it: the hash
/// of the scene where it was taken, else the hash on record before.
pub open spec fn recorded(sent_hash: u64, hash: u64, accepted: bool) -> u64 {
    if accepted {
        hash
    } else {
        sent_hash
    }
}

/// A changed scene is on record exactly when the way to the renderer took it.
/// One that was refused leaves the record as it was, and so is due again at
/// the next look.
pub proof fn lemma_recorded_iff_accepted(sent_hash: u64, hash: u64, accepted: bool)
    requires
        hash != sent_hash,
    ensures
        (recorded(sent_hash, hash, accepted) == hash) == accepted,
        !accepted ==> recorded(sent_hash, hash, accepted) == sent_hash,
        (hash != recorded(sent_hash, hash, accepted)) == !accepted,
{
}

/// The record of the scene that was last handed to the renderer, by its
/// content hash.
#[derive(Clone, Copy, Debug, PartialEq, Eq, Structural)]
pub struct SceneFeed {
    pub sent_hash: u64,
}

impl SceneFeed {
    /// The record before any scene was handed over.
    pub fn new() -> (f: SceneFeed)
        ensures
            f.sent_hash == 0,
    {
        SceneFeed { sent_hash: 0 }
    }

    /// Whether a scene with this content hash has to be handed over: it has
    /// another hash than the scene handed over last.
    pub fn is_due(&self, hash: u64) -> (due: bool)
        ensures
            due == (hash != self.sent_hash),
    {
        hash != self.sent_hash
    }

    /// Takes note of how an offer of a scene with content hash `hash` went:
    /// the hash goes on record where the scene was due and `accepted` says
    /// that it was taken. Tells whether it went on record.
    pub fn settle(&mut self, hash: u64, accepted: bool) -> (sent: bool)
        ensures
            sent == (hash != old(self).sent_hash && accepted),
            final(self).sent_hash == recorded(old(self).sent_hash, hash, accepted),
    {
        if accepted && self.is_due(hash) {
            self.sent_hash = hash;
            true
        } else {
            false
        }
    }

    /// Hands a changed scene over through the slot: a scene whose content
    /// hash differs from that of the scene handed over last is put into the
    /// slot, where it replaces a scene still waiting, and becomes the one
    /// handed over last. Tells whether the scene was handed over.
    pub fn offer<T>(&mut self, slot: &mut SceneSlot<T>, scene: T, hash: u64) -> (sent: bool)
        ensures
            sent == (hash != old(self).sent_hash),
            final(self).sent_hash == hash,
            final(slot)@ == (if sent {
                after_send(old(slot)@, scene)
            } else {
                old(slot)@
            }),
    {
        if self.is_due(hash) {
            slot.send(scene);
        }
        self.settle(hash, true)
    }
}

} // verus!
