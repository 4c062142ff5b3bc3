//! Single-use synchronization: a slot that is written once and read once.
//!
//! Both cross-thread handoffs of the bridge — the bootstrap results and the
//! token-exchange result — travel through one of these. The host owns the
//! transport between threads; this model pins down the protocol: a value is
//! delivered at most once, a second write is rejected rather than lost
//! silently, and a reader can always tell a pending slot from one whose
//! writer is gone.

use vstd::prelude::*;

verus! {

/// Why a receive did not yield a value.
#[derive(Clone, Copy, PartialEq, Eq, Structural, Debug)]
pub enum OneShotError {
    /// No value has been written yet; the writer may still deliver one.
    Pending,
    /// The writer went away without ever writing a value.
    SenderGone,
    /// The single value was already consumed by an earlier receive.
    AlreadyConsumed,
}

/// A one-shot slot: writable once, readable once.
pub enum OneShot<T> {
    /// No value yet; the writer is still alive.
    Empty,
    /// A value was written and not yet consumed.
    Full(T),
    /// The writer went away without writing a value.
    Closed,
    /// The value was consumed.
    Consumed,
}

impl<T> OneShot<T> {
    /// A fresh, empty slot.
    pub fn new() -> (r: OneShot<T>)
        ensures
            r is Empty,
    {
        OneShot::Empty
    }

    /// Write the single value. Succeeds exactly once: on a slot that is no
    /// longer empty the value is handed back unconsumed and nothing changes.
    pub fn send(&mut self, v: T) -> (r: Result<(), T>)
        ensures
            *old(self) is Empty ==> *final(self) == OneShot::Full(v) && r is Ok,
            !(*old(self) is Empty) ==> *final(self) == *old(self) && r == Err::<(), T>(v),
    {
        if matches!(self, OneShot::Empty) {
            *self = OneShot::Full(v);
            Ok(())
        } else {
            Err(v)
        }
    }

    /// The writer goes away. An empty slot becomes closed, so the reader is
    /// told instead of waiting forever; a written value stays readable.
    pub fn close(&mut self)
        ensures
            *old(self) is Empty ==> *final(self) == OneShot::<T>::Closed,
            !(*old(self) is Empty) ==> *final(self) == *old(self),
    {
        if matches!(self, OneShot::Empty) {
            *self = OneShot::Closed;
        }
    }

    /// Read the single value. Consumes it exactly once; afterwards the slot
    /// reports `AlreadyConsumed`. A pending slot and a slot whose writer is
    /// gone are told apart.
    pub fn recv(&mut self) -> (r: Result<T, OneShotError>)
        ensures
            *old(self) matches OneShot::Full(v) ==> r == Ok::<T, OneShotError>(v) && *final(self)
                == OneShot::<T>::Consumed,
            *old(self) is Empty ==> r == Err::<T, OneShotError>(OneShotError::Pending)
                && *final(self) == *old(self),
            *old(self) is Closed ==> r == Err::<T, OneShotError>(OneShotError::SenderGone)
                && *final(self) == *old(self),
            *old(self) is Consumed ==> r == Err::<T, OneShotError>(OneShotError::AlreadyConsumed)
                && *final(self) == *old(self),
    {
        let mut taken = OneShot::Consumed;
        core::mem::swap(self, &mut taken);
        match taken {
            OneShot::Full(v) => Ok(v),
            OneShot::Empty => {
                *self = OneShot::Empty;
                Err(OneShotError::Pending)
            },
            OneShot::Closed => {
                *self = OneShot::Closed;
                Err(OneShotError::SenderGone)
            },
            OneShot::Consumed => Err(OneShotError::AlreadyConsumed),
        }
    }
}

} // verus!
