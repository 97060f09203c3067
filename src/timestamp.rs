//! The clock sequence counter and the timestamps built from it.
use vstd::prelude::*;

use crate::layout::ticks_of_unix;
use crate::outside::unix_to_ticks;

verus! {

/// The counter value that follows `c`, wrapping at 2^16.
pub open spec fn next_count(c: u16) -> u16 {
    ((c + 1) % 0x1_0000) as u16
}

/// The clock sequence counter: each call of `next` hands out the current
/// value and moves on by one, wrapping silently.
#[derive(Debug)]
pub struct Context {
    count: u16,
}

impl View for Context {
    type V = u16;

    closed spec fn view(&self) -> u16 {
        self.count
    }
}

impl Context {
    /// A counter that starts at `count`.
    pub fn new(count: u16) -> (r: Context)
        ensures
            r@ == count,
    {
        Context { count }
    }

    /// The current value; the counter moves on by one.
    pub fn next(&mut self) -> (r: u16)
        ensures
            r == old(self)@,
            final(self)@ == next_count(old(self)@),
    {
        let r = self.count;
        self.count = self.count.wrapping_add(1);
        r
    }
}

/// A tick count since 1582-10-15 in units of 100 ns, with the clock sequence
/// value that goes with it.
#[derive(Clone, Copy, Debug, PartialEq, Eq, Structural)]
pub struct Timestamp {
    ticks: u64,
    counter: u16,
}

impl View for Timestamp {
    type V = (u64, u16);

    closed spec fn view(&self) -> (u64, u16) {
        (self.ticks, self.counter)
    }
}

impl Timestamp {
    /// The timestamp with the given tick count and clock sequence.
    pub fn from_rfc4122(ticks: u64, counter: u16) -> (r: Timestamp)
        ensures
            r@ == (ticks, counter),
    {
        Timestamp { ticks, counter }
    }

    /// The timestamp of a moment given as seconds and nanoseconds since the
    /// Unix epoch, with the next value of the clock sequence counter.
    pub fn from_unix(context: &mut Context, secs: u64, nanos: u32) -> (r: Timestamp)
        requires
            ticks_of_unix(secs, nanos) <= u64::MAX,
        ensures
            r@ == (ticks_of_unix(secs, nanos) as u64, old(context)@),
            final(context)@ == next_count(old(context)@),
    {
        let counter = context.next();
        let ticks = unix_to_ticks(secs, nanos);
        Timestamp { ticks, counter }
    }

    /// The tick count and the clock sequence value.
    pub fn to_rfc4122(&self) -> (r: (u64, u16))
        ensures
            r == self@,
    {
        (self.ticks, self.counter)
    }
}

} // verus!
