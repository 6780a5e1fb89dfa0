//! The dispatch/concurrency governor: a fixed pool of permits bounds
//! in-flight processing, and a completed unit of work decides whether an
//! acknowledgment frame is emitted for its event id.
//!
//! The permit pool is the mathematical model of the bounded-concurrency
//! discipline: the caller's runtime suspends on an exhausted pool and
//! releases a permit as each unit of work completes.

use vstd::prelude::*;
use crate::handlers::Outcome;

verus! {

/// The size of the permit pool.
pub const DISPATCH_PERMITS: u64 = 50;

/// The permit pool: at most `DISPATCH_PERMITS` units of work in flight.
pub struct Permits {
    available: u64,
}

impl Permits {
    /// How many permits are free.
    pub closed spec fn spec_available(self) -> u64 {
        self.available
    }

    /// No more than the pool's size is ever free.
    pub closed spec fn wf(self) -> bool {
        self.available <= DISPATCH_PERMITS
    }

    /// A full pool.
    pub fn new() -> (p: Permits)
        ensures
            p.wf(),
            p.spec_available() == DISPATCH_PERMITS,
    {
        Permits { available: DISPATCH_PERMITS }
    }

    /// How many permits are free.
    pub fn available(&self) -> (n: u64)
        ensures
            n == self.spec_available(),
    {
        self.available
    }

    /// Takes one permit when one is free; a caller that receives `false`
    /// must suspend intake — this is the sole backpressure mechanism.
    pub fn try_acquire(&mut self) -> (r: bool)
        requires
            old(self).wf(),
        ensures
            final(self).wf(),
            r == (old(self).spec_available() > 0),
            r ==> final(self).spec_available() == old(self).spec_available() - 1,
            !r ==> *final(self) == *old(self),
    {
        if self.available > 0 {
            self.available = self.available - 1;
            true
        } else {
            false
        }
    }

    /// Returns one permit after a unit of work completes.
    pub fn release(&mut self)
        requires
            old(self).wf(),
            old(self).spec_available() < DISPATCH_PERMITS,
        ensures
            final(self).wf(),
            final(self).spec_available() == old(self).spec_available() + 1,
    {
        self.available = self.available + 1;
    }
}

/// Whether an outcome is acknowledged: successful and rejected outcomes
/// are, and so is an unsupported collection under the skip-and-log
/// policy; only a persistence fault withholds the acknowledgment.
pub open spec fn spec_should_ack(o: Outcome) -> bool {
    match o {
        Outcome::Applied => true,
        Outcome::Rejected(_) => true,
        Outcome::Unsupported => true,
        Outcome::Fault => false,
    }
}

/// Decides whether an acknowledgment is emitted for an outcome.
pub fn should_ack(o: &Outcome) -> (r: bool)
    ensures
        r == spec_should_ack(*o),
{
    match o {
        Outcome::Fault => false,
        _ => true,
    }
}

/// The decimal digits of `n`, most significant first, as ASCII bytes.
pub open spec fn dec_digits(n: nat) -> Seq<u8>
    decreases n,
{
    if n < 10 {
        seq![(48 + n) as u8]
    } else {
        dec_digits(n / 10).push((48 + n % 10) as u8)
    }
}

/// Appends the decimal digits of `n`.
fn push_dec(n: u64, out: &mut Vec<u8>)
    ensures
        final(out)@ == old(out)@ + dec_digits(n as nat),
    decreases n,
{
    if n >= 10 {
        push_dec(n / 10, out);
    }
    out.push(48 + (n % 10) as u8);
    proof {
        assert(out@ =~= old(out)@ + dec_digits(n as nat));
    }
}

/// The acknowledgment frame for event `id`, as bytes:
/// `{"type":"ack","id":<id>}`.
pub open spec fn spec_ack_frame(id: nat) -> Seq<u8> {
    seq![
        123u8, 34u8, 116u8, 121u8, 112u8, 101u8, 34u8, 58u8, 34u8, 97u8, 99u8, 107u8, 34u8, 44u8,
        34u8, 105u8, 100u8, 34u8, 58u8,
    ] + dec_digits(id) + seq![125u8]
}

/// Builds the acknowledgment frame for event `id`.
pub fn ack_frame(id: usize) -> (r: Vec<u8>)
    ensures
        r@ == spec_ack_frame(id as nat),
{
    let mut out: Vec<u8> = Vec::new();
    out.push(123);  // {
    out.push(34);  // "
    out.push(116);  // t
    out.push(121);  // y
    out.push(112);  // p
    out.push(101);  // e
    out.push(34);  // "
    out.push(58);  // :
    out.push(34);  // "
    out.push(97);  // a
    out.push(99);  // c
    out.push(107);  // k
    out.push(34);  // "
    out.push(44);  // ,
    out.push(34);  // "
    out.push(105);  // i
    out.push(100);  // d
    out.push(34);  // "
    out.push(58);  // :
    push_dec(id as u64, &mut out);
    out.push(125);  // }
    proof {
        assert(out@ =~= spec_ack_frame(id as nat));
    }
    out
}

} // verus!
