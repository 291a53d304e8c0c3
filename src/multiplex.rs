//! The event multiplexer's policy: one event per call, worker events first,
//! then key presses, then the tick. Key releases and repeats are dropped
//! without producing an event; missed ticks are skipped, never queued.
use vstd::prelude::*;
use crate::config::KeyPress;
use crate::types::BtEvent;

verus! {

/// A terminal input as it arrives.
#[derive(Clone, Copy, Debug)]
pub enum RawInput {
    KeyPress(KeyPress),
    KeyRelease(KeyPress),
    KeyRepeat(KeyPress),
    Resize(u16, u16),
    /// Mouse, focus, paste and the like.
    Other,
}

/// One event for the main loop.
#[derive(Debug)]
pub enum Event {
    Key(KeyPress),
    Resize(u16, u16),
    Tick,
    Bluetooth(BtEvent),
}

/// The event an input gives, if any.
pub open spec fn input_event(i: RawInput) -> Option<Event> {
    match i {
        RawInput::KeyPress(k) => Some(Event::Key(k)),
        RawInput::Resize(w, h) => Some(Event::Resize(w, h)),
        _ => None,
    }
}

/// Index of the first input that gives an event, or the length when none does.
pub open spec fn first_relevant(s: Seq<RawInput>) -> int
    decreases s.len(),
{
    if s.len() == 0 {
        0
    } else if input_event(s[0]) is Some {
        0
    } else {
        1 + first_relevant(s.drop_first())
    }
}

proof fn lemma_first_relevant(s: Seq<RawInput>, p: int)
    requires
        0 <= p <= s.len(),
        forall|j: int| 0 <= j < p ==> input_event(#[trigger] s[j]) is None,
        p < s.len() ==> input_event(s[p]) is Some,
    ensures
        first_relevant(s) == p,
    decreases s.len(),
{
    if s.len() > 0 && p > 0 {
        lemma_first_relevant(s.drop_first(), p - 1);
    }
}

pub fn input_to_event(i: RawInput) -> (r: Option<Event>)
    ensures
        r == input_event(i),
{
    match i {
        RawInput::KeyPress(k) => Some(Event::Key(k)),
        RawInput::Resize(w, h) => Some(Event::Resize(w, h)),
        _ => None,
    }
}

/// Takes the next event from three pending sources. A pending worker event
/// wins; else inputs are consumed up to and including the first that gives an
/// event; else a due tick is the event. The tick is reported as taken when it
/// was the event.
pub fn next_event(bt: &mut Vec<BtEvent>, input: &mut Vec<RawInput>, tick_due: bool) -> (r: Option<Event>)
    ensures
        old(bt)@.len() > 0 ==> {
            &&& r == Some(Event::Bluetooth(old(bt)@[0]))
            &&& final(bt)@ == old(bt)@.drop_first()
            &&& final(input)@ == old(input)@
        },
        old(bt)@.len() == 0 ==> {
            let p = first_relevant(old(input)@);
            &&& final(bt)@ == old(bt)@
            &&& p < old(input)@.len() ==> r == input_event(old(input)@[p]) && final(input)@
                == old(input)@.skip(p + 1)
            &&& p == old(input)@.len() ==> final(input)@.len() == 0 && r == (if tick_due {
                Some(Event::Tick)
            } else {
                None
            })
        },
{
    if bt.len() > 0 {
        let e = bt.remove(0);
        return Some(Event::Bluetooth(e));
    }
    let ghost orig = input@;
    let ghost k: int = 0;
    while input.len() > 0
        invariant
            0 <= k <= orig.len(),
            input@ == orig.skip(k),
            forall|j: int| 0 <= j < k ==> input_event(#[trigger] orig[j]) is None,
            bt@.len() == 0,
            bt@ == old(bt)@,
            orig == old(input)@,
        decreases input@.len(),
    {
        let i = input.remove(0);
        proof {
            assert(orig[k] == i);
            assert(input@ =~= orig.skip(k + 1));
        }
        match input_to_event(i) {
            Some(e) => {
                proof {
                    lemma_first_relevant(orig, k);
                    assert(first_relevant(old(input)@) == k);
                    assert(old(input)@[k] == i);
                    assert(input_event(old(input)@[k]) == Some(e));
                }
                return Some(e);
            },
            None => {},
        }
        proof {
            k = k + 1;
        }
    }
    proof {
        lemma_first_relevant(orig, k);
    }
    if tick_due {
        Some(Event::Tick)
    } else {
        None
    }
}

/// The deadline of the next tick when the tick due at `deadline` is handled
/// at `now`: the first point of the tick grid after `now`, so that missed
/// ticks are skipped rather than replayed.
pub fn next_tick_deadline(deadline: u64, period: u64, now: u64) -> (r: u64)
    requires
        period > 0,
        deadline <= now,
        now + period <= u64::MAX,
    ensures
        now < r <= now + period,
        (r - deadline) % (period as int) == 0,
{
    let missed = (now - deadline) / period;
    proof {
        let d = (now - deadline) as int;
        let p = period as int;
        let m = missed as int;
        vstd::arithmetic::div_mod::lemma_fundamental_div_mod(d, p);
        vstd::arithmetic::div_mod::lemma_mod_bound(d, p);
        let rem = d % p;
        assert(m == d / p);
        assert(m * p <= d < m * p + p) by (nonlinear_arith)
            requires
                d == p * m + rem,
                0 <= rem < p,
        ;
        assert((m + 1) * p == m * p + p) by (nonlinear_arith);
        assert(m >= 0);
        assert((m + 1) * p >= p) by (nonlinear_arith)
            requires m >= 0, p > 0;
        vstd::arithmetic::div_mod::lemma_mod_multiples_basic(m + 1, p);
    }
    let step = (missed + 1) * period;
    deadline + step
}

} // verus!
