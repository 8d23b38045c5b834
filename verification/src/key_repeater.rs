//! Software key repeat: while a key is held, a synthetic press is due after
//! the repeat delay and then at every repeat interval.

use std::collections::HashMap;
use vstd::prelude::*;

verus! {

/// The timer of one held key. Times are in milliseconds.
#[derive(Clone, Copy, Debug, PartialEq, Eq, Structural)]
pub struct RepeatTimer {
    /// The character that the key typed when it went down.
    pub codepoint: Option<char>,
    /// When the next synthetic press is due.
    pub due: u64,
    /// The interval between synthetic presses.
    pub rate: u64,
}

/// The timers of the keys that are held.
pub struct KeyRepeater {
    pub timers: HashMap<u32, RepeatTimer>,
}

impl View for KeyRepeater {
    type V = Map<u32, RepeatTimer>;

    open spec fn view(&self) -> Map<u32, RepeatTimer> {
        self.timers@
    }
}

/// The times before `until` at which a timer fires that is first due at
/// `first` and then after every `rate`, in order. A timer without a positive
/// interval fires at most once.
pub open spec fn due_times(first: int, rate: int, until: int) -> Seq<int>
    decreases
            (if first < until {
                until - first
            } else {
                0
            }),
{
    if first >= until {
        Seq::empty()
    } else if rate <= 0 {
        seq![first]
    } else {
        seq![first] + due_times(first + rate, rate, until)
    }
}

/// The timer of a key that went down at `now`.
pub open spec fn started_timer(codepoint: Option<char>, now: u64, delay: u64, rate: u64)
    -> RepeatTimer {
    RepeatTimer { codepoint, due: (now + delay) as u64, rate }
}

/// A timer with a positive interval fires before `until` at `first`,
/// `first + rate`, `first + 2 * rate` and so on, as long as the time lies
/// before `until`, and at no other time.
pub proof fn lemma_due_times(first: int, rate: int, until: int, k: int)
    requires
        rate > 0,
        k >= 0,
    ensures
        k < due_times(first, rate, until).len() <==> first + k * rate < until,
        k < due_times(first, rate, until).len() ==> due_times(first, rate, until)[k] == first + k
            * rate,
    decreases k,
{
    if first >= until {
        assert(k * rate >= 0) by (nonlinear_arith)
            requires
                k >= 0,
                rate > 0,
        ;
    } else if k == 0 {
    } else {
        lemma_due_times(first + rate, rate, until, k - 1);
        assert(first + rate + (k - 1) * rate == first + k * rate) by (nonlinear_arith);
    }
}

impl KeyRepeater {
    /// A repeater with no key held.
    pub fn new() -> (repeater: KeyRepeater)
        ensures
            repeater@ == Map::<u32, RepeatTimer>::empty(),
    {
        KeyRepeater { timers: HashMap::new() }
    }

    /// A key went down at `now`: its first synthetic press is due after
    /// `delay`, the following ones after every `rate`.
    pub fn down(&mut self, key_code: u32, codepoint: Option<char>, now: u64, delay: u64, rate: u64)
        requires
            now + delay <= u64::MAX,
        ensures
            final(self)@ == old(self)@.insert(key_code, started_timer(codepoint, now, delay, rate)),
    {
        self.timers.insert(key_code, RepeatTimer { codepoint, due: now + delay, rate });
    }

    /// A key went up: its timer is cancelled.
    pub fn up(&mut self, key_code: u32)
        ensures
            final(self)@ == old(self)@.remove(key_code),
    {
        self.timers.remove(&key_code);
    }

    /// The keyboard focus was lost: every timer is cancelled.
    pub fn cancel_all(&mut self)
        ensures
            final(self)@ == Map::<u32, RepeatTimer>::empty(),
    {
        self.timers.clear();
    }

    /// The timer of a key, if the key is held.
    pub fn timer(&self, key_code: u32) -> (timer: Option<RepeatTimer>)
        ensures
            timer == (if self@.contains_key(key_code) {
                Some(self@[key_code])
            } else {
                None
            }),
    {
        match self.timers.get(&key_code) {
            Some(timer) => Some(*timer),
            None => None,
        }
    }

    /// The timer of a held key went off: hands out the timer as it stood,
    /// whose `due` is the time of the synthetic press, and sets it to go off
    /// again after its interval. For a key that is not held, nothing
    /// happens.
    pub fn fire(&mut self, key_code: u32) -> (fired: Option<RepeatTimer>)
        requires
            old(self)@.contains_key(key_code) ==> old(self)@[key_code].due + old(
                self,
            )@[key_code].rate <= u64::MAX,
        ensures
            old(self)@.contains_key(key_code) ==> fired == Some(old(self)@[key_code])
                && final(self)@ == old(self)@.insert(
                key_code,
                RepeatTimer {
                    due: (old(self)@[key_code].due + old(self)@[key_code].rate) as u64,
                    ..old(self)@[key_code]
                },
            ),
            !old(self)@.contains_key(key_code) ==> fired is None && final(self)@ == old(self)@,
    {
        match self.timer(key_code) {
            Some(timer) => {
                self.timers.insert(key_code, RepeatTimer { due: timer.due + timer.rate, ..timer });
                Some(timer)
            },
            None => None,
        }
    }

    /// Lets the timer of a held key go off for every synthetic press that
    /// is due before `until`, and hands out the times of these presses in
    /// order.
    pub fn fire_until(&mut self, key_code: u32, until: u64) -> (times: Vec<u64>)
        requires
            old(self)@.contains_key(key_code),
            old(self)@[key_code].rate > 0,
            until + old(self)@[key_code].rate <= u64::MAX,
        ensures
            times@.map_values(|t: u64| t as int) == due_times(
                old(self)@[key_code].due as int,
                old(self)@[key_code].rate as int,
                until as int,
            ),
            final(self)@.dom() == old(self)@.dom(),
            forall|other: u32|
                other != key_code && old(self)@.contains_key(other) ==> final(self)@[other] == old(
                    self,
                )@[other],
            final(self)@[key_code].codepoint == old(self)@[key_code].codepoint,
            final(self)@[key_code].rate == old(self)@[key_code].rate,
            final(self)@[key_code].due >= until,
            final(self)@[key_code].due == old(self)@[key_code].due + times@.len() * old(
                self,
            )@[key_code].rate,
    {
        let ghost first = self@[key_code].due as int;
        let ghost rate = self@[key_code].rate as int;
        let mut times: Vec<u64> = Vec::new();
        let mut timer: RepeatTimer = self.timer(key_code).unwrap();
        proof {
            assert(times@.map_values(|t: u64| t as int) =~= Seq::<int>::empty());
        }
        while timer.due < until
            invariant
                rate > 0,
                timer.rate == rate,
                until + rate <= u64::MAX,
                first <= timer.due,
                timer.codepoint == old(self)@[key_code].codepoint,
                timer.due == first + times@.len() * rate,
                times@.map_values(|t: u64| t as int) + due_times(
                    timer.due as int,
                    rate,
                    until as int,
                ) == due_times(first, rate, until as int),
            decreases
                    (if timer.due < until {
                        until - timer.due
                    } else {
                        0
                    }),
        {
            let ghost before = times@;
            times.push(timer.due);
            proof {
                assert(times@.map_values(|t: u64| t as int) =~= before.map_values(
                    |t: u64| t as int,
                ).push(timer.due as int));
                assert(before.map_values(|t: u64| t as int).push(timer.due as int) + due_times(
                    timer.due + rate,
                    rate,
                    until as int,
                ) =~= before.map_values(|t: u64| t as int) + due_times(
                    timer.due as int,
                    rate,
                    until as int,
                ));
                assert((before.len() + 1) * rate == before.len() * rate + rate)
                    by (nonlinear_arith);
            }
            timer = RepeatTimer { due: timer.due + timer.rate, ..timer };
        }
        proof {
            assert(times@.map_values(|t: u64| t as int) + Seq::<int>::empty()
                =~= times@.map_values(|t: u64| t as int));
        }
        self.timers.insert(key_code, timer);
        proof {
            assert(self@.dom() =~= old(self)@.dom());
        }
        times
    }
}

} // verus!
