//! The debounce engine: a value that follows its source only after the
//! source has been quiet for a set time.
//!
//! The engine owns no timer. Each change of the source yields a
//! [`TimerCommand`] for whoever drives it: drop the timer that is named in
//! `cancel`, start one for `delay_ms` under the token `start`, and report
//! back with [`DebounceState::fire`] when it goes off. A timer is known by
//! its token alone, so one that goes off after it was replaced is ignored.

use vstd::prelude::*;

verus! {

/// The token that follows `token`; after the largest it starts again at 0.
pub open spec fn token_after(token: u64) -> u64 {
    if token == u64::MAX {
        0
    } else {
        (token + 1) as u64
    }
}

/// The emission that is waiting for its timer.
pub struct Pending<T> {
    pub token: u64,
    pub value: T,
}

/// The mathematical state of a debounced value.
pub struct Debounce<T> {
    /// The value that was emitted last.
    pub emitted: T,
    /// The emission that waits for its timer, if any.
    pub pending: Option<Pending<T>>,
    /// The token that the next timer gets.
    pub next_token: u64,
    /// The quiet time after which a change is emitted.
    pub delay_ms: u64,
}

impl<T> Debounce<T> {
    /// The token of a waiting emission is the one that was handed out last.
    pub open spec fn wf(self) -> bool {
        self.pending matches Some(p) ==> token_after(p.token) == self.next_token
    }

    /// Whether `token` names the timer of the waiting emission.
    pub open spec fn is_live(self, token: u64) -> bool {
        self.pending matches Some(p) && p.token == token
    }

    /// The state after the source changed to `value`: the new value waits
    /// under a new token, in place of whatever waited before.
    pub open spec fn changed(self, value: T) -> Debounce<T> {
        Debounce {
            emitted: self.emitted,
            pending: Some(Pending { token: self.next_token, value }),
            next_token: token_after(self.next_token),
            delay_ms: self.delay_ms,
        }
    }

    /// The state after the timer `token` went off: the waiting value is
    /// emitted if the timer is its own, and nothing happens otherwise.
    pub open spec fn fired(self, token: u64) -> Debounce<T> {
        match self.pending {
            Some(p) if p.token == token => Debounce {
                emitted: p.value,
                pending: None,
                next_token: self.next_token,
                delay_ms: self.delay_ms,
            },
            _ => self,
        }
    }

    /// The state after the timer `token` could not be started: the value
    /// that waited for it is dropped and will never be emitted.
    pub open spec fn abandoned(self, token: u64) -> Debounce<T> {
        if self.is_live(token) {
            Debounce {
                emitted: self.emitted,
                pending: None,
                next_token: self.next_token,
                delay_ms: self.delay_ms,
            }
        } else {
            self
        }
    }

    /// The state after the source took each of `values` in turn, with no
    /// timer going off in between.
    pub open spec fn changed_all(self, values: Seq<T>) -> Debounce<T>
        decreases values.len(),
    {
        if values.len() == 0 {
            self
        } else {
            self.changed_all(values.drop_last()).changed(values.last())
        }
    }
}

/// The `n`-th token handed out from `start` on, counting from 0.
pub open spec fn token_at(start: u64, n: nat) -> u64
    decreases n,
{
    if n == 0 {
        start
    } else {
        token_after(token_at(start, (n - 1) as nat))
    }
}

/// What a change of the source asks of the timer's owner.
#[derive(Debug, Clone, Copy, PartialEq, Eq, Structural)]
pub struct TimerCommand {
    /// The timer to drop, if one was running.
    pub cancel: Option<u64>,
    /// The token of the timer to start.
    pub start: u64,
    /// How long the new timer runs, in milliseconds.
    pub delay_ms: u64,
}

/// A debounced value.
pub struct DebounceState<T> {
    emitted: T,
    pending: Option<Pending<T>>,
    next_token: u64,
    delay_ms: u64,
}

impl<T> View for DebounceState<T> {
    type V = Debounce<T>;

    closed spec fn view(&self) -> Debounce<T> {
        Debounce {
            emitted: self.emitted,
            pending: self.pending,
            next_token: self.next_token,
            delay_ms: self.delay_ms,
        }
    }
}

/// A debounced value that starts out as `initial` and follows its source
/// after `delay_ms` milliseconds of quiet. Nothing waits to be emitted yet.
pub fn debounce_signal<T>(delay_ms: u64, initial: T) -> (r: DebounceState<T>)
    ensures
        r@ == (Debounce { emitted: initial, pending: None, next_token: 0, delay_ms }),
        r@.wf(),
{
    DebounceState { emitted: initial, pending: None, next_token: 0, delay_ms }
}

impl<T> DebounceState<T> {
    #[verifier::type_invariant]
    spec fn token_is_latest(&self) -> bool {
        self@.wf()
    }

    /// The value that was emitted last.
    pub fn get(&self) -> (r: &T)
        ensures
            *r == self@.emitted,
    {
        &self.emitted
    }

    /// The token of the timer that the waiting emission hangs on, if any.
    pub fn pending_token(&self) -> (r: Option<u64>)
        ensures
            match r {
                Some(token) => self@.pending.is_some() && self@.pending.unwrap().token == token,
                None => self@.pending.is_none(),
            },
    {
        match &self.pending {
            Some(p) => Some(p.token),
            None => None,
        }
    }

    /// The quiet time after which a change is emitted, in milliseconds.
    pub fn delay_ms(&self) -> (r: u64)
        ensures
            r == self@.delay_ms,
    {
        self.delay_ms
    }

    /// The source changed to `value`. Whatever waited is dropped, and the
    /// new value waits in its place. The command names the timer to drop,
    /// if one was running, and the timer to start, which is never the same.
    pub fn update(&mut self, value: T) -> (cmd: TimerCommand)
        ensures
            final(self)@ == old(self)@.changed(value),
            final(self)@.wf(),
            cmd.cancel == match old(self)@.pending {
                Some(p) => Some(p.token),
                None => None,
            },
            cmd.start == old(self)@.next_token,
            cmd.delay_ms == old(self)@.delay_ms,
            cmd.cancel != Some(cmd.start),
    {
        proof {
            use_type_invariant(&*self);
        }
        let cancel = self.pending_token();
        let start = self.next_token;
        let next = if start == u64::MAX {
            0
        } else {
            start + 1
        };
        self.pending = None;
        self.next_token = next;
        self.pending = Some(Pending { token: start, value });
        TimerCommand { cancel, start, delay_ms: self.delay_ms }
    }

    /// The timer `token` went off. If it is the timer of the waiting
    /// emission, the waiting value becomes the emitted one and `true` is
    /// returned. A timer that was replaced or dropped changes nothing.
    pub fn fire(&mut self, token: u64) -> (emitted: bool)
        ensures
            final(self)@ == old(self)@.fired(token),
            final(self)@.wf(),
            emitted == old(self)@.is_live(token),
    {
        proof {
            use_type_invariant(&*self);
        }
        let live = match &self.pending {
            Some(p) => p.token == token,
            None => false,
        };
        if live {
            let mut taken: Option<Pending<T>> = None;
            std::mem::swap(&mut self.pending, &mut taken);
            match taken {
                Some(p) => {
                    self.emitted = p.value;
                },
                None => {},
            }
        }
        live
    }

    /// The timer `token` could not be started. The value that waited for it
    /// is dropped; it will never be emitted.
    pub fn schedule_failed(&mut self, token: u64)
        ensures
            final(self)@ == old(self)@.abandoned(token),
            final(self)@.wf(),
    {
        proof {
            use_type_invariant(&*self);
        }
        let live = match &self.pending {
            Some(p) => p.token == token,
            None => false,
        };
        if live {
            self.pending = None;
        }
    }
}

/// Counting tokens from `start` is counting modulo 2^64.
proof fn lemma_token_at(start: u64, n: nat)
    ensures
        token_at(start, n) == (start + n) % 0x1_0000_0000_0000_0000,
    decreases n,
{
    if n > 0 {
        lemma_token_at(start, (n - 1) as nat);
    }
}

/// What a burst of changes leaves behind: the emitted value as it was, and
/// the last value of the burst waiting under the token handed out last.
proof fn lemma_changed_all<T>(m: Debounce<T>, values: Seq<T>)
    requires
        values.len() > 0,
    ensures
        m.changed_all(values).emitted == m.emitted,
        m.changed_all(values).delay_ms == m.delay_ms,
        m.changed_all(values).pending == Some(
            Pending { token: token_at(m.next_token, (values.len() - 1) as nat), value: values.last() },
        ),
        m.changed_all(values).next_token == token_at(m.next_token, values.len()),
    decreases values.len(),
{
    let front = values.drop_last();
    if front.len() > 0 {
        lemma_changed_all(m, front);
    } else {
        assert(m.changed_all(front) == m);
    }
}

/// A burst of changes with no timer going off in between emits nothing by
/// itself and leaves exactly the last value waiting; when the timer that was
/// started last goes off, that value is emitted and nothing waits any more.
pub proof fn law_burst_emits_last<T>(m: Debounce<T>, values: Seq<T>)
    requires
        values.len() > 0,
    ensures
        m.changed_all(values).wf(),
        m.changed_all(values).emitted == m.emitted,
        m.changed_all(values).pending == Some(
            Pending { token: token_at(m.next_token, (values.len() - 1) as nat), value: values.last() },
        ),
        m.changed_all(values).fired(token_at(m.next_token, (values.len() - 1) as nat)).emitted
            == values.last(),
        m.changed_all(values).fired(
            token_at(m.next_token, (values.len() - 1) as nat),
        ).pending.is_none(),
{
    lemma_changed_all(m, values);
}

/// A timer that was replaced never emits. Of the timers started during a
/// burst of fewer than 2^64 changes, each but the last is dead afterwards,
/// and so is the timer that was running before the burst: when one of them
/// goes off, nothing changes.
pub proof fn law_replaced_timers_are_dead<T>(m: Debounce<T>, values: Seq<T>, i: int)
    requires
        m.wf(),
        0 < values.len() <= u64::MAX,
        0 <= i < values.len() - 1,
    ensures
        !m.changed_all(values).is_live(token_at(m.next_token, i as nat)),
        m.changed_all(values).fired(token_at(m.next_token, i as nat)) == m.changed_all(values),
        m.pending matches Some(p) ==> m.changed_all(values).fired(p.token) == m.changed_all(
            values,
        ),
{
    lemma_changed_all(m, values);
    lemma_token_at(m.next_token, i as nat);
    lemma_token_at(m.next_token, (values.len() - 1) as nat);
}

/// A waiting value is emitted at most once: after its timer went off,
/// no timer emits anything until the source changes again.
pub proof fn law_fires_once<T>(m: Debounce<T>, token: u64, other: u64)
    ensures
        m.is_live(token) ==> m.fired(token).pending.is_none(),
        m.is_live(token) ==> m.fired(token).fired(other) == m.fired(token),
        !m.is_live(token) ==> m.fired(token) == m,
{
}

} // verus!
