//! The reference count behind one gated bus clock shared by several
//! peripheral handles.
//!
//! A handle that needs the clock acquires a hold on it; one that no longer
//! needs it releases its hold. The count is read and updated in one step, and the
//! decision to power the clock on or off is taken on the value the count had
//! before that step, so that exactly one caller acts on each 0 -> 1 and each
//! 1 -> 0 transition.

use vstd::prelude::*;

verus! {

/// An acquire from `users` holders powers the clock on.
pub open spec fn acquire_powers_on(users: nat) -> bool {
    users == 0
}

/// A release from `users` holders powers the clock off.
pub open spec fn release_powers_off(users: nat) -> bool {
    users == 1
}

/// The count after `op` (true: acquire, false: release) from `users`.
pub open spec fn next_users(users: nat, op: bool) -> nat {
    if op {
        users + 1
    } else {
        (users - 1) as nat
    }
}

/// The count after running `ops` in order from `users`.
pub open spec fn users_after(users: nat, ops: Seq<bool>) -> nat
    decreases ops.len(),
{
    if ops.len() == 0 {
        users
    } else {
        users_after(next_users(users, ops[0]), ops.drop_first())
    }
}

/// No release in `ops` is made while nobody holds the clock.
pub open spec fn balanced(users: nat, ops: Seq<bool>) -> bool
    decreases ops.len(),
{
    ops.len() == 0 || ((ops[0] || users > 0) && balanced(next_users(users, ops[0]), ops.drop_first()))
}

/// How many operations of `ops` issue the power-on call.
pub open spec fn power_on_calls(users: nat, ops: Seq<bool>) -> nat
    decreases ops.len(),
{
    if ops.len() == 0 {
        0
    } else {
        (if ops[0] && acquire_powers_on(users) { 1nat } else { 0nat })
            + power_on_calls(next_users(users, ops[0]), ops.drop_first())
    }
}

/// How many operations of `ops` issue the power-off call.
pub open spec fn power_off_calls(users: nat, ops: Seq<bool>) -> nat
    decreases ops.len(),
{
    if ops.len() == 0 {
        0
    } else {
        (if !ops[0] && release_powers_off(users) { 1nat } else { 0nat })
            + power_off_calls(next_users(users, ops[0]), ops.drop_first())
    }
}

/// How many operations of `ops` take the count from zero to above zero.
pub open spec fn rising_edges(users: nat, ops: Seq<bool>) -> nat
    decreases ops.len(),
{
    if ops.len() == 0 {
        0
    } else {
        (if users == 0 && next_users(users, ops[0]) > 0 { 1nat } else { 0nat })
            + rising_edges(next_users(users, ops[0]), ops.drop_first())
    }
}

/// How many operations of `ops` take the count from above zero to zero.
pub open spec fn falling_edges(users: nat, ops: Seq<bool>) -> nat
    decreases ops.len(),
{
    if ops.len() == 0 {
        0
    } else {
        (if users > 0 && next_users(users, ops[0]) == 0 { 1nat } else { 0nat })
            + falling_edges(next_users(users, ops[0]), ops.drop_first())
    }
}

/// Whatever the order of acquires and releases, as long as no release finds
/// the clock unheld, the clock is powered on exactly once per rise of the
/// count from zero and powered off exactly once per fall to zero.
pub proof fn lemma_one_power_call_per_edge(users: nat, ops: Seq<bool>)
    requires
        balanced(users, ops),
    ensures
        power_on_calls(users, ops) == rising_edges(users, ops),
        power_off_calls(users, ops) == falling_edges(users, ops),
    decreases ops.len(),
{
    if ops.len() > 0 {
        lemma_one_power_call_per_edge(next_users(users, ops[0]), ops.drop_first());
    }
}

/// The count operations that a run of handle requests makes, starting with
/// the handles in `held` holding the clock. A request `(h, true)` takes a
/// hold for handle `h` unless it has one; `(h, false)` gives `h`'s hold back
/// if it has one; a request with nothing to do makes no count operation.
pub open spec fn count_ops(held: Set<int>, reqs: Seq<(int, bool)>) -> Seq<bool>
    decreases reqs.len(),
{
    if reqs.len() == 0 {
        Seq::empty()
    } else {
        let (h, enable) = reqs[0];
        if enable && !held.contains(h) {
            seq![true] + count_ops(held.insert(h), reqs.drop_first())
        } else if !enable && held.contains(h) {
            seq![false] + count_ops(held.remove(h), reqs.drop_first())
        } else {
            count_ops(held, reqs.drop_first())
        }
    }
}

/// Any interleaving of requests from any number of handles, each handle
/// taking at most one hold, never releases an unheld clock, and powers the
/// clock on once per rise of the count from zero and off once per fall to
/// zero.
pub proof fn lemma_handles_one_power_call_per_edge(held: Set<int>, reqs: Seq<(int, bool)>)
    requires
        held.finite(),
    ensures
        balanced(held.len(), count_ops(held, reqs)),
        power_on_calls(held.len(), count_ops(held, reqs)) == rising_edges(
            held.len(),
            count_ops(held, reqs),
        ),
        power_off_calls(held.len(), count_ops(held, reqs)) == falling_edges(
            held.len(),
            count_ops(held, reqs),
        ),
{
    lemma_balanced_from_holds(held, reqs);
    lemma_one_power_call_per_edge(held.len(), count_ops(held, reqs));
}

proof fn lemma_balanced_from_holds(held: Set<int>, reqs: Seq<(int, bool)>)
    requires
        held.finite(),
    ensures
        balanced(held.len(), count_ops(held, reqs)),
    decreases reqs.len(),
{
    if reqs.len() > 0 {
        let (h, enable) = reqs[0];
        let rest = reqs.drop_first();
        if enable && !held.contains(h) {
            lemma_balanced_from_holds(held.insert(h), rest);
            let ops = seq![true] + count_ops(held.insert(h), rest);
            assert(ops.drop_first() =~= count_ops(held.insert(h), rest));
            assert(held.insert(h).len() == held.len() + 1);
        } else if !enable && held.contains(h) {
            lemma_balanced_from_holds(held.remove(h), rest);
            let ops = seq![false] + count_ops(held.remove(h), rest);
            assert(ops.drop_first() =~= count_ops(held.remove(h), rest));
            assert(held.remove(h).len() == held.len() - 1);
        } else {
            lemma_balanced_from_holds(held, rest);
        }
    }
}

/// A gated bus clock and the number of handles that currently hold it.
pub struct ClockGate {
    users: u64,
    powered: bool,
}

impl ClockGate {
    pub closed spec fn users(self) -> nat {
        self.users as nat
    }

    /// Whether the clock is powered.
    pub closed spec fn powered(self) -> bool {
        self.powered
    }

    /// The clock is powered exactly while some handle holds it.
    pub open spec fn wf(self) -> bool {
        self.powered() == (self.users() > 0)
    }

    /// A gate nobody holds, with the clock off.
    pub fn new() -> (r: ClockGate)
        ensures
            r.wf(),
            r.users() == 0,
            !r.powered(),
    {
        ClockGate { users: 0, powered: false }
    }

    pub fn user_count(&self) -> (r: u64)
        ensures
            r == self.users(),
    {
        self.users
    }

    pub fn is_powered(&self) -> (r: bool)
        ensures
            r == self.powered(),
    {
        self.powered
    }

    /// Takes one hold on the clock; returns whether this call powered it on.
    pub fn acquire(&mut self) -> (powered_on: bool)
        requires
            old(self).wf(),
            old(self).users() < u64::MAX,
        ensures
            final(self).wf(),
            final(self).users() == old(self).users() + 1,
            final(self).powered(),
            powered_on == acquire_powers_on(old(self).users()),
    {
        let before: u64 = self.users;
        self.users = before + 1;
        if before == 0 {
            self.powered = true;
        }
        before == 0
    }

    /// Gives back one hold on the clock; returns whether this call powered
    /// it off. Releasing a gate that nobody holds is the caller's error.
    pub fn release(&mut self) -> (powered_off: bool)
        requires
            old(self).wf(),
            old(self).users() > 0,
        ensures
            final(self).wf(),
            final(self).users() == old(self).users() - 1,
            final(self).powered() == (final(self).users() > 0),
            powered_off == release_powers_off(old(self).users()),
    {
        let before: u64 = self.users;
        self.users = before - 1;
        if before == 1 {
            self.powered = false;
        }
        before == 1
    }
}

} // verus!
