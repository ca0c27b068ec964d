//! Packet identifiers: sixteen-bit, never zero, handed out in a cycle of
//! 65535 values.

use vstd::prelude::*;

verus! {

/// The number of distinct packet identifiers.
pub const PID_COUNT: u16 = 65535;

/// The identifier that follows `pid` in the cycle `1, 2, ..., 65535, 1, ...`.
pub open spec fn pid_succ(pid: u16) -> u16 {
    if pid == PID_COUNT {
        1u16
    } else {
        (pid + 1) as u16
    }
}

/// The identifier handed out `n` allocations after `first` was.
pub open spec fn nth_pid(first: u16, n: nat) -> u16
    decreases n,
{
    if n == 0 {
        first
    } else {
        pid_succ(nth_pid(first, (n - 1) as nat))
    }
}

/// A packet identifier: a sixteen-bit number that is not zero.
#[derive(Clone, Copy, Debug)]
pub struct Pid {
    value: u16,
}

impl Pid {
    #[verifier::type_invariant]
    spec fn nonzero(self) -> bool {
        self.value != 0
    }

    /// The identifier as a number.
    pub closed spec fn number(self) -> u16 {
        self.value
    }

    /// The identifier with this number, if the number is not zero.
    pub fn new(value: u16) -> (pid: Option<Pid>)
        ensures
            value == 0 ==> pid is None,
            value != 0 ==> pid is Some && pid->0.number() == value,
    {
        if value == 0 {
            None
        } else {
            Some(Pid { value })
        }
    }

    /// The identifier as a number, which is never zero.
    pub fn get(self) -> (value: u16)
        ensures
            value == self.number(),
            value != 0,
    {
        proof {
            use_type_invariant(&self);
        }
        self.value
    }
}

/// A source of packet identifiers.
pub struct PidAllocator {
    next: u16,
}

impl PidAllocator {
    /// The state is valid when the identifier to hand out next is not zero.
    pub closed spec fn wf(&self) -> bool {
        self.next != 0
    }

    /// The identifier that the next call of `allocate` returns.
    pub closed spec fn upcoming(&self) -> u16 {
        self.next
    }

    /// The upcoming identifier of a valid allocator is not zero.
    pub proof fn lemma_upcoming_nonzero(&self)
        requires
            self.wf(),
        ensures
            self.upcoming() != 0,
    {
    }

    /// An allocator whose first identifier is 1.
    pub fn new() -> (a: PidAllocator)
        ensures
            a.wf(),
            a.upcoming() == 1,
    {
        PidAllocator { next: 1 }
    }

    /// The identifier that the next call of `allocate` returns.
    pub fn peek(&self) -> (pid: u16)
        requires
            self.wf(),
        ensures
            pid == self.upcoming(),
            pid != 0,
    {
        self.next
    }

    /// Hands out the upcoming identifier and moves on to its successor.
    pub fn allocate(&mut self) -> (pid: u16)
        requires
            old(self).wf(),
        ensures
            final(self).wf(),
            pid == old(self).upcoming(),
            pid != 0,
            final(self).upcoming() == pid_succ(pid),
    {
        let pid: u16 = self.next;
        if pid == PID_COUNT {
            self.next = 1;
        } else {
            self.next = pid + 1;
        }
        pid
    }
}

/// The identifier handed out `n` allocations after `first` is `first`
/// moved `n` places round the cycle of 65535 identifiers.
pub proof fn lemma_nth_pid_in_cycle(first: u16, n: nat)
    requires
        first != 0,
    ensures
        nth_pid(first, n) == (first - 1 + n) % 65535 + 1,
    decreases n,
{
    if n > 0 {
        lemma_nth_pid_in_cycle(first, (n - 1) as nat);
    }
}

/// Zero is never handed out.
pub proof fn lemma_pid_never_zero(first: u16, n: nat)
    requires
        first != 0,
    ensures
        nth_pid(first, n) != 0,
{
    lemma_nth_pid_in_cycle(first, n);
}

/// No identifier is handed out twice within 65535 allocations in a row: two
/// allocations fewer than 65535 apart give different identifiers.
pub proof fn lemma_pids_distinct(first: u16, i: nat, j: nat)
    requires
        first != 0,
        i < j,
        j - i < 65535,
    ensures
        nth_pid(first, i) != nth_pid(first, j),
{
    lemma_nth_pid_in_cycle(first, i);
    lemma_nth_pid_in_cycle(first, j);
}

/// After 65535 allocations the cycle starts again.
pub proof fn lemma_pids_wrap(first: u16, n: nat)
    requires
        first != 0,
    ensures
        nth_pid(first, n + 65535) == nth_pid(first, n),
{
    lemma_nth_pid_in_cycle(first, n);
    lemma_nth_pid_in_cycle(first, n + 65535);
}

} // verus!
