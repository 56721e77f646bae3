//! The server's protection of its API token against guessing: an address
//! that sent five wrong tokens within a minute is refused for a minute after
//! its last wrong token.

use vstd::prelude::*;
use std::collections::HashMap;

verus! {

broadcast use vstd::std_specs::hash::group_hash_axioms;

/// How many wrong tokens are remembered per address.
pub const MAX_FAILURES: usize = 5;

/// How long (in seconds) the failures of an address count.
pub const TIMEOUT: u64 = 60;

/// The failure times remembered for `addr` after one more wrong token at
/// `now`: the earlier ones with `now` appended, at most the last five.
pub open spec fn failures_after(m: Map<u128, Seq<u64>>, addr: u128, now: u64) -> Seq<u64> {
    if m.contains_key(addr) {
        let e = m[addr].push(now);
        if e.len() > MAX_FAILURES { e.drop_first() } else { e }
    } else {
        seq![now]
    }
}

/// The remembered failures after one more wrong token from `addr` at `now`.
pub open spec fn record(m: Map<u128, Seq<u64>>, addr: u128, now: u64) -> Map<u128, Seq<u64>> {
    m.insert(addr, failures_after(m, addr, now))
}

/// True when `addr` is refused at `now`: its last five wrong tokens came
/// within less than a minute, and the last of them at most a minute ago.
pub open spec fn timeouted(m: Map<u128, Seq<u64>>, addr: u128, now: u64) -> bool {
    &&& m.contains_key(addr)
    &&& m[addr].len() == MAX_FAILURES
    &&& now - m[addr].last() <= TIMEOUT
    &&& m[addr].last() - m[addr][0] < TIMEOUT
}

/// True when every address has between one and five remembered times.
pub open spec fn well_kept(m: Map<u128, Seq<u64>>) -> bool {
    forall|a: u128| #[trigger] m.contains_key(a) ==> 1 <= m[a].len() <= MAX_FAILURES
}

/// True when the times are in order.
pub open spec fn in_order(e: Seq<u64>) -> bool {
    forall|i: int, j: int| 0 <= i <= j < e.len() ==> e[i] <= e[j]
}

/// True when the lock-out of `addr` can be decided at `now` without going
/// below zero: `now` is not before its last failure (the clock has not gone
/// back), and when its five failures are recent, they are in order.
pub open spec fn clock_ok(m: Map<u128, Seq<u64>>, addr: u128, now: u64) -> bool {
    m.contains_key(addr) && m[addr].len() > 0 ==> {
        &&& m[addr].last() <= now
        &&& m[addr].len() == MAX_FAILURES && now - m[addr].last() <= TIMEOUT ==> in_order(m[addr])
    }
}

/// What the server does with a request that carries a token.
#[derive(Clone, Copy, Debug, PartialEq, Eq, Structural)]
pub enum AuthDecision {
    /// The token is right: the request is served.
    Authorized,
    /// The address is refused for now (HTTP 429).
    TooManyRequests,
    /// The token is wrong (HTTP 401); the failure is remembered.
    Unauthorized,
}

/// The wrong tokens that each address sent recently. Addresses are numbers:
/// an IPv4 address is taken as its IPv6-mapped form.
pub struct FailedLogins {
    failures: HashMap<u128, Vec<u64>>,
}

impl View for FailedLogins {
    type V = Map<u128, Seq<u64>>;

    closed spec fn view(&self) -> Map<u128, Seq<u64>> {
        Map::new(|k: u128| self.failures@.contains_key(k), |k: u128| self.failures@[k]@)
    }
}

impl FailedLogins {
    #[verifier::type_invariant]
    spec fn kept(&self) -> bool {
        well_kept(self@)
    }

    /// No failures remembered.
    pub fn new() -> (r: Self)
        ensures
            r@ == Map::<u128, Seq<u64>>::empty(),
    {
        let r = FailedLogins { failures: HashMap::new() };
        assert(r@ =~= Map::<u128, Seq<u64>>::empty());
        r
    }

    /// The remembered failure times of `addr`.
    pub fn failures_of(&self, addr: u128) -> (r: Option<Vec<u64>>)
        ensures
            match r {
                Some(v) => self@.contains_key(addr) && v@ == self@[addr],
                None => !self@.contains_key(addr),
            },
    {
        match self.failures.get(&addr) {
            Some(v) => Some(v.clone()),
            None => None,
        }
    }

    /// Remembers a wrong token from `addr` at `now` (seconds since the Unix
    /// epoch); only the last five are kept.
    pub fn timeout(&mut self, addr: u128, now: u64)
        ensures
            final(self)@ == record(old(self)@, addr, now),
    {
        proof { use_type_invariant(&*self); }
        let ghost old_view = self@;
        let entry = match self.failures.get(&addr) {
            Some(existing) => {
                let mut entry = existing.clone();
                assert(entry@ == old_view[addr]);
                entry.push(now);
                if entry.len() > MAX_FAILURES {
                    let ghost before = entry@;
                    entry.remove(0);
                    assert(entry@ =~= before.drop_first());
                }
                entry
            },
            None => {
                let mut failed_list: Vec<u64> = Vec::with_capacity(MAX_FAILURES);
                failed_list.push(now);
                assert(failed_list@ =~= seq![now]);
                failed_list
            },
        };
        let ghost new_list = entry@;
        assert(new_list == failures_after(old_view, addr, now));
        let mut failures = HashMap::new();
        std::mem::swap(&mut failures, &mut self.failures);
        failures.insert(addr, entry);
        proof {
            let nv = record(old_view, addr, now);
            assert(Map::new(|k: u128| failures@.contains_key(k), |k: u128| failures@[k]@) =~= nv);
            assert forall|a: u128| #[trigger] nv.contains_key(a) implies 1 <= nv[a].len() <= MAX_FAILURES by {}
        }
        self.failures = failures;
    }

    /// True when the lock-out of `addr` can be decided at `now`: the clock
    /// has not gone back and recent failures are in order.
    pub fn can_decide(&self, addr: u128, now: u64) -> (r: bool)
        ensures
            r == clock_ok(self@, addr, now),
    {
        proof { use_type_invariant(self); }
        match self.failures.get(&addr) {
            Some(entry) => {
                let ghost e = entry@;
                assert(e == self@[addr]);
                if entry.len() == 0 {
                    return true;
                }
                let last = entry[entry.len() - 1];
                if last > now {
                    return false;
                }
                if entry.len() != MAX_FAILURES || now - last > TIMEOUT {
                    return true;
                }
                let mut i: usize = 1;
                while i < entry.len()
                    invariant
                        1 <= i <= entry.len(),
                        entry@ == e,
                        e.len() == MAX_FAILURES,
                        e.last() == last,
                        last <= now,
                        now - last <= TIMEOUT,
                        self@.contains_key(addr),
                        e == self@[addr],
                        forall|a: int, b: int| 0 <= a <= b < i ==> e[a] <= e[b],
                    decreases entry.len() - i,
                {
                    if entry[i - 1] > entry[i] {
                        assert(!in_order(e)) by {
                            assert(e[i - 1] > e[i as int]);
                        }
                        return false;
                    }
                    proof {
                        assert forall|a: int, b: int| 0 <= a <= b < i + 1 implies #[trigger] e[a] <= #[trigger] e[b] by {
                            if b == i && a < i {
                                assert(e[a] <= e[i - 1]);
                            }
                        }
                    }
                    i = i + 1;
                }
                true
            },
            None => true,
        }
    }

    /// True when `addr` is refused at `now`.
    pub fn is_timeouted(&self, addr: u128, now: u64) -> (r: bool)
        requires
            clock_ok(self@, addr, now),
        ensures
            r == timeouted(self@, addr, now),
    {
        proof { use_type_invariant(self); }
        match self.failures.get(&addr) {
            Some(entry) => {
                let ghost e = entry@;
                assert(self@.contains_key(addr));
                assert(e == self@[addr]);
                if entry.len() > 0 {
                    let last = entry[entry.len() - 1];
                    if now - last > TIMEOUT {
                        return false;
                    }
                }
                if entry.len() == MAX_FAILURES {
                    let mut diff: u64 = 0;
                    let mut i: usize = 1;
                    while i < entry.len()
                        invariant
                            1 <= i <= entry.len(),
                            entry@ == e,
                            e.len() == MAX_FAILURES,
                            forall|a: int, b: int| 0 <= a <= b < e.len() ==> e[a] <= e[b],
                            diff == e[i - 1] - e[0],
                        decreases entry.len() - i,
                    {
                        diff = diff + (entry[i] - entry[i - 1]);
                        i = i + 1;
                    }
                    if diff < TIMEOUT {
                        return true;
                    }
                }
                false
            },
            None => false,
        }
    }

    /// Decides on a request from `addr` at `now` that carries `token`, when
    /// the server's token is `expected`: a refused address is answered
    /// "too many requests" whatever its token; a right token is served; a
    /// wrong one is answered "unauthorized" and remembered.
    pub fn check_request(&mut self, addr: u128, token: &String, expected: &String, now: u64) -> (r: AuthDecision)
        requires
            clock_ok(old(self)@, addr, now),
        ensures
            timeouted(old(self)@, addr, now) ==> r == AuthDecision::TooManyRequests && final(self)@ == old(self)@,
            !timeouted(old(self)@, addr, now) && token@ == expected@ ==> r == AuthDecision::Authorized && final(self)@ == old(self)@,
            !timeouted(old(self)@, addr, now) && token@ != expected@ ==> r == AuthDecision::Unauthorized && final(self)@ == record(old(self)@, addr, now),
    {
        if self.is_timeouted(addr, now) {
            return AuthDecision::TooManyRequests;
        }
        if token.eq(expected) {
            AuthDecision::Authorized
        } else {
            self.timeout(addr, now);
            AuthDecision::Unauthorized
        }
    }
}

/// One more remembered failure keeps the newest failures at the end.
proof fn lemma_suffix_step(m: Map<u128, Seq<u64>>, addr: u128, k: int, ts: Seq<u64>, t: u64)
    requires
        0 <= k < MAX_FAILURES,
        ts.len() == k,
        k == 0 || m.contains_key(addr),
        m.contains_key(addr) ==> {
            let e = m[addr];
            &&& k <= e.len() <= MAX_FAILURES
            &&& e.skip(e.len() - k) == ts
        },
    ensures
        ({
            let n = failures_after(m, addr, t);
            &&& k + 1 <= n.len() <= MAX_FAILURES
            &&& n.skip(n.len() - (k + 1)) == ts.push(t)
        }),
{
    let n = failures_after(m, addr, t);
    if m.contains_key(addr) {
        let e = m[addr];
        let p = e.push(t);
        if p.len() > MAX_FAILURES {
            assert(n.skip(n.len() - (k + 1)) =~= p.skip(p.len() - (k + 1)));
        }
        assert(p.skip(p.len() - (k + 1)) =~= e.skip(e.len() - k).push(t));
    } else {
        assert(n.skip(n.len() - (k + 1)) =~= seq![t]);
        assert(ts =~= Seq::<u64>::empty());
        assert(ts.push(t) =~= seq![t]);
    }
}

/// Five wrong tokens from one address, all within less than a minute, lock
/// that address out until a minute after the last of them: whatever had been
/// remembered before, a request at any `now` up to a minute after the fifth
/// failure is refused.
pub proof fn lemma_five_failures_lock_out(
    m: Map<u128, Seq<u64>>,
    addr: u128,
    t1: u64,
    t2: u64,
    t3: u64,
    t4: u64,
    t5: u64,
    now: u64,
)
    requires
        well_kept(m),
        t1 <= t2 <= t3 <= t4 <= t5 <= now,
        t5 - t1 < TIMEOUT,
        now - t5 <= TIMEOUT,
    ensures
        timeouted(
            record(record(record(record(record(m, addr, t1), addr, t2), addr, t3), addr, t4), addr, t5),
            addr,
            now,
        ),
{
    let m1 = record(m, addr, t1);
    let m2 = record(m1, addr, t2);
    let m3 = record(m2, addr, t3);
    let m4 = record(m3, addr, t4);
    let m5 = record(m4, addr, t5);
    if m.contains_key(addr) {
        assert(m[addr].skip(m[addr].len() - 0) =~= Seq::<u64>::empty());
    }
    lemma_suffix_step(m, addr, 0, Seq::<u64>::empty(), t1);
    lemma_suffix_step(m1, addr, 1, seq![t1], t2);
    assert(seq![t1].push(t2) =~= seq![t1, t2]);
    lemma_suffix_step(m2, addr, 2, seq![t1, t2], t3);
    assert(seq![t1, t2].push(t3) =~= seq![t1, t2, t3]);
    lemma_suffix_step(m3, addr, 3, seq![t1, t2, t3], t4);
    assert(seq![t1, t2, t3].push(t4) =~= seq![t1, t2, t3, t4]);
    lemma_suffix_step(m4, addr, 4, seq![t1, t2, t3, t4], t5);
    assert(seq![t1, t2, t3, t4].push(t5) =~= seq![t1, t2, t3, t4, t5]);
    let e = m5[addr];
    assert(e.len() == MAX_FAILURES);
    assert(e =~= e.skip(0));
    assert(e =~= seq![t1, t2, t3, t4, t5]);
}

/// A wrong token from one address changes nothing for any other address.
pub proof fn lemma_other_addresses_unaffected(m: Map<u128, Seq<u64>>, addr: u128, other: u128, t: u64, now: u64)
    requires
        addr != other,
    ensures
        record(m, addr, t).contains_key(other) == m.contains_key(other),
        m.contains_key(other) ==> record(m, addr, t)[other] == m[other],
        timeouted(record(m, addr, t), other, now) == timeouted(m, other, now),
{
}

/// An address is refused at most a minute after its last wrong token.
pub proof fn lemma_lock_out_expires(m: Map<u128, Seq<u64>>, addr: u128, now: u64)
    requires
        m.contains_key(addr) && m[addr].len() > 0 ==> now > m[addr].last() + TIMEOUT,
    ensures
        !timeouted(m, addr, now),
{
}

/// An address with fewer than five remembered wrong tokens is never refused.
pub proof fn lemma_few_failures_not_refused(m: Map<u128, Seq<u64>>, addr: u128, now: u64)
    requires
        m.contains_key(addr) ==> m[addr].len() < MAX_FAILURES,
    ensures
        !timeouted(m, addr, now),
{
}

} // verus!
