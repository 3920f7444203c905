//! Per-account nonce sequencing.
//!
//! The sequencer caches the last nonce known to have been consumed on-ledger
//! for each account.  `next_nonce` issues the cached value plus one, falling
//! back to a network-observed transaction count when no cache exists;
//! `record_confirmed` advances the cache monotonically and only ever after a
//! transaction is confirmed, never on mere submission.

use vstd::prelude::*;

verus! {

/// One cached account: the raw 20-byte account address and the last nonce
/// confirmed as consumed for it.
pub struct NonceEntry {
    pub account: Vec<u8>,
    pub last_used: u64,
}

/// The cached nonce of `a` in an entry list: the `last_used` of the first
/// entry whose account is `a`, if any.
pub open spec fn lookup(s: Seq<NonceEntry>, a: Seq<u8>) -> Option<u64>
    decreases s.len(),
{
    if s.len() == 0 {
        None
    } else if s[0].account@ == a {
        Some(s[0].last_used)
    } else {
        lookup(s.drop_first(), a)
    }
}

/// The nonce that a sequencer with cache `m` issues for account `a` when the
/// network reports `observed` transactions: the cached value plus one, or the
/// observed count when nothing is cached.
pub open spec fn next_nonce_spec(m: Map<Seq<u8>, u64>, a: Seq<u8>, observed: u64) -> u64 {
    if m.contains_key(a) {
        (m[a] + 1) as u64
    } else {
        observed
    }
}

/// The cache after a confirmation of `nonce` for account `a`: the entry for
/// `a` becomes the maximum of the existing value and `nonce`.
pub open spec fn record_spec(m: Map<Seq<u8>, u64>, a: Seq<u8>, nonce: u64) -> Map<Seq<u8>, u64> {
    m.insert(
        a,
        if m.contains_key(a) && m[a] > nonce {
            m[a]
        } else {
            nonce
        },
    )
}

/// The process-wide nonce cache, a mapping from account address bytes to the
/// last nonce confirmed as consumed for that account.
pub struct NonceSequencer {
    entries: Vec<NonceEntry>,
}

impl View for NonceSequencer {
    type V = Map<Seq<u8>, u64>;

    closed spec fn view(&self) -> Map<Seq<u8>, u64> {
        Map::new(
            |a: Seq<u8>| lookup(self.entries@, a) is Some,
            |a: Seq<u8>| lookup(self.entries@, a).unwrap(),
        )
    }
}

/// A first match at position `i` (with no earlier match) is what `lookup`
/// returns.
proof fn lemma_lookup_first_match(s: Seq<NonceEntry>, i: int)
    requires
        0 <= i < s.len(),
        forall|j: int| 0 <= j < i ==> s[j].account@ != s[i].account@,
    ensures
        lookup(s, s[i].account@) == Some(s[i].last_used),
    decreases s.len(),
{
    if i > 0 {
        lemma_lookup_first_match(s.drop_first(), i - 1);
    }
}

/// When no entry matches `a`, `lookup` finds nothing.
proof fn lemma_lookup_none(s: Seq<NonceEntry>, a: Seq<u8>)
    requires
        forall|j: int| 0 <= j < s.len() ==> s[j].account@ != a,
    ensures
        lookup(s, a) is None,
    decreases s.len(),
{
    if s.len() > 0 {
        lemma_lookup_none(s.drop_first(), a);
    }
}

/// Replacing the first entry of account `a` with another entry of the same
/// account changes the cached value of `a` and of no other account.
proof fn lemma_lookup_update(s: Seq<NonceEntry>, i: int, e2: NonceEntry, b: Seq<u8>)
    requires
        0 <= i < s.len(),
        e2.account@ == s[i].account@,
        forall|j: int| 0 <= j < i ==> s[j].account@ != s[i].account@,
    ensures
        lookup(s.update(i, e2), b) == if b == s[i].account@ {
            Some(e2.last_used)
        } else {
            lookup(s, b)
        },
    decreases s.len(),
{
    let s2 = s.update(i, e2);
    if i == 0 {
        if b != s[0].account@ {
            assert(s2.drop_first() =~= s.drop_first());
        }
    } else {
        assert(s2[0] == s[0]);
        if b != s[0].account@ {
            assert(s2.drop_first() =~= s.drop_first().update(i - 1, e2));
            lemma_lookup_update(s.drop_first(), i - 1, e2, b);
        }
    }
}

/// Appending an entry leaves every cached account as it was and caches the
/// new account only when it was absent.
proof fn lemma_lookup_push(s: Seq<NonceEntry>, e: NonceEntry, b: Seq<u8>)
    ensures
        lookup(s.push(e), b) == if lookup(s, b) is Some {
            lookup(s, b)
        } else if e.account@ == b {
            Some(e.last_used)
        } else {
            None::<u64>
        },
    decreases s.len(),
{
    if s.len() == 0 {
        assert(lookup(s, b) is None);
        assert(s.push(e)[0] == e);
        assert(s.push(e).drop_first() =~= Seq::<NonceEntry>::empty());
        assert(lookup(Seq::<NonceEntry>::empty(), b) is None);
    } else {
        assert(s.push(e)[0] == s[0]);
        if b != s[0].account@ {
            assert(s.push(e).drop_first() =~= s.drop_first().push(e));
            lemma_lookup_push(s.drop_first(), e, b);
        }
    }
}

/// Byte-for-byte equality of two byte vectors.
pub fn bytes_eq(x: &Vec<u8>, y: &Vec<u8>) -> (r: bool)
    ensures
        r == (x@ == y@),
{
    if x.len() != y.len() {
        return false;
    }
    let mut i: usize = 0;
    while i < x.len()
        invariant
            0 <= i <= x@.len(),
            x@.len() == y@.len(),
            forall|j: int| 0 <= j < i ==> x@[j] == y@[j],
        decreases x@.len() - i,
    {
        if x[i] != y[i] {
            return false;
        }
        i = i + 1;
    }
    proof {
        assert(x@ =~= y@);
    }
    true
}

impl NonceSequencer {
    /// A sequencer with nothing cached.
    pub fn new() -> (r: NonceSequencer)
        ensures
            r@ == Map::<Seq<u8>, u64>::empty(),
    {
        let r = NonceSequencer { entries: Vec::new() };
        proof {
            assert(r@ =~= Map::<Seq<u8>, u64>::empty());
        }
        r
    }

    /// The position of the first entry for `account`, if one exists.
    fn find(&self, account: &Vec<u8>) -> (r: Option<usize>)
        ensures
            r matches Some(i) ==> {
                &&& i < self.entries@.len()
                &&& self.entries@[i as int].account@ == account@
                &&& forall|j: int| 0 <= j < i ==> self.entries@[j].account@ != account@
                &&& lookup(self.entries@, account@) == Some(self.entries@[i as int].last_used)
            },
            r is None ==> lookup(self.entries@, account@) is None,
    {
        let mut i: usize = 0;
        while i < self.entries.len()
            invariant
                0 <= i <= self.entries@.len(),
                forall|j: int| 0 <= j < i ==> self.entries@[j].account@ != account@,
            decreases self.entries@.len() - i,
        {
            if bytes_eq(&self.entries[i].account, account) {
                proof {
                    lemma_lookup_first_match(self.entries@, i as int);
                }
                return Some(i);
            }
            i = i + 1;
        }
        proof {
            lemma_lookup_none(self.entries@, account@);
        }
        None
    }

    /// The cached last-used nonce for `account`, if one exists.
    pub fn cached(&self, account: &Vec<u8>) -> (r: Option<u64>)
        ensures
            r is Some <==> self@.contains_key(account@),
            r matches Some(v) ==> v == self@[account@],
    {
        match self.find(account) {
            Some(i) => Some(self.entries[i].last_used),
            None => None,
        }
    }

    /// The next nonce to use for `account`: one past the cached value, or
    /// the network-observed transaction count when nothing is cached.  The
    /// issued nonce always exceeds the cached value, so a nonce confirmed as
    /// consumed is never reissued.
    pub fn next_nonce(&self, account: &Vec<u8>, observed: u64) -> (r: u64)
        requires
            self@.contains_key(account@) ==> self@[account@] < u64::MAX,
        ensures
            r == next_nonce_spec(self@, account@, observed),
    {
        match self.cached(account) {
            Some(last) => last + 1,
            None => observed,
        }
    }

    /// Records that `nonce` was confirmed as consumed for `account`: the
    /// cache advances to the maximum of its current value and `nonce`, and
    /// never regresses.  No other account's cache changes.
    pub fn record_confirmed(&mut self, account: &Vec<u8>, nonce: u64)
        ensures
            final(self)@ == record_spec(old(self)@, account@, nonce),
    {
        let ghost pre = self.entries@;
        match self.find(account) {
            Some(i) => {
                let existing = self.entries[i].last_used;
                let updated = if existing > nonce {
                    existing
                } else {
                    nonce
                };
                self.entries[i].last_used = updated;
                proof {
                    let e2 = self.entries@[i as int];
                    assert(self.entries@ =~= pre.update(i as int, e2));
                    assert forall|b: Seq<u8>|
                        lookup(self.entries@, b) == if b == account@ {
                            Some(e2.last_used)
                        } else {
                            lookup(pre, b)
                        } by {
                        lemma_lookup_update(pre, i as int, e2, b);
                    }
                    assert(self@ =~= record_spec(old(self)@, account@, nonce));
                }
            },
            None => {
                let entry = NonceEntry { account: account.clone(), last_used: nonce };
                let ghost ge = entry;
                self.entries.push(entry);
                proof {
                    assert forall|b: Seq<u8>|
                        lookup(self.entries@, b) == if lookup(pre, b) is Some {
                            lookup(pre, b)
                        } else if account@ == b {
                            Some(nonce)
                        } else {
                            None::<u64>
                        } by {
                        lemma_lookup_push(pre, ge, b);
                    }
                    assert(self@ =~= record_spec(old(self)@, account@, nonce));
                }
            },
        }
    }
}

/// Two `next_nonce` issues with the confirmed first result recorded in
/// between form a strictly increasing sequence: the second issue is exactly
/// one past the first, whatever transaction count the network reports.
pub proof fn lemma_nonce_strictly_increasing(
    m: Map<Seq<u8>, u64>,
    a: Seq<u8>,
    observed1: u64,
    observed2: u64,
)
    requires
        m.contains_key(a) ==> m[a] < u64::MAX,
        next_nonce_spec(m, a, observed1) < u64::MAX,
    ensures
        next_nonce_spec(record_spec(m, a, next_nonce_spec(m, a, observed1)), a, observed2)
            == next_nonce_spec(m, a, observed1) + 1,
{
}

/// A nonce confirmed as consumed is never reissued: the next issue strictly
/// exceeds the cached value.
pub proof fn lemma_no_reissue(m: Map<Seq<u8>, u64>, a: Seq<u8>, observed: u64)
    requires
        m.contains_key(a),
        m[a] < u64::MAX,
    ensures
        next_nonce_spec(m, a, observed) > m[a],
{
}

/// Retry safety: when no confirmation is recorded between two issues, the
/// cache is unchanged and both issues return the same nonce.
pub proof fn lemma_retry_reuses_nonce(
    m: Map<Seq<u8>, u64>,
    a: Seq<u8>,
    observed: u64,
    r1: u64,
    r2: u64,
)
    requires
        r1 == next_nonce_spec(m, a, observed),
        r2 == next_nonce_spec(m, a, observed),
    ensures
        r1 == r2,
{
}

/// The cache is monotonic: recording a lower nonce after a higher one leaves
/// the cache at the higher value.
pub proof fn lemma_record_monotonic(m: Map<Seq<u8>, u64>, a: Seq<u8>, n1: u64, n2: u64)
    requires
        n2 <= n1,
    ensures
        record_spec(record_spec(m, a, n1), a, n2) == record_spec(m, a, n1),
{
    let m1 = record_spec(m, a, n1);
    assert(record_spec(m1, a, n2) =~= m1);
}

} // verus!
