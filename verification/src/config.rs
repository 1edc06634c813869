//! Execution parameters for one job: the base image the sandbox is derived
//! from, the stdin payload, the per-stage wall-clock and memory bounds, and
//! the extra environment entries merged into the sandbox's environment
//! (keys unique, last write wins).

use vstd::prelude::*;

verus! {

/// Default per-stage wall-clock budget, in seconds.
pub const DEFAULT_TIME_LIMIT: u64 = 2;

/// Default per-stage memory bound, in kilobytes.
pub const DEFAULT_MEMORY_LIMIT: u64 = 262144;

/// The environment entries as mathematical pairs of character sequences.
pub open spec fn env_pairs_model(s: Seq<(String, String)>) -> Seq<(Seq<char>, Seq<char>)> {
    s.map_values(|p: (String, String)| (p.0@, p.1@))
}

/// No two entries share a key.
pub open spec fn keys_unique(s: Seq<(Seq<char>, Seq<char>)>) -> bool {
    forall|i: int, j: int| 0 <= i < j < s.len() ==> (#[trigger] s[i]).0 != (#[trigger] s[j]).0
}

/// The value bound to `key`, if any entry carries it.
pub open spec fn env_lookup(s: Seq<(Seq<char>, Seq<char>)>, key: Seq<char>) -> Option<Seq<char>> {
    if exists|i: int| 0 <= i < s.len() && (#[trigger] s[i]).0 == key {
        Some(s[choose|i: int| 0 <= i < s.len() && (#[trigger] s[i]).0 == key].1)
    } else {
        None
    }
}

proof fn lemma_lookup_at(s: Seq<(Seq<char>, Seq<char>)>, i: int)
    requires
        keys_unique(s),
        0 <= i < s.len(),
    ensures
        env_lookup(s, s[i].0) == Some(s[i].1),
{
    let k = s[i].0;
    assert(0 <= i < s.len() && s[i].0 == k);
    let j = choose|j: int| 0 <= j < s.len() && (#[trigger] s[j]).0 == k;
    assert(s[j].0 == k);
    if i < j {
        assert(s[i].0 != s[j].0);
    } else if j < i {
        assert(s[j].0 != s[i].0);
    }
}

proof fn lemma_lookup_absent(s: Seq<(Seq<char>, Seq<char>)>, k: Seq<char>)
    requires
        forall|i: int| 0 <= i < s.len() ==> (#[trigger] s[i]).0 != k,
    ensures
        env_lookup(s, k) == None::<Seq<char>>,
{
}

proof fn lemma_lookup_update_other(s: Seq<(Seq<char>, Seq<char>)>, i: int, v: Seq<char>, k: Seq<char>)
    requires
        keys_unique(s),
        0 <= i < s.len(),
        k != s[i].0,
    ensures
        env_lookup(s.update(i, (s[i].0, v)), k) == env_lookup(s, k),
{
    let s2 = s.update(i, (s[i].0, v));
    assert(forall|l: int| 0 <= l < s.len() ==> (#[trigger] s2[l]).0 == s[l].0);
    if exists|l: int| 0 <= l < s.len() && (#[trigger] s[l]).0 == k {
        let l1 = choose|l: int| 0 <= l < s.len() && (#[trigger] s[l]).0 == k;
        assert(s2[l1].0 == k);
        let l2 = choose|l: int| 0 <= l < s2.len() && (#[trigger] s2[l]).0 == k;
        if l1 < l2 {
            assert(s[l1].0 != s[l2].0);
        } else if l2 < l1 {
            assert(s[l2].0 != s[l1].0);
        }
        assert(l1 != i);
        assert(s2[l2].1 == s[l1].1);
    } else {
        assert(forall|l: int| 0 <= l < s2.len() ==> (#[trigger] s2[l]).0 != k);
    }
}

proof fn lemma_lookup_push_other(s: Seq<(Seq<char>, Seq<char>)>, p: (Seq<char>, Seq<char>), k: Seq<char>)
    requires
        keys_unique(s),
        k != p.0,
    ensures
        env_lookup(s.push(p), k) == env_lookup(s, k),
{
    let s2 = s.push(p);
    assert(forall|l: int| 0 <= l < s.len() ==> (#[trigger] s2[l]) == s[l]);
    if exists|l: int| 0 <= l < s.len() && (#[trigger] s[l]).0 == k {
        let l1 = choose|l: int| 0 <= l < s.len() && (#[trigger] s[l]).0 == k;
        assert(s2[l1].0 == k);
        let l2 = choose|l: int| 0 <= l < s2.len() && (#[trigger] s2[l]).0 == k;
        assert(l2 < s.len());
        if l1 < l2 {
            assert(s[l1].0 != s[l2].0);
        } else if l2 < l1 {
            assert(s[l2].0 != s[l1].0);
        }
        assert(s2[l2].1 == s[l1].1);
    } else {
        assert(forall|l: int| 0 <= l < s2.len() ==> (#[trigger] s2[l]).0 != k);
    }
}

/// Execution parameters for one job. The limits are positive; the
/// environment entries carry unique keys. `memory_reserved` is a soft
/// pre-allocation hint only — the engine accepts any value for it,
/// including one above `memory_limit`, and never fails on its account.
pub struct Config {
    pub image: String,
    pub stdin: String,
    pub time_limit: u64,
    pub memory_limit: u64,
    pub memory_reserved: u64,
    pub env: Vec<(String, String)>,
}

impl Config {
    /// Well-formedness: positive limits, environment keys unique.
    pub open spec fn wf(self) -> bool {
        &&& self.time_limit >= 1
        &&& self.memory_limit >= 1
        &&& keys_unique(env_pairs_model(self.env@))
    }

    /// The environment as it will be merged into the sandbox.
    pub open spec fn env_model(self) -> Seq<(Seq<char>, Seq<char>)> {
        env_pairs_model(self.env@)
    }

    /// A configuration for `image` with stdin payload `stdin`, the default
    /// limits, no reservation hint, and no extra environment entries.
    pub fn new(image: String, stdin: String) -> (c: Config)
        ensures
            c.wf(),
            c.image@ == image@,
            c.stdin@ == stdin@,
            c.time_limit == DEFAULT_TIME_LIMIT,
            c.memory_limit == DEFAULT_MEMORY_LIMIT,
            c.memory_reserved == 0,
            c.env@.len() == 0,
    {
        Config {
            image,
            stdin,
            time_limit: DEFAULT_TIME_LIMIT,
            memory_limit: DEFAULT_MEMORY_LIMIT,
            memory_reserved: 0,
            env: Vec::new(),
        }
    }

    /// The pre-allocation hint actually forwarded to the isolator: never
    /// above the hard memory bound, so a configuration whose reservation
    /// exceeds its limit degrades gracefully instead of failing.
    pub fn effective_reservation(&self) -> (r: u64)
        ensures
            r == if self.memory_reserved <= self.memory_limit {
                self.memory_reserved
            } else {
                self.memory_limit
            },
            r <= self.memory_limit,
    {
        if self.memory_reserved <= self.memory_limit {
            self.memory_reserved
        } else {
            self.memory_limit
        }
    }

    /// Binds `key` to `value` in the environment, replacing any existing
    /// binding of the same key and leaving every other key's binding as it
    /// was.
    pub fn env_set(&mut self, key: String, value: String)
        requires
            old(self).wf(),
        ensures
            final(self).wf(),
            env_lookup(final(self).env_model(), key@) == Some(value@),
            forall|k: Seq<char>|
                k != key@ ==> env_lookup(final(self).env_model(), k) == env_lookup(
                    old(self).env_model(),
                    k,
                ),
            final(self).image@ == old(self).image@,
            final(self).stdin@ == old(self).stdin@,
            final(self).time_limit == old(self).time_limit,
            final(self).memory_limit == old(self).memory_limit,
            final(self).memory_reserved == old(self).memory_reserved,
    {
        let n = self.env.len();
        let mut i: usize = 0;
        while i < n
            invariant
                n == self.env.len(),
                i <= n,
                old(self).wf(),
                *self == *old(self),
                forall|l: int| 0 <= l < i ==> (#[trigger] env_pairs_model(self.env@)[l]).0 != key@,
            decreases n - i,
        {
            if self.env[i].0 == key {
                let ghost m1 = env_pairs_model(self.env@);
                self.env.set(i, (key, value));
                proof {
                    let m2 = env_pairs_model(self.env@);
                    assert(m2 =~= m1.update(i as int, (key@, value@)));
                    assert(m1[i as int].0 == key@);
                    assert(m2 =~= m1.update(i as int, (m1[i as int].0, value@)));
                    assert(keys_unique(m2)) by {
                        assert(forall|l: int| 0 <= l < m1.len() ==> (#[trigger] m2[l]).0 == m1[l].0);
                    }
                    lemma_lookup_at(m2, i as int);
                    assert forall|k: Seq<char>| k != key@ implies env_lookup(m2, k) == env_lookup(
                        m1,
                        k,
                    ) by {
                        lemma_lookup_update_other(m1, i as int, value@, k);
                    }
                }
                return ;
            }
            i = i + 1;
        }
        let ghost m1 = env_pairs_model(self.env@);
        self.env.push((key, value));
        proof {
            let m2 = env_pairs_model(self.env@);
            assert(m2 =~= m1.push((key@, value@)));
            assert(forall|l: int| 0 <= l < m1.len() ==> (#[trigger] m1[l]).0 != key@);
            assert(keys_unique(m2)) by {
                assert(forall|l: int| 0 <= l < m1.len() ==> (#[trigger] m2[l]) == m1[l]);
            }
            lemma_lookup_at(m2, m1.len() as int);
            assert forall|k: Seq<char>| k != key@ implies env_lookup(m2, k) == env_lookup(
                m1,
                k,
            ) by {
                lemma_lookup_push_other(m1, (key@, value@), k);
            }
        }
    }
}

} // verus!
