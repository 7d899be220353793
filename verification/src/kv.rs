//! The storage shape every ledger map shares: an association table with
//! unique keys, held as a vector of entries. A key is up to three 128-bit
//! words (an account, a pair of accounts, or a 256-bit token id and an
//! account); absence of an entry is the only representation of "nothing".

use vstd::prelude::*;

use crate::actor::ActorId;
use crate::u256::NonZeroU256;

verus! {

/// A lookup key: three 128-bit words. Maps with narrower keys leave the
/// unused words zero.
pub type Key = (u128, u128, u128);

/// An association table with unique keys.
pub struct Table<V> {
    pub entries: Vec<(Key, V)>,
}

/// Whether some entry of `s` has key `k`.
pub open spec fn tbl_contains<V>(s: Seq<(Key, V)>, k: Key) -> bool
    decreases s.len(),
{
    s.len() != 0 && (s[0].0 == k || tbl_contains(s.drop_first(), k))
}

/// The value stored under `k`, if any (the first match; a well-formed table
/// has at most one).
pub open spec fn tbl_get<V>(s: Seq<(Key, V)>, k: Key) -> Option<V>
    decreases s.len(),
{
    if s.len() == 0 {
        None
    } else if s[0].0 == k {
        Some(s[0].1)
    } else {
        tbl_get(s.drop_first(), k)
    }
}

/// A table is well formed when no key occurs twice.
pub open spec fn tbl_wf<V>(s: Seq<(Key, V)>) -> bool {
    forall|i: int, j: int| 0 <= i < j < s.len() ==> (#[trigger] s[i]).0 != (#[trigger] s[j]).0
}

/// A key is present exactly when some index holds it.
pub proof fn lemma_contains_index<V>(s: Seq<(Key, V)>, k: Key)
    ensures
        tbl_contains(s, k) <==> exists|i: int| 0 <= i < s.len() && (#[trigger] s[i]).0 == k,
    decreases s.len(),
{
    if s.len() != 0 {
        lemma_contains_index(s.drop_first(), k);
        if s[0].0 == k {
            assert(s[0].0 == k);
        } else if tbl_contains(s.drop_first(), k) {
            let i = choose|i: int|
                0 <= i < s.drop_first().len() && (#[trigger] s.drop_first()[i]).0 == k;
            assert(s[i + 1].0 == k);
        } else {
            assert forall|i: int| 0 <= i < s.len() implies (#[trigger] s[i]).0 != k by {
                if i > 0 {
                    assert(s.drop_first()[i - 1] == s[i]);
                }
            }
        }
    }
}

/// A key is present exactly when lookup finds a value.
pub proof fn lemma_contains_iff_get<V>(s: Seq<(Key, V)>, k: Key)
    ensures
        tbl_contains(s, k) <==> tbl_get(s, k) is Some,
    decreases s.len(),
{
    if s.len() != 0 {
        lemma_contains_iff_get(s.drop_first(), k);
    }
}

/// What appending one entry does to lookups.
pub proof fn lemma_get_push<V>(s: Seq<(Key, V)>, k0: Key, v0: V, k: Key)
    ensures
        tbl_get(s.push((k0, v0)), k) == if k == k0 && !tbl_contains(s, k) {
            Some(v0)
        } else {
            tbl_get(s, k)
        },
        tbl_contains(s.push((k0, v0)), k) <==> (k == k0 || tbl_contains(s, k)),
    decreases s.len(),
{
    assert(s.push((k0, v0))[0] == if s.len() == 0 {
        (k0, v0)
    } else {
        s[0]
    });
    if s.len() == 0 {
        assert(s.push((k0, v0)).drop_first() =~= Seq::<(Key, V)>::empty());
        assert(!tbl_contains(s.push((k0, v0)).drop_first(), k));
        assert(tbl_get(s.push((k0, v0)).drop_first(), k) is None);
    } else {
        assert(s.push((k0, v0)).drop_first() =~= s.drop_first().push((k0, v0)));
        lemma_get_push(s.drop_first(), k0, v0, k);
    }
}

/// What removing the entry at index `i` does to lookups, in a well-formed
/// table.
pub proof fn lemma_get_remove<V>(s: Seq<(Key, V)>, i: int, k: Key)
    requires
        tbl_wf(s),
        0 <= i < s.len(),
    ensures
        tbl_get(s.remove(i), k) == if s[i].0 == k {
            None::<V>
        } else {
            tbl_get(s, k)
        },
        tbl_contains(s.remove(i), k) <==> (s[i].0 != k && tbl_contains(s, k)),
    decreases s.len(),
{
    if i == 0 {
        assert(s.remove(0) =~= s.drop_first());
        if s[0].0 == k {
            lemma_contains_index(s.drop_first(), k);
            assert forall|j: int|
                0 <= j < s.drop_first().len() implies (#[trigger] s.drop_first()[j]).0 != k by {
                assert(s.drop_first()[j] == s[j + 1]);
            }
            lemma_contains_iff_get(s.drop_first(), k);
        }
    } else {
        assert(s.remove(i).drop_first() =~= s.drop_first().remove(i - 1));
        assert(s.drop_first()[i - 1] == s[i]);
        lemma_get_remove(s.drop_first(), i - 1, k);
    }
}

/// Appending a fresh key keeps a table well formed.
pub proof fn lemma_wf_push<V>(s: Seq<(Key, V)>, k0: Key, v0: V)
    requires
        tbl_wf(s),
        !tbl_contains(s, k0),
    ensures
        tbl_wf(s.push((k0, v0))),
{
    lemma_contains_index(s, k0);
}

/// Removing an entry keeps a table well formed.
pub proof fn lemma_wf_remove<V>(s: Seq<(Key, V)>, i: int)
    requires
        tbl_wf(s),
        0 <= i < s.len(),
    ensures
        tbl_wf(s.remove(i)),
{
    assert forall|a: int, b: int|
        0 <= a < b < s.remove(i).len() implies (#[trigger] s.remove(i)[a]).0 != (#[trigger] s.remove(
        i,
    )[b]).0 by {
        let a0 = if a < i {
            a
        } else {
            a + 1
        };
        let b0 = if b < i {
            b
        } else {
            b + 1
        };
        assert(s.remove(i)[a] == s[a0]);
        assert(s.remove(i)[b] == s[b0]);
    }
}

impl<V> Table<V> {
    /// The empty table.
    pub fn new() -> (r: Table<V>)
        ensures
            r.entries@.len() == 0,
            tbl_wf(r.entries@),
    {
        Table { entries: Vec::new() }
    }

    /// The index of the entry holding `k`, if any.
    fn index_of(&self, k: Key) -> (r: Option<usize>)
        ensures
            r matches Some(i) ==> i < self.entries@.len() && self.entries@[i as int].0 == k,
            (r is Some) <==> tbl_contains(self.entries@, k),
    {
        let n = self.entries.len();
        let mut i: usize = 0;
        while i < n
            invariant
                i <= n,
                n == self.entries@.len(),
                forall|j: int| 0 <= j < i ==> (#[trigger] self.entries@[j]).0 != k,
            decreases n - i,
        {
            let e = &self.entries[i];
            if e.0.0 == k.0 && e.0.1 == k.1 && e.0.2 == k.2 {
                proof {
                    lemma_contains_index(self.entries@, k);
                }
                return Some(i);
            }
            i = i + 1;
        }
        proof {
            lemma_contains_index(self.entries@, k);
        }
        None
    }

    /// Whether any entry holds `k`.
    pub fn contains_key(&self, k: Key) -> (r: bool)
        ensures
            r <==> tbl_contains(self.entries@, k),
    {
        self.index_of(k).is_some()
    }

    /// A reference to the value under `k`, if any.
    pub fn get(&self, k: Key) -> (r: Option<&V>)
        requires
            tbl_wf(self.entries@),
        ensures
            match r {
                Some(v) => tbl_get(self.entries@, k) == Some(*v),
                None => tbl_get(self.entries@, k) is None,
            },
    {
        proof {
            lemma_contains_iff_get(self.entries@, k);
        }
        match self.index_of(k) {
            Some(i) => {
                proof {
                    lemma_get_at_index(self.entries@, i as int);
                }
                Some(&self.entries[i].1)
            },
            None => None,
        }
    }

    /// Binds `k` to `v`, replacing any previous entry.
    pub fn insert(&mut self, k: Key, v: V)
        requires
            tbl_wf(old(self).entries@),
        ensures
            tbl_wf(final(self).entries@),
            tbl_get(final(self).entries@, k) == Some(v),
            tbl_contains(final(self).entries@, k),
            forall|k2: Key| k2 != k ==> tbl_get(final(self).entries@, k2) == tbl_get(
                old(self).entries@,
                k2,
            ),
            forall|k2: Key|
                k2 != k ==> (tbl_contains(final(self).entries@, k2) <==> tbl_contains(
                    old(self).entries@,
                    k2,
                )),
            !tbl_contains(old(self).entries@, k) ==> final(self).entries@ == old(self).entries@.push(
                (k, v),
            ),
            tbl_contains(old(self).entries@, k) ==> exists|i: int|
                0 <= i < old(self).entries@.len() && old(self).entries@[i].0 == k && final(self).entries@
                    == #[trigger] old(self).entries@.remove(i).push((k, v)),
    {
        let ghost s0 = self.entries@;
        match self.index_of(k) {
            Some(i) => {
                self.entries.remove(i);
                proof {
                    lemma_wf_remove(s0, i as int);
                    lemma_get_remove(s0, i as int, k);
                    lemma_wf_push(s0.remove(i as int), k, v);
                }
                self.entries.push((k, v));
                proof {
                    assert forall|k2: Key| k2 != k implies tbl_get(self.entries@, k2) == tbl_get(
                        s0,
                        k2,
                    ) && (tbl_contains(self.entries@, k2) <==> tbl_contains(s0, k2)) by {
                        lemma_get_remove(s0, i as int, k2);
                        lemma_get_push(s0.remove(i as int), k, v, k2);
                        lemma_contains_iff_get(s0, k2);
                        lemma_contains_iff_get(self.entries@, k2);
                    }
                    lemma_get_push(s0.remove(i as int), k, v, k);
                }
            },
            None => {
                self.entries.push((k, v));
                proof {
                    lemma_wf_push(s0, k, v);
                    assert forall|k2: Key| k2 != k implies tbl_get(self.entries@, k2) == tbl_get(
                        s0,
                        k2,
                    ) && (tbl_contains(self.entries@, k2) <==> tbl_contains(s0, k2)) by {
                        lemma_get_push(s0, k, v, k2);
                        lemma_contains_iff_get(s0, k2);
                        lemma_contains_iff_get(self.entries@, k2);
                    }
                    lemma_get_push(s0, k, v, k);
                }
            },
        }
    }

    /// Removes the entry under `k`, if any.
    pub fn remove(&mut self, k: Key)
        requires
            tbl_wf(old(self).entries@),
        ensures
            tbl_wf(final(self).entries@),
            !tbl_contains(final(self).entries@, k),
            tbl_get(final(self).entries@, k) is None,
            forall|k2: Key| k2 != k ==> tbl_get(final(self).entries@, k2) == tbl_get(
                old(self).entries@,
                k2,
            ),
            forall|k2: Key|
                k2 != k ==> (tbl_contains(final(self).entries@, k2) <==> tbl_contains(
                    old(self).entries@,
                    k2,
                )),
            !tbl_contains(old(self).entries@, k) ==> final(self).entries@ == old(self).entries@,
            tbl_contains(old(self).entries@, k) ==> exists|i: int|
                0 <= i < old(self).entries@.len() && old(self).entries@[i].0 == k && final(self).entries@
                    == #[trigger] old(self).entries@.remove(i),
    {
        let ghost s0 = self.entries@;
        match self.index_of(k) {
            Some(i) => {
                self.entries.remove(i);
                proof {
                    lemma_wf_remove(s0, i as int);
                    lemma_get_remove(s0, i as int, k);
                    assert forall|k2: Key| k2 != k implies tbl_get(self.entries@, k2) == tbl_get(
                        s0,
                        k2,
                    ) && (tbl_contains(self.entries@, k2) <==> tbl_contains(s0, k2)) by {
                        lemma_get_remove(s0, i as int, k2);
                    }
                    lemma_contains_iff_get(self.entries@, k);
                }
            },
            None => {
                proof {
                    lemma_contains_iff_get(self.entries@, k);
                }
            },
        }
    }
}

/// In a well-formed table, the value at any index holding `k` is the value
/// lookup finds.
pub proof fn lemma_get_at_index<V>(s: Seq<(Key, V)>, i: int)
    requires
        tbl_wf(s),
        0 <= i < s.len(),
    ensures
        tbl_get(s, s[i].0) == Some(s[i].1),
    decreases i,
{
    if i > 0 {
        assert(s.drop_first()[i - 1] == s[i]);
        assert forall|a: int, b: int|
            0 <= a < b < s.drop_first().len() implies (#[trigger] s.drop_first()[a]).0
            != (#[trigger] s.drop_first()[b]).0 by {
            assert(s.drop_first()[a] == s[a + 1]);
            assert(s.drop_first()[b] == s[b + 1]);
        }
        lemma_get_at_index(s.drop_first(), i - 1);
    }
}

/// The sum of all stored quantities in a quantity table.
pub open spec fn tbl_sum(s: Seq<(Key, NonZeroU256)>) -> nat
    decreases s.len(),
{
    if s.len() == 0 {
        0
    } else {
        (s[0].1@ + tbl_sum(s.drop_first())) as nat
    }
}

/// The sum of the stored quantities whose key starts with the two words `g`
/// (for maps keyed by a token id and a holder: the sum over all holders of
/// one token id).
pub open spec fn tbl_sum_group(s: Seq<(Key, NonZeroU256)>, g: (u128, u128)) -> nat
    decreases s.len(),
{
    if s.len() == 0 {
        0
    } else {
        (group_part(s[0], g) + tbl_sum_group(s.drop_first(), g)) as nat
    }
}

/// What one entry contributes to the sum of group `g`.
pub open spec fn group_part(e: (Key, NonZeroU256), g: (u128, u128)) -> nat {
    if (e.0.0, e.0.1) == g {
        e.1@
    } else {
        0
    }
}

/// The quantity found under `k`, with absence read as zero.
pub open spec fn quantity_of(r: Option<NonZeroU256>) -> nat {
    match r {
        Some(v) => v@,
        None => 0,
    }
}

/// What appending one entry does to the sum.
pub proof fn lemma_sum_push(s: Seq<(Key, NonZeroU256)>, e: (Key, NonZeroU256))
    ensures
        tbl_sum(s.push(e)) == tbl_sum(s) + e.1@,
    decreases s.len(),
{
    if s.len() == 0 {
        assert(s.push(e).drop_first() =~= Seq::<(Key, NonZeroU256)>::empty());
        assert(tbl_sum(s.push(e).drop_first()) == 0);
    } else {
        assert(s.push(e).drop_first() =~= s.drop_first().push(e));
        lemma_sum_push(s.drop_first(), e);
    }
}

/// What removing the entry at index `i` does to the sum.
pub proof fn lemma_sum_remove(s: Seq<(Key, NonZeroU256)>, i: int)
    requires
        0 <= i < s.len(),
    ensures
        tbl_sum(s.remove(i)) == tbl_sum(s) - s[i].1@,
    decreases s.len(),
{
    if i == 0 {
        assert(s.remove(0) =~= s.drop_first());
    } else {
        assert(s.remove(i).drop_first() =~= s.drop_first().remove(i - 1));
        assert(s.drop_first()[i - 1] == s[i]);
        lemma_sum_remove(s.drop_first(), i - 1);
    }
}

/// No single stored quantity exceeds the sum.
pub proof fn lemma_get_le_sum(s: Seq<(Key, NonZeroU256)>, k: Key)
    ensures
        quantity_of(tbl_get(s, k)) <= tbl_sum(s),
    decreases s.len(),
{
    if s.len() != 0 {
        lemma_get_le_sum(s.drop_first(), k);
    }
}

/// What appending one entry does to a group sum.
pub proof fn lemma_sum_group_push(s: Seq<(Key, NonZeroU256)>, e: (Key, NonZeroU256), g: (u128, u128))
    ensures
        tbl_sum_group(s.push(e), g) == tbl_sum_group(s, g) + group_part(e, g),
    decreases s.len(),
{
    if s.len() == 0 {
        assert(s.push(e).drop_first() =~= Seq::<(Key, NonZeroU256)>::empty());
        assert(tbl_sum_group(s.push(e).drop_first(), g) == 0);
    } else {
        assert(s.push(e).drop_first() =~= s.drop_first().push(e));
        lemma_sum_group_push(s.drop_first(), e, g);
    }
}

/// What removing the entry at index `i` does to a group sum.
pub proof fn lemma_sum_group_remove(s: Seq<(Key, NonZeroU256)>, i: int, g: (u128, u128))
    requires
        0 <= i < s.len(),
    ensures
        tbl_sum_group(s.remove(i), g) == tbl_sum_group(s, g) - group_part(s[i], g),
    decreases s.len(),
{
    if i == 0 {
        assert(s.remove(0) =~= s.drop_first());
    } else {
        assert(s.remove(i).drop_first() =~= s.drop_first().remove(i - 1));
        assert(s.drop_first()[i - 1] == s[i]);
        lemma_sum_group_remove(s.drop_first(), i - 1, g);
    }
}

/// No stored quantity exceeds the sum of its own group.
pub proof fn lemma_get_le_sum_group(s: Seq<(Key, NonZeroU256)>, k: Key)
    ensures
        quantity_of(tbl_get(s, k)) <= tbl_sum_group(s, (k.0, k.1)),
    decreases s.len(),
{
    if s.len() != 0 {
        lemma_get_le_sum_group(s.drop_first(), k);
    }
}

/// How many entries of an ownership table carry the value `a` (for the
/// non-fungible ledger: how many token ids an account owns).
pub open spec fn tbl_count_val(s: Seq<(Key, ActorId)>, a: ActorId) -> nat
    decreases s.len(),
{
    if s.len() == 0 {
        0
    } else {
        ((if s[0].1@ == a@ {
            1nat
        } else {
            0nat
        }) + tbl_count_val(s.drop_first(), a)) as nat
    }
}

/// What appending one entry does to an ownership count.
pub proof fn lemma_count_push(s: Seq<(Key, ActorId)>, e: (Key, ActorId), a: ActorId)
    ensures
        tbl_count_val(s.push(e), a) == tbl_count_val(s, a) + if e.1@ == a@ {
            1nat
        } else {
            0nat
        },
    decreases s.len(),
{
    if s.len() == 0 {
        assert(s.push(e).drop_first() =~= Seq::<(Key, ActorId)>::empty());
        assert(tbl_count_val(s.push(e).drop_first(), a) == 0);
    } else {
        assert(s.push(e).drop_first() =~= s.drop_first().push(e));
        lemma_count_push(s.drop_first(), e, a);
    }
}

/// Every stored quantity of a quantity table is non-zero: absence of an
/// entry is the only representation of a zero balance or allowance.
pub open spec fn tbl_quantities_wf(s: Seq<(Key, NonZeroU256)>) -> bool {
    forall|i: int| 0 <= i < s.len() ==> (#[trigger] s[i]).1.wf()
}

/// Appending a non-zero quantity keeps all stored quantities non-zero.
pub proof fn lemma_qwf_push(s: Seq<(Key, NonZeroU256)>, e: (Key, NonZeroU256))
    requires
        tbl_quantities_wf(s),
        e.1.wf(),
    ensures
        tbl_quantities_wf(s.push(e)),
{
    assert forall|i: int| 0 <= i < s.push(e).len() implies (#[trigger] s.push(e)[i]).1.wf() by {
        if i < s.len() {
            assert(s.push(e)[i] == s[i]);
        }
    }
}

/// Removing an entry keeps all stored quantities non-zero.
pub proof fn lemma_qwf_remove(s: Seq<(Key, NonZeroU256)>, i: int)
    requires
        tbl_quantities_wf(s),
        0 <= i < s.len(),
    ensures
        tbl_quantities_wf(s.remove(i)),
{
    assert forall|j: int| 0 <= j < s.remove(i).len() implies (#[trigger] s.remove(i)[j]).1.wf() by {
        let j0 = if j < i {
            j
        } else {
            j + 1
        };
        assert(s.remove(i)[j] == s[j0]);
    }
}

/// In a quantity table with no zero entries, a key is present exactly when
/// the quantity read under it is positive.
pub proof fn lemma_contains_iff_positive(s: Seq<(Key, NonZeroU256)>, k: Key)
    requires
        tbl_quantities_wf(s),
    ensures
        tbl_contains(s, k) <==> quantity_of(tbl_get(s, k)) > 0,
    decreases s.len(),
{
    if s.len() != 0 {
        assert(s[0].1.wf());
        assert forall|i: int|
            0 <= i < s.drop_first().len() implies (#[trigger] s.drop_first()[i]).1.wf() by {
            assert(s.drop_first()[i] == s[i + 1]);
        }
        lemma_contains_iff_positive(s.drop_first(), k);
    }
}

impl<V: Copy> Table<V> {
    /// An element-wise copy, used to keep batch operations atomic: the
    /// batch runs on the copy and is committed only when every step
    /// succeeded.
    pub fn duplicate(&self) -> (r: Table<V>)
        ensures
            r.entries@ == self.entries@,
    {
        let mut entries: Vec<(Key, V)> = Vec::new();
        let n = self.entries.len();
        let mut i: usize = 0;
        while i < n
            invariant
                i <= n,
                n == self.entries@.len(),
                entries@ == self.entries@.subrange(0, i as int),
            decreases n - i,
        {
            let e = self.entries[i];
            entries.push(e);
            proof {
                assert(entries@ =~= self.entries@.subrange(0, i + 1));
            }
            i = i + 1;
        }
        proof {
            assert(entries@ =~= self.entries@);
        }
        Table { entries }
    }
}

} // verus!
