//! The numbering resolver: per-list, per-level running counters. Each time a
//! list item at some (list id, level) is rendered the counter there advances,
//! and counters of the same list at deeper levels reset. Counters saturate at
//! the largest representable value rather than wrap.

use vstd::prelude::*;
use crate::doc::ListLevelDef;

verus! {

/// The counter value recorded for `key`, zero when none is recorded.
pub open spec fn counter_of(cs: Seq<((u64, u64), u64)>, key: (u64, u64)) -> u64
    decreases cs.len(),
{
    if cs.len() == 0 {
        0
    } else if cs[0].0 == key {
        cs[0].1
    } else {
        counter_of(cs.drop_first(), key)
    }
}

/// The counters with every entry of list `num_id` at a level deeper than
/// `level` removed.
pub open spec fn drop_deeper(cs: Seq<((u64, u64), u64)>, num_id: u64, level: u64) -> Seq<
    ((u64, u64), u64),
>
    decreases cs.len(),
{
    if cs.len() == 0 {
        cs
    } else if cs[0].0.0 == num_id && cs[0].0.1 > level {
        drop_deeper(cs.drop_first(), num_id, level)
    } else {
        seq![cs[0]] + drop_deeper(cs.drop_first(), num_id, level)
    }
}

/// A counter advances by one and saturates at the top.
pub open spec fn inc_sat(n: u64) -> u64 {
    if n == u64::MAX {
        n
    } else {
        (n + 1) as u64
    }
}

/// The counters after the entry for `key` advanced: the first entry for the
/// key advances in place; a key with no entry is appended with count one.
pub open spec fn bump(cs: Seq<((u64, u64), u64)>, key: (u64, u64)) -> Seq<((u64, u64), u64)>
    decreases cs.len(),
{
    if cs.len() == 0 {
        seq![(key, 1u64)]
    } else if cs[0].0 == key {
        seq![(cs[0].0, inc_sat(cs[0].1))] + cs.drop_first()
    } else {
        seq![cs[0]] + bump(cs.drop_first(), key)
    }
}

/// The whole effect of rendering one list item at (num_id, level): deeper
/// levels of the same list reset, then the counter at the key advances.
pub open spec fn advance_counters(cs: Seq<((u64, u64), u64)>, num_id: u64, level: u64) -> Seq<
    ((u64, u64), u64),
> {
    bump(drop_deeper(cs, num_id, level), (num_id, level))
}

/// The counter value that rendering one item at (num_id, level) uses.
pub open spec fn advance_value(cs: Seq<((u64, u64), u64)>, num_id: u64, level: u64) -> u64 {
    inc_sat(counter_of(drop_deeper(cs, num_id, level), (num_id, level)))
}

proof fn lemma_drop_deeper_push(cs: Seq<((u64, u64), u64)>, x: ((u64, u64), u64), num_id: u64, level: u64)
    ensures
        drop_deeper(cs.push(x), num_id, level) == if x.0.0 == num_id && x.0.1 > level {
            drop_deeper(cs, num_id, level)
        } else {
            drop_deeper(cs, num_id, level).push(x)
        },
    decreases cs.len(),
{
    if cs.len() == 0 {
        assert(cs.push(x).drop_first() =~= Seq::<((u64, u64), u64)>::empty());
        assert(cs.push(x)[0] == x);
        assert(drop_deeper(Seq::<((u64, u64), u64)>::empty(), num_id, level) =~= Seq::<
            ((u64, u64), u64),
        >::empty());
        if x.0.0 == num_id && x.0.1 > level {
            assert(drop_deeper(cs.push(x), num_id, level) =~= drop_deeper(cs, num_id, level));
        } else {
            assert(drop_deeper(cs.push(x), num_id, level) =~= drop_deeper(
                cs,
                num_id,
                level,
            ).push(x));
        }
    } else {
        assert(cs.push(x).drop_first() =~= cs.drop_first().push(x));
        assert(cs.push(x)[0] == cs[0]);
        lemma_drop_deeper_push(cs.drop_first(), x, num_id, level);
        if x.0.0 == num_id && x.0.1 > level {
            assert(drop_deeper(cs.push(x), num_id, level) =~= drop_deeper(cs, num_id, level));
        } else {
            assert(drop_deeper(cs.push(x), num_id, level) =~= drop_deeper(
                cs,
                num_id,
                level,
            ).push(x));
        }
    }
}

proof fn lemma_bump_found(cs: Seq<((u64, u64), u64)>, key: (u64, u64), j: int)
    requires
        0 <= j < cs.len(),
        cs[j].0 == key,
        forall|k: int| 0 <= k < j ==> cs[k].0 != key,
    ensures
        bump(cs, key) == cs.update(j, (key, inc_sat(cs[j].1))),
        counter_of(cs, key) == cs[j].1,
    decreases j,
{
    if j == 0 {
        assert(bump(cs, key) =~= cs.update(0, (key, inc_sat(cs[0].1))));
    } else {
        lemma_bump_found(cs.drop_first(), key, j - 1);
        assert(cs.drop_first().update(j - 1, (key, inc_sat(cs[j].1))) =~= cs.update(
            j,
            (key, inc_sat(cs[j].1)),
        ).drop_first());
        assert(bump(cs, key) =~= cs.update(j, (key, inc_sat(cs[j].1))));
    }
}

proof fn lemma_bump_absent(cs: Seq<((u64, u64), u64)>, key: (u64, u64))
    requires
        forall|k: int| 0 <= k < cs.len() ==> cs[k].0 != key,
    ensures
        bump(cs, key) == cs.push((key, 1u64)),
        counter_of(cs, key) == 0,
    decreases cs.len(),
{
    if cs.len() == 0 {
        assert(bump(cs, key) =~= cs.push((key, 1u64)));
    } else {
        lemma_bump_absent(cs.drop_first(), key);
        assert(cs.drop_first().push((key, 1u64)) =~= cs.push((key, 1u64)).drop_first());
        assert(bump(cs, key) =~= cs.push((key, 1u64)));
    }
}

/// Whether items of list `num_id` at `level` are ordered; a (list, level)
/// with no definition renders as an unordered bullet.
pub open spec fn list_is_ordered(defs: Seq<ListLevelDef>, num_id: u64, level: u64) -> bool
    decreases defs.len(),
{
    if defs.len() == 0 {
        false
    } else if defs[0].num_id == num_id && defs[0].level == level {
        defs[0].ordered
    } else {
        list_is_ordered(defs.drop_first(), num_id, level)
    }
}

/// Tracks per-list, per-level running counters and answers whether a list
/// level is ordered or bulleted.
pub struct NumberingResolver {
    pub defs: Vec<ListLevelDef>,
    pub counters: Vec<((u64, u64), u64)>,
}

impl NumberingResolver {
    /// A fresh resolver over the document's list definitions, all counters
    /// at zero.
    pub fn new(defs: Vec<ListLevelDef>) -> (r: Self)
        ensures
            r.defs@ == defs@,
            r.counters@ == Seq::<((u64, u64), u64)>::empty(),
    {
        let counters: Vec<((u64, u64), u64)> = Vec::new();
        NumberingResolver { defs, counters }
    }

    /// Whether the given (list, level) renders ordered.
    pub fn is_ordered(&self, num_id: u64, level: u64) -> (r: bool)
        ensures
            r == list_is_ordered(self.defs@, num_id, level),
    {
        let n = self.defs.len();
        let mut i: usize = 0;
        proof {
            assert(self.defs@.skip(0) =~= self.defs@);
        }
        while i < n
            invariant
                n == self.defs@.len(),
                i <= n,
                list_is_ordered(self.defs@, num_id, level) == list_is_ordered(
                    self.defs@.skip(i as int),
                    num_id,
                    level,
                ),
            decreases n - i,
        {
            proof {
                assert(self.defs@.skip(i as int)[0] == self.defs@[i as int]);
                assert(self.defs@.skip(i as int).drop_first() =~= self.defs@.skip(i as int + 1));
            }
            if self.defs[i].num_id == num_id && self.defs[i].level == level {
                return self.defs[i].ordered;
            }
            i = i + 1;
        }
        proof {
            assert(self.defs@.skip(n as int) =~= Seq::<ListLevelDef>::empty());
        }
        false
    }

    /// Renders one list item at (num_id, level): deeper counters of the list
    /// reset, the counter at the key advances, and the value used for the
    /// item's label is returned.
    pub fn advance(&mut self, num_id: u64, level: u64) -> (n: u64)
        ensures
            final(self).defs@ == old(self).defs@,
            final(self).counters@ == advance_counters(old(self).counters@, num_id, level),
            n == advance_value(old(self).counters@, num_id, level),
    {
        let len = self.counters.len();
        let mut kept: Vec<((u64, u64), u64)> = Vec::new();
        let mut i: usize = 0;
        proof {
            assert(old(self).counters@.subrange(0, 0) =~= Seq::<((u64, u64), u64)>::empty());
            assert(kept@ =~= drop_deeper(old(self).counters@.subrange(0, 0), num_id, level));
        }
        while i < len
            invariant
                len == old(self).counters@.len(),
                i <= len,
                self.counters@ == old(self).counters@,
                self.defs@ == old(self).defs@,
                kept@ == drop_deeper(old(self).counters@.subrange(0, i as int), num_id, level),
            decreases len - i,
        {
            let e = self.counters[i];
            proof {
                lemma_drop_deeper_push(
                    old(self).counters@.subrange(0, i as int),
                    e,
                    num_id,
                    level,
                );
                assert(old(self).counters@.subrange(0, i as int).push(e) =~= old(
                    self,
                ).counters@.subrange(0, i as int + 1));
            }
            if !(e.0.0 == num_id && e.0.1 > level) {
                kept.push(e);
            }
            i = i + 1;
        }
        proof {
            assert(old(self).counters@.subrange(0, len as int) =~= old(self).counters@);
        }
        let ghost filtered = kept@;
        let klen = kept.len();
        let mut j: usize = 0;
        while j < klen
            invariant
                klen == filtered.len(),
                j <= klen,
                kept@ == filtered,
                filtered == drop_deeper(old(self).counters@, num_id, level),
                self.defs@ == old(self).defs@,
                forall|k: int| 0 <= k < j ==> filtered[k].0 != (num_id, level),
            decreases klen - j,
        {
            if kept[j].0.0 == num_id && kept[j].0.1 == level {
                let v = kept[j].1;
                let w = if v == u64::MAX {
                    v
                } else {
                    v + 1
                };
                kept.set(j, ((num_id, level), w));
                proof {
                    assert(filtered[j as int].0 == (num_id, level));
                    lemma_bump_found(filtered, (num_id, level), j as int);
                }
                self.counters = kept;
                return w;
            }
            j = j + 1;
        }
        proof {
            lemma_bump_absent(filtered, (num_id, level));
        }
        kept.push(((num_id, level), 1));
        self.counters = kept;
        1
    }
}

} // verus!
