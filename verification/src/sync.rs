//! A model of the downstream activity-sync action: a datastore keyed by
//! object id, with an idempotent upsert and delete.  The dispatcher only
//! decides routes; this store shows, and tests exercise, that replaying a
//! decision is harmless.

use vstd::prelude::*;
use crate::webhook::Route;

verus! {

/// The records in `s` whose object id differs from `object_id`, in order.
pub open spec fn without_object(s: Seq<(i64, i64)>, object_id: i64) -> Seq<(i64, i64)>
    decreases s.len(),
{
    if s.len() == 0 {
        Seq::empty()
    } else if s[0].0 == object_id {
        without_object(s.drop_first(), object_id)
    } else {
        seq![s[0]] + without_object(s.drop_first(), object_id)
    }
}

/// What an upsert leaves behind: the old record for the object gone, the
/// new one present exactly once.
pub open spec fn upsert_spec(s: Seq<(i64, i64)>, object_id: i64, owner_id: i64) -> Seq<
    (i64, i64),
> {
    without_object(s, object_id).push((object_id, owner_id))
}

/// What applying a routing decision does to the store's records.
pub open spec fn apply_spec(s: Seq<(i64, i64)>, r: Route) -> Seq<(i64, i64)> {
    match r {
        Route::Upsert { object_id, owner_id } => upsert_spec(s, object_id, owner_id),
        Route::Delete { object_id } => without_object(s, object_id),
        Route::Ignored => s,
    }
}

proof fn lemma_without_snoc(s: Seq<(i64, i64)>, p: (i64, i64), object_id: i64)
    ensures
        without_object(s.push(p), object_id) == if p.0 == object_id {
            without_object(s, object_id)
        } else {
            without_object(s, object_id).push(p)
        },
    decreases s.len(),
{
    assert(s.push(p)[0] == if s.len() == 0 {
        p
    } else {
        s[0]
    });
    if s.len() == 0 {
        assert(s.push(p).drop_first() =~= Seq::<(i64, i64)>::empty());
        assert(without_object(Seq::<(i64, i64)>::empty(), object_id) == Seq::<
            (i64, i64),
        >::empty());
        if p.0 == object_id {
            assert(without_object(s.push(p), object_id) =~= without_object(s, object_id));
        } else {
            assert(without_object(s.push(p), object_id) =~= without_object(s, object_id).push(p));
        }
    } else {
        assert(s.push(p).drop_first() =~= s.drop_first().push(p));
        lemma_without_snoc(s.drop_first(), p, object_id);
        if p.0 == object_id {
            assert(without_object(s.push(p), object_id) =~= without_object(s, object_id));
        } else {
            assert(without_object(s.push(p), object_id) =~= without_object(s, object_id).push(p));
        }
    }
}

proof fn lemma_without_idempotent(s: Seq<(i64, i64)>, object_id: i64)
    ensures
        without_object(without_object(s, object_id), object_id) == without_object(s, object_id),
    decreases s.len(),
{
    if s.len() == 0 {
        assert(without_object(without_object(s, object_id), object_id) =~= without_object(
            s,
            object_id,
        ));
    } else {
        lemma_without_idempotent(s.drop_first(), object_id);
        if s[0].0 == object_id {
            assert(without_object(without_object(s, object_id), object_id) =~= without_object(
                s,
                object_id,
            ));
        } else {
            let rest = without_object(s.drop_first(), object_id);
            assert(seq![s[0]] + rest =~= Seq::<(i64, i64)>::empty().push(s[0]) + rest);
            assert(without_object(s, object_id)[0] == s[0]);
            assert(without_object(s, object_id).drop_first() =~= rest);
            assert(without_object(without_object(s, object_id), object_id) =~= seq![s[0]]
                + without_object(rest, object_id));
            assert(without_object(without_object(s, object_id), object_id) =~= without_object(
                s,
                object_id,
            ));
        }
    }
}

/// No two records share an object id.
pub open spec fn distinct_objects(s: Seq<(i64, i64)>) -> bool {
    forall|i: int, j: int| 0 <= i < j < s.len() ==> s[i].0 != s[j].0
}

proof fn lemma_without_elements(s: Seq<(i64, i64)>, object_id: i64)
    ensures
        forall|k: int|
            0 <= k < without_object(s, object_id).len() ==> (#[trigger] without_object(
                s,
                object_id,
            )[k]).0 != object_id && s.contains(without_object(s, object_id)[k]),
    decreases s.len(),
{
    if s.len() == 0 {
    } else {
        lemma_without_elements(s.drop_first(), object_id);
        let w1 = without_object(s.drop_first(), object_id);
        assert forall|k: int| 0 <= k < w1.len() implies s.contains(w1[k]) by {
            let m = choose|m: int| 0 <= m < s.drop_first().len() && s.drop_first()[m] == w1[k];
            assert(s[m + 1] == w1[k]);
        }
        if s[0].0 != object_id {
            let w = seq![s[0]] + w1;
            assert(without_object(s, object_id) == w);
            assert(0 <= 0 < s.len() && s[0] == s[0]);
            assert forall|k: int| 0 <= k < w.len() implies (#[trigger] w[k]).0 != object_id
                && s.contains(w[k]) by {
                if k > 0 {
                    assert(w[k] == w1[k - 1]);
                }
            }
        }
    }
}

proof fn lemma_without_distinct(s: Seq<(i64, i64)>, object_id: i64)
    requires
        distinct_objects(s),
    ensures
        distinct_objects(without_object(s, object_id)),
    decreases s.len(),
{
    if s.len() == 0 {
    } else {
        assert forall|i: int, j: int| 0 <= i < j < s.drop_first().len() implies (
        #[trigger] s.drop_first()[i]).0 != (#[trigger] s.drop_first()[j]).0 by {
            assert(s.drop_first()[i] == s[i + 1]);
            assert(s.drop_first()[j] == s[j + 1]);
        }
        lemma_without_distinct(s.drop_first(), object_id);
        if s[0].0 != object_id {
            let w1 = without_object(s.drop_first(), object_id);
            lemma_without_elements(s.drop_first(), object_id);
            let w = seq![s[0]] + w1;
            assert(without_object(s, object_id) == w);
            assert forall|i: int, j: int| 0 <= i < j < w.len() implies (#[trigger] w[i]).0 != (
            #[trigger] w[j]).0 by {
                if i == 0 {
                    let x = w1[j - 1];
                    assert(w[j] == x);
                    assert(s.drop_first().contains(x));
                    let m = choose|m: int|
                        0 <= m < s.drop_first().len() && s.drop_first()[m] == x;
                    assert(s[m + 1] == x);
                    assert(s[0].0 != s[m + 1].0);
                } else {
                    assert(w[i] == w1[i - 1]);
                    assert(w[j] == w1[j - 1]);
                }
            }
        }
    }
}

/// The store stays keyed by object id: applying any routing decision to
/// records with pairwise-distinct object ids leaves them pairwise
/// distinct — an upsert never grows a second record for an object.
pub proof fn lemma_apply_keeps_objects_distinct(s: Seq<(i64, i64)>, r: Route)
    requires
        distinct_objects(s),
    ensures
        distinct_objects(apply_spec(s, r)),
{
    match r {
        Route::Upsert { object_id, owner_id } => {
            lemma_without_distinct(s, object_id);
            lemma_without_elements(s, object_id);
            let w = without_object(s, object_id);
            let u = w.push((object_id, owner_id));
            assert forall|i: int, j: int| 0 <= i < j < u.len() implies (#[trigger] u[i]).0 != (
            #[trigger] u[j]).0 by {
                if j == w.len() {
                    assert(u[i] == w[i]);
                } else {
                    assert(u[i] == w[i]);
                    assert(u[j] == w[j]);
                }
            }
        },
        Route::Delete { object_id } => {
            lemma_without_distinct(s, object_id);
        },
        Route::Ignored => {},
    }
}

/// Redelivery is harmless: applying the same routing decision to the
/// store twice leaves exactly the records that applying it once leaves.
pub proof fn lemma_apply_idempotent(s: Seq<(i64, i64)>, r: Route)
    ensures
        apply_spec(apply_spec(s, r), r) == apply_spec(s, r),
{
    match r {
        Route::Upsert { object_id, owner_id } => {
            lemma_without_snoc(without_object(s, object_id), (object_id, owner_id), object_id);
            lemma_without_idempotent(s, object_id);
        },
        Route::Delete { object_id } => {
            lemma_without_idempotent(s, object_id);
        },
        Route::Ignored => {},
    }
}

/// The fake datastore the dispatcher's decisions act on: one record per
/// object, `(object_id, owner_id)`.
pub struct SyncStore {
    pub records: Vec<(i64, i64)>,
}

impl SyncStore {
    /// An empty store.
    pub fn new() -> (s: SyncStore)
        ensures
            s.records@ == Seq::<(i64, i64)>::empty(),
    {
        SyncStore { records: Vec::new() }
    }

    fn remove_object(&mut self, object_id: i64)
        ensures
            final(self).records@ == without_object(old(self).records@, object_id),
    {
        let mut kept: Vec<(i64, i64)> = Vec::new();
        let n = self.records.len();
        let mut i: usize = 0;
        proof {
            assert(without_object(self.records@.subrange(0, 0), object_id) =~= Seq::<
                (i64, i64),
            >::empty());
        }
        while i < n
            invariant
                0 <= i <= n,
                n == self.records@.len(),
                kept@ == without_object(self.records@.subrange(0, i as int), object_id),
            decreases n - i,
        {
            proof {
                assert(self.records@.subrange(0, i as int).push(self.records@[i as int])
                    =~= self.records@.subrange(0, i as int + 1));
                lemma_without_snoc(
                    self.records@.subrange(0, i as int),
                    self.records@[i as int],
                    object_id,
                );
            }
            let p = self.records[i];
            if p.0 != object_id {
                kept.push(p);
            }
            i = i + 1;
        }
        proof {
            assert(self.records@.subrange(0, n as int) =~= self.records@);
        }
        self.records = kept;
    }

    /// Insert or replace the record for an object.  Replaying the same
    /// upsert overwrites; it never adds a second record.
    pub fn upsert(&mut self, object_id: i64, owner_id: i64)
        ensures
            final(self).records@ == upsert_spec(old(self).records@, object_id, owner_id),
    {
        self.remove_object(object_id);
        self.records.push((object_id, owner_id));
    }

    /// Remove the record for an object, if any.
    pub fn delete(&mut self, object_id: i64)
        ensures
            final(self).records@ == without_object(old(self).records@, object_id),
    {
        self.remove_object(object_id);
    }

    /// Perform a routing decision against the store.
    pub fn apply(&mut self, r: &Route)
        ensures
            final(self).records@ == apply_spec(old(self).records@, *r),
    {
        match r {
            Route::Upsert { object_id, owner_id } => self.upsert(*object_id, *owner_id),
            Route::Delete { object_id } => self.delete(*object_id),
            Route::Ignored => {},
        }
    }
}

} // verus!
