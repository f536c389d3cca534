//! An executable model of the backing store, with the contract the
//! ingestion core relies on: ids assigned densely from one and strictly
//! increasing, the series-name check constraint enforced on every row, and a
//! registry of per-series views.  Each operation is transactional — it
//! either takes full effect or leaves the store untouched.

use vstd::prelude::*;
use vstd::string::*;

use crate::errors::StorageError;
use crate::models::{NewTsData, TsData, row_from_new};
use crate::series::{ValidatedSeries, is_valid_series_name, series_name_ok};

verus! {

/// The store's own diagnostic for a row whose series name fails the check
/// constraint; it is passed through verbatim to the caller.
pub open spec fn spec_constraint_violation_message() -> Seq<char> {
    "new row for relation \"tsdata\" violates check constraint \"series_format_check\""@
}

/// Builds [`spec_constraint_violation_message`].
pub fn constraint_violation_message() -> (r: String)
    ensures
        r@ == spec_constraint_violation_message(),
{
    String::from_str("new row for relation \"tsdata\" violates check constraint \"series_format_check\"")
}

/// The store model: the base relation and the registry of per-series views.
#[derive(Debug)]
pub struct Store {
    rows: Vec<TsData>,
    views: Vec<String>,
}

impl Store {
    /// The base relation, in insertion order.
    pub closed spec fn rows(&self) -> Seq<TsData> {
        self.rows@
    }

    /// The id the next inserted row will be assigned.
    pub open spec fn next_id(&self) -> int {
        self.rows().len() as int + 1
    }

    /// Whether a view scoped to `series` currently exists.
    pub closed spec fn has_view(&self, series: Seq<char>) -> bool {
        exists|i: int| 0 <= i < self.views@.len() && (#[trigger] self.views@[i])@ == series
    }

    /// Whether at least one committed row carries `series`.
    pub closed spec fn has_row_for(&self, series: Seq<char>) -> bool {
        exists|i: int| 0 <= i < self.rows@.len() && (#[trigger] self.rows@[i]).series_name@
            == series
    }

    /// What the view scoped to `series` shows: definitionally, the base rows
    /// whose series name equals `series` — a view is a filter of the base
    /// relation, always current.
    pub open spec fn view_contents(&self, series: Seq<char>) -> Seq<TsData> {
        self.rows().filter(|row: TsData| row.series_name@ == series)
    }

    /// The base relation is well-formed: ids run densely from one (hence
    /// strictly increase in insertion order), every series name satisfies
    /// the check constraint, and the id space has room.
    pub closed spec fn rows_wf(&self) -> bool {
        &&& self.rows@.len() < 0x7fff_ffff
        &&& forall|i: int| 0 <= i < self.rows@.len() ==> (#[trigger] self.rows@[i]).id as int == i
            + 1
        &&& forall|i: int|
            0 <= i < self.rows@.len() ==> is_valid_series_name(
                (#[trigger] self.rows@[i]).series_name@,
            )
    }

    /// The view registry is well-formed: each series has at most one current
    /// definition, and a view exists only for a series with a committed row.
    pub closed spec fn views_wf(&self) -> bool {
        &&& forall|i: int, j: int|
            0 <= i < self.views@.len() && 0 <= j < self.views@.len() && i != j ==> (
            #[trigger] self.views@[i])@ != (#[trigger] self.views@[j])@
        &&& forall|i: int|
            0 <= i < self.views@.len() ==> self.has_row_for((#[trigger] self.views@[i])@)
    }

    /// Holds between operations and within a transaction.
    pub open spec fn base_wf(&self) -> bool {
        self.rows_wf() && self.views_wf()
    }

    /// Every committed series has a view — restored by the end of each
    /// transaction, when the views of freshly inserted series have been
    /// (re)defined.
    pub open spec fn views_complete(&self) -> bool {
        forall|i: int|
            0 <= i < self.rows().len() ==> self.has_view((#[trigger] self.rows()[i]).series_name@)
    }

    /// The whole-store invariant between transactions.
    pub open spec fn wf(&self) -> bool {
        self.base_wf() && self.views_complete()
    }

    /// Two stores with the same view registry answer [`Store::has_view`]
    /// alike.
    proof fn lemma_same_views_same_has_view(a: Store, b: Store)
        requires
            a.views@ == b.views@,
        ensures
            forall|s: Seq<char>| #[trigger] a.has_view(s) == b.has_view(s),
    {
        assert forall|s: Seq<char>| #[trigger] a.has_view(s) == b.has_view(s) by {
            if a.has_view(s) {
                let k = choose|k: int|
                    0 <= k < a.views@.len() && (#[trigger] a.views@[k])@ == s;
                assert((b.views@[k])@ == s);
            }
            if b.has_view(s) {
                let k = choose|k: int|
                    0 <= k < b.views@.len() && (#[trigger] b.views@[k])@ == s;
                assert((a.views@[k])@ == s);
            }
        }
    }

    /// Two stores with the same base relation answer [`Store::has_row_for`]
    /// alike.
    pub(crate) proof fn lemma_same_rows_same_has_row_for(a: Store, b: Store)
        requires
            a.rows() == b.rows(),
        ensures
            forall|s: Seq<char>| #[trigger] a.has_row_for(s) == b.has_row_for(s),
    {
        assert forall|s: Seq<char>| #[trigger] a.has_row_for(s) == b.has_row_for(s) by {
            if a.has_row_for(s) {
                let k = choose|k: int|
                    0 <= k < a.rows@.len() && (#[trigger] a.rows@[k]).series_name@ == s;
                assert((b.rows@[k]).series_name@ == s);
            }
            if b.has_row_for(s) {
                let k = choose|k: int|
                    0 <= k < b.rows@.len() && (#[trigger] b.rows@[k]).series_name@ == s;
                assert((a.rows@[k]).series_name@ == s);
            }
        }
    }

    /// A row witness survives into any store whose base relation extends
    /// this one's.
    proof fn lemma_has_row_for_prefix(a: Store, b: Store)
        requires
            a.rows@.len() <= b.rows@.len(),
            forall|i: int| 0 <= i < a.rows@.len() ==> a.rows@[i] == #[trigger] b.rows@[i],
        ensures
            forall|s: Seq<char>| #[trigger] a.has_row_for(s) ==> b.has_row_for(s),
    {
        assert forall|s: Seq<char>| #[trigger] a.has_row_for(s) implies b.has_row_for(s) by {
            let k = choose|k: int|
                0 <= k < a.rows@.len() && (#[trigger] a.rows@[k]).series_name@ == s;
            assert((b.rows@[k]).series_name@ == s);
        }
    }

    /// A fresh, empty store.
    pub fn new() -> (s: Store)
        ensures
            s.wf(),
            s.rows() =~= Seq::<TsData>::empty(),
            forall|series: Seq<char>| !s.has_view(series),
    {
        Store { rows: Vec::new(), views: Vec::new() }
    }

    /// How many rows the store holds.
    pub fn row_count(&self) -> (r: usize)
        ensures
            r == self.rows().len(),
    {
        self.rows.len()
    }

    /// The `i`-th row, in insertion order.
    pub fn get_row(&self, i: usize) -> (r: &TsData)
        requires
            i < self.rows().len(),
        ensures
            *r == self.rows()[i as int],
    {
        &self.rows[i]
    }

    /// Whether a view scoped to `series` currently exists.
    pub fn has_view_for(&self, series: &String) -> (r: bool)
        ensures
            r == self.has_view(series@),
    {
        let n = self.views.len();
        let mut i: usize = 0;
        while i < n
            invariant
                n == self.views@.len(),
                0 <= i <= n,
                forall|k: int| 0 <= k < i ==> (#[trigger] self.views@[k])@ != series@,
            decreases n - i,
        {
            if self.views[i].eq(series) {
                proof {
                    assert(self.has_view(series@)) by {
                        assert((self.views@[i as int])@ == series@);
                    }
                }
                return true;
            }
            i = i + 1;
        }
        false
    }

    /// Inserts one row.  The store checks the series-name constraint: on
    /// violation it rejects with its own diagnostic and stays untouched; on
    /// success it appends the row under the next id and hands back that id
    /// together with the [`ValidatedSeries`] witness this acceptance mints.
    pub fn insert_row(&mut self, p: &NewTsData, inserted_time: i64) -> (r: Result<
        (i32, ValidatedSeries),
        StorageError,
    >)
        requires
            old(self).base_wf(),
            old(self).rows().len() + 1 < 0x7fff_ffff,
        ensures
            final(self).base_wf(),
            forall|s: Seq<char>| #[trigger] final(self).has_view(s) == old(self).has_view(s),
            match r {
                Result::Ok((id, vs)) => {
                    &&& is_valid_series_name(p.series_name@)
                    &&& id as int == old(self).next_id()
                    &&& vs.wf()
                    &&& vs@ == p.series_name@
                    &&& final(self).has_row_for(p.series_name@)
                    &&& final(self).rows().len() == old(self).rows().len() + 1
                    &&& final(self).rows().drop_last() == old(self).rows()
                    &&& row_from_new(
                        final(self).rows().last(),
                        old(self).next_id(),
                        inserted_time as int,
                        *p,
                    )
                },
                Result::Err(e) => {
                    &&& !is_valid_series_name(p.series_name@)
                    &&& *final(self) == *old(self)
                    &&& e matches StorageError::ConstraintViolation { message } && message@
                        == spec_constraint_violation_message()
                },
            },
    {
        if !series_name_ok(p.series_name.as_str()) {
            return Err(
                StorageError::ConstraintViolation { message: constraint_violation_message() },
            );
        }
        let id: i32 = (self.rows.len() + 1) as i32;
        let row = TsData {
            id,
            inserted_time,
            data_time: p.data_time,
            series_name: p.series_name.clone(),
            contents: p.contents.clone(),
        };
        self.rows.push(row);
        let vs = ValidatedSeries::new(p.series_name.clone());
        proof {
            assert(self.rows@.drop_last() =~= old(self).rows@);
            Store::lemma_same_views_same_has_view(*self, *old(self));
            Store::lemma_has_row_for_prefix(*old(self), *self);
            assert(self.has_row_for(p.series_name@)) by {
                assert((self.rows@[self.rows@.len() - 1]).series_name@ == p.series_name@);
            }
        }
        Ok((id, vs))
    }

    /// Inserts a batch of rows as one bulk operation.  The store checks the
    /// series-name constraint on every row before storing any: if one row
    /// violates it, the whole batch is rejected with the store's diagnostic
    /// and the store stays untouched; otherwise every row is appended, in
    /// input order, under consecutive ids starting at the next id.
    #[verifier::loop_isolation(false)]
    pub fn bulk_insert(&mut self, points: &Vec<NewTsData>, inserted_time: i64) -> (r: Result<
        Vec<i32>,
        StorageError,
    >)
        requires
            old(self).base_wf(),
            old(self).rows().len() + points@.len() < 0x7fff_ffff,
        ensures
            final(self).base_wf(),
            forall|s: Seq<char>| #[trigger] final(self).has_view(s) == old(self).has_view(s),
            match r {
                Result::Ok(ids) => {
                    &&& forall|j: int|
                        0 <= j < points@.len() ==> is_valid_series_name(
                            #[trigger] points@[j].series_name@,
                        )
                    &&& ids@.len() == points@.len()
                    &&& forall|j: int|
                        0 <= j < ids@.len() ==> (#[trigger] ids@[j]) as int == old(self).next_id()
                            + j
                    &&& final(self).rows().len() == old(self).rows().len() + points@.len()
                    &&& final(self).rows().subrange(0, old(self).rows().len() as int) == old(
                        self,
                    ).rows()
                    &&& forall|j: int|
                        0 <= j < points@.len() ==> row_from_new(
                            #[trigger] final(self).rows()[old(self).rows().len() + j],
                            old(self).next_id() + j,
                            inserted_time as int,
                            points@[j],
                        )
                    &&& forall|j: int|
                        0 <= j < points@.len() ==> final(self).has_row_for(
                            (#[trigger] points@[j]).series_name@,
                        )
                },
                Result::Err(e) => {
                    &&& exists|j: int|
                        0 <= j < points@.len() && !is_valid_series_name(
                            #[trigger] points@[j].series_name@,
                        )
                    &&& *final(self) == *old(self)
                    &&& e matches StorageError::ConstraintViolation { message } && message@
                        == spec_constraint_violation_message()
                },
            },
    {
        let mut k: usize = 0;
        while k < points.len()
            invariant
                0 <= k <= points@.len(),
                forall|j: int|
                    0 <= j < k ==> is_valid_series_name(#[trigger] points@[j].series_name@),
            decreases points@.len() - k,
        {
            if !series_name_ok(points[k].series_name.as_str()) {
                return Err(
                    StorageError::ConstraintViolation { message: constraint_violation_message() },
                );
            }
            k = k + 1;
        }
        let ghost pre = *self;
        let mut ids: Vec<i32> = Vec::new();
        let mut j: usize = 0;
        while j < points.len()
            invariant
                0 <= j <= points@.len(),
                ids@.len() == j,
                self.views@ == pre.views@,
                self.rows@.len() == pre.rows@.len() + j,
                forall|i: int| 0 <= i < pre.rows@.len() ==> self.rows@[i] == #[trigger] pre.rows@[i],
                forall|i: int|
                    0 <= i < j ==> (#[trigger] ids@[i]) as int == pre.rows@.len() + i + 1,
                forall|i: int|
                    0 <= i < j ==> row_from_new(
                        #[trigger] self.rows@[pre.rows@.len() + i],
                        pre.rows@.len() + i + 1,
                        inserted_time as int,
                        points@[i],
                    ),
            decreases points@.len() - j,
        {
            let id: i32 = (self.rows.len() + 1) as i32;
            let p = &points[j];
            let row = TsData {
                id,
                inserted_time,
                data_time: p.data_time,
                series_name: p.series_name.clone(),
                contents: p.contents.clone(),
            };
            self.rows.push(row);
            ids.push(id);
            j = j + 1;
        }
        proof {
            assert(self.rows@.subrange(0, pre.rows@.len() as int) =~= pre.rows@);
            Store::lemma_same_views_same_has_view(*self, *old(self));
            Store::lemma_has_row_for_prefix(*old(self), *self);
            assert forall|i: int| 0 <= i < self.rows@.len() implies (#[trigger] self.rows@[i]).id
                as int == i + 1 && is_valid_series_name(self.rows@[i].series_name@) by {
                if i < pre.rows@.len() {
                    assert(self.rows@[i] == pre.rows@[i]);
                } else {
                    let d = i - pre.rows@.len();
                    assert(row_from_new(
                        self.rows@[pre.rows@.len() + d],
                        pre.rows@.len() + d + 1,
                        inserted_time as int,
                        points@[d],
                    ));
                    assert(is_valid_series_name(points@[d].series_name@));
                }
            }
            assert forall|j: int| 0 <= j < points@.len() implies self.has_row_for(
                (#[trigger] points@[j]).series_name@,
            ) by {
                assert((self.rows@[pre.rows@.len() + j]).series_name@ == points@[j].series_name@);
            }
        }
        Ok(ids)
    }

    /// Idempotently (re)defines the view scoped to `series`: afterwards
    /// exactly one current definition for it exists, and no other view is
    /// touched.  May run only after a row carrying `series` was inserted —
    /// the [`ValidatedSeries`] witness and the row precondition say so.
    #[verifier::loop_isolation(false)]
    pub fn create_series_view(&mut self, series: &ValidatedSeries)
        requires
            old(self).base_wf(),
            series.wf(),
            old(self).has_row_for(series@),
        ensures
            final(self).base_wf(),
            final(self).rows() == old(self).rows(),
            forall|s: Seq<char>| #[trigger] final(self).has_row_for(s) == old(self).has_row_for(s),
            forall|s: Seq<char>|
                #[trigger] final(self).has_view(s) == (old(self).has_view(s) || s == series@),
    {
        let n = self.views.len();
        let mut i: usize = 0;
        while i < n
            invariant
                n == self.views@.len(),
                0 <= i <= n,
                *self == *old(self),
                forall|k: int| 0 <= k < i ==> (#[trigger] self.views@[k])@ != series@,
            decreases n - i,
        {
            let matches_existing = self.views[i].eq(series.name_string());
            if matches_existing {
                proof {
                    assert(old(self).has_view(series@)) by {
                        assert((old(self).views@[i as int])@ == series@);
                    }
                    Store::lemma_same_views_same_has_view(*self, *old(self));
                    Store::lemma_same_rows_same_has_row_for(*self, *old(self));
                }
                return ;
            }
            i = i + 1;
        }
        self.views.push(String::from_str(series.name()));
        proof {
            let pre = *old(self);
            let post = *self;
            Store::lemma_same_rows_same_has_row_for(pre, post);
            assert forall|i: int, j: int|
                0 <= i < post.views@.len() && 0 <= j < post.views@.len() && i != j implies (
            post.views@[i])@ != (post.views@[j])@ by {
                if i == pre.views@.len() as int {
                    assert((post.views@[i])@ == series@);
                    assert(post.views@[j] == pre.views@[j]);
                } else if j == pre.views@.len() as int {
                    assert((post.views@[j])@ == series@);
                    assert(post.views@[i] == pre.views@[i]);
                } else {
                    assert(post.views@[i] == pre.views@[i]);
                    assert(post.views@[j] == pre.views@[j]);
                }
            }
            assert forall|i: int| 0 <= i < post.views@.len() implies post.has_row_for(
                (#[trigger] post.views@[i])@,
            ) by {
                if i < pre.views@.len() {
                    assert(post.views@[i] == pre.views@[i]);
                    assert(pre.has_row_for((pre.views@[i])@));
                } else {
                    assert((post.views@[i])@ == series@);
                    assert(pre.has_row_for(series@));
                }
            }
            assert forall|s: Seq<char>| #[trigger] post.has_view(s) == (pre.has_view(s) || s
                == series@) by {
                if post.has_view(s) {
                    let k = choose|k: int|
                        0 <= k < post.views@.len() && (#[trigger] post.views@[k])@ == s;
                    if k < pre.views@.len() {
                        assert(pre.has_view(s));
                    } else {
                        assert(s == series@);
                    }
                } else {
                    assert(!pre.has_view(s)) by {
                        if pre.has_view(s) {
                            let k = choose|k: int|
                                0 <= k < pre.views@.len() && (#[trigger] pre.views@[k])@ == s;
                            assert((post.views@[k])@ == s);
                        }
                    }
                    assert(s != series@) by {
                        if s == series@ {
                            assert((post.views@[post.views@.len() - 1])@ == s);
                        }
                    }
                }
            }
        }
    }
}

} // verus!
