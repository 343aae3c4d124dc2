//! The prediction repository's selection rules: "latest row for a pair" and
//! "latest row per pair". `PredictionTable` is the reference model that the
//! storage queries are held to; the service itself pushes the selection
//! into the database.
use vstd::prelude::*;
use vstd::string::StringExecFns;

use crate::predictions::{Prediction, PredictionView};

verus! {

/// Position of the latest row for `pair` (greatest `ts_ms`), or -1 when no
/// row has that pair. Among rows of equal `ts_ms` the model picks the one
/// stored first; the database query leaves that tie open, so only the
/// greatest `ts_ms` is owed by both (see `lemma_latest_is_maximal`).
pub open spec fn newest_index(rows: Seq<PredictionView>, pair: Seq<char>) -> int
    decreases rows.len(),
{
    if rows.len() == 0 {
        -1
    } else {
        let k = newest_index(rows.drop_last(), pair);
        let last = rows.len() - 1;
        if rows[last].pair == pair && (k < 0 || rows[k].ts_ms < rows[last].ts_ms) {
            last
        } else {
            k
        }
    }
}

/// The latest row for `pair`, if any row has that pair.
pub open spec fn newest(rows: Seq<PredictionView>, pair: Seq<char>) -> Option<PredictionView> {
    let k = newest_index(rows, pair);
    if 0 <= k < rows.len() {
        Some(rows[k])
    } else {
        None
    }
}

/// The rows among the first `k` that are the latest of their pair, in
/// storage order.
pub open spec fn newest_rows_upto(rows: Seq<PredictionView>, k: int) -> Seq<PredictionView>
    decreases k,
{
    if k <= 0 {
        Seq::empty()
    } else {
        let prev = newest_rows_upto(rows, k - 1);
        if newest_index(rows, rows[k - 1].pair) == k - 1 {
            prev.push(rows[k - 1])
        } else {
            prev
        }
    }
}

/// One row per distinct pair: the latest of each. The model lists them in
/// the order their rows were stored, where the database query orders them
/// by pair; the order between pairs is not part of the rule.
pub open spec fn newest_rows(rows: Seq<PredictionView>) -> Seq<PredictionView> {
    newest_rows_upto(rows, rows.len() as int)
}

/// The view of an optional prediction.
pub open spec fn option_view(p: Option<Prediction>) -> Option<PredictionView> {
    match p {
        Some(q) => Some(q@),
        None => None,
    }
}

/// Stored predictions, in the order they were written: the reference model
/// of the predictions table, on which the selection rules are proved.
pub struct PredictionTable {
    rows: Vec<Prediction>,
}

impl View for PredictionTable {
    type V = Seq<PredictionView>;

    closed spec fn view(&self) -> Seq<PredictionView> {
        self.rows@.map_values(|p: Prediction| p@)
    }
}

impl PredictionTable {
    /// An empty table.
    pub fn new() -> (r: PredictionTable)
        ensures
            r@ == Seq::<PredictionView>::empty(),
    {
        let r = PredictionTable { rows: Vec::new() };
        assert(r@ =~= Seq::<PredictionView>::empty());
        r
    }

    /// Stores one more row.
    pub fn insert(&mut self, p: Prediction)
        ensures
            final(self)@ == old(self)@.push(p@),
    {
        self.rows.push(p);
        assert(final(self)@ =~= old(self)@.push(p@));
    }

    /// Number of stored rows.
    pub fn len(&self) -> (r: usize)
        ensures
            r == self@.len(),
    {
        self.rows.len()
    }

    /// Position of the latest row for `pair`.
    fn newest_position(&self, pair: &String) -> (r: Option<usize>)
        ensures
            match r {
                Some(k) => k == newest_index(self@, pair@),
                None => newest_index(self@, pair@) == -1,
            },
    {
        let n = self.rows.len();
        let mut best: Option<usize> = None;
        let mut i: usize = 0;
        while i < n
            invariant
                n == self.rows@.len(),
                i <= n,
                match best {
                    Some(k) => k == newest_index(self@.subrange(0, i as int), pair@),
                    None => newest_index(self@.subrange(0, i as int), pair@) == -1,
                },
            decreases n - i,
        {
            proof {
                lemma_newest_index_range(self@.subrange(0, i as int), pair@);
                assert(self@.subrange(0, i as int + 1).drop_last() =~= self@.subrange(0, i as int));
            }
            let row = &self.rows[i];
            if row.pair == *pair {
                match best {
                    Some(k) => {
                        if self.rows[k].ts_ms < row.ts_ms {
                            best = Some(i);
                        }
                    },
                    None => {
                        best = Some(i);
                    },
                }
            }
            i = i + 1;
        }
        assert(self@.subrange(0, n as int) =~= self@);
        best
    }

    /// The latest stored prediction for `pair`; `None` when no row has
    /// that pair. Absence is not an error.
    pub fn get_latest_prediction(&self, pair: &str) -> (r: Option<Prediction>)
        ensures
            option_view(r) == newest(self@, pair@),
    {
        let key = String::from_str(pair);
        proof {
            lemma_newest_index_range(self@, pair@);
        }
        match self.newest_position(&key) {
            Some(k) => Some(self.rows[k].copy()),
            None => None,
        }
    }

    /// The latest stored prediction of every pair, one per distinct pair,
    /// in the order their rows were stored.
    pub fn get_all_latest_predictions(&self) -> (r: Vec<Prediction>)
        ensures
            r@.map_values(|p: Prediction| p@) == newest_rows(self@),
    {
        let n = self.rows.len();
        let mut out: Vec<Prediction> = Vec::new();
        let mut i: usize = 0;
        while i < n
            invariant
                n == self.rows@.len(),
                i <= n,
                out@.map_values(|p: Prediction| p@) == newest_rows_upto(self@, i as int),
            decreases n - i,
        {
            let row = &self.rows[i];
            let k = self.newest_position(&row.pair);
            let ghost before = out@.map_values(|p: Prediction| p@);
            if k == Some(i) {
                out.push(row.copy());
                assert(out@.map_values(|p: Prediction| p@) =~= before.push(self@[i as int]));
            }
            i = i + 1;
        }
        out
    }
}

/// The position of the latest row lies in the table, or is -1.
proof fn lemma_newest_index_range(rows: Seq<PredictionView>, pair: Seq<char>)
    ensures
        -1 <= newest_index(rows, pair) < rows.len(),
    decreases rows.len(),
{
    if rows.len() > 0 {
        lemma_newest_index_range(rows.drop_last(), pair);
    }
}

/// `rows[i]` is a latest row for `pair`: it has that pair and no row of
/// that pair has a greater `ts_ms`.
pub open spec fn is_latest_row(rows: Seq<PredictionView>, pair: Seq<char>, p: PredictionView) -> bool {
    &&& rows.contains(p)
    &&& p.pair == pair
    &&& forall|i: int| 0 <= i < rows.len() && #[trigger] rows[i].pair == pair ==> rows[i].ts_ms <= p.ts_ms
}

proof fn lemma_newest_index_is_max(rows: Seq<PredictionView>, pair: Seq<char>)
    ensures
        newest_index(rows, pair) == -1 <==> forall|i: int| 0 <= i < rows.len() ==> #[trigger] rows[i].pair != pair,
        newest_index(rows, pair) >= 0 ==> {
            let k = newest_index(rows, pair);
            &&& rows[k].pair == pair
            &&& forall|i: int| 0 <= i < rows.len() && #[trigger] rows[i].pair == pair ==> rows[i].ts_ms <= rows[k].ts_ms
        },
    decreases rows.len(),
{
    lemma_newest_index_range(rows, pair);
    if rows.len() > 0 {
        let init = rows.drop_last();
        lemma_newest_index_is_max(init, pair);
        lemma_newest_index_range(init, pair);
        assert forall|i: int| 0 <= i < init.len() implies init[i] == rows[i] by {}
    }
}

/// The latest-row lookup answers the row with the greatest `ts_ms` among
/// all rows of the pair, and answers nothing exactly when no row has the
/// pair.
pub proof fn lemma_latest_is_maximal(rows: Seq<PredictionView>, pair: Seq<char>)
    ensures
        newest(rows, pair) is None <==> forall|i: int| 0 <= i < rows.len() ==> #[trigger] rows[i].pair != pair,
        newest(rows, pair) matches Some(p) ==> is_latest_row(rows, pair, p),
{
    lemma_newest_index_range(rows, pair);
    lemma_newest_index_is_max(rows, pair);
    if newest_index(rows, pair) >= 0 {
        let k = newest_index(rows, pair);
        assert(rows.contains(rows[k]));
    }
}

proof fn lemma_newest_rows_upto(rows: Seq<PredictionView>, k: int)
    requires
        0 <= k <= rows.len(),
    ensures
        forall|j: int| 0 <= j < newest_rows_upto(rows, k).len() ==> {
            let m = newest_index(rows, (#[trigger] newest_rows_upto(rows, k)[j]).pair);
            0 <= m < k && rows[m] == newest_rows_upto(rows, k)[j]
        },
        forall|j1: int, j2: int| 0 <= j1 < j2 < newest_rows_upto(rows, k).len() ==>
            newest_index(rows, (#[trigger] newest_rows_upto(rows, k)[j1]).pair)
            < newest_index(rows, (#[trigger] newest_rows_upto(rows, k)[j2]).pair),
        forall|m: int| 0 <= m < k && newest_index(rows, (#[trigger] rows[m]).pair) == m ==>
            exists|j: int| 0 <= j < newest_rows_upto(rows, k).len() && newest_rows_upto(rows, k)[j] == rows[m],
    decreases k,
{
    if k > 0 {
        lemma_newest_rows_upto(rows, k - 1);
        let prev = newest_rows_upto(rows, k - 1);
        let out = newest_rows_upto(rows, k);
        if newest_index(rows, rows[k - 1].pair) == k - 1 {
            assert(out == prev.push(rows[k - 1]));
            assert(out[prev.len() as int] == rows[k - 1]);
            assert forall|j: int| 0 <= j < prev.len() implies out[j] == prev[j] by {}
            assert forall|m: int| 0 <= m < k && newest_index(rows, (#[trigger] rows[m]).pair) == m implies
                exists|j: int| 0 <= j < out.len() && out[j] == rows[m] by {
                if m == k - 1 {
                    assert(out[prev.len() as int] == rows[m]);
                } else {
                    let j = choose|j: int| 0 <= j < prev.len() && prev[j] == rows[m];
                    assert(out[j] == rows[m]);
                }
            }
        }
    }
}

/// The all-pairs lookup answers exactly one row per distinct pair present
/// in storage, each a latest row of its pair; on empty storage it answers
/// nothing.
pub proof fn lemma_all_latest_one_per_pair(rows: Seq<PredictionView>)
    ensures
        forall|j: int| 0 <= j < newest_rows(rows).len() ==>
            is_latest_row(rows, (#[trigger] newest_rows(rows)[j]).pair, newest_rows(rows)[j]),
        forall|i: int| 0 <= i < rows.len() ==>
            exists|j: int| 0 <= j < newest_rows(rows).len() && (#[trigger] newest_rows(rows)[j]).pair == (#[trigger] rows[i]).pair,
        forall|j1: int, j2: int| 0 <= j1 < j2 < newest_rows(rows).len() ==>
            (#[trigger] newest_rows(rows)[j1]).pair != (#[trigger] newest_rows(rows)[j2]).pair,
        rows.len() == 0 ==> newest_rows(rows).len() == 0,
{
    let out = newest_rows(rows);
    lemma_newest_rows_upto(rows, rows.len() as int);
    assert forall|j: int| 0 <= j < out.len() implies is_latest_row(rows, (#[trigger] out[j]).pair, out[j]) by {
        lemma_latest_is_maximal(rows, out[j].pair);
        lemma_newest_index_range(rows, out[j].pair);
    }
    assert forall|i: int| 0 <= i < rows.len() implies
        exists|j: int| 0 <= j < out.len() && (#[trigger] out[j]).pair == (#[trigger] rows[i]).pair by {
        lemma_newest_index_is_max(rows, rows[i].pair);
        lemma_newest_index_range(rows, rows[i].pair);
        let m = newest_index(rows, rows[i].pair);
        assert(rows[m].pair == rows[i].pair);
        assert(newest_index(rows, rows[m].pair) == m);
        let j = choose|j: int| 0 <= j < out.len() && out[j] == rows[m];
        assert(out[j].pair == rows[i].pair);
    }
}

/// Asking twice for the latest row of a pair, with no write in between,
/// gives the same answer: the answer is determined by the stored rows.
pub proof fn lemma_latest_is_repeatable(
    rows: Seq<PredictionView>,
    pair: Seq<char>,
    first: Option<PredictionView>,
    second: Option<PredictionView>,
)
    requires
        first == newest(rows, pair),
        second == newest(rows, pair),
    ensures
        first == second,
        first matches Some(p) ==> is_latest_row(rows, pair, p),
{
    lemma_latest_is_maximal(rows, pair);
}

} // verus!
