//! The workflow store: every workflow instance, plus one bijective
//! job-correlation table per stage (query, retrieve, anonymize, push).
//!
//! Each table maps an externally issued identifier to an accession number,
//! and no identifier or accession number appears twice within a table.
//! Inserting a pair removes any pair it collides with on either side, which
//! is how a repeated submission replaces the previous correlations of the
//! same accession number. A later stage's correlation may only be added
//! while the previous stage's correlation exists; asking otherwise is an
//! [`InternalConsistencyFault`].

use crate::error::InternalConsistencyFault;
use crate::ids::{JobId, QueryId};
use crate::models::{AccessionNumber, BltStudy};
use crate::strutil::str_eq;
use vstd::prelude::*;

verus! {

/// One recorded pair: an externally issued identifier and the accession
/// number of the workflow instance it belongs to.
struct Correlation {
    id: String,
    accession: AccessionNumber,
}

impl Correlation {
    fn duplicate(&self) -> (r: Self)
        ensures
            r == *self,
    {
        Correlation { id: self.id.clone(), accession: self.accession.clone() }
    }
}

/// The mapping described by a sequence of correlations, later entries
/// shadowing earlier ones (well-formed tables have no shadowing).
spec fn seq_map(s: Seq<Correlation>) -> Map<Seq<char>, Seq<char>>
    decreases s.len(),
{
    if s.len() == 0 {
        Map::empty()
    } else {
        seq_map(s.drop_last()).insert(s.last().id@, s.last().accession@)
    }
}

/// No identifier and no accession number appears twice, and every stored
/// accession number is well-formed.
spec fn seq_wf(s: Seq<Correlation>) -> bool {
    &&& forall|i: int, j: int|
        0 <= i < j < s.len() ==> #[trigger] s[i].id@ != #[trigger] s[j].id@
            && s[i].accession@ != s[j].accession@
    &&& forall|i: int| 0 <= i < s.len() ==> (#[trigger] s[i].accession).wf()
}

/// Whether some key of `m` maps to the value `v`.
pub open spec fn map_has_value(m: Map<Seq<char>, Seq<char>>, v: Seq<char>) -> bool {
    exists|k: Seq<char>| #[trigger] m.contains_key(k) && m[k] == v
}

/// The mapping after inserting `l -> r` into a bijective table: any pair
/// that collides with `l` on the left or with `r` on the right is removed.
pub open spec fn bimap_insert(
    m: Map<Seq<char>, Seq<char>>,
    l: Seq<char>,
    r: Seq<char>,
) -> Map<Seq<char>, Seq<char>> {
    Map::new(
        |k: Seq<char>| k == l || (m.contains_key(k) && k != l && m[k] != r),
        |k: Seq<char>| if k == l {
            r
        } else {
            m[k]
        },
    )
}

proof fn lemma_seq_map_contains(s: Seq<Correlation>, k: Seq<char>)
    ensures
        seq_map(s).contains_key(k) <==> exists|i: int| 0 <= i < s.len() && #[trigger] s[i].id@ == k,
    decreases s.len(),
{
    if s.len() > 0 {
        lemma_seq_map_contains(s.drop_last(), k);
        if seq_map(s).contains_key(k) {
            if s.last().id@ == k {
                assert(s[s.len() - 1].id@ == k);
            } else {
                let i = choose|i: int| 0 <= i < s.drop_last().len() && #[trigger] s.drop_last()[i].id@ == k;
                assert(s[i].id@ == k);
            }
        }
        if exists|i: int| 0 <= i < s.len() && #[trigger] s[i].id@ == k {
            let i = choose|i: int| 0 <= i < s.len() && #[trigger] s[i].id@ == k;
            if i < s.len() - 1 {
                assert(s.drop_last()[i].id@ == k);
            }
        }
    }
}

proof fn lemma_seq_map_value(s: Seq<Correlation>, i: int)
    requires
        seq_wf(s),
        0 <= i < s.len(),
    ensures
        seq_map(s).contains_key(s[i].id@),
        seq_map(s)[s[i].id@] == s[i].accession@,
    decreases s.len(),
{
    if i == s.len() - 1 {
    } else {
        lemma_seq_map_value(s.drop_last(), i);
        assert(s.drop_last()[i] == s[i]);
        assert(s[i].id@ != s.last().id@);
    }
}

proof fn lemma_seq_map_has_value(s: Seq<Correlation>, v: Seq<char>)
    requires
        seq_wf(s),
    ensures
        map_has_value(seq_map(s), v) <==> exists|i: int|
            0 <= i < s.len() && #[trigger] s[i].accession@ == v,
{
    if map_has_value(seq_map(s), v) {
        let k = choose|k: Seq<char>| #[trigger] seq_map(s).contains_key(k) && seq_map(s)[k] == v;
        lemma_seq_map_contains(s, k);
        let i = choose|i: int| 0 <= i < s.len() && #[trigger] s[i].id@ == k;
        lemma_seq_map_value(s, i);
        assert(s[i].accession@ == v);
    }
    if exists|i: int| 0 <= i < s.len() && #[trigger] s[i].accession@ == v {
        let i = choose|i: int| 0 <= i < s.len() && #[trigger] s[i].accession@ == v;
        lemma_seq_map_value(s, i);
        assert(seq_map(s).contains_key(s[i].id@) && seq_map(s)[s[i].id@] == v);
    }
}

/// Filtering out every pair that collides with `l -> r`, on a table with
/// distinct identifiers, removes exactly those pairs from the mapping.
proof fn lemma_seq_map_filter(
    s: Seq<Correlation>,
    pred: spec_fn(Correlation) -> bool,
    l: Seq<char>,
    r: Seq<char>,
)
    requires
        forall|i: int, j: int|
            0 <= i < j < s.len() ==> #[trigger] s[i].id@ != #[trigger] s[j].id@,
        forall|e: Correlation| #[trigger] pred(e) <==> (e.id@ != l && e.accession@ != r),
    ensures
        seq_map(s.filter(pred)) =~= Map::new(
            |k: Seq<char>| seq_map(s).contains_key(k) && k != l && seq_map(s)[k] != r,
            |k: Seq<char>| seq_map(s)[k],
        ),
    decreases s.len(),
{
    reveal(Seq::filter);
    if s.len() == 0 {
        assert(s.filter(pred) =~= s);
    } else {
        let t = s.drop_last();
        let x = s.last();
        assert(forall|i: int| 0 <= i < t.len() ==> t[i] == s[i]);
        lemma_seq_map_filter(t, pred, l, r);
        lemma_seq_map_contains(t, x.id@);
        assert(!seq_map(t).contains_key(x.id@)) by {
            if exists|i: int| 0 <= i < t.len() && #[trigger] t[i].id@ == x.id@ {
                let i = choose|i: int| 0 <= i < t.len() && #[trigger] t[i].id@ == x.id@;
                assert(s[i].id@ == s[s.len() - 1].id@);
                assert(false);
            }
        }
        if pred(x) {
            assert(s.filter(pred) == t.filter(pred).push(x));
            assert(seq_map(s.filter(pred)) == seq_map(t.filter(pred)).insert(x.id@, x.accession@))
                by {
                assert(t.filter(pred).push(x).drop_last() =~= t.filter(pred));
            }
        } else {
            assert(s.filter(pred) == t.filter(pred));
        }
    }
}

/// Every element of a filtered sequence stands somewhere in the original.
proof fn lemma_filter_elements(s: Seq<Correlation>, pred: spec_fn(Correlation) -> bool, i: int)
    requires
        0 <= i < s.filter(pred).len(),
    ensures
        exists|j: int| 0 <= j < s.len() && #[trigger] s[j] == s.filter(pred)[i],
    decreases s.len(),
{
    reveal(Seq::filter);
    broadcast use Seq::lemma_filter_len;

    if s.len() > 0 {
        let t = s.drop_last();
        let x = s.last();
        if pred(x) && i == s.filter(pred).len() - 1 {
            assert(s[s.len() - 1] == s.filter(pred)[i]);
        } else {
            lemma_filter_elements(t, pred, i);
            let j = choose|j: int| 0 <= j < t.len() && #[trigger] t[j] == t.filter(pred)[i];
            assert(s[j] == s.filter(pred)[i]);
        }
    }
}

proof fn lemma_filter_preserves_wf(s: Seq<Correlation>, pred: spec_fn(Correlation) -> bool)
    requires
        seq_wf(s),
    ensures
        seq_wf(s.filter(pred)),
    decreases s.len(),
{
    reveal(Seq::filter);
    if s.len() > 0 {
        let t = s.drop_last();
        let x = s.last();
        assert(forall|i: int| 0 <= i < t.len() ==> t[i] == s[i]);
        lemma_filter_preserves_wf(t, pred);
        if pred(x) {
            let f = t.filter(pred).push(x);
            assert(s.filter(pred) == f);
            assert forall|i: int, j: int| 0 <= i < j < f.len() implies #[trigger] f[i].id@
                != #[trigger] f[j].id@ && f[i].accession@ != f[j].accession@ by {
                if j == f.len() - 1 {
                    // f[i] stands in t, so it differs from the last element of s.
                    lemma_filter_elements(t, pred, i);
                    let w = choose|w: int|
                        0 <= w < t.len() && #[trigger] t[w] == t.filter(pred)[i];
                    assert(s[w].id@ != s[s.len() - 1].id@);
                    assert(s[w].accession@ != s[s.len() - 1].accession@);
                }
            }
            assert forall|i: int| 0 <= i < f.len() implies (#[trigger] f[i].accession).wf() by {
                if i < f.len() - 1 {
                    lemma_filter_elements(t, pred, i);
                    let w = choose|w: int|
                        0 <= w < t.len() && #[trigger] t[w] == t.filter(pred)[i];
                    assert(s[w].accession.wf());
                }
            }
        }
    }
}

/// One stage's bijective correlation table between externally issued
/// identifiers and accession numbers.
pub struct CorrelationTable {
    entries: Vec<Correlation>,
}

impl View for CorrelationTable {
    type V = Map<Seq<char>, Seq<char>>;

    closed spec fn view(&self) -> Map<Seq<char>, Seq<char>> {
        seq_map(self.entries@)
    }
}

impl CorrelationTable {
    /// Both directions of the table are functions, and every stored
    /// accession number is well-formed.
    pub closed spec fn wf(&self) -> bool {
        seq_wf(self.entries@)
    }

    pub fn with_capacity(capacity: usize) -> (r: Self)
        ensures
            r.wf(),
            r@ == Map::<Seq<char>, Seq<char>>::empty(),
    {
        CorrelationTable { entries: Vec::with_capacity(capacity) }
    }

    /// Whether `id` is recorded in this table.
    pub fn contains_id(&self, id: &str) -> (r: bool)
        ensures
            r == self@.contains_key(id@),
    {
        proof {
            lemma_seq_map_contains(self.entries@, id@);
        }
        let n = self.entries.len();
        let mut i: usize = 0;
        while i < n
            invariant
                n == self.entries@.len(),
                0 <= i <= n,
                forall|j: int| 0 <= j < i ==> (#[trigger] self.entries@[j]).id@ != id@,
                seq_map(self.entries@).contains_key(id@) <==> exists|j: int|
                    0 <= j < n && #[trigger] self.entries@[j].id@ == id@,
            decreases n - i,
        {
            if str_eq(self.entries[i].id.as_str(), id) {
                return true;
            }
            i = i + 1;
        }
        false
    }

    /// The accession number recorded for `id`, if any.
    pub fn accession_of(&self, id: &str) -> (r: Option<AccessionNumber>)
        requires
            self.wf(),
        ensures
            match r {
                Some(a) => self@.contains_key(id@) && a@ == self@[id@] && a.wf(),
                None => !self@.contains_key(id@),
            },
    {
        proof {
            lemma_seq_map_contains(self.entries@, id@);
        }
        let n = self.entries.len();
        let mut i: usize = 0;
        while i < n
            invariant
                self.wf(),
                n == self.entries@.len(),
                0 <= i <= n,
                forall|j: int| 0 <= j < i ==> (#[trigger] self.entries@[j]).id@ != id@,
                seq_map(self.entries@).contains_key(id@) <==> exists|j: int|
                    0 <= j < n && #[trigger] self.entries@[j].id@ == id@,
            decreases n - i,
        {
            if str_eq(self.entries[i].id.as_str(), id) {
                proof {
                    lemma_seq_map_value(self.entries@, i as int);
                }
                return Some(self.entries[i].accession.clone());
            }
            i = i + 1;
        }
        None
    }

    /// Whether some identifier is recorded for `accession`.
    pub fn contains_accession(&self, accession: &str) -> (r: bool)
        requires
            self.wf(),
        ensures
            r == map_has_value(self@, accession@),
    {
        proof {
            lemma_seq_map_has_value(self.entries@, accession@);
        }
        let n = self.entries.len();
        let mut i: usize = 0;
        while i < n
            invariant
                self.wf(),
                n == self.entries@.len(),
                0 <= i <= n,
                forall|j: int| 0 <= j < i ==> (#[trigger] self.entries@[j]).accession@
                    != accession@,
                map_has_value(seq_map(self.entries@), accession@) <==> exists|j: int|
                    0 <= j < n && #[trigger] self.entries@[j].accession@ == accession@,
            decreases n - i,
        {
            if str_eq(self.entries[i].accession.as_str(), accession) {
                return true;
            }
            i = i + 1;
        }
        false
    }

    /// The identifier recorded for `accession`, if any.
    pub fn id_of_accession(&self, accession: &str) -> (r: Option<String>)
        requires
            self.wf(),
        ensures
            match r {
                Some(id) => self@.contains_key(id@) && self@[id@] == accession@,
                None => !map_has_value(self@, accession@),
            },
    {
        proof {
            lemma_seq_map_has_value(self.entries@, accession@);
        }
        let n = self.entries.len();
        let mut i: usize = 0;
        while i < n
            invariant
                self.wf(),
                n == self.entries@.len(),
                0 <= i <= n,
                forall|j: int| 0 <= j < i ==> (#[trigger] self.entries@[j]).accession@
                    != accession@,
                map_has_value(seq_map(self.entries@), accession@) <==> exists|j: int|
                    0 <= j < n && #[trigger] self.entries@[j].accession@ == accession@,
            decreases n - i,
        {
            if str_eq(self.entries[i].accession.as_str(), accession) {
                proof {
                    lemma_seq_map_value(self.entries@, i as int);
                }
                return Some(self.entries[i].id.clone());
            }
            i = i + 1;
        }
        None
    }

    /// Record `id -> accession`, removing any pair that collides with it
    /// on either side.
    pub fn insert(&mut self, id: String, accession: AccessionNumber)
        requires
            old(self).wf(),
            accession.wf(),
        ensures
            final(self).wf(),
            final(self)@ == bimap_insert(old(self)@, id@, accession@),
    {
        let ghost s0 = self.entries@;
        let ghost ghost_id = id@;
        let ghost ghost_acc = accession@;
        let ghost pred = |e: Correlation| e.id@ != ghost_id && e.accession@ != ghost_acc;
        proof {
            assert(forall|e: Correlation| #[trigger] pred(e) <==> (e.id@ != ghost_id
                && e.accession@ != ghost_acc));
        }
        let mut kept: Vec<Correlation> = Vec::new();
        let n = self.entries.len();
        let mut i: usize = 0;
        while i < n
            invariant
                self.entries@ == s0,
                seq_wf(s0),
                accession.wf(),
                ghost_id == id@,
                ghost_acc == accession@,
                forall|e: Correlation| #[trigger] pred(e) <==> (e.id@ != ghost_id && e.accession@
                    != ghost_acc),
                n == s0.len(),
                0 <= i <= n,
                kept@ == s0.subrange(0, i as int).filter(pred),
            decreases n - i,
        {
            let e = &self.entries[i];
            let keep = !str_eq(e.id.as_str(), id.as_str()) && !str_eq(
                e.accession.as_str(),
                accession.as_str(),
            );
            if keep {
                kept.push(e.duplicate());
            }
            proof {
                reveal(Seq::filter);
                let u = s0.subrange(0, i as int + 1);
                assert(u.drop_last() =~= s0.subrange(0, i as int));
                assert(u.last() == s0[i as int]);
                assert(pred(u.last()) == keep);
                if keep {
                    assert(kept@.drop_last() =~= u.drop_last().filter(pred));
                    assert(kept@.last() == s0[i as int]);
                    assert(kept@ =~= u.drop_last().filter(pred).push(u.last()));
                }
                assert(kept@ == u.filter(pred));
            }
            i = i + 1;
        }
        kept.push(Correlation { id, accession });
        proof {
            assert(s0.subrange(0, n as int) =~= s0);
        }
        self.entries = kept;
        proof {
            lemma_seq_map_filter(s0, pred, ghost_id, ghost_acc);
            lemma_filter_preserves_wf(s0, pred);
            let f = s0.filter(pred);
            assert(self.entries@.drop_last() =~= f);
            assert(seq_map(self.entries@) =~= bimap_insert(seq_map(s0), ghost_id, ghost_acc));
            assert forall|i: int, j: int| 0 <= i < j < self.entries@.len() implies #[trigger] self
                .entries@[i].id@ != #[trigger] self.entries@[j].id@ && self.entries@[i].accession@
                != self.entries@[j].accession@ by {
                if j == self.entries@.len() - 1 {
                    s0.lemma_filter_pred(pred, i);
                }
            }
        }
    }
}

/// Recording a correlation makes exactly the recorded identifier known:
/// afterwards it maps to the recorded accession number, and any other
/// identifier is known exactly if it was known before and its accession
/// number was not displaced by the new pair.
pub proof fn lemma_bimap_insert_membership(
    m: Map<Seq<char>, Seq<char>>,
    l: Seq<char>,
    r: Seq<char>,
    other: Seq<char>,
)
    ensures
        bimap_insert(m, l, r).contains_key(l),
        bimap_insert(m, l, r)[l] == r,
        other != l ==> (bimap_insert(m, l, r).contains_key(other) <==> m.contains_key(other)
            && m[other] != r),
        other != l && bimap_insert(m, l, r).contains_key(other) ==> bimap_insert(m, l, r)[other]
            == m[other],
{
}

/// The mapping from accession numbers to recorded workflow instances
/// described by a sequence of instances, later entries shadowing earlier
/// ones (a well-formed store has no shadowing).
spec fn study_map(s: Seq<BltStudy>) -> Map<Seq<char>, BltStudy>
    decreases s.len(),
{
    if s.len() == 0 {
        Map::empty()
    } else {
        study_map(s.drop_last()).insert(s.last().accession_number@, s.last())
    }
}

/// No accession number appears twice, and every instance is well-formed.
spec fn study_wf(s: Seq<BltStudy>) -> bool {
    &&& forall|i: int, j: int|
        0 <= i < j < s.len() ==> #[trigger] s[i].accession_number@
            != #[trigger] s[j].accession_number@
    &&& forall|i: int| 0 <= i < s.len() ==> (#[trigger] s[i]).wf()
}

proof fn lemma_study_map_contains(s: Seq<BltStudy>, k: Seq<char>)
    ensures
        study_map(s).contains_key(k) <==> exists|i: int|
            0 <= i < s.len() && #[trigger] s[i].accession_number@ == k,
    decreases s.len(),
{
    if s.len() > 0 {
        lemma_study_map_contains(s.drop_last(), k);
        if study_map(s).contains_key(k) {
            if s.last().accession_number@ == k {
                assert(s[s.len() - 1].accession_number@ == k);
            } else {
                let i = choose|i: int|
                    0 <= i < s.drop_last().len() && #[trigger] s.drop_last()[i].accession_number@
                        == k;
                assert(s[i].accession_number@ == k);
            }
        }
        if exists|i: int| 0 <= i < s.len() && #[trigger] s[i].accession_number@ == k {
            let i = choose|i: int| 0 <= i < s.len() && #[trigger] s[i].accession_number@ == k;
            if i < s.len() - 1 {
                assert(s.drop_last()[i].accession_number@ == k);
            }
        }
    }
}

proof fn lemma_study_map_value(s: Seq<BltStudy>, i: int)
    requires
        forall|x: int, y: int|
            0 <= x < y < s.len() ==> #[trigger] s[x].accession_number@
                != #[trigger] s[y].accession_number@,
        0 <= i < s.len(),
    ensures
        study_map(s).contains_key(s[i].accession_number@),
        study_map(s)[s[i].accession_number@] == s[i],
    decreases s.len(),
{
    if i == s.len() - 1 {
    } else {
        lemma_study_map_value(s.drop_last(), i);
        assert(s.drop_last()[i] == s[i]);
        assert(s[i].accession_number@ != s.last().accession_number@);
    }
}

/// Filtering out the instances with a given accession number, in a store
/// with distinct accession numbers, removes exactly that key.
proof fn lemma_study_map_filter(s: Seq<BltStudy>, pred: spec_fn(BltStudy) -> bool, a: Seq<char>)
    requires
        forall|x: int, y: int|
            0 <= x < y < s.len() ==> #[trigger] s[x].accession_number@
                != #[trigger] s[y].accession_number@,
        forall|st: BltStudy| #[trigger] pred(st) <==> st.accession_number@ != a,
    ensures
        study_map(s.filter(pred)) =~= Map::new(
            |k: Seq<char>| study_map(s).contains_key(k) && k != a,
            |k: Seq<char>| study_map(s)[k],
        ),
    decreases s.len(),
{
    reveal(Seq::filter);
    if s.len() == 0 {
        assert(s.filter(pred) =~= s);
    } else {
        let t = s.drop_last();
        let x = s.last();
        assert(forall|i: int| 0 <= i < t.len() ==> t[i] == s[i]);
        lemma_study_map_filter(t, pred, a);
        lemma_study_map_contains(t, x.accession_number@);
        assert(!study_map(t).contains_key(x.accession_number@)) by {
            if exists|i: int| 0 <= i < t.len() && #[trigger] t[i].accession_number@
                == x.accession_number@ {
                let i = choose|i: int|
                    0 <= i < t.len() && #[trigger] t[i].accession_number@ == x.accession_number@;
                assert(s[i].accession_number@ == s[s.len() - 1].accession_number@);
                assert(false);
            }
        }
        if pred(x) {
            assert(s.filter(pred) == t.filter(pred).push(x));
            assert(study_map(s.filter(pred)) == study_map(t.filter(pred)).insert(
                x.accession_number@,
                x,
            )) by {
                assert(t.filter(pred).push(x).drop_last() =~= t.filter(pred));
            }
        } else {
            assert(s.filter(pred) == t.filter(pred));
        }
    }
}

proof fn lemma_study_filter_elements(s: Seq<BltStudy>, pred: spec_fn(BltStudy) -> bool, i: int)
    requires
        0 <= i < s.filter(pred).len(),
    ensures
        exists|j: int| 0 <= j < s.len() && #[trigger] s[j] == s.filter(pred)[i],
    decreases s.len(),
{
    reveal(Seq::filter);
    broadcast use Seq::lemma_filter_len;

    if s.len() > 0 {
        let t = s.drop_last();
        let x = s.last();
        if pred(x) && i == s.filter(pred).len() - 1 {
            assert(s[s.len() - 1] == s.filter(pred)[i]);
        } else {
            lemma_study_filter_elements(t, pred, i);
            let j = choose|j: int| 0 <= j < t.len() && #[trigger] t[j] == t.filter(pred)[i];
            assert(s[j] == s.filter(pred)[i]);
        }
    }
}

proof fn lemma_study_filter_wf(s: Seq<BltStudy>, pred: spec_fn(BltStudy) -> bool)
    requires
        study_wf(s),
    ensures
        study_wf(s.filter(pred)),
    decreases s.len(),
{
    reveal(Seq::filter);
    if s.len() > 0 {
        let t = s.drop_last();
        let x = s.last();
        assert(forall|i: int| 0 <= i < t.len() ==> t[i] == s[i]);
        lemma_study_filter_wf(t, pred);
        if pred(x) {
            let f = t.filter(pred).push(x);
            assert(s.filter(pred) == f);
            assert forall|i: int, j: int|
                0 <= i < j < f.len() implies #[trigger] f[i].accession_number@
                != #[trigger] f[j].accession_number@ by {
                if j == f.len() - 1 {
                    lemma_study_filter_elements(t, pred, i);
                    let w = choose|w: int|
                        0 <= w < t.len() && #[trigger] t[w] == t.filter(pred)[i];
                    assert(s[w].accession_number@ != s[s.len() - 1].accession_number@);
                }
            }
            assert forall|i: int| 0 <= i < f.len() implies (#[trigger] f[i]).wf() by {
                if i < f.len() - 1 {
                    lemma_study_filter_elements(t, pred, i);
                    let w = choose|w: int|
                        0 <= w < t.len() && #[trigger] t[w] == t.filter(pred)[i];
                    assert(s[w].wf());
                }
            }
        }
    }
}

/// The recorded state of one workflow instance, as reported for status
/// reads: the instance itself and the job correlations recorded so far.
pub struct BltStudyState {
    pub info: BltStudy,
    pub query_id: QueryId,
    pub retrieve_job_id: JobId,
    pub anonymization_job_id: Option<JobId>,
    pub push_job_id: Option<JobId>,
}

/// In-process store of the workflow instances being processed, with one
/// bijective job-correlation table per stage.
pub struct BltDatabase {
    studies: Vec<BltStudy>,
    queries: CorrelationTable,
    retrieve_jobs: CorrelationTable,
    anonymize_jobs: CorrelationTable,
    push_jobs: CorrelationTable,
}

impl BltDatabase {
    /// The recorded instances, keyed by accession number.
    pub closed spec fn studies_map(&self) -> Map<Seq<char>, BltStudy> {
        study_map(self.studies@)
    }

    /// The recorded instances in storage order.
    pub closed spec fn studies_seq(&self) -> Seq<BltStudy> {
        self.studies@
    }

    /// Query ID to accession number, for the query stage.
    pub closed spec fn queries_map(&self) -> Map<Seq<char>, Seq<char>> {
        self.queries@
    }

    /// Retrieve job ID to accession number.
    pub closed spec fn retrieve_map(&self) -> Map<Seq<char>, Seq<char>> {
        self.retrieve_jobs@
    }

    /// Anonymization job ID to accession number.
    pub closed spec fn anonymize_map(&self) -> Map<Seq<char>, Seq<char>> {
        self.anonymize_jobs@
    }

    /// Push job ID to accession number.
    pub closed spec fn push_map(&self) -> Map<Seq<char>, Seq<char>> {
        self.push_jobs@
    }

    /// Accession numbers are unique among the recorded instances, every
    /// table is bijective, and every recorded instance has a query and a
    /// retrieve correlation, so a status read never comes up short.
    pub closed spec fn wf(&self) -> bool {
        &&& study_wf(self.studies@)
        &&& self.queries.wf()
        &&& self.retrieve_jobs.wf()
        &&& self.anonymize_jobs.wf()
        &&& self.push_jobs.wf()
        &&& forall|k: Seq<char>|
            #[trigger] study_map(self.studies@).contains_key(k) ==> map_has_value(self.queries@, k)
                && map_has_value(self.retrieve_jobs@, k)
    }

    /// A key of the instance map is exactly an accession number standing
    /// somewhere in the instance sequence.
    pub proof fn lemma_studies_map_complete(&self, k: Seq<char>)
        ensures
            self.studies_map().contains_key(k) <==> exists|i: int|
                0 <= i < self.studies_seq().len()
                    && #[trigger] self.studies_seq()[i].accession_number@ == k,
    {
        lemma_study_map_contains(self.studies@, k);
        if self.studies_map().contains_key(k) {
            let i = choose|i: int|
                0 <= i < self.studies@.len() && #[trigger] self.studies@[i].accession_number@ == k;
            assert(0 <= i < self.studies_seq().len() && self.studies_seq()[i].accession_number@
                == k);
        }
        if exists|i: int|
            0 <= i < self.studies_seq().len() && #[trigger] self.studies_seq()[i].accession_number@
                == k {
            let i = choose|i: int|
                0 <= i < self.studies_seq().len()
                    && #[trigger] self.studies_seq()[i].accession_number@ == k;
            assert(0 <= i < self.studies@.len() && self.studies@[i].accession_number@ == k);
        }
    }

    /// A well-formed store couples the instances to the first two
    /// stages: every recorded instance has a query and a retrieve
    /// correlation. For a recorded instance this is what lets a caller
    /// conclude that [`BltDatabase::add_anonymization`] succeeds.
    pub proof fn lemma_recorded_instance_has_correlations(&self, accession: Seq<char>)
        requires
            self.wf(),
            self.studies_map().contains_key(accession),
        ensures
            map_has_value(self.queries_map(), accession),
            map_has_value(self.retrieve_map(), accession),
    {
    }

    /// Create an empty store with at least the given capacity.
    pub fn with_capacity(capacity: usize) -> (r: Self)
        ensures
            r.wf(),
            r.studies_map() == Map::<Seq<char>, BltStudy>::empty(),
            r.studies_seq() == Seq::<BltStudy>::empty(),
            r.queries_map() == Map::<Seq<char>, Seq<char>>::empty(),
            r.retrieve_map() == Map::<Seq<char>, Seq<char>>::empty(),
            r.anonymize_map() == Map::<Seq<char>, Seq<char>>::empty(),
            r.push_map() == Map::<Seq<char>, Seq<char>>::empty(),
    {
        let r = BltDatabase {
            studies: Vec::with_capacity(capacity),
            queries: CorrelationTable::with_capacity(capacity),
            retrieve_jobs: CorrelationTable::with_capacity(capacity),
            anonymize_jobs: CorrelationTable::with_capacity(capacity),
            push_jobs: CorrelationTable::with_capacity(capacity),
        };
        proof {
            assert(r.studies@ =~= Seq::<BltStudy>::empty());
        }
        r
    }

    /// Insert or overwrite the instance and record its query and retrieve
    /// correlations. Returns whether an instance with the same accession
    /// number was overwritten (the duplicate-request case, which the host
    /// reports as a warning but does not reject).
    ///
    /// The identifiers must be fresh or already bound to this same
    /// accession number: the external server never reuses a live job or
    /// query identifier for a different workflow.
    pub fn add_study(&mut self, study: BltStudy, query_id: QueryId, job_id: JobId) -> (overwrote:
        bool)
        requires
            old(self).wf(),
            study.wf(),
            old(self).queries_map().contains_key(query_id@) ==> old(self).queries_map()[query_id@]
                == study.accession_number@,
            old(self).retrieve_map().contains_key(job_id@) ==> old(self).retrieve_map()[job_id@]
                == study.accession_number@,
        ensures
            final(self).wf(),
            overwrote == old(self).studies_map().contains_key(study.accession_number@),
            final(self).studies_map() == old(self).studies_map().insert(
                study.accession_number@,
                study,
            ),
            final(self).queries_map() == bimap_insert(
                old(self).queries_map(),
                query_id@,
                study.accession_number@,
            ),
            final(self).retrieve_map() == bimap_insert(
                old(self).retrieve_map(),
                job_id@,
                study.accession_number@,
            ),
            final(self).anonymize_map() == old(self).anonymize_map(),
            final(self).push_map() == old(self).push_map(),
    {
        let ghost s0 = self.studies@;
        let ghost acc = study.accession_number@;
        let ghost pred = |st: BltStudy| st.accession_number@ != acc;
        let overwrote = self.contains_study(&study.accession_number);
        let mut kept: Vec<BltStudy> = Vec::new();
        let n = self.studies.len();
        let mut i: usize = 0;
        while i < n
            invariant
                self.studies@ == s0,
                study_wf(s0),
                acc == study.accession_number@,
                forall|st: BltStudy| #[trigger] pred(st) <==> st.accession_number@ != acc,
                n == s0.len(),
                0 <= i <= n,
                kept@ == s0.subrange(0, i as int).filter(pred),
            decreases n - i,
        {
            let st = &self.studies[i];
            let keep = !str_eq(st.accession_number.as_str(), study.accession_number.as_str());
            if keep {
                kept.push(st.clone());
            }
            proof {
                reveal(Seq::filter);
                let u = s0.subrange(0, i as int + 1);
                assert(u.drop_last() =~= s0.subrange(0, i as int));
                assert(u.last() == s0[i as int]);
                if keep {
                    assert(kept@.drop_last() =~= u.drop_last().filter(pred));
                    assert(kept@.last() == s0[i as int]);
                }
                assert(kept@ == u.filter(pred));
            }
            i = i + 1;
        }
        proof {
            assert(s0.subrange(0, n as int) =~= s0);
        }
        let ghost q0 = self.queries@;
        let ghost r0 = self.retrieve_jobs@;
        let ghost ql = query_id@;
        let ghost jl = job_id@;
        let query_string = query_id.into_string();
        let job_string = job_id.into_string();
        let accession_for_query = study.accession_number.clone();
        let accession_for_retrieve = study.accession_number.clone();
        kept.push(study);
        self.studies = kept;
        self.queries.insert(query_string, accession_for_query);
        self.retrieve_jobs.insert(job_string, accession_for_retrieve);
        proof {
            lemma_study_map_filter(s0, pred, acc);
            lemma_study_filter_wf(s0, pred);
            let f = s0.filter(pred);
            assert(self.studies@.drop_last() =~= f);
            assert(study_map(self.studies@) =~= study_map(s0).insert(
                acc,
                self.studies@.last(),
            ));
            assert forall|x: int, y: int|
                0 <= x < y < self.studies@.len() implies #[trigger] self
                .studies@[x].accession_number@ != #[trigger] self.studies@[y].accession_number@ by {
                if y == self.studies@.len() - 1 {
                    s0.lemma_filter_pred(pred, x);
                }
            }
            self.lemma_coupling_after_add(s0, q0, r0, acc, ql, jl);
        }
        overwrote
    }

    /// After `add_study`, every recorded instance still has a query and a
    /// retrieve correlation.
    proof fn lemma_coupling_after_add(
        &self,
        s0: Seq<BltStudy>,
        q0: Map<Seq<char>, Seq<char>>,
        r0: Map<Seq<char>, Seq<char>>,
        acc: Seq<char>,
        lq: Seq<char>,
        lr: Seq<char>,
    )
        requires
            forall|k: Seq<char>| #[trigger] study_map(s0).contains_key(k) ==> map_has_value(q0, k)
                && map_has_value(r0, k),
            study_map(self.studies@) =~= study_map(s0).insert(acc, self.studies@.last()),
            self.studies@.len() > 0,
            self.queries@ == bimap_insert(q0, lq, acc),
            q0.contains_key(lq) ==> q0[lq] == acc,
            self.retrieve_jobs@ == bimap_insert(r0, lr, acc),
            r0.contains_key(lr) ==> r0[lr] == acc,
        ensures
            forall|k: Seq<char>|
                #[trigger] study_map(self.studies@).contains_key(k) ==> map_has_value(
                    self.queries@,
                    k,
                ) && map_has_value(self.retrieve_jobs@, k),
    {
        assert forall|k: Seq<char>|
            #[trigger] study_map(self.studies@).contains_key(k) implies map_has_value(
            self.queries@,
            k,
        ) && map_has_value(self.retrieve_jobs@, k) by {
            if k == acc {
                assert(self.queries@.contains_key(lq) && self.queries@[lq] == acc);
                assert(self.retrieve_jobs@.contains_key(lr) && self.retrieve_jobs@[lr] == acc);
            } else {
                assert(study_map(s0).contains_key(k));
                let kq = choose|kk: Seq<char>| #[trigger] q0.contains_key(kk) && q0[kk] == k;
                assert(kq != lq);
                assert(self.queries@.contains_key(kq) && self.queries@[kq] == k);
                let kr = choose|kk: Seq<char>| #[trigger] r0.contains_key(kk) && r0[kk] == k;
                assert(kr != lr);
                assert(self.retrieve_jobs@.contains_key(kr) && self.retrieve_jobs@[kr] == k);
            }
        }
    }

    /// Whether an instance with this accession number is recorded.
    pub fn contains_study(&self, accession_number: &AccessionNumber) -> (r: bool)
        ensures
            r == self.studies_map().contains_key(accession_number@),
    {
        proof {
            lemma_study_map_contains(self.studies@, accession_number@);
        }
        let n = self.studies.len();
        let mut i: usize = 0;
        while i < n
            invariant
                n == self.studies@.len(),
                0 <= i <= n,
                forall|j: int| 0 <= j < i ==> (#[trigger] self.studies@[j]).accession_number@
                    != accession_number@,
                study_map(self.studies@).contains_key(accession_number@) <==> exists|j: int|
                    0 <= j < n && #[trigger] self.studies@[j].accession_number@
                        == accession_number@,
            decreases n - i,
        {
            if str_eq(self.studies[i].accession_number.as_str(), accession_number.as_str()) {
                return true;
            }
            i = i + 1;
        }
        false
    }

    /// Get the recorded instance for an accession number.
    pub fn get(&self, accession_number: &AccessionNumber) -> (r: Option<&BltStudy>)
        requires
            self.wf(),
        ensures
            match r {
                Some(st) => self.studies_map().contains_key(accession_number@) && *st
                    == self.studies_map()[accession_number@],
                None => !self.studies_map().contains_key(accession_number@),
            },
    {
        proof {
            lemma_study_map_contains(self.studies@, accession_number@);
        }
        let n = self.studies.len();
        let mut i: usize = 0;
        while i < n
            invariant
                self.wf(),
                n == self.studies@.len(),
                0 <= i <= n,
                forall|j: int| 0 <= j < i ==> (#[trigger] self.studies@[j]).accession_number@
                    != accession_number@,
                study_map(self.studies@).contains_key(accession_number@) <==> exists|j: int|
                    0 <= j < n && #[trigger] self.studies@[j].accession_number@
                        == accession_number@,
            decreases n - i,
        {
            if str_eq(self.studies[i].accession_number.as_str(), accession_number.as_str()) {
                proof {
                    lemma_study_map_value(self.studies@, i as int);
                }
                return Some(&self.studies[i]);
            }
            i = i + 1;
        }
        None
    }

    /// Whether the given job ID is a recorded retrieve job.
    pub fn has_retrieve(&self, id: &JobId) -> (r: bool)
        ensures
            r == self.retrieve_map().contains_key(id@),
    {
        self.retrieve_jobs.contains_id(id.as_str())
    }

    /// The accession number whose query has the given ID. Lets an
    /// unverified caller check, before `add_study`, that a query
    /// identifier is not already bound to a different accession number.
    pub fn get_accession_number_of_query(&self, id: &QueryId) -> (r: Option<AccessionNumber>)
        requires
            self.wf(),
        ensures
            match r {
                Some(a) => self.queries_map().contains_key(id@) && a@ == self.queries_map()[id@]
                    && a.wf(),
                None => !self.queries_map().contains_key(id@),
            },
    {
        self.queries.accession_of(id.as_str())
    }

    /// The accession number whose retrieve job has the given ID. Lets an
    /// unverified caller check, before `add_study`, that a job
    /// identifier is not already bound to a different accession number.
    pub fn get_accession_number_of_retrieve(&self, id: &JobId) -> (r: Option<AccessionNumber>)
        requires
            self.wf(),
        ensures
            match r {
                Some(a) => self.retrieve_map().contains_key(id@) && a@ == self.retrieve_map()[id@]
                    && a.wf(),
                None => !self.retrieve_map().contains_key(id@),
            },
    {
        self.retrieve_jobs.accession_of(id.as_str())
    }

    /// Whether the given job ID is a recorded push job.
    pub fn has_push(&self, id: &JobId) -> (r: bool)
        ensures
            r == self.push_map().contains_key(id@),
    {
        self.push_jobs.contains_id(id.as_str())
    }

    /// The accession number whose anonymization job has the given ID.
    pub fn get_accession_number_of_anonymization(&self, id: &JobId) -> (r: Option<AccessionNumber>)
        requires
            self.wf(),
        ensures
            match r {
                Some(a) => self.anonymize_map().contains_key(id@) && a@ == self.anonymize_map()[id@]
                    && a.wf(),
                None => !self.anonymize_map().contains_key(id@),
            },
    {
        self.anonymize_jobs.accession_of(id.as_str())
    }

    /// Record an anonymization job for an accession number. The retrieve
    /// correlation for that accession number must already exist; if it
    /// does not, nothing is recorded and the internal-consistency fault is
    /// reported.
    pub fn add_anonymization(&mut self, job_id: JobId, accession_number: AccessionNumber) -> (r:
        Result<(), InternalConsistencyFault>)
        requires
            old(self).wf(),
            accession_number.wf(),
        ensures
            final(self).wf(),
            r is Ok <==> map_has_value(old(self).retrieve_map(), accession_number@),
            r is Ok ==> final(self).anonymize_map() == bimap_insert(
                old(self).anonymize_map(),
                job_id@,
                accession_number@,
            ),
            r is Err ==> *final(self) == *old(self),
            final(self).studies_map() == old(self).studies_map(),
            final(self).studies_seq() == old(self).studies_seq(),
            final(self).queries_map() == old(self).queries_map(),
            final(self).retrieve_map() == old(self).retrieve_map(),
            final(self).push_map() == old(self).push_map(),
    {
        if self.retrieve_jobs.contains_accession(accession_number.as_str()) {
            self.anonymize_jobs.insert(job_id.into_string(), accession_number);
            Ok(())
        } else {
            Err(InternalConsistencyFault)
        }
    }

    /// Record a push job for an accession number. The anonymization
    /// correlation for that accession number must already exist; if it
    /// does not, nothing is recorded and the internal-consistency fault is
    /// reported.
    pub fn add_push(&mut self, job_id: JobId, accession_number: AccessionNumber) -> (r: Result<
        (),
        InternalConsistencyFault,
    >)
        requires
            old(self).wf(),
            accession_number.wf(),
        ensures
            final(self).wf(),
            r is Ok <==> map_has_value(old(self).anonymize_map(), accession_number@),
            r is Ok ==> final(self).push_map() == bimap_insert(
                old(self).push_map(),
                job_id@,
                accession_number@,
            ),
            r is Err ==> *final(self) == *old(self),
            final(self).studies_map() == old(self).studies_map(),
            final(self).studies_seq() == old(self).studies_seq(),
            final(self).queries_map() == old(self).queries_map(),
            final(self).retrieve_map() == old(self).retrieve_map(),
            final(self).anonymize_map() == old(self).anonymize_map(),
    {
        if self.anonymize_jobs.contains_accession(accession_number.as_str()) {
            self.push_jobs.insert(job_id.into_string(), accession_number);
            Ok(())
        } else {
            Err(InternalConsistencyFault)
        }
    }

    /// Read-only snapshot of every recorded instance with its correlations.
    pub fn list_studies(&self) -> (r: Vec<BltStudyState>)
        requires
            self.wf(),
        ensures
            r@.len() == self.studies_seq().len(),
            forall|i: int|
                0 <= i < r@.len() ==> {
                    let st = #[trigger] r@[i];
                    &&& st.info == self.studies_seq()[i]
                    &&& self.queries_map().contains_key(st.query_id@) && self.queries_map()[st
                        .query_id@] == st.info.accession_number@
                    &&& self.retrieve_map().contains_key(st.retrieve_job_id@)
                        && self.retrieve_map()[st.retrieve_job_id@] == st.info.accession_number@
                    &&& match st.anonymization_job_id {
                        Some(a) => self.anonymize_map().contains_key(a@) && self.anonymize_map()[a@]
                            == st.info.accession_number@,
                        None => !map_has_value(self.anonymize_map(), st.info.accession_number@),
                    }
                    &&& match st.push_job_id {
                        Some(p) => self.push_map().contains_key(p@) && self.push_map()[p@]
                            == st.info.accession_number@,
                        None => !map_has_value(self.push_map(), st.info.accession_number@),
                    }
                },
    {
        let mut out: Vec<BltStudyState> = Vec::new();
        let n = self.studies.len();
        let mut i: usize = 0;
        while i < n
            invariant
                self.wf(),
                n == self.studies@.len(),
                0 <= i <= n,
                out@.len() == i,
                forall|j: int|
                    0 <= j < i ==> {
                        let st = #[trigger] out@[j];
                        &&& st.info == self.studies@[j]
                        &&& self.queries@.contains_key(st.query_id@) && self.queries@[st.query_id@]
                            == st.info.accession_number@
                        &&& self.retrieve_jobs@.contains_key(st.retrieve_job_id@)
                            && self.retrieve_jobs@[st.retrieve_job_id@]
                            == st.info.accession_number@
                        &&& match st.anonymization_job_id {
                            Some(a) => self.anonymize_jobs@.contains_key(a@)
                                && self.anonymize_jobs@[a@] == st.info.accession_number@,
                            None => !map_has_value(
                                self.anonymize_jobs@,
                                st.info.accession_number@,
                            ),
                        }
                        &&& match st.push_job_id {
                            Some(p) => self.push_jobs@.contains_key(p@) && self.push_jobs@[p@]
                                == st.info.accession_number@,
                            None => !map_has_value(self.push_jobs@, st.info.accession_number@),
                        }
                    },
            decreases n - i,
        {
            let study = &self.studies[i];
            proof {
                lemma_study_map_value(self.studies@, i as int);
            }
            let query_id = match self.queries.id_of_accession(study.accession_number.as_str()) {
                Some(q) => QueryId::new(q),
                None => vstd::pervasive::unreached(),
            };
            let retrieve_job_id = match self.retrieve_jobs.id_of_accession(
                study.accession_number.as_str(),
            ) {
                Some(q) => JobId::new(q),
                None => vstd::pervasive::unreached(),
            };
            let anonymization_job_id = match self.anonymize_jobs.id_of_accession(
                study.accession_number.as_str(),
            ) {
                Some(q) => Some(JobId::new(q)),
                None => None,
            };
            let push_job_id = match self.push_jobs.id_of_accession(
                study.accession_number.as_str(),
            ) {
                Some(q) => Some(JobId::new(q)),
                None => None,
            };
            out.push(
                BltStudyState {
                    info: study.clone(),
                    query_id,
                    retrieve_job_id,
                    anonymization_job_id,
                    push_job_id,
                },
            );
            i = i + 1;
        }
        out
    }
}

} // verus!
