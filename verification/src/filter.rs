//! The series filter: a pure rule over per-series descriptive metadata
//! deciding which series to discard before anonymization.
//!
//! The policy in force discards a series whose modality is ultrasound;
//! each discarded series carries a structured audit record naming the tag,
//! its value and the reason.

use crate::dicom::{RequestedTags, Series};
use crate::ids::SeriesId;
use crate::strutil::str_eq;
use vstd::prelude::*;

verus! {

/// The per-series descriptive metadata the filter reads.
pub struct SeriesDetails {
    pub series_description: String,
    pub series_instance_uid: String,
    pub modality: String,
}

impl RequestedTags for SeriesDetails {
    fn names() -> Vec<&'static str> {
        let mut v: Vec<&'static str> = Vec::new();
        v.push("Modality");
        v.push("SeriesDescription");
        v.push("SeriesInstanceUID");
        v
    }
}

/// The audit record for one discarded series: the tag that matched the
/// rule, its value, and the reason in words.
pub struct DeleteReason<'a> {
    pub reason: &'static str,
    pub tag: &'static str,
    pub value: &'a str,
}

impl SeriesDetails {
    /// Whether the rule in force discards a series with this metadata:
    /// its modality is ultrasound.
    pub open spec fn spec_should_delete(&self) -> bool {
        self.modality@ == "US"@
    }

    /// Apply the rule: a discarded series gets an audit record citing the
    /// modality tag and its value.
    pub fn should_delete(&self) -> (r: Option<DeleteReason<'_>>)
        ensures
            r is Some <==> self.spec_should_delete(),
            r matches Some(d) ==> d.value@ == self.modality@ && d.tag@ == "Modality"@ && d.reason@
                == "ultrasound images should not be uploaded to BLT"@,
    {
        if str_eq(self.modality.as_str(), "US") {
            Some(
                DeleteReason {
                    reason: "ultrasound images should not be uploaded to BLT",
                    tag: "Modality",
                    value: self.modality.as_str(),
                },
            )
        } else {
            None
        }
    }
}

/// One entry of a filter plan: a series to discard, with its audit record.
pub struct SeriesDiscard {
    pub id: SeriesId,
    pub tag: &'static str,
    pub value: String,
    pub reason: &'static str,
}

/// Whether the filter discards this series.
pub open spec fn spec_discards(s: Series<SeriesDetails>) -> bool {
    s.requested_tags.spec_should_delete()
}

/// The series the filter discards, in order: for each one, its identifier
/// and the modality value that matched the rule.
pub open spec fn spec_discard_list(s: Seq<Series<SeriesDetails>>) -> Seq<(SeriesId, String)>
    decreases s.len(),
{
    if s.len() == 0 {
        Seq::empty()
    } else {
        let rest = spec_discard_list(s.drop_last());
        if spec_discards(s.last()) {
            rest.push((s.last().id, s.last().requested_tags.modality))
        } else {
            rest
        }
    }
}

/// Whether the filter discards every series of the study; an instance
/// whose study ends up fully filtered is aborted.
pub open spec fn spec_fully_filtered(s: Seq<Series<SeriesDetails>>) -> bool {
    spec_discard_list(s).len() == s.len()
}

/// The filter never discards more series than it was given, and it
/// discards all of them exactly when every series matches the rule.
pub proof fn lemma_fully_filtered(s: Seq<Series<SeriesDetails>>)
    ensures
        spec_discard_list(s).len() <= s.len(),
        spec_fully_filtered(s) <==> (forall|i: int|
            0 <= i < s.len() ==> spec_discards(#[trigger] s[i])),
    decreases s.len(),
{
    if s.len() > 0 {
        let t = s.drop_last();
        lemma_fully_filtered(t);
        assert(forall|i: int| 0 <= i < t.len() ==> t[i] == s[i]);
        if spec_fully_filtered(s) {
            assert(spec_discards(s[s.len() - 1]));
        }
        if forall|i: int| 0 <= i < s.len() ==> spec_discards(#[trigger] s[i]) {
            assert(forall|i: int| 0 <= i < t.len() ==> spec_discards(#[trigger] t[i]));
        }
    }
}

/// Every entry of the plan names a series of the study that matches the
/// rule.
pub proof fn lemma_discard_entry_matches(s: Seq<Series<SeriesDetails>>, i: int)
    requires
        0 <= i < spec_discard_list(s).len(),
    ensures
        exists|j: int|
            0 <= j < s.len() && spec_discard_list(s)[i].0 == (#[trigger] s[j]).id
                && spec_discards(s[j]),
    decreases s.len(),
{
    lemma_fully_filtered(s);
    let t = s.drop_last();
    assert(forall|k: int| 0 <= k < t.len() ==> t[k] == s[k]);
    if spec_discards(s.last()) && i == spec_discard_list(s).len() - 1 {
        assert(0 <= s.len() - 1 < s.len() && spec_discard_list(s)[i].0 == s[s.len() - 1].id
            && spec_discards(s[s.len() - 1]));
    } else {
        lemma_discard_entry_matches(t, i);
        let j = choose|j: int|
            0 <= j < t.len() && spec_discard_list(t)[i].0 == (#[trigger] t[j]).id
                && spec_discards(t[j]);
        assert(0 <= j < s.len() && spec_discard_list(s)[i].0 == s[j].id && spec_discards(s[j]));
    }
}

/// Every series of the study that matches the rule appears in the plan.
pub proof fn lemma_discard_covers(s: Seq<Series<SeriesDetails>>, j: int)
    requires
        0 <= j < s.len(),
        spec_discards(s[j]),
    ensures
        exists|i: int|
            0 <= i < spec_discard_list(s).len() && (#[trigger] spec_discard_list(s)[i]).0
                == s[j].id,
    decreases s.len(),
{
    let t = s.drop_last();
    assert(forall|k: int| 0 <= k < t.len() ==> t[k] == s[k]);
    if j == s.len() - 1 {
        let n = spec_discard_list(s).len();
        assert(0 <= n - 1 < n && spec_discard_list(s)[n - 1].0 == s[j].id);
    } else {
        lemma_discard_covers(t, j);
        let i = choose|i: int|
            0 <= i < spec_discard_list(t).len() && (#[trigger] spec_discard_list(t)[i]).0
                == t[j].id;
        assert(0 <= i < spec_discard_list(s).len() && spec_discard_list(s)[i].0 == s[j].id);
    }
}

/// Whether a filter plan discards every series of the study. The plan
/// must be the one [`filter_received_series`] produced for these series.
pub fn is_fully_filtered(series: &Vec<Series<SeriesDetails>>, discards: &Vec<SeriesDiscard>) -> (r:
    bool)
    requires
        discards@.len() == spec_discard_list(series@).len(),
    ensures
        r == spec_fully_filtered(series@),
{
    proof {
        lemma_fully_filtered(series@);
    }
    discards.len() == series.len()
}

/// Decide which of the received series to discard. The plan lists exactly
/// the series whose modality matches the forbidden value, in order, each
/// with an audit record citing the modality tag; the caller deletes them
/// and aborts the instance if nothing would be left.
pub fn filter_received_series(series: &Vec<Series<SeriesDetails>>) -> (r: Vec<SeriesDiscard>)
    ensures
        r@.len() == spec_discard_list(series@).len(),
        forall|i: int|
            0 <= i < r@.len() ==> {
                let d = #[trigger] r@[i];
                &&& d.id == spec_discard_list(series@)[i].0
                &&& d.value == spec_discard_list(series@)[i].1
                &&& d.tag@ == "Modality"@
                &&& d.reason@ == "ultrasound images should not be uploaded to BLT"@
            },
{
    let ghost s0 = series@;
    let mut out: Vec<SeriesDiscard> = Vec::new();
    let n = series.len();
    let mut i: usize = 0;
    while i < n
        invariant
            series@ == s0,
            n == s0.len(),
            0 <= i <= n,
            out@.len() == spec_discard_list(s0.subrange(0, i as int)).len(),
            forall|j: int|
                0 <= j < out@.len() ==> {
                    let d = #[trigger] out@[j];
                    &&& d.id == spec_discard_list(s0.subrange(0, i as int))[j].0
                    &&& d.value == spec_discard_list(s0.subrange(0, i as int))[j].1
                    &&& d.tag@ == "Modality"@
                    &&& d.reason@ == "ultrasound images should not be uploaded to BLT"@
                },
        decreases n - i,
    {
        let s = &series[i];
        let hit = match s.requested_tags.should_delete() {
            Some(reason) => {
                out.push(
                    SeriesDiscard {
                        id: s.id.clone(),
                        tag: reason.tag,
                        value: s.requested_tags.modality.clone(),
                        reason: reason.reason,
                    },
                );
                true
            },
            None => false,
        };
        proof {
            let u = s0.subrange(0, i as int + 1);
            assert(u.drop_last() =~= s0.subrange(0, i as int));
            assert(u.last() == s0[i as int]);
            assert(spec_discards(u.last()) == hit);
        }
        i = i + 1;
    }
    proof {
        assert(s0.subrange(0, n as int) =~= s0);
    }
    out
}

} // verus!
