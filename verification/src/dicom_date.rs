//! DICOM dates.
//!
//! A [`DicomDate`] holds a date in the DICOM wire form `YYYYMMDD`. The
//! constructor first normalizes the common `M/D/YYYY` form, zero-padding the
//! month and the day, and then validates that the result is exactly eight
//! digits.

use crate::error::ValidationError;
use vstd::prelude::*;
use vstd::string::{StrSliceExecFns, StringExecFns};

verus! {

/// Whether `c` is one of the decimal digits `'0'` through `'9'`.
pub open spec fn is_date_digit(c: char) -> bool {
    ('0' as int) <= c as int && c as int <= ('9' as int)
}

/// Whether `s` is a well-formed DICOM date: exactly eight digits.
pub open spec fn date_valid(s: Seq<char>) -> bool {
    &&& s.len() == 8
    &&& forall|i: int| 0 <= i < s.len() ==> is_date_digit(#[trigger] s[i])
}

/// Index of the first `'/'` in `s` at or after `from`, or `s.len()` if
/// there is none.
pub open spec fn slash_or_end(s: Seq<char>, from: int) -> int
    recommends
        0 <= from <= s.len(),
    decreases s.len() - from,
{
    if from >= s.len() {
        s.len() as int
    } else if s[from] == '/' {
        from
    } else {
        slash_or_end(s, from + 1)
    }
}

/// `s` zero-padded on the left to at least two characters.
pub open spec fn zero_pad2(s: Seq<char>) -> Seq<char> {
    if s.len() >= 2 {
        s
    } else if s.len() == 1 {
        seq!['0'] + s
    } else {
        seq!['0', '0']
    }
}

/// The normalized form of a date string: `M/D/YYYY` (with anything after a
/// third slash ignored) becomes `YYYYMMDD` with the month and the day
/// zero-padded; a string without two slashes is left unchanged.
pub open spec fn normalize_date(s: Seq<char>) -> Seq<char> {
    let i = slash_or_end(s, 0);
    if i == s.len() {
        s
    } else {
        let j = slash_or_end(s, i + 1);
        if j == s.len() {
            s
        } else {
            let k = slash_or_end(s, j + 1);
            s.subrange(j + 1, k) + zero_pad2(s.subrange(0, i)) + zero_pad2(
                s.subrange(i + 1, j),
            )
        }
    }
}

proof fn lemma_no_slash(s: Seq<char>, from: int)
    requires
        0 <= from <= s.len(),
        forall|i: int| 0 <= i < s.len() ==> #[trigger] s[i] != '/',
    ensures
        slash_or_end(s, from) == s.len(),
    decreases s.len() - from,
{
    if from < s.len() {
        lemma_no_slash(s, from + 1);
    }
}

/// A string that is already a well-formed date is left unchanged by
/// normalization: digits contain no slash.
pub proof fn lemma_normalize_valid_unchanged(s: Seq<char>)
    requires
        date_valid(s),
    ensures
        normalize_date(s) == s,
{
    assert forall|i: int| 0 <= i < s.len() implies #[trigger] s[i] != '/' by {
        assert(is_date_digit(s[i]));
    }
    lemma_no_slash(s, 0);
}

proof fn lemma_slash_or_end_bounds(s: Seq<char>, from: int)
    requires
        0 <= from <= s.len(),
    ensures
        from <= slash_or_end(s, from) <= s.len(),
        slash_or_end(s, from) < s.len() ==> s[slash_or_end(s, from)] == '/',
    decreases s.len() - from,
{
    if from < s.len() && s[from] != '/' {
        lemma_slash_or_end_bounds(s, from + 1);
    }
}

/// Index of the first `'/'` in `s` at or after `from`, or the character
/// length of `s` if there is none.
fn find_slash(s: &str, from: usize) -> (r: usize)
    requires
        from <= s@.len(),
    ensures
        r as int == slash_or_end(s@, from as int),
        from <= r <= s@.len(),
{
    let n = s.unicode_len();
    let mut i: usize = from;
    while i < n
        invariant
            n == s@.len(),
            from <= i <= n,
            slash_or_end(s@, from as int) == slash_or_end(s@, i as int),
        decreases n - i,
    {
        if s.get_char(i) == '/' {
            return i;
        }
        i = i + 1;
    }
    i
}

/// Whether `s` is exactly eight decimal digits.
fn is_valid_date(s: &str) -> (r: bool)
    ensures
        r == date_valid(s@),
{
    let n = s.unicode_len();
    if n != 8 {
        return false;
    }
    let mut i: usize = 0;
    while i < n
        invariant
            n == s@.len(),
            0 <= i <= n,
            forall|j: int| 0 <= j < i ==> is_date_digit(#[trigger] s@[j]),
        decreases n - i,
    {
        let c = s.get_char(i);
        let u = c as u32;
        if u < '0' as u32 || u > '9' as u32 {
            return false;
        }
        i = i + 1;
    }
    true
}

/// A date in the DICOM wire form `YYYYMMDD`.
#[derive(Debug, PartialEq, Eq, Hash)]
pub struct DicomDate {
    text: String,
}

impl Clone for DicomDate {
    fn clone(&self) -> (r: Self)
        ensures
            r == *self,
    {
        DicomDate { text: self.text.clone() }
    }
}

impl View for DicomDate {
    type V = Seq<char>;

    closed spec fn view(&self) -> Seq<char> {
        self.text@
    }
}

impl DicomDate {
    /// Every value of this type is eight digits.
    pub open spec fn wf(&self) -> bool {
        date_valid(self@)
    }

    /// Normalize `s` and accept it if the result is exactly eight digits.
    pub fn try_new(s: &str) -> (r: Result<DicomDate, ValidationError>)
        ensures
            r is Ok <==> date_valid(normalize_date(s@)),
            r matches Ok(d) ==> d@ == normalize_date(s@) && d.wf(),
            r is Err ==> r == Err::<DicomDate, ValidationError>(
                ValidationError::MalformedDicomDate,
            ),
    {
        let n = s.unicode_len();
        let i = find_slash(s, 0);
        let candidate: String;
        if i == n {
            candidate = s.to_owned();
        } else {
            proof {
                lemma_slash_or_end_bounds(s@, 0);
            }
            let j = find_slash(s, i + 1);
            if j == n {
                candidate = s.to_owned();
            } else {
                proof {
                    lemma_slash_or_end_bounds(s@, i as int + 1);
                }
                let k = find_slash(s, j + 1);
                let mut out = s.substring_char(j + 1, k).to_owned();
                proof {
                    reveal_strlit("0");
                    reveal_strlit("00");
                    assert("0"@ =~= seq!['0']);
                    assert("00"@ =~= seq!['0', '0']);
                }
                if i == 0 {
                    out.append("00");
                } else if i == 1 {
                    out.append("0");
                    out.append(s.substring_char(0, i));
                } else {
                    out.append(s.substring_char(0, i));
                }
                let day_len = j - i - 1;
                if day_len == 0 {
                    out.append("00");
                } else if day_len == 1 {
                    out.append("0");
                    out.append(s.substring_char(i + 1, j));
                } else {
                    out.append(s.substring_char(i + 1, j));
                }
                proof {
                    assert(out@ =~= normalize_date(s@));
                }
                candidate = out;
            }
        }
        if is_valid_date(candidate.as_str()) {
            Ok(DicomDate { text: candidate })
        } else {
            Err(ValidationError::MalformedDicomDate)
        }
    }

    pub fn as_str(&self) -> (r: &str)
        ensures
            r@ == self@,
    {
        self.text.as_str()
    }

    pub fn into_inner(self) -> (r: String)
        ensures
            r@ == self@,
    {
        self.text
    }
}

} // verus!
