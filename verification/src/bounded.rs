//! Text whose length, counted in Unicode codepoints, lies in a closed range.

use vstd::prelude::*;
use vstd::string::StrSliceExecFns;

verus! {

/// Why a string was refused: it holds `actual` codepoints where between `min`
/// and `max` (both inclusive) are allowed. `field` names the input it came from.
#[derive(Debug)]
pub struct LengthOutOfRange {
    pub field: String,
    pub actual: usize,
    pub min: usize,
    pub max: usize,
}

/// A read-only string meant to hold between `MIN` and `MAX` codepoints.
///
/// [`BoundString::new`] and [`BoundString::check`] only hand out values for
/// which [`BoundString::wf`] holds. [`BoundString::new_unchecked`] takes the
/// caller's word for it and is meant for text read back from storage.
#[derive(Clone, Debug)]
pub struct BoundString<const MIN: usize, const MAX: usize>(String);

/// Whether a text of `len` codepoints fits the closed range from `min` to `max`.
pub open spec fn length_fits(len: nat, min: usize, max: usize) -> bool {
    min <= len <= max
}

impl<const MIN: usize, const MAX: usize> View for BoundString<MIN, MAX> {
    type V = Seq<char>;

    closed spec fn view(&self) -> Seq<char> {
        self.0@
    }
}

impl<const MIN: usize, const MAX: usize> BoundString<MIN, MAX> {
    /// The codepoint count respects the bounds of the type.
    pub open spec fn wf(&self) -> bool {
        length_fits(self@.len(), MIN, MAX)
    }

    /// Gives the text back as an ordinary string.
    pub fn into_inner(self) -> (s: String)
        ensures
            s@ == self@,
    {
        self.0
    }

    /// Borrows the text.
    pub fn as_str(&self) -> (s: &str)
        ensures
            s@ == self@,
    {
        self.0.as_str()
    }

    /// Wraps `s` without counting it. The result is well formed exactly when
    /// `s` already fits the bounds, which the caller vouches for.
    pub fn new_unchecked(s: String) -> (b: Self)
        ensures
            b@ == s@,
    {
        BoundString(s)
    }

    /// Wraps `s` if its codepoint count lies in `[MIN, MAX]`, else refuses it.
    pub fn new(s: String) -> (r: Option<Self>)
        ensures
            r is Some <==> length_fits(s@.len(), MIN, MAX),
            r matches Some(b) ==> b@ == s@ && b.wf(),
    {
        let char_count: usize = s.as_str().unicode_len();
        if char_count < MIN || char_count > MAX {
            return None;
        }
        Some(BoundString(s))
    }

    /// Like [`BoundString::new`], but a refusal says how long the text was,
    /// what the bounds are and which field it was meant for.
    pub fn check(field: String, s: String) -> (r: Result<Self, LengthOutOfRange>)
        ensures
            r is Ok <==> length_fits(s@.len(), MIN, MAX),
            r matches Ok(b) ==> b@ == s@ && b.wf(),
            r matches Err(e) ==> e.field@ == field@ && e.actual == s@.len() && e.min == MIN
                && e.max == MAX,
    {
        let char_count: usize = s.as_str().unicode_len();
        if char_count < MIN || char_count > MAX {
            return Err(LengthOutOfRange { field, actual: char_count, min: MIN, max: MAX });
        }
        Ok(BoundString(s))
    }
}

} // verus!
