//! The append-only history of a post, and the safely cut preview of its text.

use crate::bounded::BoundString;
use crate::token::Timestamp;
use vstd::prelude::*;
use vstd::string::StringSliceAdditionalSpecFns;
use vstd::utf8::{
    decode_utf8,
    encode_scalar,
    encode_utf8,
    encode_utf8_first_scalar,
    is_char_boundary,
    length_of_first_scalar,
    pop_first_scalar,
    valid_utf8,
};

verus! {

broadcast use vstd::utf8::group_utf8_lib;

/// The body of a post.
pub type BlogPostBody = BoundString<32, 50000>;

/// One version of a post's body. A version is never changed once stored.
#[derive(Debug)]
pub struct PostVersion {
    pub post: u128,
    pub text: BlogPostBody,
    pub created_at: Timestamp,
}

/// A post was found without a single version, which creation rules out.
#[derive(Clone, Copy, Debug, PartialEq, Eq, Structural)]
pub struct IntegrityViolation;

/// The moments at which the versions were stored, in the order of storing.
pub open spec fn moments(versions: Seq<PostVersion>) -> Seq<Timestamp> {
    Seq::new(versions.len(), |i: int| versions[i].created_at)
}

/// Position `i` holds the current one of the moments `s`: none is later, and
/// every moment stored after it is strictly earlier.
pub open spec fn is_current(s: Seq<Timestamp>, i: int) -> bool {
    &&& 0 <= i < s.len()
    &&& forall|j: int| 0 <= j < s.len() ==> !s[i].spec_before(#[trigger] s[j])
    &&& forall|j: int| i < j < s.len() ==> (#[trigger] s[j]).spec_before(s[i])
}

/// At most one position holds the current moment.
pub proof fn lemma_current_unique(s: Seq<Timestamp>, i: int, j: int)
    requires
        is_current(s, i),
        is_current(s, j),
    ensures
        i == j,
{
    if i < j {
        assert(s[j].spec_before(s[i]));
        assert(!s[j].spec_before(s[i]));
    } else if j < i {
        assert(s[i].spec_before(s[j]));
        assert(!s[i].spec_before(s[j]));
    }
}

/// Where every version was stored strictly later than the one before it, the
/// current version is the one stored last.
pub proof fn lemma_current_of_increasing(s: Seq<Timestamp>)
    requires
        s.len() > 0,
        forall|i: int, j: int| 0 <= i < j < s.len() ==> (#[trigger] s[i]).spec_before(#[trigger] s[j]),
    ensures
        is_current(s, s.len() - 1),
{
    let last = s.len() - 1;
    assert forall|j: int| 0 <= j < s.len() implies !s[last].spec_before(#[trigger] s[j]) by {
        if j < last {
            assert(s[j].spec_before(s[last]));
        }
    }
}

/// Finds the current one among the moments: the latest, and among equally
/// late ones the one stored last.
pub fn current_index(at: &Vec<Timestamp>) -> (r: Option<usize>)
    ensures
        r is None <==> at@.len() == 0,
        r matches Some(i) ==> is_current(at@, i as int),
{
    let n: usize = at.len();
    if n == 0 {
        return None;
    }
    let mut best: usize = 0;
    let mut i: usize = 1;
    while i < n
        invariant
            1 <= i <= n,
            n == at@.len(),
            best < i,
            forall|j: int| 0 <= j < i ==> !at@[best as int].spec_before(#[trigger] at@[j]),
            forall|j: int| best < j < i ==> (#[trigger] at@[j]).spec_before(at@[best as int]),
        decreases n - i,
    {
        if !at[i].before(at[best]) {
            best = i;
        }
        i = i + 1;
    }
    Some(best)
}

/// All versions of one post, in the order in which they were stored.
#[derive(Debug)]
pub struct PostHistory {
    pub post: u128,
    pub versions: Vec<PostVersion>,
}

impl View for PostHistory {
    type V = Seq<PostVersion>;

    open spec fn view(&self) -> Seq<PostVersion> {
        self.versions@
    }
}

impl PostHistory {
    /// The history of a post that has just been created with its first body.
    pub fn create(post: u128, text: BlogPostBody, now: Timestamp) -> (h: Self)
        ensures
            h.post == post,
            h@ == seq![PostVersion { post, text, created_at: now }],
    {
        let mut versions: Vec<PostVersion> = Vec::new();
        versions.push(PostVersion { post, text, created_at: now });
        PostHistory { post, versions }
    }

    /// Stores a new version after all others and returns the moment it was
    /// stored at. No earlier version is touched.
    pub fn append(&mut self, text: BlogPostBody, now: Timestamp) -> (at: Timestamp)
        ensures
            at == now,
            final(self).post == old(self).post,
            final(self)@ == old(self)@.push(
                PostVersion { post: old(self).post, text, created_at: now },
            ),
    {
        self.versions.push(PostVersion { post: self.post, text, created_at: now });
        now
    }

    /// The current version: the one stored latest, and among versions of the
    /// same moment the one stored last. A history without versions is reported
    /// as an integrity violation.
    pub fn current(&self) -> (r: Result<&PostVersion, IntegrityViolation>)
        ensures
            r is Err <==> self@.len() == 0,
            r matches Ok(v) ==> exists|i: int|
                is_current(moments(self@), i) && *v == #[trigger] self@[i],
    {
        let n: usize = self.versions.len();
        let mut at: Vec<Timestamp> = Vec::new();
        let mut i: usize = 0;
        while i < n
            invariant
                i <= n,
                n == self.versions@.len(),
                at@ =~= moments(self@).subrange(0, i as int),
            decreases n - i,
        {
            at.push(self.versions[i].created_at);
            i = i + 1;
        }
        assert(at@ =~= moments(self@));
        match current_index(&at) {
            Some(k) => Ok(&self.versions[k]),
            None => Err(IntegrityViolation),
        }
    }
}

/// The largest position that is at most `index`, at most the length of
/// `bytes`, and does not fall inside the encoding of a character.
pub open spec fn floor_boundary(bytes: Seq<u8>, index: int) -> int
    decreases index,
{
    if index >= bytes.len() {
        bytes.len() as int
    } else if index <= 0 {
        0
    } else if is_char_boundary(bytes, index) {
        index
    } else {
        floor_boundary(bytes, index - 1)
    }
}

/// In well-formed UTF-8 no character is longer than four bytes, so a
/// character boundary lies at most three positions before any position.
pub proof fn lemma_boundary_within_three(bytes: Seq<u8>, index: int)
    requires
        valid_utf8(bytes),
        0 <= index <= bytes.len(),
    ensures
        exists|j: int| 0 <= j && index - 3 <= j <= index && #[trigger] is_char_boundary(bytes, j),
    decreases bytes.len(),
{
    if index == 0 {
        assert(is_char_boundary(bytes, 0));
    } else {
        let first = length_of_first_scalar(bytes);
        assert(1 <= first <= 4 && first <= bytes.len());
        if index < first {
            assert(is_char_boundary(bytes, 0));
        } else {
            let tail = pop_first_scalar(bytes);
            lemma_boundary_within_three(tail, index - first);
            let k = choose|j: int|
                0 <= j && index - first - 3 <= j <= index - first && #[trigger] is_char_boundary(
                    tail,
                    j,
                );
            assert(is_char_boundary(bytes, k + first));
        }
    }
}

/// The cut of [`floor_boundary`] lies at most three bytes before the position asked for.
pub proof fn lemma_floor_within_three(bytes: Seq<u8>, index: int)
    requires
        valid_utf8(bytes),
        0 <= index < bytes.len(),
    ensures
        index - 3 <= floor_boundary(bytes, index) <= index,
        is_char_boundary(bytes, floor_boundary(bytes, index)),
    decreases index,
{
    lemma_boundary_within_three(bytes, index);
    let j = choose|j: int|
        0 <= j && index - 3 <= j <= index && #[trigger] is_char_boundary(bytes, j);
    lemma_floor_above(bytes, index, j);
}

/// The cut of [`floor_boundary`] is a boundary and is not below any boundary
/// that lies at or before the position asked for.
proof fn lemma_floor_above(bytes: Seq<u8>, index: int, j: int)
    requires
        valid_utf8(bytes),
        0 <= j <= index < bytes.len(),
        is_char_boundary(bytes, j),
    ensures
        j <= floor_boundary(bytes, index) <= index,
        is_char_boundary(bytes, floor_boundary(bytes, index)),
    decreases index,
{
    if index > 0 && !is_char_boundary(bytes, index) {
        lemma_floor_above(bytes, index - 1, j);
    }
}

/// The position at which a text may be cut so that at most `index` bytes
/// remain and no character is split: the end of the text where it is short
/// enough, else the nearest character boundary at or before `index`.
pub fn floor_char_boundary(s: &str, index: usize) -> (r: usize)
    ensures
        r == floor_boundary(s.spec_bytes(), index as int),
        r <= index,
        r <= s.spec_bytes().len(),
        index < s.spec_bytes().len() ==> index - r <= 3,
        is_char_boundary(s.spec_bytes(), r as int),
        forall|j: int| r < j <= index && j <= s.spec_bytes().len() ==> !is_char_boundary(s.spec_bytes(), j),
{
    let ghost bytes = s.spec_bytes();
    assert(valid_utf8(bytes));
    let n: usize = s.as_bytes().len();
    if index >= n {
        return n;
    }
    proof {
        lemma_floor_within_three(bytes, index as int);
    }
    let mut i: usize = index;
    while i > 0 && !s.is_char_boundary(i)
        invariant
            i <= index < n,
            n == bytes.len(),
            bytes == s.spec_bytes(),
            valid_utf8(bytes),
            floor_boundary(bytes, index as int) == floor_boundary(bytes, i as int),
            forall|j: int| i < j <= index ==> !is_char_boundary(bytes, j),
        decreases i,
    {
        i = i - 1;
    }
    i
}

/// The encoding of the first `k` characters of a text is the beginning of the
/// encoding of the text, and it ends on a character boundary.
pub proof fn lemma_prefix_encoding(chars: Seq<char>, k: int)
    requires
        0 <= k <= chars.len(),
    ensures
        encode_utf8(chars.subrange(0, k)).len() <= encode_utf8(chars).len(),
        encode_utf8(chars.subrange(0, k)) == encode_utf8(chars).subrange(
            0,
            encode_utf8(chars.subrange(0, k)).len() as int,
        ),
        is_char_boundary(encode_utf8(chars), encode_utf8(chars.subrange(0, k)).len() as int),
        k > 0 ==> encode_utf8(chars.subrange(0, k)).len() > encode_utf8(
            chars.subrange(0, k - 1),
        ).len(),
    decreases k,
{
    let bytes = encode_utf8(chars);
    let head = chars.subrange(0, k);
    assert(valid_utf8(bytes));
    if k == 0 {
        assert(encode_utf8(head) =~= bytes.subrange(0, 0));
    } else {
        let tail = chars.drop_first();
        let first = encode_scalar(chars[0] as u32);
        encode_utf8_first_scalar(chars);
        assert(first.len() >= 1);
        assert(pop_first_scalar(bytes) =~= encode_utf8(tail));
        lemma_prefix_encoding(tail, k - 1);
        assert(head.drop_first() =~= tail.subrange(0, k - 1));
        assert(head[0] == chars[0]);
        let rest = encode_utf8(tail.subrange(0, k - 1));
        assert(encode_utf8(head) == first + rest);
        assert(encode_utf8(head) =~= bytes.subrange(0, (first.len() + rest.len()) as int));
        assert(is_char_boundary(bytes, (first.len() + rest.len()) as int));
        if k == 1 {
            assert(chars.subrange(0, 0).len() == 0);
        } else {
            let shorter = chars.subrange(0, k - 1);
            assert(shorter.drop_first() =~= tail.subrange(0, k - 2));
            assert(shorter[0] == chars[0]);
            assert(encode_utf8(shorter) == first + encode_utf8(tail.subrange(0, k - 2)));
        }
    }
}

/// The beginning of `text` that fits into `byte_budget` bytes without
/// splitting a character: the whole characters of `text`, from its start, up
/// to the last character boundary within the budget.
pub fn preview(text: &str, byte_budget: usize) -> (r: String)
    ensures
        encode_utf8(r@) == text.spec_bytes().subrange(
            0,
            floor_boundary(text.spec_bytes(), byte_budget as int),
        ),
        encode_utf8(r@).len() <= byte_budget,
        r@.len() <= text@.len(),
        r@ == text@.subrange(0, r@.len() as int),
        r@.len() < text@.len() ==> encode_utf8(text@.subrange(0, r@.len() as int + 1)).len()
            > byte_budget,
{
    let bound: usize = floor_char_boundary(text, byte_budget);
    let parts = text.split_at(bound);
    let head: &str = parts.0;
    proof {
        let bytes = text.spec_bytes();
        let first = bytes.subrange(0, bound as int);
        let second = bytes.subrange(bound as int, bytes.len() as int);
        assert(valid_utf8(bytes));
        assert(head.spec_bytes() == first);
        assert(decode_utf8(bytes) == text@);
        assert(decode_utf8(first) == head@);
        assert(decode_utf8(bytes) =~= decode_utf8(first) + decode_utf8(second));
        assert(text@.subrange(0, head@.len() as int) =~= head@);
        if head@.len() < text@.len() {
            lemma_prefix_encoding(text@, head@.len() as int + 1);
        }
    }
    head.to_owned()
}

} // verus!
