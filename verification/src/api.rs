//! The error body handed to callers, the kinds of failure it travels with,
//! and how failures of the storage layer and of request parsing are reported.

use vstd::prelude::*;
use vstd::string::StrSliceExecFns;

verus! {

/// The outcome classes the service reports. Each stands for one HTTP status.
#[derive(Clone, Copy, Debug, PartialEq, Eq, Structural)]
pub enum Status {
    Success,
    Created,
    BadRequest,
    Unauthorized,
    Forbidden,
    NotFound,
    UnprocessableEntity,
    InternalServerError,
}

impl Status {
    /// The HTTP status number of each class.
    pub open spec fn spec_code(self) -> u16 {
        match self {
            Status::Success => 200,
            Status::Created => 201,
            Status::BadRequest => 400,
            Status::Unauthorized => 401,
            Status::Forbidden => 403,
            Status::NotFound => 404,
            Status::UnprocessableEntity => 422,
            Status::InternalServerError => 500,
        }
    }

    #[verifier::when_used_as_spec(spec_code)]
    pub fn code(self) -> (c: u16)
        ensures
            c == self.spec_code(),
    {
        match self {
            Status::Success => 200,
            Status::Created => 201,
            Status::BadRequest => 400,
            Status::Unauthorized => 401,
            Status::Forbidden => 403,
            Status::NotFound => 404,
            Status::UnprocessableEntity => 422,
            Status::InternalServerError => 500,
        }
    }
}

/// A client reads the body of an answer as the value it asked for where the
/// status is one of success, and as an error body everywhere else.
pub fn carries_value(status: u16) -> (b: bool)
    ensures
        b == (200 <= status <= 299),
{
    200 <= status && status <= 299
}

/// No two entries carry the same key.
pub open spec fn distinct_keys(s: Seq<(String, String)>) -> bool {
    forall|i: int, j: int| 0 <= i < j < s.len() ==> (#[trigger] s[i]).0@ != (#[trigger] s[j]).0@
}

/// Some entry of `s` carries the key `k`.
pub open spec fn has_key(s: Seq<(String, String)>, k: Seq<char>) -> bool {
    exists|i: int| 0 <= i < s.len() && (#[trigger] s[i]).0@ == k
}

/// The entries of `s` read as a map from key to value.
pub open spec fn pairs_map(s: Seq<(String, String)>) -> Map<Seq<char>, Seq<char>> {
    Map::new(
        |k: Seq<char>| has_key(s, k),
        |k: Seq<char>| s[choose|i: int| 0 <= i < s.len() && (#[trigger] s[i]).0@ == k].1@,
    )
}

/// With distinct keys, the map holds each entry's value under its key.
pub proof fn lemma_pairs_map_at(s: Seq<(String, String)>, i: int)
    requires
        distinct_keys(s),
        0 <= i < s.len(),
    ensures
        pairs_map(s).contains_key(s[i].0@),
        pairs_map(s)[s[i].0@] == s[i].1@,
{
    let k = s[i].0@;
    let w = choose|j: int| 0 <= j < s.len() && (#[trigger] s[j]).0@ == k;
    assert(w == i) by {
        if w < i {
            assert(s[w].0@ != s[i].0@);
        } else if i < w {
            assert(s[i].0@ != s[w].0@);
        }
    }
}

/// Replacing the value under `key` where it occurs, or appending the pair where
/// it does not, keeps the keys distinct and amounts to an insertion into the map.
proof fn lemma_upsert(
    before: Seq<(String, String)>,
    after: Seq<(String, String)>,
    key: Seq<char>,
    value: Seq<char>,
)
    requires
        distinct_keys(before),
        before.len() <= after.len() <= before.len() + 1,
        forall|j: int| 0 <= j < before.len() ==> (#[trigger] after[j]).0@ == before[j].0@,
        forall|j: int|
            0 <= j < before.len() ==> (#[trigger] after[j]).1@ == (if before[j].0@ == key {
                value
            } else {
                before[j].1@
            }),
        after.len() == before.len() <==> has_key(before, key),
        after.len() > before.len() ==> after[before.len() as int].0@ == key
            && after[before.len() as int].1@ == value,
    ensures
        distinct_keys(after),
        pairs_map(after) =~= pairs_map(before).insert(key, value),
{
    let n = before.len() as int;
    assert forall|a: int, b: int| 0 <= a < b < after.len() implies (#[trigger] after[a]).0@ != (
    #[trigger] after[b]).0@ by {
        if b < n {
            assert(before[a].0@ != before[b].0@);
        } else {
            assert(after[a].0@ == before[a].0@);
            if before[a].0@ == key {
                assert(has_key(before, key));
            }
        }
    }
    assert forall|k: Seq<char>| has_key(after, k) == (has_key(before, k) || k == key) by {
        if has_key(after, k) {
            let w = choose|j: int| 0 <= j < after.len() && (#[trigger] after[j]).0@ == k;
            if w < n {
                assert(before[w].0@ == k);
            }
        }
        if has_key(before, k) {
            let w = choose|j: int| 0 <= j < before.len() && (#[trigger] before[j]).0@ == k;
            assert(after[w].0@ == k);
        }
        if k == key {
            if has_key(before, key) {
                let w = choose|j: int| 0 <= j < before.len() && (#[trigger] before[j]).0@ == key;
                assert(after[w].0@ == k);
            } else {
                assert(after[n].0@ == k);
            }
        }
    }
    assert forall|k: Seq<char>| has_key(after, k) implies pairs_map(after)[k] == pairs_map(
        before,
    ).insert(key, value)[k] by {
        let w = choose|j: int| 0 <= j < after.len() && (#[trigger] after[j]).0@ == k;
        lemma_pairs_map_at(after, w);
        if w < n {
            assert(after[w].0@ == before[w].0@);
            lemma_pairs_map_at(before, w);
        }
    }
}

/// A message for the caller, with further messages keyed by field name.
/// A field name occurs at most once.
#[derive(Debug)]
pub struct Error {
    message: String,
    errors: Vec<(String, String)>,
}

impl Error {
    #[verifier::type_invariant]
    spec fn inv(&self) -> bool {
        distinct_keys(self.errors@)
    }

    /// The general message.
    pub closed spec fn text(&self) -> Seq<char> {
        self.message@
    }

    /// The per-field messages.
    pub closed spec fn fields(&self) -> Map<Seq<char>, Seq<char>> {
        pairs_map(self.errors@)
    }

    /// An error with the message `msg` and no per-field messages.
    pub fn new(msg: &str) -> (e: Self)
        ensures
            e.text() == msg@,
            e.fields() == Map::<Seq<char>, Seq<char>>::empty(),
    {
        let e = Error { message: msg.to_owned(), errors: Vec::new() };
        proof {
            assert(pairs_map(e.errors@) =~= Map::<Seq<char>, Seq<char>>::empty());
        }
        e
    }

    /// Records `value` under `key`, replacing what was recorded under it before.
    pub fn add(&mut self, key: &str, value: &str)
        ensures
            final(self).text() == old(self).text(),
            final(self).fields() == old(self).fields().insert(key@, value@),
    {
        proof {
            use_type_invariant(&*self);
        }
        let ghost before = self.errors@;
        let n: usize = self.errors.len();
        let mut fresh: Vec<(String, String)> = Vec::new();
        let mut found = false;
        let mut i: usize = 0;
        while i < n
            invariant
                i <= n,
                n == before.len(),
                self.errors@ == before,
                fresh@.len() == i,
                forall|j: int| 0 <= j < i ==> (#[trigger] fresh@[j]).0@ == before[j].0@,
                forall|j: int|
                    0 <= j < i ==> (#[trigger] fresh@[j]).1@ == (if before[j].0@ == key@ {
                        value@
                    } else {
                        before[j].1@
                    }),
                found <==> exists|j: int| 0 <= j < i && (#[trigger] before[j]).0@ == key@,
            decreases n - i,
        {
            if same_text(self.errors[i].0.as_str(), key) {
                fresh.push((key.to_owned(), value.to_owned()));
                found = true;
            } else {
                fresh.push((self.errors[i].0.clone(), self.errors[i].1.clone()));
            }
            i = i + 1;
        }
        if !found {
            fresh.push((key.to_owned(), value.to_owned()));
        }
        proof {
            lemma_upsert(before, fresh@, key@, value@);
        }
        self.errors = fresh;
    }

    /// The general message.
    pub fn message(&self) -> (m: &str)
        ensures
            m@ == self.text(),
    {
        self.message.as_str()
    }

    /// The message recorded under `key`, if there is one.
    pub fn get(&self, key: &str) -> (r: Option<&str>)
        ensures
            r is Some <==> self.fields().contains_key(key@),
            r matches Some(v) ==> v@ == self.fields()[key@],
    {
        proof {
            use_type_invariant(self);
        }
        let n: usize = self.errors.len();
        let mut i: usize = 0;
        while i < n
            invariant
                i <= n,
                n == self.errors@.len(),
                distinct_keys(self.errors@),
                forall|j: int| 0 <= j < i ==> (#[trigger] self.errors@[j]).0@ != key@,
            decreases n - i,
        {
            if same_text(self.errors[i].0.as_str(), key) {
                proof {
                    lemma_pairs_map_at(self.errors@, i as int);
                }
                return Some(self.errors[i].1.as_str());
            }
            i = i + 1;
        }
        proof {
            if has_key(self.errors@, key@) {
                let w = choose|j: int|
                    0 <= j < self.errors@.len() && (#[trigger] self.errors@[j]).0@ == key@;
                assert(self.errors@[w].0@ != key@);
            }
        }
        None
    }

    /// The number of per-field messages.
    pub fn len(&self) -> (n: usize)
        ensures
            n == self.entries_view().len(),
    {
        self.errors.len()
    }

    /// The per-field messages as a sequence of distinct keys with their values,
    /// in the order in which the keys were first recorded.
    pub closed spec fn entries_view(&self) -> Seq<(String, String)> {
        self.errors@
    }

    /// The key and the message at position `i`.
    pub fn entry(&self, i: usize) -> (r: (&str, &str))
        requires
            i < self.entries_view().len(),
        ensures
            r.0@ == self.entries_view()[i as int].0@,
            r.1@ == self.entries_view()[i as int].1@,
            self.fields().contains_key(r.0@),
            self.fields()[r.0@] == r.1@,
    {
        proof {
            use_type_invariant(self);
            lemma_pairs_map_at(self.errors@, i as int);
        }
        (self.errors[i].0.as_str(), self.errors[i].1.as_str())
    }
}

/// A status together with the error body that travels with it.
pub type ApiError = (Status, Error);

/// What the storage layer reported when a query failed.
#[derive(Clone, Copy, Debug, PartialEq, Eq, Structural)]
pub enum QueryFailure {
    UniqueKeyViolation,
    RecordNotFound,
    Other,
}

/// The per-field messages reported for a failed query.
pub open spec fn query_fields(e: QueryFailure) -> Map<Seq<char>, Seq<char>> {
    match e {
        QueryFailure::UniqueKeyViolation => Map::<Seq<char>, Seq<char>>::empty().insert(
            "unique"@,
            "Unique Constraint violated"@,
        ),
        QueryFailure::RecordNotFound => Map::<Seq<char>, Seq<char>>::empty().insert(
            "notfound"@,
            "Record Not Found in database"@,
        ),
        QueryFailure::Other => Map::<Seq<char>, Seq<char>>::empty(),
    }
}

/// The error `e` has the status, the message and the per-field messages given.
pub open spec fn answers(
    e: ApiError,
    status: Status,
    text: Seq<char>,
    fields: Map<Seq<char>, Seq<char>>,
) -> bool {
    e.0 == status && e.1.text() == text && e.1.fields() == fields
}

/// The error is the answer for a resource that does not exist.
pub open spec fn is_not_found(e: ApiError) -> bool {
    answers(e, Status::NotFound, "Not Found"@, Map::<Seq<char>, Seq<char>>::empty())
}

/// The error is the answer for the storage failure `q`.
pub open spec fn is_query_failure(e: ApiError, q: QueryFailure) -> bool {
    answers(
        e,
        Status::InternalServerError,
        "Prisma Validation Error"@,
        query_fields(q),
    )
}

impl Error {
    /// Every storage failure is an internal error with a generic message; a
    /// violated uniqueness constraint and a missing record are named in the
    /// per-field messages, nothing else of the failure is passed on.
    pub fn from_query(e: QueryFailure) -> (r: ApiError)
        ensures
            is_query_failure(r, e),
    {
        let mut out = Error::new("Prisma Validation Error");
        match e {
            QueryFailure::UniqueKeyViolation => {
                out.add("unique", "Unique Constraint violated");
            },
            QueryFailure::RecordNotFound => {
                out.add("notfound", "Record Not Found in database");
            },
            QueryFailure::Other => {},
        }
        (Status::InternalServerError, out)
    }

    /// The answer for a resource that does not exist.
    pub fn not_found() -> (r: ApiError)
        ensures
            is_not_found(r),
    {
        (Status::NotFound, Error::new("Not Found"))
    }
}

/// A value that answers a request which created something.
#[derive(Debug)]
pub struct Created<T>(pub T);

impl<T> Created<T> {
    /// Wraps the body of the answer.
    pub fn json(val: T) -> (c: Self)
        ensures
            c.0 == val,
    {
        Created(val)
    }

    /// A created resource is always reported as such.
    pub fn status(&self) -> (s: Status)
        ensures
            s == Status::Created,
    {
        Status::Created
    }
}

/// A request body that was parsed and validated.
#[derive(Debug)]
pub struct ApiJson<T>(pub T);

/// Where validation of a request body failed: the path of the offending field
/// (`"."` when the failure is not tied to one) and the parser's message.
#[derive(Debug)]
pub struct DataError {
    pub path: String,
    pub inner: String,
}

/// Why a request body could not be turned into a value.
#[derive(Debug)]
pub enum JsonRejection {
    /// The body could not be read.
    Bytes,
    /// The body is not JSON.
    Syntax,
    /// The request does not announce JSON.
    MissingContentType,
    /// The body is JSON of the wrong shape; the detail is there when the
    /// parser gave one.
    Data(Option<DataError>),
    /// Anything else.
    Unknown,
}

/// The first position at or after `from` at which `s` holds `c`, or the length
/// of `s` when there is none.
pub open spec fn index_of(s: Seq<char>, c: char, from: int) -> int
    decreases s.len() - from,
{
    if from < 0 || from >= s.len() {
        s.len() as int
    } else if s[from] == c {
        from
    } else {
        index_of(s, c, from + 1)
    }
}

/// The text between the first backtick of `s` and the next one, if `s` holds two.
pub open spec fn backticked(s: Seq<char>) -> Option<Seq<char>> {
    let a = index_of(s, '`', 0);
    let b = index_of(s, '`', a + 1);
    if a < s.len() && b < s.len() {
        Some(s.subrange(a + 1, b))
    } else {
        None
    }
}

/// The message that goes with each kind of rejected body.
pub open spec fn rejection_text(r: JsonRejection) -> Seq<char> {
    match r {
        JsonRejection::Bytes => "Body malformed, unprocessable"@,
        JsonRejection::Syntax => "Json data in body malformed"@,
        JsonRejection::MissingContentType => "Missing Content-Type header"@,
        JsonRejection::Data(_) => "Json Data Validation Error"@,
        JsonRejection::Unknown => "Unknown JSON Rejection Error"@,
    }
}

/// The per-field messages that go with each kind of rejected body: a failure
/// at a named path is reported under that path with the parser's message; one
/// without a path is reported under the field that the parser's message quotes
/// in backticks, as a field that was not passed.
pub open spec fn rejection_fields(r: JsonRejection) -> Map<Seq<char>, Seq<char>> {
    match r {
        JsonRejection::Data(Some(d)) => if d.path@ != "."@ {
            Map::<Seq<char>, Seq<char>>::empty().insert(d.path@, d.inner@)
        } else {
            match backticked(d.inner@) {
                Some(field) => Map::<Seq<char>, Seq<char>>::empty().insert(
                    field,
                    "Field was not passed"@,
                ),
                None => Map::<Seq<char>, Seq<char>>::empty(),
            }
        },
        _ => Map::<Seq<char>, Seq<char>>::empty(),
    }
}

/// Finds `c` in `s` at or after the position `from`, counted in characters.
pub fn find_char(s: &str, c: char, from: usize) -> (r: usize)
    ensures
        r == index_of(s@, c, from as int),
        r <= s@.len(),
{
    let n: usize = s.unicode_len();
    if from >= n {
        return n;
    }
    let mut i: usize = from;
    while i < n
        invariant
            from <= i <= n,
            n == s@.len(),
            index_of(s@, c, from as int) == index_of(s@, c, i as int),
        decreases n - i,
    {
        if s.get_char(i) == c {
            return i;
        }
        i = i + 1;
    }
    n
}

/// The text that `s` quotes between its first two backticks.
pub fn quoted_field(s: &str) -> (r: Option<String>)
    ensures
        r is Some <==> backticked(s@) is Some,
        r matches Some(f) ==> Some(f@) == backticked(s@),
{
    let n: usize = s.unicode_len();
    let a: usize = find_char(s, '`', 0);
    if a >= n {
        return None;
    }
    let b: usize = find_char(s, '`', a + 1);
    if b >= n {
        return None;
    }
    assert(a < b) by {
        lemma_index_of_bounds(s@, '`', a + 1);
    }
    Some(s.substring_char(a + 1, b).to_owned())
}

/// A found position is never before the start of the search.
pub proof fn lemma_index_of_bounds(s: Seq<char>, c: char, from: int)
    requires
        0 <= from,
    ensures
        index_of(s, c, from) <= s.len(),
        from <= s.len() ==> from <= index_of(s, c, from),
        index_of(s, c, from) < s.len() ==> s[index_of(s, c, from)] == c,
    decreases s.len() - from,
{
    if from < s.len() && s[from] != c {
        lemma_index_of_bounds(s, c, from + 1);
    }
}

impl<T> ApiJson<T> {
    /// Turns a rejected request body into the answer for the caller: always
    /// "unprocessable", with a message per kind of rejection and, for a body
    /// of the wrong shape, the offending field where it can be told.
    pub fn rejection(r: JsonRejection) -> (out: ApiError)
        ensures
            answers(out, Status::UnprocessableEntity, rejection_text(r), rejection_fields(r)),
    {
        match r {
            JsonRejection::Bytes => (
                Status::UnprocessableEntity,
                Error::new("Body malformed, unprocessable"),
            ),
            JsonRejection::Syntax => (
                Status::UnprocessableEntity,
                Error::new("Json data in body malformed"),
            ),
            JsonRejection::MissingContentType => (
                Status::UnprocessableEntity,
                Error::new("Missing Content-Type header"),
            ),
            JsonRejection::Data(detail) => {
                let mut output = Error::new("Json Data Validation Error");
                if let Some(d) = detail {
                    if !same_text(d.path.as_str(), ".") {
                        output.add(d.path.as_str(), d.inner.as_str());
                    } else if let Some(field) = quoted_field(d.inner.as_str()) {
                        output.add(field.as_str(), "Field was not passed");
                    }
                }
                (Status::UnprocessableEntity, output)
            },
            JsonRejection::Unknown => (
                Status::UnprocessableEntity,
                Error::new("Unknown JSON Rejection Error"),
            ),
        }
    }
}

/// Whether two strings hold the same text.
pub fn same_text(a: &str, b: &str) -> (r: bool)
    ensures
        r == (a@ == b@),
{
    let x = a.to_owned();
    let y = b.to_owned();
    x == y
}

} // verus!
