//! Posts: creating one, reading one in full, listing all, and commenting.
//! Storage is asked by the caller; what it returned is judged here.

use crate::api::{is_not_found, is_query_failure, ApiError, Created, Error, QueryFailure};
use crate::bounded::BoundString;
use crate::history::{current_index, floor_boundary, is_current, preview};
use crate::ident::{fresh_id, storage_key, uuid_hyphenated};
use crate::model::{
    GetAllPostsItem,
    GetComment,
    GetPostRes,
    IdAndTimestamps,
    MinUser,
    NewBlogPost,
    NewBlogPostRes,
    PostComment,
};
use crate::token::{RequireLogin, Timestamp};
use vstd::prelude::*;
use vstd::string::StringSliceAdditionalSpecFns;
use vstd::utf8::encode_utf8;

verus! {

/// The number of bytes of a body that the listing of all posts shows.
pub const PREVIEW_BYTES: usize = 100;

/// The lower-case form that `str::to_lowercase` gives a text.
pub uninterp spec fn lowercase(s: Seq<char>) -> Seq<char>;

/// `s` with `to` in place of every occurrence of `from`.
pub open spec fn substituted(s: Seq<char>, from: char, to: Seq<char>) -> Seq<char>
    decreases s.len(),
{
    if s.len() == 0 {
        Seq::<char>::empty()
    } else {
        (if s[0] == from {
            to
        } else {
            seq![s[0]]
        }) + substituted(s.drop_first(), from, to)
    }
}

/// Calls `str::to_lowercase`, which lowers each character by the rules of
/// Unicode. The contract names the result.
#[verifier::external_body]
pub(crate) fn to_lowercase(s: &str) -> (r: String)
    ensures
        r@ == lowercase(s@),
{
    s.to_lowercase()
}

/// Calls `str::replace` with a character as the pattern: every occurrence of
/// the character gives way to the replacement, all else stays.
#[verifier::external_body]
fn replace(s: &str, from: char, to: &str) -> (r: String)
    ensures
        r@ == substituted(s@, from, to@),
{
    s.replace(from, to)
}

/// The normal form of a title.
pub open spec fn normalized(title: Seq<char>) -> Seq<char> {
    substituted(lowercase(title), ' ', "_"@)
}

/// Putting one character in place of another keeps the length of a text and
/// changes nothing but the occurrences of the character replaced.
pub proof fn lemma_substituted_one(s: Seq<char>, from: char, to: char)
    ensures
        substituted(s, from, seq![to]).len() == s.len(),
        forall|i: int|
            0 <= i < s.len() ==> #[trigger] substituted(s, from, seq![to])[i] == (if s[i] == from {
                to
            } else {
                s[i]
            }),
    decreases s.len(),
{
    if s.len() > 0 {
        lemma_substituted_one(s.drop_first(), from, to);
        let first = if s[0] == from {
            seq![to]
        } else {
            seq![s[0]]
        };
        let rest = substituted(s.drop_first(), from, seq![to]);
        assert(substituted(s, from, seq![to]) == first + rest);
        assert forall|i: int| 0 <= i < s.len() implies #[trigger] substituted(s, from, seq![to])[i]
            == (if s[i] == from {
            to
        } else {
            s[i]
        }) by {
            if i > 0 {
                assert((first + rest)[i] == rest[i - 1]);
                assert(s.drop_first()[i - 1] == s[i]);
            }
        }
    }
}

/// The normal form of a title is as long as its lower-case form and holds no space.
pub proof fn lemma_normalized_has_no_space(title: Seq<char>)
    ensures
        normalized(title).len() == lowercase(title).len(),
        forall|i: int| 0 <= i < normalized(title).len() ==> #[trigger] normalized(title)[i] != ' ',
{
    reveal_strlit("_");
    assert("_"@ =~= seq!['_']);
    lemma_substituted_one(lowercase(title), ' ', '_');
}

/// The normal form of a title: in lower case, with an underscore for each space.
pub fn title_normalize(s: &str) -> (r: String)
    ensures
        r@ == normalized(s@),
{
    let lower = to_lowercase(s);
    replace(lower.as_str(), ' ', "_")
}

/// A user as storage returns it with a post or a comment.
#[derive(Debug)]
pub struct UserRow {
    pub id: u128,
    pub username: String,
}

/// A version of a post's body as storage returns it.
#[derive(Debug)]
pub struct VersionRow {
    pub text: String,
    pub created_at: Timestamp,
}

/// A comment as storage returns it, with its author.
#[derive(Debug)]
pub struct CommentRow {
    pub id: u128,
    pub text: String,
    pub created_at: Timestamp,
    pub updated_at: Timestamp,
    pub author: UserRow,
}

/// A post as storage returns it, with the versions it was asked for, its
/// owner and its comments.
#[derive(Debug)]
pub struct PostRow {
    pub id: u128,
    pub title: String,
    pub title_norm: String,
    pub created_at: Timestamp,
    pub versions: Vec<VersionRow>,
    pub owner: UserRow,
    pub comments: Vec<CommentRow>,
}

/// The moments at which the versions of a row were stored.
pub open spec fn row_moments(versions: Seq<VersionRow>) -> Seq<Timestamp> {
    Seq::new(versions.len(), |i: int| versions[i].created_at)
}

impl PostRow {
    /// The post has at least one version, as every post has after creation.
    pub open spec fn spec_has_history(&self) -> bool {
        self.versions@.len() > 0
    }

    /// Tells whether the post has a version at all. A post without one is a
    /// damaged record: readers are told that the post does not exist, and the
    /// caller should note the damage.
    #[verifier::when_used_as_spec(spec_has_history)]
    pub fn has_history(&self) -> (b: bool)
        ensures
            b == self.spec_has_history(),
    {
        self.versions.len() > 0
    }

    /// The position of the current version among those returned: the latest,
    /// and among equally late ones the one stored last.
    pub fn current(&self) -> (r: Option<usize>)
        ensures
            r is None <==> !self.spec_has_history(),
            r matches Some(i) ==> is_current(row_moments(self.versions@), i as int),
    {
        let n: usize = self.versions.len();
        let mut at: Vec<Timestamp> = Vec::new();
        let mut i: usize = 0;
        while i < n
            invariant
                i <= n,
                n == self.versions@.len(),
                at@ =~= row_moments(self.versions@).subrange(0, i as int),
            decreases n - i,
        {
            at.push(self.versions[i].created_at);
            i = i + 1;
        }
        assert(at@ =~= row_moments(self.versions@));
        current_index(&at)
    }
}

/// The user `u` is the row `row` as everybody may see it.
pub open spec fn shows_user(u: MinUser, row: UserRow) -> bool {
    u.id == row.id && u.username@ == row.username@
}

/// The comment `c` is the row `row` as shown under the post `post_id`.
pub open spec fn shows_comment(c: GetComment, row: CommentRow, post_id: u128) -> bool {
    &&& c.id_ts == IdAndTimestamps {
        id: row.id,
        created_at: row.created_at,
        updated_at: row.updated_at,
    }
    &&& c.post_id == post_id
    &&& c.body@ == row.text@
    &&& shows_user(c.author, row.author)
}

/// The answer `res` shows the post `row` in full, with the version at
/// position `k` as its body and the moment of that version as its last change.
pub open spec fn shows_post(res: GetPostRes, row: PostRow, post_id: u128, k: int) -> bool {
    &&& res.id_ts == IdAndTimestamps {
        id: post_id,
        created_at: row.created_at,
        updated_at: row.versions@[k].created_at,
    }
    &&& res.title@ == row.title@
    &&& res.title_norm@ == row.title_norm@
    &&& res.body@ == row.versions@[k].text@
    &&& shows_user(res.user, row.owner)
    &&& res.comments@.len() == row.comments@.len()
    &&& forall|i: int|
        0 <= i < row.comments@.len() ==> shows_comment(
            #[trigger] res.comments@[i],
            row.comments@[i],
            post_id,
        )
}

/// The answer `res` shows the post `row` in full with its current version.
pub open spec fn shows_current(res: GetPostRes, row: PostRow, post_id: u128) -> bool {
    exists|k: int|
        is_current(row_moments(row.versions@), k) && #[trigger] shows_post(res, row, post_id, k)
}

fn show_user(row: &UserRow) -> (u: MinUser)
    ensures
        shows_user(u, *row),
{
    MinUser { id: row.id, username: BoundString::new_unchecked(row.username.clone()) }
}

/// Answers the question for one post from what storage found. A failed query
/// is an internal error; a post that is not there, or that is there without
/// any version, does not exist for the reader; else the post is shown with
/// its current version as the body and every comment in the order returned.
pub fn get_post(post_id: u128, found: &Result<Option<PostRow>, QueryFailure>) -> (r: Result<
    GetPostRes,
    ApiError,
>)
    ensures
        found matches Err(q) ==> r matches Err(e) && is_query_failure(e, *q),
        found matches Ok(None) ==> r matches Err(e) && is_not_found(e),
        found matches Ok(Some(row)) ==> (if row.spec_has_history() {
            r matches Ok(res) && shows_current(res, *row, post_id)
        } else {
            r matches Err(e) && is_not_found(e)
        }),
{
    let row = match found {
        Err(q) => { return Err(Error::from_query(*q)); },
        Ok(None) => { return Err(Error::not_found()); },
        Ok(Some(row)) => row,
    };
    let k: usize = match row.current() {
        Some(k) => k,
        None => { return Err(Error::not_found()); },
    };
    let n: usize = row.comments.len();
    let mut comments: Vec<GetComment> = Vec::new();
    let mut i: usize = 0;
    while i < n
        invariant
            i <= n,
            n == row.comments@.len(),
            comments@.len() == i,
            forall|j: int|
                0 <= j < i ==> shows_comment(#[trigger] comments@[j], row.comments@[j], post_id),
        decreases n - i,
    {
        let c = &row.comments[i];
        comments.push(
            GetComment {
                id_ts: IdAndTimestamps {
                    id: c.id,
                    created_at: c.created_at,
                    updated_at: c.updated_at,
                },
                post_id,
                body: c.text.clone(),
                author: show_user(&c.author),
            },
        );
        i = i + 1;
    }
    let res = GetPostRes {
        id_ts: IdAndTimestamps {
            id: post_id,
            created_at: row.created_at,
            updated_at: row.versions[k].created_at,
        },
        title: BoundString::new_unchecked(row.title.clone()),
        title_norm: row.title_norm.clone(),
        body: BoundString::new_unchecked(row.versions[k].text.clone()),
        user: show_user(&row.owner),
        comments,
    };
    assert(shows_post(res, *row, post_id, k as int));
    Ok(res)
}

/// The posts among `rows` that have a version, in their order.
pub open spec fn with_history(rows: Seq<PostRow>) -> Seq<PostRow>
    decreases rows.len(),
{
    if rows.len() == 0 {
        Seq::<PostRow>::empty()
    } else if rows.last().spec_has_history() {
        with_history(rows.drop_last()).push(rows.last())
    } else {
        with_history(rows.drop_last())
    }
}

/// The entry `item` lists the post `row` with the version at position `k`:
/// the beginning of that version's text, cut at the last character boundary
/// within the first hundred bytes, stands for the body.
pub open spec fn lists_post(item: GetAllPostsItem, row: PostRow, k: int) -> bool {
    &&& item.id_ts == IdAndTimestamps {
        id: row.id,
        created_at: row.created_at,
        updated_at: row.versions@[k].created_at,
    }
    &&& item.title@ == row.title@
    &&& item.title_norm@ == row.title_norm@
    &&& shows_user(item.user, row.owner)
    &&& encode_utf8(item.partial_body@) == encode_utf8(row.versions@[k].text@).subrange(
        0,
        floor_boundary(encode_utf8(row.versions@[k].text@), PREVIEW_BYTES as int),
    )
    &&& item.partial_body@ == row.versions@[k].text@.subrange(0, item.partial_body@.len() as int)
}

/// The entry `item` lists the post `row` with its current version.
pub open spec fn lists_current(item: GetAllPostsItem, row: PostRow) -> bool {
    exists|k: int| is_current(row_moments(row.versions@), k) && #[trigger] lists_post(item, row, k)
}

/// Lists all posts that storage returned, in the order returned. A post
/// without any version is left out; every other post is listed with the
/// preview of its current version.
pub fn get_all_posts(rows: &Vec<PostRow>) -> (items: Vec<GetAllPostsItem>)
    ensures
        items@.len() == with_history(rows@).len(),
        forall|i: int|
            0 <= i < items@.len() ==> lists_current(#[trigger] items@[i], with_history(rows@)[i]),
{
    let n: usize = rows.len();
    let mut items: Vec<GetAllPostsItem> = Vec::new();
    let mut i: usize = 0;
    while i < n
        invariant
            i <= n,
            n == rows@.len(),
            items@.len() == with_history(rows@.subrange(0, i as int)).len(),
            forall|j: int|
                0 <= j < items@.len() ==> lists_current(
                    #[trigger] items@[j],
                    with_history(rows@.subrange(0, i as int))[j],
                ),
        decreases n - i,
    {
        let row = &rows[i];
        proof {
            let next = rows@.subrange(0, i + 1);
            assert(next.drop_last() =~= rows@.subrange(0, i as int));
            assert(next.last() == rows@[i as int]);
        }
        match row.current() {
            Some(k) => {
                let latest = &row.versions[k];
                let item = GetAllPostsItem {
                    id_ts: IdAndTimestamps {
                        id: row.id,
                        created_at: row.created_at,
                        updated_at: latest.created_at,
                    },
                    title: row.title.clone(),
                    title_norm: row.title_norm.clone(),
                    user: show_user(&row.owner),
                    partial_body: preview(latest.text.as_str(), PREVIEW_BYTES),
                };
                assert(lists_post(item, *row, k as int));
                items.push(item);
            },
            None => {},
        }
        i = i + 1;
    }
    assert(rows@.subrange(0, n as int) =~= rows@);
    items
}

/// What is to be stored for a new post: the head under a fresh identifier,
/// with the title, its normal form and the owner, and the first version with
/// the body.
#[derive(Debug)]
pub struct NewPostPlan {
    pub id: u128,
    pub id_key: String,
    pub title: String,
    pub title_norm: String,
    pub owner_key: String,
    pub body: String,
}

/// Plans the storing of a new post for the authenticated user. The normal
/// form of the title is computed here, once; the post belongs to the user.
pub fn create_post(auth: &RequireLogin, post: NewBlogPost) -> (plan: NewPostPlan)
    ensures
        plan.id_key@ == uuid_hyphenated(plan.id),
        plan.title@ == post.title@,
        plan.title_norm@ == normalized(post.title@),
        plan.owner_key@ == uuid_hyphenated(auth.id),
        plan.body@ == post.body@,
{
    let id: u128 = fresh_id();
    let norm = title_normalize(post.title.as_str());
    NewPostPlan {
        id,
        id_key: storage_key(id),
        title: post.title.into_inner(),
        title_norm: norm,
        owner_key: storage_key(auth.id),
        body: post.body.into_inner(),
    }
}

/// Answers a new post once storage has taken the head, at `head_created_at`,
/// and has been asked to take the first version: the post was created at the
/// moment of the head and last changed at the moment of the version.
pub fn post_created(
    id: u128,
    title_norm: String,
    head_created_at: Timestamp,
    version: Result<Timestamp, QueryFailure>,
) -> (r: Result<Created<NewBlogPostRes>, ApiError>)
    ensures
        match version {
            Ok(at) => r matches Ok(c) && c.0.title_norm@ == title_norm@ && c.0.id_ts
                == IdAndTimestamps { id, created_at: head_created_at, updated_at: at },
            Err(q) => r matches Err(e) && is_query_failure(e, q),
        },
{
    match version {
        Ok(at) => Ok(
            Created::json(
                NewBlogPostRes {
                    id_ts: IdAndTimestamps { id, created_at: head_created_at, updated_at: at },
                    title_norm,
                },
            ),
        ),
        Err(q) => Err(Error::from_query(q)),
    }
}

/// What is to be stored for a new comment.
#[derive(Debug)]
pub struct NewCommentPlan {
    pub id: u128,
    pub id_key: String,
    pub post_key: String,
    pub author_key: String,
    pub text: String,
}

/// Plans the storing of a comment by the authenticated user under the post
/// that storage was asked for. A failed query is an internal error, and a
/// post that is not there cannot be commented on.
pub fn new_comment(
    auth: &RequireLogin,
    post: Result<Option<u128>, QueryFailure>,
    comment: PostComment,
) -> (r: Result<NewCommentPlan, ApiError>)
    ensures
        match post {
            Err(q) => r matches Err(e) && is_query_failure(e, q),
            Ok(None) => r matches Err(e) && is_not_found(e),
            Ok(Some(post_id)) => r matches Ok(plan) && plan.id_key@ == uuid_hyphenated(plan.id)
                && plan.post_key@ == uuid_hyphenated(post_id) && plan.author_key@
                == uuid_hyphenated(auth.id) && plan.text@ == comment.body@,
        },
{
    match post {
        Err(q) => Err(Error::from_query(q)),
        Ok(None) => Err(Error::not_found()),
        Ok(Some(post_id)) => {
            let id: u128 = fresh_id();
            Ok(
                NewCommentPlan {
                    id,
                    id_key: storage_key(id),
                    post_key: storage_key(post_id),
                    author_key: storage_key(auth.id),
                    text: comment.body.into_inner(),
                },
            )
        },
    }
}

/// Answers a new comment once storage has been asked to take it: a comment is
/// last changed when it is created.
pub fn comment_created(id: u128, stored: Result<Timestamp, QueryFailure>) -> (r: Result<
    IdAndTimestamps,
    ApiError,
>)
    ensures
        match stored {
            Ok(at) => r == Ok::<IdAndTimestamps, ApiError>(
                IdAndTimestamps { id, created_at: at, updated_at: at },
            ),
            Err(q) => r matches Err(e) && is_query_failure(e, q),
        },
{
    match stored {
        Ok(at) => Ok(IdAndTimestamps { id, created_at: at, updated_at: at }),
        Err(q) => Err(Error::from_query(q)),
    }
}

} // verus!
