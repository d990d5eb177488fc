//! The requests the service accepts and the answers it gives. Every text that
//! enters through a request is bounded; the bounds are checked when the
//! request is built.

use crate::bounded::{length_fits, BoundString, LengthOutOfRange};
use crate::history::BlogPostBody;
use crate::token::Timestamp;
use vstd::prelude::*;

verus! {

pub type Username = BoundString<6, 64>;

pub type Email = BoundString<2, 128>;

pub type BlogPostTitle = BoundString<2, 128>;

pub type CommentBody = BoundString<4, 2000>;

/// What everybody may know of a user.
#[derive(Debug)]
pub struct MinUser {
    pub id: u128,
    pub username: Username,
}

/// What a user may know of themselves.
#[derive(Debug)]
pub struct AuthUser {
    pub min: MinUser,
    pub email: Email,
    pub created_at: Timestamp,
}

/// The credentials of a login. The password is kept out of debug output,
/// so the type has none.
pub struct Login {
    pub email: Email,
    pub password: String,
}

/// The data of a new account. The password is kept out of debug output,
/// so the type has none.
pub struct Signup {
    pub email: Email,
    pub username: Username,
    pub password: String,
}

/// The identifier of a resource with the moments of its creation and of its
/// last change.
#[derive(Clone, Copy, Debug, PartialEq, Eq)]
pub struct IdAndTimestamps {
    pub id: u128,
    pub created_at: Timestamp,
    pub updated_at: Timestamp,
}

/// A new post.
#[derive(Debug)]
pub struct NewBlogPost {
    pub title: BlogPostTitle,
    pub body: BlogPostBody,
}

/// The answer to a new post.
#[derive(Debug)]
pub struct NewBlogPostRes {
    pub id_ts: IdAndTimestamps,
    pub title_norm: String,
}

/// The question for one post.
#[derive(Clone, Copy, Debug)]
pub struct GetPost {
    pub id: u128,
}

/// One post in the listing of all posts, with the beginning of its body.
#[derive(Debug)]
pub struct GetAllPostsItem {
    pub id_ts: IdAndTimestamps,
    pub title_norm: String,
    pub title: String,
    pub partial_body: String,
    pub user: MinUser,
}

/// One comment under a post.
#[derive(Debug)]
pub struct GetComment {
    pub id_ts: IdAndTimestamps,
    pub post_id: u128,
    pub author: MinUser,
    pub body: String,
}

/// One post in full: its current body, its owner and its comments.
#[derive(Debug)]
pub struct GetPostRes {
    pub id_ts: IdAndTimestamps,
    pub title_norm: String,
    pub title: BlogPostTitle,
    pub body: BlogPostBody,
    pub user: MinUser,
    pub comments: Vec<GetComment>,
}

/// A new body for a post.
#[derive(Debug)]
pub struct UpdateBlogPost {
    pub body: BlogPostBody,
}

/// The text of a comment, new or edited.
#[derive(Debug)]
pub struct PostComment {
    pub body: CommentBody,
}

/// The moment at which a change was stored.
#[derive(Clone, Copy, Debug, PartialEq, Eq)]
pub struct Updated {
    pub updated_at: Timestamp,
}

/// The users that somebody follows.
#[derive(Debug)]
pub struct FollowList {
    pub users: Vec<MinUser>,
}

impl Login {
    /// A login whose email fits its bounds; the password is taken as it is.
    pub fn new(email: String, password: String) -> (r: Result<Self, LengthOutOfRange>)
        ensures
            r is Ok <==> length_fits(email@.len(), 2, 128),
            r matches Ok(l) ==> l.email@ == email@ && l.email.wf() && l.password@ == password@,
            r matches Err(e) ==> e.field@ == "email"@ && e.actual == email@.len() && e.min == 2
                && e.max == 128,
    {
        match Email::check("email".to_owned(), email) {
            Ok(email) => Ok(Login { email, password }),
            Err(e) => Err(e),
        }
    }
}

impl Signup {
    /// The data of a new account, if the email and the username fit their
    /// bounds. The email is looked at first.
    pub fn new(email: String, username: String, password: String) -> (r: Result<
        Self,
        LengthOutOfRange,
    >)
        ensures
            r is Ok <==> length_fits(email@.len(), 2, 128) && length_fits(username@.len(), 6, 64),
            r matches Ok(s) ==> s.email@ == email@ && s.username@ == username@ && s.password@
                == password@ && s.email.wf() && s.username.wf(),
            r matches Err(e) ==> if !length_fits(email@.len(), 2, 128) {
                e.field@ == "email"@ && e.actual == email@.len() && e.min == 2 && e.max == 128
            } else {
                e.field@ == "username"@ && e.actual == username@.len() && e.min == 6 && e.max
                    == 64
            },
    {
        let email = match Email::check("email".to_owned(), email) {
            Ok(v) => v,
            Err(e) => { return Err(e); },
        };
        let username = match Username::check("username".to_owned(), username) {
            Ok(v) => v,
            Err(e) => { return Err(e); },
        };
        Ok(Signup { email, username, password })
    }
}

impl NewBlogPost {
    /// A new post, if the title and the body fit their bounds. The title is
    /// looked at first.
    pub fn new(title: String, body: String) -> (r: Result<Self, LengthOutOfRange>)
        ensures
            r is Ok <==> length_fits(title@.len(), 2, 128) && length_fits(body@.len(), 32, 50000),
            r matches Ok(p) ==> p.title@ == title@ && p.body@ == body@ && p.title.wf()
                && p.body.wf(),
            r matches Err(e) ==> if !length_fits(title@.len(), 2, 128) {
                e.field@ == "title"@ && e.actual == title@.len() && e.min == 2 && e.max == 128
            } else {
                e.field@ == "body"@ && e.actual == body@.len() && e.min == 32 && e.max == 50000
            },
    {
        let title = match BlogPostTitle::check("title".to_owned(), title) {
            Ok(v) => v,
            Err(e) => { return Err(e); },
        };
        let body = match BlogPostBody::check("body".to_owned(), body) {
            Ok(v) => v,
            Err(e) => { return Err(e); },
        };
        Ok(NewBlogPost { title, body })
    }
}

impl UpdateBlogPost {
    /// A new body for a post, if it fits its bounds.
    pub fn new(body: String) -> (r: Result<Self, LengthOutOfRange>)
        ensures
            r is Ok <==> length_fits(body@.len(), 32, 50000),
            r matches Ok(p) ==> p.body@ == body@ && p.body.wf(),
            r matches Err(e) ==> e.field@ == "body"@ && e.actual == body@.len() && e.min == 32
                && e.max == 50000,
    {
        match BlogPostBody::check("body".to_owned(), body) {
            Ok(body) => Ok(UpdateBlogPost { body }),
            Err(e) => Err(e),
        }
    }
}

impl PostComment {
    /// The text of a comment, if it fits its bounds.
    pub fn new(body: String) -> (r: Result<Self, LengthOutOfRange>)
        ensures
            r is Ok <==> length_fits(body@.len(), 4, 2000),
            r matches Ok(p) ==> p.body@ == body@ && p.body.wf(),
            r matches Err(e) ==> e.field@ == "body"@ && e.actual == body@.len() && e.min == 4
                && e.max == 2000,
    {
        match CommentBody::check("body".to_owned(), body) {
            Ok(body) => Ok(PostComment { body }),
            Err(e) => Err(e),
        }
    }
}

} // verus!
