//! Following: who follows whom is kept by storage; here the keys of a change
//! are made and the list of followed users is shown.

use crate::api::{is_not_found, is_query_failure, ApiError, Error, QueryFailure};
use crate::blog::{shows_user, UserRow};
use crate::bounded::BoundString;
use crate::ident::{storage_key, uuid_hyphenated};
use crate::model::{FollowList, MinUser};
use crate::token::RequireLogin;
use vstd::prelude::*;

verus! {

/// The two ends of a follow relation as storage knows them.
#[derive(Debug)]
pub struct FollowEdge {
    pub follower_key: String,
    pub followee_key: String,
}

/// The relation from the authenticated user to the user `uid`. Adding it
/// where it exists and removing it where it does not change nothing.
pub fn follow_edge(auth: &RequireLogin, uid: u128) -> (e: FollowEdge)
    ensures
        e.follower_key@ == uuid_hyphenated(auth.id),
        e.followee_key@ == uuid_hyphenated(uid),
{
    FollowEdge { follower_key: storage_key(auth.id), followee_key: storage_key(uid) }
}

/// Shows the users that the authenticated user follows, as storage returned
/// them: each one, in the same order.
pub fn get_follows(found: &Result<Option<Vec<UserRow>>, QueryFailure>) -> (r: Result<
    FollowList,
    ApiError,
>)
    ensures
        found matches Err(q) ==> r matches Err(e) && is_query_failure(e, *q),
        found matches Ok(None) ==> r matches Err(e) && is_not_found(e),
        found matches Ok(Some(rows)) ==> (r matches Ok(list) && list.users@.len() == rows@.len()
            && forall|i: int|
            0 <= i < rows@.len() ==> shows_user(#[trigger] list.users@[i], rows@[i])),
{
    let rows = match found {
        Err(q) => { return Err(Error::from_query(*q)); },
        Ok(None) => { return Err(Error::not_found()); },
        Ok(Some(rows)) => rows,
    };
    let n: usize = rows.len();
    let mut users: Vec<MinUser> = Vec::new();
    let mut i: usize = 0;
    while i < n
        invariant
            i <= n,
            n == rows@.len(),
            users@.len() == i,
            forall|j: int| 0 <= j < i ==> shows_user(#[trigger] users@[j], rows@[j]),
        decreases n - i,
    {
        users.push(
            MinUser {
                id: rows[i].id,
                username: BoundString::new_unchecked(rows[i].username.clone()),
            },
        );
        i = i + 1;
    }
    Ok(FollowList { users })
}

} // verus!
