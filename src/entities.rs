//! Records exchanged with clients and kept in the store. Timestamps are
//! microseconds since the Unix epoch, in UTC.
use vstd::prelude::*;

verus! {

/// A cat as a client submits it for creation or update.
pub struct CreateCatRequest {
    pub name: String,
    pub race: String,
    pub sex: String,
    pub age_in_month: i32,
    pub description: String,
    pub img_urls: Vec<String>,
}

/// A cat as it is written to the store, with its owner.
pub struct CreateCatPayload {
    pub name: String,
    pub race: String,
    pub sex: String,
    pub age_in_month: i32,
    pub description: String,
    pub img_urls: Vec<String>,
    pub user_id: i32,
}

/// A stored cat.
pub struct Cat {
    pub id: i32,
    pub name: String,
    pub race: String,
    pub sex: String,
    pub age_in_month: i32,
    pub description: String,
    pub img_urls: Vec<String>,
    pub created_at: i64,
    pub user_id: i32,
}

/// What creating or updating a cat hands back.
pub struct CreateCatResponse {
    pub id: i32,
    pub created_at: i64,
}

/// A cat as a listing shows it.
pub struct CatResponse {
    pub id: i32,
    pub name: String,
    pub race: String,
    pub sex: String,
    pub age_in_month: i32,
    pub description: String,
    pub img_urls: Vec<String>,
    pub created_at: i64,
    pub has_matched: bool,
}

/// The optional predicates and the page of a cat listing.
pub struct FilterCat {
    pub id: Option<i32>,
    pub limit: i32,
    pub offset: i32,
    pub race: Option<String>,
    pub sex: Option<String>,
    pub age_in_month: Option<String>,
    pub has_matched: Option<bool>,
    pub owned: Option<bool>,
    pub search: Option<String>,
    pub user_id: Option<i32>,
}

impl Default for FilterCat {
    /// No predicate, the first five rows.
    fn default() -> (r: Self)
        ensures
            r.id is None && r.race is None && r.sex is None && r.age_in_month is None,
            r.has_matched is None && r.owned is None && r.search is None && r.user_id is None,
            r.limit == 5 && r.offset == 0,
    {
        FilterCat {
            id: None,
            limit: 5,
            offset: 0,
            race: None,
            sex: None,
            age_in_month: None,
            has_matched: None,
            owned: None,
            search: None,
            user_id: None,
        }
    }
}

/// The envelope of every response: a message and, on success, data.
pub struct ResponseWrapper<T> {
    pub message: String,
    pub data: Option<T>,
}

/// A registration request.
pub struct CreateUser {
    pub email: String,
    pub name: String,
    pub password: String,
}

/// A login request.
pub struct LoginUser {
    pub email: String,
    pub password: String,
}

/// What registration and login hand back.
pub struct UserResponse {
    pub name: String,
    pub email: String,
    pub access_token: String,
}

/// A stored user; `password` holds the hash, never the plaintext.
pub struct User {
    pub id: i32,
    pub name: String,
    pub email: String,
    pub password: String,
}

/// The optional predicates of a user lookup.
pub struct FilterUser {
    pub id: Option<i32>,
    pub name: Option<String>,
    pub email: Option<String>,
}

/// The identity that a token carries.
pub struct TokenUser {
    pub email: String,
    pub id: i32,
}

/// The authenticated caller of a request.
pub struct Auth(pub TokenUser);

} // verus!
