//! The decisions of the request handlers. Each step takes what the store or
//! the token encoder answered and says what follows: the next value, or the
//! error that ends the request, with its HTTP status.
use vstd::prelude::*;
use crate::entities::{
    CreateCatPayload, CreateCatRequest, CreateUser, FilterCat, FilterUser, LoginUser, TokenUser,
    User, UserResponse,
};
use crate::passwords::{argon2_accepts, hash_password, verify_password};
use crate::query::{cat_listing_of, cat_listing_query, clone_strings, parts_view, QueryPart};
use crate::token::AuthError;
use crate::validation::{cat_errors, joined_lines, login_errors, user_errors};

verus! {

/// Why a request failed, with the message the client sees.
pub enum ApiError {
    /// The input broke a rule.
    Validation(String),
    /// No valid token.
    Unauthorized(String),
    /// The record asked for is absent.
    NotFound(String),
    /// The store failed.
    Store(String),
    /// The password could not be hashed.
    Hashing(String),
    /// The password does not match the stored hash.
    PasswordMismatch(String),
    /// No token could be issued.
    Token(String),
}

pub open spec fn status_spec(e: ApiError) -> u16 {
    match e {
        ApiError::Validation(_) => 400,
        ApiError::Unauthorized(_) => 401,
        ApiError::NotFound(_) => 404,
        ApiError::Store(_) => 500,
        ApiError::Hashing(_) => 500,
        ApiError::PasswordMismatch(_) => 400,
        ApiError::Token(_) => 500,
    }
}

pub open spec fn message_spec(e: ApiError) -> Seq<char> {
    match e {
        ApiError::Validation(m) => m@,
        ApiError::Unauthorized(m) => m@,
        ApiError::NotFound(m) => m@,
        ApiError::Store(m) => m@,
        ApiError::Hashing(m) => m@,
        ApiError::PasswordMismatch(m) => m@,
        ApiError::Token(m) => m@,
    }
}

/// The words of each authentication failure.
pub open spec fn auth_message(e: AuthError) -> Seq<char> {
    match e {
        AuthError::Missing => "Unauthorized"@,
        AuthError::Malformed => "InvalidToken"@,
        AuthError::Expired => "ExpiredSignature"@,
    }
}

impl ApiError {
    /// The HTTP status of the failure.
    pub fn status(&self) -> (r: u16)
        ensures
            r == status_spec(*self),
    {
        match self {
            ApiError::Validation(_) => 400,
            ApiError::Unauthorized(_) => 401,
            ApiError::NotFound(_) => 404,
            ApiError::Store(_) => 500,
            ApiError::Hashing(_) => 500,
            ApiError::PasswordMismatch(_) => 400,
            ApiError::Token(_) => 500,
        }
    }

    /// The message of the failure.
    pub fn message(&self) -> (r: String)
        ensures
            r@ == message_spec(*self),
    {
        match self {
            ApiError::Validation(m) => m.clone(),
            ApiError::Unauthorized(m) => m.clone(),
            ApiError::NotFound(m) => m.clone(),
            ApiError::Store(m) => m.clone(),
            ApiError::Hashing(m) => m.clone(),
            ApiError::PasswordMismatch(m) => m.clone(),
            ApiError::Token(m) => m.clone(),
        }
    }

    /// An authentication failure: 401.
    pub fn from_auth(e: AuthError) -> (r: ApiError)
        ensures
            r matches ApiError::Unauthorized(m) && m@ == auth_message(e),
    {
        match e {
            AuthError::Missing => ApiError::Unauthorized("Unauthorized".to_owned()),
            AuthError::Malformed => ApiError::Unauthorized("InvalidToken".to_owned()),
            AuthError::Expired => ApiError::Unauthorized("ExpiredSignature".to_owned()),
        }
    }
}

/// A lookup that must find its record: a miss is 404.
pub fn found<T>(r: Result<T, String>) -> (out: Result<T, ApiError>)
    ensures
        match r {
            Ok(v) => out == Ok::<T, ApiError>(v),
            Err(m) => out matches Err(ApiError::NotFound(n)) && n@ == m@,
        },
{
    match r {
        Ok(v) => Ok(v),
        Err(m) => Err(ApiError::NotFound(m)),
    }
}

/// A write to the store: a failure is 500.
pub fn stored<T>(r: Result<T, String>) -> (out: Result<T, ApiError>)
    ensures
        match r {
            Ok(v) => out == Ok::<T, ApiError>(v),
            Err(m) => out matches Err(ApiError::Store(n)) && n@ == m@,
        },
{
    match r {
        Ok(v) => Ok(v),
        Err(m) => Err(ApiError::Store(m)),
    }
}

/// Registration before the store: the checked request, with the password
/// replaced by a hash that it verifies against.
pub fn prepare_registration(user: &CreateUser) -> (r: Result<CreateUser, ApiError>)
    ensures
        user_errors(user.email@, user.name@, user.password@).len() > 0 <==> r matches Err(
            ApiError::Validation(_),
        ),
        r matches Err(ApiError::Validation(m)) ==> m@ == joined_lines(
            user_errors(user.email@, user.name@, user.password@),
        ),
        r matches Err(e) ==> e is Validation || e is Hashing,
        r matches Ok(u) ==> u.name == user.name && u.email == user.email,
        r matches Ok(u) ==> argon2_accepts(user.password@, u.password@),
{
    match user.validate() {
        Err(e) => Err(ApiError::Validation(e.message())),
        Ok(()) => match hash_password(user.password.as_str()) {
            Err(e) => Err(ApiError::Hashing(e.message)),
            Ok(h) => Ok(CreateUser { name: user.name.clone(), email: user.email.clone(), password: h }),
        },
    }
}

/// Login before the store: the checked request becomes a lookup by email.
pub fn login_filter(user: &LoginUser) -> (r: Result<FilterUser, ApiError>)
    ensures
        login_errors(user.email@, user.password@).len() > 0 <==> r is Err,
        r matches Err(e) ==> e matches ApiError::Validation(m) && m@ == joined_lines(
            login_errors(user.email@, user.password@),
        ),
        r matches Ok(f) ==> f.id == Some(0i32) && f.name is None && f.email == Some(user.email),
{
    match user.validate() {
        Err(e) => Err(ApiError::Validation(e.message())),
        Ok(()) => Ok(FilterUser { id: Some(0), name: None, email: Some(user.email.clone()) }),
    }
}

/// Login after the lookup: an unknown email is 404, a wrong password 400.
pub fn authenticate(user: &LoginUser, lookup: Result<User, String>) -> (r: Result<User, ApiError>)
    ensures
        match lookup {
            Err(m) => r matches Err(ApiError::NotFound(n)) && n@ == m@,
            Ok(u) => if argon2_accepts(user.password@, u.password@) {
                r == Ok::<User, ApiError>(u)
            } else {
                r matches Err(ApiError::PasswordMismatch(_))
            },
        },
{
    match lookup {
        Err(m) => Err(ApiError::NotFound(m)),
        Ok(u) => match verify_password(user.password.as_str(), u.password.as_str()) {
            Ok(()) => Ok(u),
            Err(e) => Err(ApiError::PasswordMismatch(e.message)),
        },
    }
}

/// The answer to a registration or login once a token was asked for.
pub fn user_response(user: User, token: Result<String, String>) -> (r: Result<UserResponse, ApiError>)
    ensures
        match token {
            Ok(t) => r matches Ok(x) && x.name == user.name && x.email == user.email
                && x.access_token == t,
            Err(m) => r matches Err(ApiError::Token(n)) && n@ == m@,
        },
{
    match token {
        Ok(t) => Ok(UserResponse { name: user.name, email: user.email, access_token: t }),
        Err(m) => Err(ApiError::Token(m)),
    }
}

/// A cat request of the caller, checked, with the caller as owner.
pub fn cat_payload(req: &CreateCatRequest, caller: &TokenUser) -> (r: Result<
    CreateCatPayload,
    ApiError,
>)
    ensures
        cat_errors(
            req.name@,
            req.race@,
            req.sex@,
            req.age_in_month as int,
            req.description@,
            req.img_urls@,
        ).len() > 0 <==> r is Err,
        r matches Err(e) ==> e matches ApiError::Validation(m) && m@ == joined_lines(
            cat_errors(
                req.name@,
                req.race@,
                req.sex@,
                req.age_in_month as int,
                req.description@,
                req.img_urls@,
            ),
        ),
        r matches Ok(p) ==> p.name == req.name && p.race == req.race && p.sex == req.sex
            && p.age_in_month == req.age_in_month && p.description == req.description
            && p.img_urls@ == req.img_urls@ && p.user_id == caller.id,
{
    match req.validate() {
        Err(e) => Err(ApiError::Validation(e.message())),
        Ok(()) => Ok(
            CreateCatPayload {
                name: req.name.clone(),
                race: req.race.clone(),
                sex: req.sex.clone(),
                age_in_month: req.age_in_month,
                description: req.description.clone(),
                img_urls: clone_strings(&req.img_urls),
                user_id: caller.id,
            },
        ),
    }
}

/// The caller's listing filter: the query's predicates, scoped to the caller.
pub open spec fn scoped(f: FilterCat, caller: TokenUser) -> FilterCat {
    FilterCat { user_id: Some(caller.id), ..f }
}

/// The listing statement of a query by the caller; an unreadable age filter
/// is 400.
pub fn listing_for(query: &FilterCat, caller: &TokenUser) -> (r: Result<Vec<QueryPart>, ApiError>)
    ensures
        match cat_listing_of(scoped(*query, *caller)) {
            Some(q) => r matches Ok(p) && parts_view(p@) == q,
            None => r matches Err(ApiError::Validation(_)),
        },
{
    let f = FilterCat {
        id: query.id,
        limit: query.limit,
        offset: query.offset,
        race: query.race.clone(),
        sex: query.sex.clone(),
        age_in_month: query.age_in_month.clone(),
        has_matched: query.has_matched,
        owned: query.owned,
        search: query.search.clone(),
        user_id: Some(caller.id),
    };
    assert(f == scoped(*query, *caller));
    match cat_listing_query(&f) {
        Ok(q) => Ok(q),
        Err(_) => Err(ApiError::Validation("invalid ageInMonth".to_owned())),
    }
}

} // verus!
