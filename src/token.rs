//! Identity tokens: the claims they carry, when they expire, how a bearer
//! header yields one, and the verdict on a decoded token.
use vstd::prelude::*;
use crate::entities::TokenUser;
use crate::text::{chars_of, string_of};

verus! {

/// How long a token stays valid, in seconds: eight hours.
pub const TOKEN_LIFETIME_SECS: i64 = 28800;

/// What a token signs: the identity and the second at which it expires.
pub struct Claims {
    pub email: String,
    pub id: i32,
    pub exp: i64,
}

/// Why a request is not authenticated.
#[derive(PartialEq, Eq, Structural, Clone, Copy, Debug)]
pub enum AuthError {
    /// No bearer token in the request.
    Missing,
    /// The token does not parse or its signature does not hold.
    Malformed,
    /// The token's expiry has passed.
    Expired,
}

/// Relies on `chrono::Utc::now`: the current Unix time in seconds.
#[verifier::external_body]
fn unix_now() -> (r: i64) {
    chrono::Utc::now().timestamp()
}

/// The claims of a token issued at `now` (Unix seconds).
pub fn claims_at(email: String, id: i32, now: i64) -> (r: Claims)
    requires
        now <= i64::MAX - TOKEN_LIFETIME_SECS,
    ensures
        r.email == email && r.id == id,
        r.exp == now + TOKEN_LIFETIME_SECS,
{
    Claims { email, id, exp: now + TOKEN_LIFETIME_SECS }
}

/// The claims of a token issued now, or `None` where the clock reads so late
/// that the expiry does not fit.
pub fn issue_claims(email: String, id: i32) -> (r: Option<Claims>)
    ensures
        r matches Some(c) ==> c.email == email && c.id == id,
{
    let now = unix_now();
    if now > i64::MAX - TOKEN_LIFETIME_SECS {
        None
    } else {
        Some(claims_at(email, id, now))
    }
}

/// The verdict on a token, given what decoding it yielded (`None` where the
/// token did not parse or its signature failed) and the time of the check.
pub open spec fn verdict(decoded: Option<(Seq<char>, int, int)>, now: int) -> Result<
    (Seq<char>, int),
    AuthError,
> {
    match decoded {
        None => Err(AuthError::Malformed),
        Some((email, id, exp)) => if now < exp {
            Ok((email, id))
        } else {
            Err(AuthError::Expired)
        },
    }
}

pub open spec fn claims_view(c: Claims) -> (Seq<char>, int, int) {
    (c.email@, c.id as int, c.exp as int)
}

pub open spec fn user_view(u: TokenUser) -> (Seq<char>, int) {
    (u.email@, u.id as int)
}

/// The identity of a decoded token at time `now`, unless it has expired.
pub fn verify_claims(decoded: Option<Claims>, now: i64) -> (r: Result<TokenUser, AuthError>)
    ensures
        match verdict(
            match decoded {
                Some(c) => Some(claims_view(c)),
                None => None,
            },
            now as int,
        ) {
            Ok(u) => r matches Ok(t) && user_view(t) == u,
            Err(e) => r == Err::<TokenUser, AuthError>(e),
        },
{
    match decoded {
        None => Err(AuthError::Malformed),
        Some(c) => {
            if now < c.exp {
                Ok(TokenUser { email: c.email, id: c.id })
            } else {
                Err(AuthError::Expired)
            }
        },
    }
}

/// A token issued for a user and checked before it expires yields that
/// user's email and id.
pub proof fn lemma_issued_token_verifies(email: Seq<char>, id: i32, issued: int, now: int)
    requires
        issued <= now < issued + TOKEN_LIFETIME_SECS,
    ensures
        verdict(Some((email, id as int, issued + TOKEN_LIFETIME_SECS)), now) == Ok::<
            (Seq<char>, int),
            AuthError,
        >((email, id as int)),
{
}

/// A token whose signature does not hold is refused, whatever the time.
pub proof fn lemma_tampered_token_fails(now: int)
    ensures
        verdict(None, now) == Err::<(Seq<char>, int), AuthError>(AuthError::Malformed),
{
}

/// A token checked at or after its expiry is refused.
pub proof fn lemma_expired_token_fails(email: Seq<char>, id: i32, issued: int, now: int)
    requires
        now >= issued + TOKEN_LIFETIME_SECS,
    ensures
        verdict(Some((email, id as int, issued + TOKEN_LIFETIME_SECS)), now) is Err,
{
}

pub open spec fn no_space(s: Seq<char>) -> bool {
    forall|k: int| 0 <= k < s.len() ==> s[k] != ' '
}

/// `s[i+1..j]` is the second of the pieces that single spaces cut `s` into.
pub open spec fn second_piece_at(s: Seq<char>, i: int, j: int) -> bool {
    &&& 0 <= i < s.len()
    &&& s[i] == ' '
    &&& no_space(s.subrange(0, i))
    &&& i + 1 <= j <= s.len()
    &&& no_space(s.subrange(i + 1, j))
    &&& (j == s.len() || s[j] == ' ')
}

/// The token of an `Authorization` header: the second piece of the header
/// when cut at each space (`Bearer <token>`), or `None` where it has no space.
pub fn bearer_token(header: &str) -> (r: Option<String>)
    ensures
        r is None <==> no_space(header@),
        r matches Some(t) ==> exists|i: int, j: int|
            second_piece_at(header@, i, j) && t@ == header@.subrange(i + 1, j),
{
    let c = chars_of(header);
    let mut i: usize = 0;
    while i < c.len() && c[i] != ' '
        invariant
            i <= c.len(),
            c@ == header@,
            no_space(c@.subrange(0, i as int)),
        decreases c.len() - i,
    {
        i = i + 1;
        assert(c@.subrange(0, i as int) =~= c@.subrange(0, i - 1).push(c@[i - 1]));
    }
    if i == c.len() {
        assert(c@.subrange(0, i as int) =~= c@);
        return None;
    }
    let mut piece: Vec<char> = Vec::new();
    let mut j: usize = i + 1;
    while j < c.len() && c[j] != ' '
        invariant
            i < c.len(),
            i + 1 <= j <= c.len(),
            c@ == header@,
            piece@ == c@.subrange(i + 1, j as int),
            no_space(c@.subrange(i + 1, j as int)),
        decreases c.len() - j,
    {
        piece.push(c[j]);
        j = j + 1;
        assert(c@.subrange(i + 1, j as int) =~= c@.subrange(i + 1, j - 1).push(c@[j - 1]));
    }
    assert(second_piece_at(header@, i as int, j as int));
    Some(string_of(&piece))
}

} // verus!
