use vstd::prelude::*;

use crate::dtos::{LoginResponse, UserResponse};
use crate::error::AuthServiceError;
use crate::jwt::{jwt_decode_of, spec_claims, TokenService};
use crate::repository::UserRepository;

verus! {

/// Signup business rule: reject the username when it is already stored,
/// otherwise create the user and return its fresh identifier. Any storage
/// failure is collapsed into `DatabaseError`; no mutation survives a
/// rejection or a failure. No validation of the username is performed: the
/// empty username is accepted and stored as-is.
///
/// On a healthy repository this pins the outcome completely: a username not
/// yet stored is created (and a second signup of it then finds it stored),
/// and a stored username is rejected with `UserAlreadyExists`.
pub fn sign_up<R: UserRepository>(repo: &mut R, username: String) -> (r: Result<
    UserResponse,
    AuthServiceError,
>)
    ensures
        r matches Ok(u) ==> (u.username@ == username@ && u.id@.len() > 0 && !old(
            repo,
        ).users().contains_key(username@) && final(repo).users() == old(repo).users().insert(
            username@,
            u.id@,
        )),
        r matches Err(e) ==> ((e == AuthServiceError::UserAlreadyExists || e
            == AuthServiceError::DatabaseError) && final(repo).users() == old(repo).users()),
        r == Err::<UserResponse, AuthServiceError>(AuthServiceError::UserAlreadyExists) ==> old(
            repo,
        ).users().contains_key(username@),
        r == Err::<UserResponse, AuthServiceError>(AuthServiceError::DatabaseError) ==> !old(
            repo,
        ).healthy(),
        final(repo).healthy() == old(repo).healthy(),
        (old(repo).healthy() && !old(repo).users().contains_key(username@)) ==> r is Ok,
        (old(repo).healthy() && old(repo).users().contains_key(username@)) ==> r == Err::<
            UserResponse,
            AuthServiceError,
        >(AuthServiceError::UserAlreadyExists),
{
    let already = match repo.exist_by_username(username.as_str()) {
        Ok(b) => b,
        Err(_) => {
            return Err(AuthServiceError::DatabaseError);
        },
    };
    if already {
        return Err(AuthServiceError::UserAlreadyExists);
    }
    let user_id = match repo.save(username.as_str()) {
        Ok(id) => id,
        Err(_) => {
            return Err(AuthServiceError::DatabaseError);
        },
    };
    Ok(UserResponse { id: user_id, username })
}

/// Login business rule: look the username up, and issue an identity token
/// for the stored user. There is no credential check beyond existence of the
/// username: that is the specified authentication policy of this system, not
/// an omission. An unknown user yields the deliberately generic
/// `Unauthorized`; a storage failure yields `DatabaseError`; a token-issuance
/// failure yields `InternalError`.
///
/// On success the reply carries the stored identifier and username, and a
/// token that decodes (under the same secret) to claims issued for exactly
/// that subject and username.
pub fn login<R: UserRepository>(repo: &R, tokens: &TokenService, username: String) -> (r: Result<
    LoginResponse,
    AuthServiceError,
>)
    ensures
        r matches Ok(resp) ==> (repo.users().contains_key(username@) && resp.username@
            == username@ && resp.user_id@ == repo.users()[username@] && resp.token@.len() > 0 && (
        exists|now: u64|
            now + crate::jwt::TOKEN_VALIDITY_SECS <= u64::MAX && jwt_decode_of(
                resp.token@,
                tokens@,
            ) == Some(#[trigger] spec_claims(repo.users()[username@], username@, now)))),
        r matches Err(e) ==> (e == AuthServiceError::Unauthorized || e
            == AuthServiceError::DatabaseError || e == AuthServiceError::InternalError),
        r == Err::<LoginResponse, AuthServiceError>(AuthServiceError::Unauthorized)
            ==> !repo.users().contains_key(username@),
        r == Err::<LoginResponse, AuthServiceError>(AuthServiceError::DatabaseError)
            ==> !repo.healthy(),
        (repo.healthy() && !repo.users().contains_key(username@)) ==> r == Err::<
            LoginResponse,
            AuthServiceError,
        >(AuthServiceError::Unauthorized),
        (repo.healthy() && repo.users().contains_key(username@)) ==> (r is Ok || r == Err::<
            LoginResponse,
            AuthServiceError,
        >(AuthServiceError::InternalError)),
{
    let user = match repo.find_by_username(username.as_str()) {
        Ok(Some(u)) => u,
        Ok(None) => {
            return Err(AuthServiceError::Unauthorized);
        },
        Err(_) => {
            return Err(AuthServiceError::DatabaseError);
        },
    };
    let token = match tokens.generate_token(user.id.as_str(), user.username.as_str()) {
        Ok(t) => t,
        Err(_) => {
            return Err(AuthServiceError::InternalError);
        },
    };
    proof {
        let now = choose|now: u64|
            now + crate::jwt::TOKEN_VALIDITY_SECS <= u64::MAX && jwt_decode_of(token@, tokens@)
                == Some(#[trigger] spec_claims(user.id@, user.username@, now)) && token@
                == crate::jwt::jwt_encode_of(spec_claims(user.id@, user.username@, now), tokens@);
        assert(jwt_decode_of(token@, tokens@) == Some(
            spec_claims(repo.users()[username@], username@, now),
        ));
    }
    Ok(LoginResponse { token, user_id: user.id, username: user.username })
}

} // verus!
