//! The decisions of the authentication service. Each request runs as a series
//! of store calls; these functions take what a call gave and decide what comes
//! next: the next call's argument, or the answer.

use vstd::prelude::*;
use crate::auth_error::UserCustomResponseError;
use crate::auth_schema::{hashed_password, is_user_response, lemma_hashed_password_injective, role_name, Role, AuthResponseModel, TokenPayload, UserDeserializeModel, UserLoginModel, UserModel, UserResponseModel};
use crate::auth_token::{issue_token, issued_token, token_secret};
use crate::hex::hex_lower;
use crate::store::{Fetched, Inserted};
use crate::text::text_eq;

verus! {

/// How a lookup of one user turns into an answer, with the error for each way it can fail.
pub open spec fn user_lookup_answers(
    fetched: Fetched<UserDeserializeModel>,
    res: Result<UserResponseModel, UserCustomResponseError>,
    failed: UserCustomResponseError,
    missing: UserCustomResponseError,
    empty: UserCustomResponseError,
    malformed: UserCustomResponseError,
) -> bool {
    match fetched {
        Fetched::Failed => res == Err::<UserResponseModel, UserCustomResponseError>(failed),
        Fetched::Missing => res == Err::<UserResponseModel, UserCustomResponseError>(missing),
        Fetched::Empty => res == Err::<UserResponseModel, UserCustomResponseError>(empty),
        Fetched::Malformed => res == Err::<UserResponseModel, UserCustomResponseError>(malformed),
        Fetched::Found(u) => res matches Ok(r) && is_user_response(r, u),
    }
}

fn user_outcome(
    fetched: Fetched<UserDeserializeModel>,
    failed: UserCustomResponseError,
    missing: UserCustomResponseError,
    empty: UserCustomResponseError,
    malformed: UserCustomResponseError,
) -> (res: Result<UserResponseModel, UserCustomResponseError>)
    ensures
        user_lookup_answers(fetched, res, failed, missing, empty, malformed),
{
    match fetched {
        Fetched::Failed => Err(failed),
        Fetched::Missing => Err(missing),
        Fetched::Empty => Err(empty),
        Fetched::Malformed => Err(malformed),
        Fetched::Found(u) => Ok(UserResponseModel::build_user(u)),
    }
}

/// The user making a request, looked up by the identifier its token carries
/// (for a deletion, by that identifier and the stored form of the password given).
/// A user that is not found means the header does not prove anyone.
pub fn requester_from(lookup: Fetched<UserDeserializeModel>) -> (res: Result<UserResponseModel, UserCustomResponseError>)
    ensures
        user_lookup_answers(
            lookup,
            res,
            UserCustomResponseError::InternalError,
            UserCustomResponseError::BadHeaderData,
            UserCustomResponseError::BadHeaderData,
            UserCustomResponseError::InternalError,
        ),
{
    user_outcome(
        lookup,
        UserCustomResponseError::InternalError,
        UserCustomResponseError::BadHeaderData,
        UserCustomResponseError::BadHeaderData,
        UserCustomResponseError::InternalError,
    )
}

/// A user that a request names, looked up by identifier or address, or just deleted.
pub fn user_from_lookup(lookup: Fetched<UserDeserializeModel>) -> (res: Result<UserResponseModel, UserCustomResponseError>)
    ensures
        user_lookup_answers(
            lookup,
            res,
            UserCustomResponseError::InternalError,
            UserCustomResponseError::NotFound,
            UserCustomResponseError::NotFound,
            UserCustomResponseError::InternalError,
        ),
{
    user_outcome(
        lookup,
        UserCustomResponseError::InternalError,
        UserCustomResponseError::NotFound,
        UserCustomResponseError::NotFound,
        UserCustomResponseError::InternalError,
    )
}

/// A user after its details were updated: anything but a user read back is "not found".
pub fn user_from_update(updated: Fetched<UserDeserializeModel>) -> (res: Result<UserResponseModel, UserCustomResponseError>)
    ensures
        user_lookup_answers(
            updated,
            res,
            UserCustomResponseError::NotFound,
            UserCustomResponseError::NotFound,
            UserCustomResponseError::NotFound,
            UserCustomResponseError::NotFound,
        ),
{
    user_outcome(
        updated,
        UserCustomResponseError::NotFound,
        UserCustomResponseError::NotFound,
        UserCustomResponseError::NotFound,
        UserCustomResponseError::NotFound,
    )
}

/// A user after its password was set. The service stops on a failed store call
/// here, so that case is not taken.
pub fn user_from_password_update(updated: Fetched<UserDeserializeModel>) -> (res: Result<UserResponseModel, UserCustomResponseError>)
    requires
        !(updated is Failed),
    ensures
        user_lookup_answers(
            updated,
            res,
            UserCustomResponseError::NotFound,
            UserCustomResponseError::NotFound,
            UserCustomResponseError::NotFound,
            UserCustomResponseError::NotFound,
        ),
{
    user_from_update(updated)
}

/// Whether `res` is the answer to a sign-up or log-in of the stored user `u`:
/// the user, and a token for its identifier and role.
pub open spec fn is_auth_response(res: AuthResponseModel, u: UserDeserializeModel) -> bool {
    &&& is_user_response(res.user, u)
    &&& res.token@ == issued_token(hex_lower(u._id@), role_name(u.role), token_secret())
}

fn auth_response(u: UserDeserializeModel) -> (res: AuthResponseModel)
    ensures
        is_auth_response(res, u),
{
    let role = u.role;
    let user = UserResponseModel::build_user(u);
    let token = issue_token(user.id.as_str(), role);
    AuthResponseModel { user, token }
}

/// Sign-up, first step: given what a lookup by the new user's address found,
/// the user to insert, its password replaced by the stored form. An address
/// already in use is refused.
pub fn signup_prepare(existing: Fetched<()>, user: UserModel) -> (res: Result<UserModel, UserCustomResponseError>)
    ensures
        match existing {
            Fetched::Failed => res == Err::<UserModel, UserCustomResponseError>(UserCustomResponseError::InternalError),
            Fetched::Missing | Fetched::Empty => res matches Ok(u) && u.password@ == hashed_password(user.password@)
                && u.email == user.email && u.first_name == user.first_name && u.last_name == user.last_name
                && u.phone == user.phone && u.address == user.address && u.role == user.role,
            Fetched::Malformed | Fetched::Found(_) => res == Err::<UserModel, UserCustomResponseError>(UserCustomResponseError::AlreadyExist),
        },
{
    match existing {
        Fetched::Failed => Err(UserCustomResponseError::InternalError),
        Fetched::Missing | Fetched::Empty => {
            let mut user = user;
            user.hash_password();
            Ok(user)
        },
        Fetched::Malformed | Fetched::Found(_) => Err(UserCustomResponseError::AlreadyExist),
    }
}

/// Sign-up, second step: the identifier to read the inserted user back by.
pub fn signup_inserted(inserted: Inserted) -> (res: Result<String, UserCustomResponseError>)
    ensures
        match inserted {
            Inserted::Id(id) => res matches Ok(t) && t@ == hex_lower(id@),
            _ => res == Err::<String, UserCustomResponseError>(UserCustomResponseError::InternalError),
        },
{
    match inserted {
        Inserted::Id(id) => Ok(id.to_hex()),
        _ => Err(UserCustomResponseError::InternalError),
    }
}

/// Sign-up, last step: the new user read back, and a token for it.
pub fn signup_response(fetched: Fetched<UserDeserializeModel>) -> (res: Result<AuthResponseModel, UserCustomResponseError>)
    ensures
        match fetched {
            Fetched::Failed | Fetched::Empty | Fetched::Malformed => res == Err::<AuthResponseModel, UserCustomResponseError>(UserCustomResponseError::InternalError),
            Fetched::Missing => res == Err::<AuthResponseModel, UserCustomResponseError>(UserCustomResponseError::NotFound),
            Fetched::Found(u) => res matches Ok(r) && is_auth_response(r, u),
        },
{
    match fetched {
        Fetched::Failed | Fetched::Empty | Fetched::Malformed => Err(UserCustomResponseError::InternalError),
        Fetched::Missing => Err(UserCustomResponseError::NotFound),
        Fetched::Found(u) => Ok(auth_response(u)),
    }
}

/// Log-in: the user found by address and stored password form, and a token for it.
pub fn login_response(fetched: Fetched<UserDeserializeModel>) -> (res: Result<AuthResponseModel, UserCustomResponseError>)
    ensures
        match fetched {
            Fetched::Failed | Fetched::Malformed => res == Err::<AuthResponseModel, UserCustomResponseError>(UserCustomResponseError::InternalError),
            Fetched::Missing | Fetched::Empty => res == Err::<AuthResponseModel, UserCustomResponseError>(UserCustomResponseError::NotFound),
            Fetched::Found(u) => res matches Ok(r) && is_auth_response(r, u),
        },
{
    match fetched {
        Fetched::Failed | Fetched::Malformed => Err(UserCustomResponseError::InternalError),
        Fetched::Missing | Fetched::Empty => Err(UserCustomResponseError::NotFound),
        Fetched::Found(u) => Ok(auth_response(u)),
    }
}

/// Whether a user of role `role` may list all users.
pub open spec fn user_listing_permitted(role: Role) -> bool {
    role == Role::Admin || role == Role::ProductOwner
}

/// Listing users, first step: only administrators and product owners may.
pub fn user_listing_access(requester: Result<UserResponseModel, UserCustomResponseError>) -> (res: Result<(), UserCustomResponseError>)
    ensures
        match requester {
            Err(e) => res == Err::<(), UserCustomResponseError>(e),
            Ok(u) => if user_listing_permitted(u.role) {
                res == Ok::<(), UserCustomResponseError>(())
            } else {
                res == Err::<(), UserCustomResponseError>(UserCustomResponseError::NotAllowed)
            },
        },
{
    match requester {
        Err(e) => Err(e),
        Ok(u) => match u.role {
            Role::Admin | Role::ProductOwner => Ok(()),
            Role::Client | Role::Developer => Err(UserCustomResponseError::NotAllowed),
        },
    }
}

/// Listing users, last step: every stored user, answered with; `None` where the store call failed.
pub fn user_listing(users: Option<Vec<UserDeserializeModel>>) -> (res: Result<Vec<UserResponseModel>, UserCustomResponseError>)
    ensures
        match users {
            None => res == Err::<Vec<UserResponseModel>, UserCustomResponseError>(UserCustomResponseError::InternalError),
            Some(v) => res matches Ok(r) && r@.len() == v@.len() && forall|i: int|
                0 <= i < v@.len() ==> is_user_response(#[trigger] r@[i], v@[i]),
        },
{
    match users {
        None => Err(UserCustomResponseError::InternalError),
        Some(v) => {
            let mut out: Vec<UserResponseModel> = Vec::new();
            for u in iter: v
                invariant
                    out@.len() == iter.index(),
                    forall|i: int| 0 <= i < out@.len() ==> is_user_response(#[trigger] out@[i], iter.seq()[i]),
            {
                out.push(UserResponseModel::build_user(u));
            }
            Ok(out)
        },
    }
}

/// Whether a user of role `role`, identified as `requester`, may see or change
/// the details of the user `target`: administrators may for anyone, others only
/// for themselves.
pub open spec fn own_or_admin(role: Role, requester: Seq<char>, target: Seq<char>) -> bool {
    role == Role::Admin || requester == target
}

/// How looking up `target` is answered to a requester of role `role` whose
/// token carries `token_id`: the user found, if the requester may see it.
pub open spec fn user_view_answers(
    token_id: Seq<char>,
    role: Role,
    target: Fetched<UserDeserializeModel>,
    res: Result<UserResponseModel, UserCustomResponseError>,
) -> bool {
    match target {
        Fetched::Failed | Fetched::Malformed => res == Err::<UserResponseModel, UserCustomResponseError>(UserCustomResponseError::InternalError),
        Fetched::Missing | Fetched::Empty => res == Err::<UserResponseModel, UserCustomResponseError>(UserCustomResponseError::NotFound),
        Fetched::Found(u) => if own_or_admin(role, token_id, hex_lower(u._id@)) {
            res matches Ok(r) && is_user_response(r, u)
        } else {
            res == Err::<UserResponseModel, UserCustomResponseError>(UserCustomResponseError::NotAllowed)
        },
    }
}

/// Looking up a user by identifier, last step: the user found, shown to the
/// requester if it may see it. `token_id` is the identifier the requester's
/// token carries, `role` the requester's stored role.
pub fn user_view(token_id: &str, role: Role, target: Fetched<UserDeserializeModel>) -> (res: Result<UserResponseModel, UserCustomResponseError>)
    ensures
        user_view_answers(token_id@, role, target, res),
{
    match user_from_lookup(target) {
        Err(e) => Err(e),
        Ok(user) => match role {
            Role::Admin => Ok(user),
            _ => if text_eq(token_id, user.id.as_str()) {
                Ok(user)
            } else {
                Err(UserCustomResponseError::NotAllowed)
            },
        },
    }
}

/// How looking up `target` is answered to the holder of `token`, given what the
/// lookup of the requester by the token's identifier found: the requester's
/// stored role decides, never the role the token claims.
pub open spec fn user_lookup_outcome(
    token: TokenPayload,
    requester: Fetched<UserDeserializeModel>,
    target: Fetched<UserDeserializeModel>,
    res: Result<UserResponseModel, UserCustomResponseError>,
) -> bool {
    match requester {
        Fetched::Failed | Fetched::Malformed => res == Err::<UserResponseModel, UserCustomResponseError>(UserCustomResponseError::InternalError),
        Fetched::Missing | Fetched::Empty => res == Err::<UserResponseModel, UserCustomResponseError>(UserCustomResponseError::BadHeaderData),
        Fetched::Found(u) => user_view_answers(token.id@, u.role, target, res),
    }
}

/// Looking up a user: whether the user named needs to be read at all, which is
/// only where the requester was found.
pub fn lookup_needs_target(requester: &Fetched<UserDeserializeModel>) -> (res: bool)
    ensures
        res == (*requester is Found),
{
    match requester {
        Fetched::Found(_) => true,
        _ => false,
    }
}

/// Looking up a user by identifier: the requester, read by the identifier its
/// token carries, and then the user named, shown if the requester may see it.
/// Where the requester was not found, `target` is not looked at.
pub fn user_lookup(token: &TokenPayload, requester: Fetched<UserDeserializeModel>, target: Fetched<UserDeserializeModel>) -> (res: Result<UserResponseModel, UserCustomResponseError>)
    ensures
        user_lookup_outcome(*token, requester, target, res),
{
    match requester_from(requester) {
        Err(e) => Err(e),
        Ok(u) => user_view(token.id.as_str(), u.role, target),
    }
}

/// Whether two users as answered are the same user.
pub open spec fn same_user_answer(a: UserResponseModel, b: UserResponseModel) -> bool {
    &&& a.id@ == b.id@
    &&& a.email == b.email
    &&& a.first_name == b.first_name
    &&& a.last_name == b.last_name
    &&& a.phone == b.phone
    &&& a.address == b.address
    &&& a.role == b.role
}

/// Whether two answers to a lookup are the same answer.
pub open spec fn same_lookup_answer(
    a: Result<UserResponseModel, UserCustomResponseError>,
    b: Result<UserResponseModel, UserCustomResponseError>,
) -> bool {
    match (a, b) {
        (Ok(x), Ok(y)) => same_user_answer(x, y),
        (Err(x), Err(y)) => x == y,
        _ => false,
    }
}

/// What a user may read is decided by its stored role, not by the role its
/// token claims: two lookups by tokens that carry the same identifier, whatever
/// roles they claim, are answered alike.
pub proof fn lemma_user_lookup_ignores_claimed_role(
    t1: TokenPayload,
    t2: TokenPayload,
    requester: Fetched<UserDeserializeModel>,
    target: Fetched<UserDeserializeModel>,
    r1: Result<UserResponseModel, UserCustomResponseError>,
    r2: Result<UserResponseModel, UserCustomResponseError>,
)
    requires
        t1.id@ == t2.id@,
        user_lookup_outcome(t1, requester, target, r1),
        user_lookup_outcome(t2, requester, target, r2),
    ensures
        same_lookup_answer(r1, r2),
{
}

/// The answer to a request to delete the user `target`, made by a user of role
/// `role` whose token carries `requester`: administrators may delete anyone,
/// others only themselves. A product owner naming someone else is answered
/// "bad client data", the other roles "not allowed".
pub open spec fn deletion_decision(role: Role, requester: Seq<char>, target: Seq<char>) -> Result<(), UserCustomResponseError> {
    if role == Role::Admin || requester == target {
        Ok(())
    } else if role == Role::ProductOwner {
        Err(UserCustomResponseError::BadClientData)
    } else {
        Err(UserCustomResponseError::NotAllowed)
    }
}

/// Deleting a user, middle step: whether the requester may delete `target_id`.
pub fn deletion_access(token_id: &str, role: Role, target_id: &str) -> (res: Result<(), UserCustomResponseError>)
    ensures
        res == deletion_decision(role, token_id@, target_id@),
{
    match role {
        Role::Admin => Ok(()),
        Role::Client | Role::Developer => if text_eq(token_id, target_id) {
            Ok(())
        } else {
            Err(UserCustomResponseError::NotAllowed)
        },
        Role::ProductOwner => if text_eq(token_id, target_id) {
            Ok(())
        } else {
            Err(UserCustomResponseError::BadClientData)
        },
    }
}

/// Updating a user's details, middle step: whether the requester may change `target_id`.
pub fn info_update_access(token_id: &str, role: Role, target_id: &str) -> (res: Result<(), UserCustomResponseError>)
    ensures
        if own_or_admin(role, token_id@, target_id@) {
            res == Ok::<(), UserCustomResponseError>(())
        } else {
            res == Err::<(), UserCustomResponseError>(UserCustomResponseError::NotAllowed)
        },
{
    match role {
        Role::Admin => Ok(()),
        _ => if text_eq(token_id, target_id) {
            Ok(())
        } else {
            Err(UserCustomResponseError::NotAllowed)
        },
    }
}

/// Setting a password, first step: any user the header proves may set a
/// password; where the requester cannot be established, the answer is "bad header data".
pub fn password_change_access(requester: Result<UserResponseModel, UserCustomResponseError>) -> (res: Result<(), UserCustomResponseError>)
    ensures
        match requester {
            Ok(_) => res == Ok::<(), UserCustomResponseError>(()),
            Err(_) => res == Err::<(), UserCustomResponseError>(UserCustomResponseError::BadHeaderData),
        },
{
    match requester {
        Ok(_) => Ok(()),
        Err(_) => Err(UserCustomResponseError::BadHeaderData),
    }
}

/// After a mail was sent (or not): the user it was about, or an internal error.
pub fn mail_outcome(sent: bool, user: UserResponseModel) -> (res: Result<UserResponseModel, UserCustomResponseError>)
    ensures
        if sent {
            res == Ok::<UserResponseModel, UserCustomResponseError>(user)
        } else {
            res == Err::<UserResponseModel, UserCustomResponseError>(UserCustomResponseError::InternalError)
        },
{
    if sent {
        Ok(user)
    } else {
        Err(UserCustomResponseError::InternalError)
    }
}

/// Every user may see, change and delete its own record.
pub proof fn lemma_own_record_permitted(role: Role, id: Seq<char>)
    ensures
        own_or_admin(role, id, id),
        deletion_decision(role, id, id) == Ok::<(), UserCustomResponseError>(()),
{
}

/// Only administrators may see, change or delete the record of someone else;
/// every other request is refused.
pub proof fn lemma_others_records_admin_only(role: Role, requester: Seq<char>, target: Seq<char>)
    requires
        requester != target,
    ensures
        own_or_admin(role, requester, target) <==> role == Role::Admin,
        deletion_decision(role, requester, target) is Ok <==> role == Role::Admin,
{
}

/// Administrators and product owners may list users; clients and developers may not.
pub proof fn lemma_user_listing_roles()
    ensures
        user_listing_permitted(Role::Admin),
        user_listing_permitted(Role::ProductOwner),
        !user_listing_permitted(Role::Client),
        !user_listing_permitted(Role::Developer),
{
}

/// Whether two answers to a sign-up or a log-in give the same user and the same token.
pub open spec fn same_auth_answer(a: AuthResponseModel, b: AuthResponseModel) -> bool {
    same_user_answer(a.user, b.user) && a.token@ == b.token@
}

/// A user signs up with a password and logs in with that password and no other.
/// The sign-up stores the password's stored form (`signup_prepare`); the log-in
/// looks the user up by its address and the stored form of the password it is
/// given (`UserLoginModel::hash_password`), which is the stored one exactly when
/// the two passwords are the same. Read back, the same record is answered to the
/// log-in with the same user and the same token as to the sign-up.
pub proof fn lemma_signup_login_roundtrip(
    signed_up: UserModel,
    stored: UserModel,
    given: UserLoginModel,
    looked_up: UserLoginModel,
    record: UserDeserializeModel,
    signup_answer: AuthResponseModel,
    login_answer: AuthResponseModel,
)
    requires
        stored.password@ == hashed_password(signed_up.password@),
        stored.email == signed_up.email,
        given.email == signed_up.email,
        looked_up.password@ == hashed_password(given.password@),
        looked_up.email == given.email,
        is_auth_response(signup_answer, record),
        is_auth_response(login_answer, record),
    ensures
        looked_up.email == stored.email,
        looked_up.password@ == stored.password@ <==> given.password@ == signed_up.password@,
        same_auth_answer(signup_answer, login_answer),
{
    lemma_hashed_password_injective(given.password@, signed_up.password@);
}

} // verus!
