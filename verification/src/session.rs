//! Sessions: how a request's session cookie identifies a session, what the
//! session's permissions allow, and the cookies that log a browser in and out.

use vstd::prelude::*;
use vstd::string::StringExecFns;

use crate::enums::OperationPermission;
use crate::error::{ServerError, ServerExceptionCode};
use crate::codec::lower_hex;
use crate::migration::texts;
use vstd::arithmetic::power2::pow2;

verus! {

/// The UUID that a text denotes, as `uuid::Uuid::parse_str` reads it (it
/// takes the simple, hyphenated, braced and URN forms; `Uuid::from_str` calls
/// it), as a 128-bit number.
pub uninterp spec fn uuid_from_text(text: Seq<char>) -> Option<u128>;

/// The 16 bytes of a 128-bit number, most significant first.
pub open spec fn u128_bytes(id: u128) -> Seq<u8> {
    Seq::new(16, |i: int| ((id as int / pow2((8 * (15 - i)) as nat) as int) % 256) as u8)
}

/// The hyphenated lower-case text of a UUID given as a 128-bit number: its 16
/// bytes in hexadecimal, in groups of 4, 2, 2, 2 and 6 bytes joined by `-`.
pub open spec fn uuid_text(id: u128) -> Seq<char> {
    let b = u128_bytes(id);
    lower_hex(b.subrange(0, 4)) + "-"@ + lower_hex(b.subrange(4, 6)) + "-"@ + lower_hex(
        b.subrange(6, 8),
    ) + "-"@ + lower_hex(b.subrange(8, 10)) + "-"@ + lower_hex(b.subrange(10, 16))
}

/// Calls `uuid::Uuid::parse_str` and returns the UUID as a 128-bit number.
#[verifier::external_body]
pub(crate) fn parse_uuid(text: &str) -> (res: Option<u128>)
    ensures
        res == uuid_from_text(text@),
{
    match uuid::Uuid::parse_str(text) {
        Ok(id) => Some(id.as_u128()),
        Err(_) => None,
    }
}

/// Calls `uuid::Uuid::from_u128`, which takes the number's bytes most
/// significant first, and displays the UUID in its hyphenated lower-case
/// form.  The contract states that text, that it has 36 characters, and that
/// `Uuid::parse_str` reads it back as the same UUID.
#[verifier::external_body]
fn format_uuid(id: u128) -> (res: String)
    ensures
        res@ == uuid_text(id),
        res@.len() == 36,
        uuid_from_text(res@) == Some(id),
{
    uuid::Uuid::from_u128(id).to_string()
}

/// The name of the cookie that carries the session id.
pub open spec fn session_id_key() -> Seq<char> {
    "id"@
}

/// The name of the cookie that carries the session id.
pub const SESSION_ID_KEY: &'static str = "id";

/// Why a request was refused before its handler ran.
#[derive(Debug, Clone, Copy, PartialEq, Eq, Structural)]
pub enum AuthRejection {
    /// No valid session: answered with 401 and `Unauthorized`.
    Unauthorized,
}

impl AuthRejection {
    /// The HTTP status of the rejection.
    pub fn status(&self) -> (res: u16)
        ensures
            res == 401,
    {
        401
    }

    /// The body of the rejection.
    pub fn message(&self) -> (res: String)
        ensures
            res@ == "Unauthorized"@,
    {
        "Unauthorized".to_owned()
    }
}

/// The session that a session cookie's value names, if it names one.
pub open spec fn spec_session_id_from_cookie(cookie: Option<Seq<char>>) -> Result<u128, AuthRejection> {
    match cookie {
        None => Err(AuthRejection::Unauthorized),
        Some(value) => match uuid_from_text(value) {
            Some(id) => Ok(id),
            None => Err(AuthRejection::Unauthorized),
        },
    }
}

/// The session id in the value of the session cookie: refused when the
/// cookie is missing or its value is not a UUID.
pub fn session_id_from_cookie(cookie: Option<&str>) -> (res: Result<u128, AuthRejection>)
    ensures
        res == spec_session_id_from_cookie(
            match cookie {
                Some(c) => Some(c@),
                None => None,
            },
        ),
{
    match cookie {
        None => Err(AuthRejection::Unauthorized),
        Some(value) => match parse_uuid(value) {
            Some(id) => Ok(id),
            None => Err(AuthRejection::Unauthorized),
        },
    }
}

/// What a session token stores: its user and the codes of the user's
/// permissions.
#[derive(Debug)]
pub struct SessionTokenPayload {
    /// The user's id.
    pub user_id: u128,
    /// The codes of the permissions that the user had at login.
    pub permissions: Vec<String>,
}

/// The authenticated session of a request.
#[derive(Debug)]
pub struct Session {
    /// The session's id, which is the id of its token.
    pub session_id: u128,
    /// What the session's token stores.
    pub payload: SessionTokenPayload,
}

/// The session of a request once its token has been looked up: refused when
/// no token has the id.
pub fn session_from_token(session_id: u128, token: Option<SessionTokenPayload>) -> (res: Result<Session, AuthRejection>)
    ensures
        match token {
            None => res is Err,
            Some(payload) => res matches Ok(s) && s.session_id == session_id && s.payload == payload,
        },
{
    match token {
        None => Err(AuthRejection::Unauthorized),
        Some(payload) => Ok(Session { session_id, payload }),
    }
}

/// Whether the codes contain the code.
fn codes_contain(codes: &Vec<String>, code: &str) -> (res: bool)
    ensures
        res == texts(codes@).contains(code@),
{
    let wanted = code.to_owned();
    let mut i: usize = 0;
    while i < codes.len()
        invariant
            i <= codes@.len(),
            wanted@ == code@,
            forall|j: int| 0 <= j < i ==> #[trigger] codes@[j]@ != code@,
        decreases codes@.len() - i,
    {
        if codes[i] == wanted {
            assert(texts(codes@)[i as int] == code@);
            return true;
        }
        i = i + 1;
    }
    assert forall|j: int| 0 <= j < texts(codes@).len() implies #[trigger] texts(codes@)[j] != code@ by {
        assert(texts(codes@)[j] == codes@[j]@);
    }
    false
}

impl Session {
    /// The codes of the session's permissions.
    pub open spec fn spec_permissions(&self) -> Seq<Seq<char>> {
        texts(self.payload.permissions@)
    }

    /// Whether the session has the permission with the code.
    pub open spec fn spec_has(&self, code: Seq<char>) -> bool {
        self.spec_permissions().contains(code)
    }

    /// Whether the session has the permission with the code.
    pub fn has_permission(&self, permission_code: &str) -> (res: bool)
        ensures
            res == self.spec_has(permission_code@),
    {
        codes_contain(&self.payload.permissions, permission_code)
    }

    /// Refuses with `Forbidden` unless the session has the permission.
    pub fn assert_has_permission(&self, permission_code: &str) -> (res: Result<(), ServerError>)
        ensures
            res is Ok <==> self.spec_has(permission_code@),
            res matches Err(e) ==> e matches ServerError::Exception(x) && x.spec_code()
                == ServerExceptionCode::Forbidden,
    {
        if !self.has_permission(permission_code) {
            return Err(ServerError::from_code(ServerExceptionCode::Forbidden));
        }
        Ok(())
    }

    /// Whether the session has the permission for the operation.
    pub fn has_operation_permission(&self, operation: OperationPermission) -> (res: bool)
        ensures
            res == self.spec_has(operation.spec_text()),
    {
        let code = operation.to_text();
        self.has_permission(code.as_str())
    }

    /// Refuses with `Forbidden` unless the session has the permission for
    /// the operation.
    pub fn assert_has_operation_permission(&self, operation: OperationPermission) -> (res: Result<(), ServerError>)
        ensures
            res is Ok <==> self.spec_has(operation.spec_text()),
            res matches Err(e) ==> e matches ServerError::Exception(x) && x.spec_code()
                == ServerExceptionCode::Forbidden,
    {
        let code = operation.to_text();
        self.assert_has_permission(code.as_str())
    }

    /// Whether the session has at least one of the permissions.
    pub fn has_any_permissions(&self, permission_codes: &Vec<String>) -> (res: bool)
        ensures
            res == exists|i: int|
                0 <= i < permission_codes@.len() && self.spec_has(#[trigger] permission_codes@[i]@),
    {
        let mut i: usize = 0;
        while i < permission_codes.len()
            invariant
                i <= permission_codes@.len(),
                forall|j: int| 0 <= j < i ==> !self.spec_has(#[trigger] permission_codes@[j]@),
            decreases permission_codes@.len() - i,
        {
            if self.has_permission(permission_codes[i].as_str()) {
                return true;
            }
            i = i + 1;
        }
        false
    }

    /// Refuses with `Forbidden` unless the session has at least one of the
    /// permissions.
    pub fn assert_has_any_permissions(&self, permission_codes: &Vec<String>) -> (res: Result<(), ServerError>)
        ensures
            res is Ok <==> exists|i: int|
                0 <= i < permission_codes@.len() && self.spec_has(#[trigger] permission_codes@[i]@),
            res matches Err(e) ==> e matches ServerError::Exception(x) && x.spec_code()
                == ServerExceptionCode::Forbidden,
    {
        if !self.has_any_permissions(permission_codes) {
            return Err(ServerError::from_code(ServerExceptionCode::Forbidden));
        }
        Ok(())
    }

    /// Whether the session has every one of the permissions.
    pub fn has_all_permissions(&self, permission_codes: &Vec<String>) -> (res: bool)
        ensures
            res == forall|i: int|
                0 <= i < permission_codes@.len() ==> self.spec_has(#[trigger] permission_codes@[i]@),
    {
        let mut i: usize = 0;
        while i < permission_codes.len()
            invariant
                i <= permission_codes@.len(),
                forall|j: int| 0 <= j < i ==> self.spec_has(#[trigger] permission_codes@[j]@),
            decreases permission_codes@.len() - i,
        {
            if !self.has_permission(permission_codes[i].as_str()) {
                return false;
            }
            i = i + 1;
        }
        true
    }

    /// Refuses with `Forbidden` unless the session has every one of the
    /// permissions.
    pub fn assert_has_all_permissions(&self, permission_codes: &Vec<String>) -> (res: Result<(), ServerError>)
        ensures
            res is Ok <==> forall|i: int|
                0 <= i < permission_codes@.len() ==> self.spec_has(#[trigger] permission_codes@[i]@),
            res matches Err(e) ==> e matches ServerError::Exception(x) && x.spec_code()
                == ServerExceptionCode::Forbidden,
    {
        if !self.has_all_permissions(permission_codes) {
            return Err(ServerError::from_code(ServerExceptionCode::Forbidden));
        }
        Ok(())
    }
}

/// A cookie that the service sets.
#[derive(Debug)]
pub struct SessionCookie {
    /// The cookie's name.
    pub name: String,
    /// The cookie's value.
    pub value: String,
    /// The path that the cookie is sent for.
    pub path: String,
    /// Whether scripts are denied the cookie.
    pub http_only: bool,
    /// How long the cookie lives, in seconds, when that is set.
    pub max_age_seconds: Option<i64>,
}

/// The cookie that carries a new session after a login or a registration:
/// `id=<token id>`, path `/`, HTTP only.  Its value names the session.
pub fn login_cookie(auth_token_id: u128) -> (res: SessionCookie)
    ensures
        res.name@ == session_id_key(),
        res.value@ == uuid_text(auth_token_id),
        res.path@ == "/"@,
        res.http_only,
        res.max_age_seconds is None,
        spec_session_id_from_cookie(Some(res.value@)) == Ok::<u128, AuthRejection>(auth_token_id),
{
    SessionCookie {
        name: "id".to_owned(),
        value: format_uuid(auth_token_id),
        path: "/".to_owned(),
        http_only: true,
        max_age_seconds: None,
    }
}

/// The cookie that ends a session in the browser: an empty `id` that
/// expires at once, path `/`, HTTP only.
pub fn logout_cookie() -> (res: SessionCookie)
    ensures
        res.name@ == session_id_key(),
        res.value@ == Seq::<char>::empty(),
        res.path@ == "/"@,
        res.http_only,
        res.max_age_seconds == Some(0i64),
{
    SessionCookie {
        name: "id".to_owned(),
        value: String::new(),
        path: "/".to_owned(),
        http_only: true,
        max_age_seconds: Some(0),
    }
}

/// What a request to delete a session comes to.
#[derive(Debug, Clone, Copy, PartialEq, Eq, Structural)]
pub enum SessionDeletion {
    /// No such session: nothing is done and the answer is `null`.
    NothingToDelete,
    /// The session belongs to the requesting user and is deleted.
    Delete,
    /// The session belongs to another user: refused with `Forbidden`.
    Forbidden,
}

/// Decides a request to delete a session: a user may delete only their own
/// sessions.
pub fn delete_session_decision(requesting_user_id: u128, target_owner: Option<u128>) -> (res: SessionDeletion)
    ensures
        res == (match target_owner {
            None => SessionDeletion::NothingToDelete,
            Some(owner) => if owner == requesting_user_id {
                SessionDeletion::Delete
            } else {
                SessionDeletion::Forbidden
            },
        }),
{
    match target_owner {
        None => SessionDeletion::NothingToDelete,
        Some(owner) => if owner == requesting_user_id {
            SessionDeletion::Delete
        } else {
            SessionDeletion::Forbidden
        },
    }
}

} // verus!
