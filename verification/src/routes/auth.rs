//! Registration and login: the request bodies, how a handler prepares them
//! for the authentication service, and what a successful login answers.

use vstd::prelude::*;

use crate::error::ServerError;
use crate::extractors::Helper;
use crate::session::{
    login_cookie, session_id_key, spec_session_id_from_cookie, uuid_text, AuthRejection, SessionCookie,
};

verus! {

/// The body of a registration; the password is RSA-encrypted and
/// base64-encoded.
#[derive(Debug)]
pub struct RegisterRequestDto {
    /// The account name.
    pub account: String,
    /// The encrypted password.
    pub password: String,
    /// The client's IP address, if it sent one.
    pub ip: Option<String>,
    /// The client's platform, if it sent one.
    pub platform: Option<String>,
    /// The client's user agent, which the handler fills in.
    pub agent: Option<String>,
}

/// What the authentication service registers.
#[derive(Debug)]
pub struct RegisterParams {
    /// The account name.
    pub account: String,
    /// The password in clear.
    pub password: String,
    /// The client's IP address, if it sent one.
    pub ip: Option<String>,
    /// The client's platform, if it sent one.
    pub platform: Option<String>,
    /// The client's user agent.
    pub agent: Option<String>,
}

/// The body of a login; the password is RSA-encrypted and base64-encoded.
#[derive(Debug)]
pub struct LoginRequestDto {
    /// The account name.
    pub account: String,
    /// The encrypted password.
    pub password: String,
    /// The client's IP address, if it sent one.
    pub ip: Option<String>,
    /// The client's platform, if it sent one.
    pub platform: Option<String>,
    /// The client's user agent, which the handler fills in.
    pub agent: Option<String>,
}

/// What the authentication service logs in with.
#[derive(Debug)]
pub struct LoginParams {
    /// The account name.
    pub account: String,
    /// The password in clear.
    pub password: String,
    /// The client's IP address, if it sent one.
    pub ip: Option<String>,
    /// The client's platform, if it sent one.
    pub platform: Option<String>,
    /// The client's user agent.
    pub agent: Option<String>,
}

impl RegisterRequestDto {
    /// The parameters for the service, field by field.
    pub fn into_params(self) -> (res: RegisterParams)
        ensures
            res.account == self.account,
            res.password == self.password,
            res.ip == self.ip,
            res.platform == self.platform,
            res.agent == self.agent,
    {
        RegisterParams {
            account: self.account,
            password: self.password,
            ip: self.ip,
            platform: self.platform,
            agent: self.agent,
        }
    }

    /// What the registration handler hands the service: the request with the
    /// client's user agent and the password decrypted with the server's key.
    /// A password that is not base64 or does not decrypt to text is refused.
    pub fn prepare(self, user_agent: &str, helper: &Helper) -> (res: Result<RegisterParams, ServerError>)
        ensures
            match helper.spec_decrypt(self.password@) {
                Ok(t) => res matches Ok(p) && p.password@ == t && p.account == self.account && p.ip
                    == self.ip && p.platform == self.platform && (p.agent matches Some(a) && a@
                    == user_agent@),
                Err(m) => res matches Err(ServerError::Anyhow(t)) && t@ == m,
            },
    {
        let password = match helper.decrypt_rsa(self.password.as_str()) {
            Ok(p) => p,
            Err(e) => return Err(e),
        };
        Ok(
            RegisterParams {
                account: self.account,
                password,
                ip: self.ip,
                platform: self.platform,
                agent: Some(user_agent.to_owned()),
            },
        )
    }
}

impl LoginRequestDto {
    /// The parameters for the service, field by field.
    pub fn into_params(self) -> (res: LoginParams)
        ensures
            res.account == self.account,
            res.password == self.password,
            res.ip == self.ip,
            res.platform == self.platform,
            res.agent == self.agent,
    {
        LoginParams {
            account: self.account,
            password: self.password,
            ip: self.ip,
            platform: self.platform,
            agent: self.agent,
        }
    }

    /// What the login handler hands the service: the request with the
    /// client's user agent and the password decrypted with the server's key.
    /// A password that is not base64 or does not decrypt to text is refused.
    pub fn prepare(self, user_agent: &str, helper: &Helper) -> (res: Result<LoginParams, ServerError>)
        ensures
            match helper.spec_decrypt(self.password@) {
                Ok(t) => res matches Ok(p) && p.password@ == t && p.account == self.account && p.ip
                    == self.ip && p.platform == self.platform && (p.agent matches Some(a) && a@
                    == user_agent@),
                Err(m) => res matches Err(ServerError::Anyhow(t)) && t@ == m,
            },
    {
        let password = match helper.decrypt_rsa(self.password.as_str()) {
            Ok(p) => p,
            Err(e) => return Err(e),
        };
        Ok(
            LoginParams {
                account: self.account,
                password,
                ip: self.ip,
                platform: self.platform,
                agent: Some(user_agent.to_owned()),
            },
        )
    }
}

/// The answer to a successful registration or login.
#[derive(Debug)]
pub struct LoginResponseDto {
    /// The user's id.
    pub user_id: u128,
    /// The account name.
    pub account: String,
}

/// What a successful registration or login answers: the session cookie of
/// the new token, which names that session, and the user.
pub fn login_response(auth_token_id: u128, user_id: u128, account: String) -> (res: (SessionCookie, LoginResponseDto))
    ensures
        res.0.name@ == session_id_key(),
        res.0.value@ == uuid_text(auth_token_id),
        spec_session_id_from_cookie(Some(res.0.value@)) == Ok::<u128, AuthRejection>(auth_token_id),
        res.0.path@ == "/"@,
        res.0.http_only,
        res.0.max_age_seconds is None,
        res.1.user_id == user_id,
        res.1.account == account,
{
    (login_cookie(auth_token_id), LoginResponseDto { user_id, account })
}

/// The body of a request to give a user permissions.
#[derive(Debug)]
pub struct AssignUserPermissionsDto {
    /// The user's id.
    pub user_id: u128,
    /// The ids of the permissions.
    pub permission_id_list: Vec<u128>,
}

/// What the authentication service grants.
#[derive(Debug)]
pub struct AssignUserPermissionsParams {
    /// The ids of the permissions.
    pub permission_id_list: Vec<u128>,
    /// The user's id.
    pub user_id: u128,
}

impl AssignUserPermissionsDto {
    /// The parameters for the service, field by field.
    pub fn into_params(self) -> (res: AssignUserPermissionsParams)
        ensures
            res.permission_id_list == self.permission_id_list,
            res.user_id == self.user_id,
    {
        AssignUserPermissionsParams {
            permission_id_list: self.permission_id_list,
            user_id: self.user_id,
        }
    }
}

} // verus!
