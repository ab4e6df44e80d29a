//! Request bodies and their validation rules.
//!
//! The rules mirror what the transport layer promises its callers: required
//! fields, minimum password length, matching confirmation, and the HTML5
//! email check (delegated to the validator crate).

use vstd::prelude::*;
use vstd::string::StrSliceExecFns;

use crate::errors::{HttpError, STATUS_BAD_REQUEST};

verus! {

#[derive(Debug)]
pub struct RegisterUser {
    pub name: String,
    pub email: String,
    pub password: String,
    pub confirm_password: String,
}

#[derive(Debug)]
pub struct LoginUser {
    pub email: String,
    pub password: String,
}

#[derive(Debug)]
pub struct RequestQuery {
    pub page: Option<usize>,
    pub limit: Option<usize>,
}

#[derive(Debug)]
pub struct NameUpdate {
    pub name: String,
}

#[derive(Debug)]
pub struct RoleUpdate {
    pub role: crate::user::UserRole,
}

#[derive(Debug)]
pub struct UserPasswordUpdate {
    pub new_password: String,
    pub new_password_confirm: String,
    pub old_password: String,
}

#[derive(Debug)]
pub struct VerifyEmailQuery {
    pub token: String,
}

#[derive(Debug)]
pub struct ForgotPasswordRequest {
    pub email: String,
}

#[derive(Debug)]
pub struct ResetPasswordRequest {
    pub token: String,
    pub new_password: String,
    pub new_password_confirm: String,
}

/// Whether the validator crate's HTML5 email check accepts the string: a
/// function of the string alone.
pub uninterp spec fn is_valid_email(s: Seq<char>) -> bool;

/// Relies on validator::ValidateEmail::validate_email for `&str`: the
/// outcome is a function of the string alone, and the empty string is
/// rejected.
#[verifier::external_body]
fn check_email(s: &str) -> (r: bool)
    ensures
        r == is_valid_email(s@),
        s@.len() == 0 ==> r == false,
{
    validator::ValidateEmail::validate_email(&s)
}

/// An acceptable registration: every field present, a valid email, the
/// password at least six characters and equal to its confirmation.
pub open spec fn register_valid(r: &RegisterUser) -> bool {
    &&& r.name@.len() >= 1
    &&& r.email@.len() >= 1
    &&& is_valid_email(r.email@)
    &&& r.password@.len() >= 6
    &&& r.confirm_password@.len() >= 6
    &&& r.confirm_password@ == r.password@
}

pub open spec fn login_valid(r: &LoginUser) -> bool {
    &&& r.email@.len() >= 1
    &&& is_valid_email(r.email@)
    &&& r.password@.len() >= 6
}

pub open spec fn request_query_valid(r: &RequestQuery) -> bool {
    &&& (r.page matches Some(p) ==> p >= 1)
    &&& (r.limit matches Some(l) ==> 1 <= l <= 50)
}

pub open spec fn name_update_valid(r: &NameUpdate) -> bool {
    r.name@.len() >= 1
}

pub open spec fn password_update_valid(r: &UserPasswordUpdate) -> bool {
    &&& r.new_password@.len() >= 6
    &&& r.new_password_confirm@.len() >= 6
    &&& r.new_password_confirm@ == r.new_password@
    &&& r.old_password@.len() >= 6
}

pub open spec fn verify_email_query_valid(r: &VerifyEmailQuery) -> bool {
    r.token@.len() >= 1
}

pub open spec fn forgot_password_valid(r: &ForgotPasswordRequest) -> bool {
    &&& r.email@.len() >= 1
    &&& is_valid_email(r.email@)
}

pub open spec fn reset_password_valid(r: &ResetPasswordRequest) -> bool {
    &&& r.token@.len() >= 1
    &&& r.new_password@.len() >= 6
    &&& r.new_password_confirm@.len() >= 6
    &&& r.new_password_confirm@ == r.new_password@
}

impl RegisterUser {
    pub fn validate(&self) -> (r: Result<(), HttpError>)
        ensures
            r is Ok <==> register_valid(self),
            r matches Err(e) ==> e.status == STATUS_BAD_REQUEST,
            self.name@.len() < 1 ==> (r matches Err(e) && e.message@ == "Name is required"@),
            self.name@.len() >= 1 && self.email@.len() < 1 ==> (r matches Err(e) && e.message@
                == "Email is required"@),
            self.name@.len() >= 1 && self.email@.len() >= 1 && !is_valid_email(self.email@) ==> (r
                matches Err(e) && e.message@ == "Email is invalid"@),
            self.name@.len() >= 1 && self.email@.len() >= 1 && is_valid_email(self.email@)
                && self.password@.len() < 6 ==> (r matches Err(e) && e.message@
                == "Password must be at least 6 characters"@),
            self.name@.len() >= 1 && self.email@.len() >= 1 && is_valid_email(self.email@)
                && self.password@.len() >= 6 && self.confirm_password@.len() < 6 ==> (r matches
                Err(e) && e.message@ == "Password must be at least 6 characters"@),
            self.name@.len() >= 1 && self.email@.len() >= 1 && is_valid_email(self.email@)
                && self.password@.len() >= 6 && self.confirm_password@.len() >= 6
                && self.confirm_password@ != self.password@ ==> (r matches Err(e) && e.message@
                == "Password don't match"@),
    {
        if self.name.as_str().unicode_len() < 1 {
            return Err(HttpError::bad_request("Name is required".to_owned()));
        }
        if self.email.as_str().unicode_len() < 1 {
            return Err(HttpError::bad_request("Email is required".to_owned()));
        }
        if !check_email(self.email.as_str()) {
            return Err(HttpError::bad_request("Email is invalid".to_owned()));
        }
        if self.password.as_str().unicode_len() < 6 {
            return Err(
                HttpError::bad_request("Password must be at least 6 characters".to_owned()),
            );
        }
        if self.confirm_password.as_str().unicode_len() < 6 {
            return Err(
                HttpError::bad_request("Password must be at least 6 characters".to_owned()),
            );
        }
        if !(self.confirm_password == self.password) {
            return Err(HttpError::bad_request("Password don't match".to_owned()));
        }
        Ok(())
    }
}

impl LoginUser {
    pub fn validate(&self) -> (r: Result<(), HttpError>)
        ensures
            r is Ok <==> login_valid(self),
            r matches Err(e) ==> e.status == STATUS_BAD_REQUEST,
            self.email@.len() < 1 ==> (r matches Err(e) && e.message@ == "Email is required"@),
            self.email@.len() >= 1 && !is_valid_email(self.email@) ==> (r matches Err(e)
                && e.message@ == "Email is invalid"@),
            self.email@.len() >= 1 && is_valid_email(self.email@) && self.password@.len() < 6 ==> (
            r matches Err(e) && e.message@ == "Password must be at least 6 characters"@),
    {
        if self.email.as_str().unicode_len() < 1 {
            return Err(HttpError::bad_request("Email is required".to_owned()));
        }
        if !check_email(self.email.as_str()) {
            return Err(HttpError::bad_request("Email is invalid".to_owned()));
        }
        if self.password.as_str().unicode_len() < 6 {
            return Err(
                HttpError::bad_request("Password must be at least 6 characters".to_owned()),
            );
        }
        Ok(())
    }
}

impl RequestQuery {
    pub fn validate(&self) -> (r: Result<(), HttpError>)
        ensures
            r is Ok <==> request_query_valid(self),
            r matches Err(e) ==> e.status == STATUS_BAD_REQUEST && e.message@
                == "Validation failed"@,
    {
        match self.page {
            Some(p) => {
                if p < 1 {
                    return Err(HttpError::bad_request("Validation failed".to_owned()));
                }
            },
            None => {},
        }
        match self.limit {
            Some(l) => {
                if l < 1 || l > 50 {
                    return Err(HttpError::bad_request("Validation failed".to_owned()));
                }
            },
            None => {},
        }
        Ok(())
    }
}

impl NameUpdate {
    pub fn validate(&self) -> (r: Result<(), HttpError>)
        ensures
            r is Ok <==> name_update_valid(self),
            r matches Err(e) ==> e.status == STATUS_BAD_REQUEST && e.message@
                == "name is required"@,
    {
        if self.name.as_str().unicode_len() < 1 {
            return Err(HttpError::bad_request("name is required".to_owned()));
        }
        Ok(())
    }
}

impl UserPasswordUpdate {
    pub fn validate(&self) -> (r: Result<(), HttpError>)
        ensures
            r is Ok <==> password_update_valid(self),
            r matches Err(e) ==> e.status == STATUS_BAD_REQUEST,
            self.new_password@.len() < 6 ==> (r matches Err(e) && e.message@
                == "New password must be at least 6 characters"@),
            self.new_password@.len() >= 6 && self.new_password_confirm@.len() < 6 ==> (r matches
                Err(e) && e.message@ == "New password confirm must be at least 6 characters"@),
            self.new_password@.len() >= 6 && self.new_password_confirm@.len() >= 6
                && self.new_password_confirm@ != self.new_password@ ==> (r matches Err(e)
                && e.message@ == "New passwords do not match!"@),
            self.new_password@.len() >= 6 && self.new_password_confirm@.len() >= 6
                && self.new_password_confirm@ == self.new_password@ && self.old_password@.len() < 6
                ==> (r matches Err(e) && e.message@
                == "Old password must be at least 6 characters"@),
    {
        if self.new_password.as_str().unicode_len() < 6 {
            return Err(
                HttpError::bad_request("New password must be at least 6 characters".to_owned()),
            );
        }
        if self.new_password_confirm.as_str().unicode_len() < 6 {
            return Err(
                HttpError::bad_request(
                    "New password confirm must be at least 6 characters".to_owned(),
                ),
            );
        }
        if !(self.new_password_confirm == self.new_password) {
            return Err(HttpError::bad_request("New passwords do not match!".to_owned()));
        }
        if self.old_password.as_str().unicode_len() < 6 {
            return Err(
                HttpError::bad_request("Old password must be at least 6 characters".to_owned()),
            );
        }
        Ok(())
    }
}

impl VerifyEmailQuery {
    pub fn validate(&self) -> (r: Result<(), HttpError>)
        ensures
            r is Ok <==> verify_email_query_valid(self),
            r matches Err(e) ==> e.status == STATUS_BAD_REQUEST && e.message@
                == "Token is required"@,
    {
        if self.token.as_str().unicode_len() < 1 {
            return Err(HttpError::bad_request("Token is required".to_owned()));
        }
        Ok(())
    }
}

impl ForgotPasswordRequest {
    pub fn validate(&self) -> (r: Result<(), HttpError>)
        ensures
            r is Ok <==> forgot_password_valid(self),
            r matches Err(e) ==> e.status == STATUS_BAD_REQUEST,
            self.email@.len() < 1 ==> (r matches Err(e) && e.message@ == "Email is required"@),
            self.email@.len() >= 1 && !is_valid_email(self.email@) ==> (r matches Err(e)
                && e.message@ == "Email is invalid"@),
    {
        if self.email.as_str().unicode_len() < 1 {
            return Err(HttpError::bad_request("Email is required".to_owned()));
        }
        if !check_email(self.email.as_str()) {
            return Err(HttpError::bad_request("Email is invalid".to_owned()));
        }
        Ok(())
    }
}

impl ResetPasswordRequest {
    pub fn validate(&self) -> (r: Result<(), HttpError>)
        ensures
            r is Ok <==> reset_password_valid(self),
            r matches Err(e) ==> e.status == STATUS_BAD_REQUEST,
            self.token@.len() < 1 ==> (r matches Err(e) && e.message@ == "Token is required"@),
            self.token@.len() >= 1 && self.new_password@.len() < 6 ==> (r matches Err(e)
                && e.message@ == "New password must be at least 6 characters"@),
            self.token@.len() >= 1 && self.new_password@.len() >= 6
                && self.new_password_confirm@.len() < 6 ==> (r matches Err(e) && e.message@
                == "New password confirm must be at least 6 characters"@),
            self.token@.len() >= 1 && self.new_password@.len() >= 6
                && self.new_password_confirm@.len() >= 6 && self.new_password_confirm@
                != self.new_password@ ==> (r matches Err(e) && e.message@
                == "New passwords do not match!"@),
    {
        if self.token.as_str().unicode_len() < 1 {
            return Err(HttpError::bad_request("Token is required".to_owned()));
        }
        if self.new_password.as_str().unicode_len() < 6 {
            return Err(
                HttpError::bad_request("New password must be at least 6 characters".to_owned()),
            );
        }
        if self.new_password_confirm.as_str().unicode_len() < 6 {
            return Err(
                HttpError::bad_request(
                    "New password confirm must be at least 6 characters".to_owned(),
                ),
            );
        }
        if !(self.new_password_confirm == self.new_password) {
            return Err(HttpError::bad_request("New passwords do not match!".to_owned()));
        }
        Ok(())
    }
}

} // verus!
