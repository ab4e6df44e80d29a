//! Response bodies handed back to the transport layer.

use vstd::prelude::*;

use crate::user::FilterUser;

verus! {

/// A plain status-and-message response.
#[derive(Debug)]
pub struct Response {
    pub status: &'static str,
    pub message: String,
}

#[derive(Debug)]
pub struct UserData {
    pub user: FilterUser,
}

#[derive(Debug)]
pub struct UserResponse {
    pub status: String,
    pub data: UserData,
}

#[derive(Debug)]
pub struct UserListResponse {
    pub status: String,
    pub users: Vec<FilterUser>,
    pub results: u64,
}

#[derive(Debug)]
pub struct UserLoginResponse {
    pub status: String,
    pub token: String,
}

} // verus!
