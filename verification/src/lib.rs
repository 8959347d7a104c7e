//! OpenChat server: the request rules of the account and authentication API.
use vstd::prelude::*;

pub mod api_doc;
pub mod auth;
pub mod bearer;
pub mod dto;
pub mod error;
pub mod register;

verus! {
} // verus!
