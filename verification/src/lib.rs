//! Verified core of a small set of HTTP services: customer records stored as
//! key/value items, user registration and login with hashed passwords and
//! signed tokens, and role-based access to user details.

use vstd::prelude::*;

pub mod text;
pub mod reply;
pub mod store;
pub mod customer;
pub mod role;
pub mod credentials;
pub mod token;
pub mod account;

verus! {
} // verus!
