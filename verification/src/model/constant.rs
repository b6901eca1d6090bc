//! Names and values that the application shares.

use vstd::prelude::*;

verus! {

/// The user identifier that stands for "no user".
pub const ID_USER_NONE: i64 = 0;

pub const POSTGRES_URL: &'static str = "postgres://...";

pub const MYSQL_URL: &'static str = "mysql://...";

pub const SQLITE_URL: &'static str = "sqlite://...";

pub const SESSION_NAME: &'static str = "rust-ai-session";

pub const SESSION_KEY: &'static str = "rust-ai-key";

pub const SESSION_COOKIE_NAME: &'static str = "rust-ai-cookie";

pub const SESSION_SECRET: &'static str = "rust-ai-secret";

pub const SESSION_TIMEOUT: usize = 1000;

pub const ERR_PAGE_TEMPLATE: &'static str = "views/error.html";

pub const MAIN_ROUTE: &'static str = "/";

pub const MAIN_TEMPLATE: &'static str = "views/main.html";

pub const ASSET_ROUTE: &'static str = "/assets";

} // verus!
