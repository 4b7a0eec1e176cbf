//! Verified core of a desktop API-testing tool: the rules by which it finds
//! the `gcloud` tool, reads its answers, caches identity tokens, plans HTTP
//! requests, reads their responses, and shapes records for PostgreSQL.

pub mod decoding;
pub mod gcloud;
pub mod http;
pub mod json;
pub mod postgres;
pub mod text;
pub mod token_cache;
pub mod window;

use vstd::prelude::*;

verus! {

/// The settings file that holds the application's data and the token cache.
pub const APP_DATA_FILE: &'static str = "app-data.json";

/// The file, relative to the application's directory, that names its version.
pub const PACKAGE_FILE: &'static str = "../package.json";

/// The greeting for `name`.
pub open spec fn greeting_spec(name: Seq<char>) -> Seq<char> {
    "Hello, "@ + name + "! You've been greeted from Rust!"@
}

/// Greets `name`.
pub fn greet(name: &str) -> (r: String)
    ensures
        r@ == greeting_spec(name@),
{
    let mut r = String::from_str("Hello, ");
    r.append(name);
    r.append("! You've been greeted from Rust!");
    r
}

} // verus!
