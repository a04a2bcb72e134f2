//! Routing: which handler a request's method and path select.

use vstd::prelude::*;
use vstd::string::StrSliceExecFns;
use crate::strutil::{str_eq_str, str_has_prefix};

verus! {

/// The handler a request is dispatched to.
#[derive(Clone, Copy, Debug, PartialEq, Eq, Structural)]
pub enum Route {
    Index,
    Account,
    Login,
    Logout,
    StaticAsset,
    NotFound,
}

/// A path selects the static-asset handler when it begins with the
/// mount prefix `/static/`, or is the mount point `/static` itself,
/// which names the root of the asset directory.
pub open spec fn is_static_path(path: Seq<char>) -> bool {
    path == "/static"@ || (path.len() >= 8 && path.subrange(0, 8) == "/static/"@)
}

/// The part of a static-asset path below the mount prefix; the mount
/// point itself names the empty sub-path, the asset root.
pub open spec fn static_sub(path: Seq<char>) -> Seq<char> {
    if path == "/static"@ {
        Seq::empty()
    } else {
        path.subrange(8, path.len() as int)
    }
}

/// The route selected by a request: the four fixed pages answer `GET` on
/// their exact path, `/static/...` goes to the asset handler, and
/// everything else is unmatched.
pub open spec fn route_spec(method: Seq<char>, path: Seq<char>) -> Route {
    if method != "GET"@ {
        Route::NotFound
    } else if path == "/"@ {
        Route::Index
    } else if path == "/account"@ {
        Route::Account
    } else if path == "/login"@ {
        Route::Login
    } else if path == "/logout"@ {
        Route::Logout
    } else if is_static_path(path) {
        Route::StaticAsset
    } else {
        Route::NotFound
    }
}

/// Select the route for a request.
pub fn route_of(method: &str, path: &str) -> (r: Route)
    ensures
        r == route_spec(method@, path@),
{
    proof {
        reveal_strlit("/static/");
        reveal_strlit("/static");
    }
    if !str_eq_str(method, "GET") {
        Route::NotFound
    } else if str_eq_str(path, "/") {
        Route::Index
    } else if str_eq_str(path, "/account") {
        Route::Account
    } else if str_eq_str(path, "/login") {
        Route::Login
    } else if str_eq_str(path, "/logout") {
        Route::Logout
    } else if str_eq_str(path, "/static") || str_has_prefix(path, "/static/") {
        Route::StaticAsset
    } else {
        Route::NotFound
    }
}

/// For a path under the static mount prefix, the part below the prefix;
/// `None` for any other path.
pub fn static_subpath(path: &str) -> (r: Option<String>)
    ensures
        match r {
            Some(s) => is_static_path(path@) && s@ == static_sub(path@),
            None => !is_static_path(path@),
        },
{
    proof {
        reveal_strlit("/static/");
        reveal_strlit("/static");
        reveal_strlit("");
    }
    if str_eq_str(path, "/static") {
        Some(String::new())
    } else if str_has_prefix(path, "/static/") {
        let n = path.unicode_len();
        let rest = path.substring_char(8, n);
        Some(rest.to_owned())
    } else {
        None
    }
}

} // verus!
