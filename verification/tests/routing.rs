use site_skeleton::router::{route_of, static_subpath, Route};
use site_skeleton::statics::is_safe_subpath;

#[test]
fn get_index_route() {
    assert_eq!(route_of("GET", "/"), Route::Index);
}

#[test]
fn get_account_route() {
    assert_eq!(route_of("GET", "/account"), Route::Account);
}

#[test]
fn get_login_route() {
    assert_eq!(route_of("GET", "/login"), Route::Login);
}

#[test]
fn get_logout_route() {
    assert_eq!(route_of("GET", "/logout"), Route::Logout);
}

#[test]
fn static_prefix_routes_to_assets() {
    assert_eq!(route_of("GET", "/static/x.txt"), Route::StaticAsset);
    assert_eq!(route_of("GET", "/static/css/site.css"), Route::StaticAsset);
}

#[test]
fn static_mount_point_routes_to_assets() {
    assert_eq!(route_of("GET", "/static"), Route::StaticAsset);
    assert_eq!(static_subpath("/static"), Some("".to_owned()));
}

#[test]
fn unknown_path_is_not_found() {
    assert_eq!(route_of("GET", "/nope"), Route::NotFound);
    assert_eq!(route_of("GET", ""), Route::NotFound);
    assert_eq!(route_of("GET", "/staticx"), Route::NotFound);
}

#[test]
fn non_get_is_not_found() {
    assert_eq!(route_of("POST", "/"), Route::NotFound);
    assert_eq!(route_of("PUT", "/logout"), Route::NotFound);
}

#[test]
fn static_subpath_strips_the_mount_prefix() {
    assert_eq!(static_subpath("/static/x.txt"), Some("x.txt".to_owned()));
    assert_eq!(static_subpath("/static/a/b.txt"), Some("a/b.txt".to_owned()));
    assert_eq!(static_subpath("/static/"), Some("".to_owned()));
}

#[test]
fn static_subpath_rejects_other_paths() {
    assert_eq!(static_subpath("/account"), None);
    assert_eq!(static_subpath("/staticx"), None);
    assert_eq!(static_subpath("/stati"), None);
}

#[test]
fn safe_subpaths_are_accepted() {
    assert!(is_safe_subpath("x.txt"));
    assert!(is_safe_subpath("a/b.txt"));
    assert!(is_safe_subpath("a..b"));
    assert!(is_safe_subpath("..a/b"));
    assert!(is_safe_subpath(""));
}

#[test]
fn traversal_subpaths_are_rejected() {
    assert!(!is_safe_subpath(".."));
    assert!(!is_safe_subpath("../secret"));
    assert!(!is_safe_subpath("a/../secret"));
    assert!(!is_safe_subpath("a/.."));
}
