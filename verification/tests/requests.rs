use site_skeleton::handlers::{
    handle_account, handle_index, handle_login, handle_logout, handle_request, Config, Handled,
};
use site_skeleton::registry::{load_templates, TemplateRegistry};

fn site_registry() -> TemplateRegistry {
    let files = vec![
        ("index".to_owned(), "Welcome".to_owned()),
        ("account".to_owned(), "Email: {{email}}".to_owned()),
    ];
    load_templates(&files).unwrap()
}

fn some_config() -> Config {
    Config {
        client_id: Some("client-123".to_owned()),
    }
}

#[test]
fn index_renders_the_index_template() {
    let reg = site_registry();
    let r = handle_index(&reg);
    assert_eq!(r.status, 200);
    assert_eq!(r.body, "Welcome");
}

#[test]
fn account_renders_the_fixed_email() {
    let reg = site_registry();
    let r = handle_account(&reg);
    assert_eq!(r.status, 200);
    assert_eq!(r.body, "Email: todo@example.com");
}

#[test]
fn index_without_template_is_an_error_page() {
    let reg = TemplateRegistry::new();
    let r = handle_index(&reg);
    assert_eq!(r.status, 500);
    assert_eq!(r.body, "template error");
}

#[test]
fn login_reports_the_configured_identifier() {
    let (r, log) = handle_login(&some_config());
    assert_eq!(r.status, 200);
    assert_eq!(r.body, "login");
    assert_eq!(log, Some("client-123".to_owned()));
}

#[test]
fn login_without_configuration_is_an_error_page() {
    let (r, log) = handle_login(&Config { client_id: None });
    assert_eq!(r.status, 500);
    assert_eq!(r.body, "FUSIONAUTH_CLIENT_ID is not set");
    assert_eq!(log, None);
}

#[test]
fn logout_always_answers_logout() {
    let r = handle_logout();
    assert_eq!(r.status, 200);
    assert_eq!(r.body, "logout");
}

#[test]
fn dispatch_serves_each_route() {
    let reg = site_registry();
    let cfg = some_config();
    match handle_request("GET", "/", &cfg, &reg) {
        Handled::Page(r, log) => {
            assert_eq!((r.status, r.body), (200, "Welcome".to_owned()));
            assert_eq!(log, None);
        }
        _ => panic!("the index route answers with a page"),
    }
    match handle_request("GET", "/account", &cfg, &reg) {
        Handled::Page(r, log) => {
            assert_eq!((r.status, r.body), (200, "Email: todo@example.com".to_owned()));
            assert_eq!(log, None);
        }
        _ => panic!("the account route answers with a page"),
    }
    match handle_request("GET", "/login", &cfg, &reg) {
        Handled::Page(r, log) => {
            assert_eq!((r.status, r.body), (200, "login".to_owned()));
            assert_eq!(log, Some("client-123".to_owned()));
        }
        _ => panic!("the login route answers with a page"),
    }
    match handle_request("GET", "/logout", &cfg, &reg) {
        Handled::Page(r, log) => {
            assert_eq!((r.status, r.body), (200, "logout".to_owned()));
            assert_eq!(log, None);
        }
        _ => panic!("the logout route answers with a page"),
    }
}

#[test]
fn dispatch_answers_not_found_elsewhere() {
    let reg = site_registry();
    let cfg = some_config();
    match handle_request("GET", "/admin", &cfg, &reg) {
        Handled::Page(r, log) => {
            assert_eq!((r.status, r.body), (404, "not found".to_owned()));
            assert_eq!(log, None);
        }
        _ => panic!("an unmatched path answers with a page"),
    }
}

#[test]
fn dispatch_hands_out_a_safe_static_path() {
    let reg = site_registry();
    let cfg = some_config();
    match handle_request("GET", "/static/x.txt", &cfg, &reg) {
        Handled::StaticFile(sub) => assert_eq!(sub, "x.txt"),
        _ => panic!("a static path is served from the static root"),
    }
}

#[test]
fn dispatch_rejects_a_traversing_static_path() {
    let reg = site_registry();
    let cfg = some_config();
    match handle_request("GET", "/static/../secret", &cfg, &reg) {
        Handled::Page(r, _) => assert_eq!(r.status, 404),
        _ => panic!("a path that escapes the static root is refused"),
    }
}

#[test]
fn interleaved_requests_are_independent() {
    let reg = site_registry();
    let cfg = some_config();
    let mut bodies = Vec::new();
    for _ in 0..3 {
        for path in ["/", "/account", "/login", "/logout"] {
            match handle_request("GET", path, &cfg, &reg) {
                Handled::Page(r, _) => bodies.push(r.body),
                _ => panic!("every fixed route answers with a page"),
            }
        }
    }
    for round in bodies.chunks(4) {
        assert_eq!(
            round,
            &[
                "Welcome".to_owned(),
                "Email: todo@example.com".to_owned(),
                "login".to_owned(),
                "logout".to_owned()
            ]
        );
    }
}
