//! The request handlers, and the dispatch of a routed request to its
//! handler.
//!
//! Every handler is a pure mapping from its inputs to a response; the
//! one side effect of the whole application, the diagnostic line that
//! `/login` emits, is returned as a value for the caller to print. The
//! outcome of any request is stated by `expected_outcome`: a function of
//! the request's method and path, the configuration read at startup and
//! the registered templates — and of nothing else.

use vstd::prelude::*;
use crate::registry::{RenderContext, RenderError, TemplateRegistry, render_view};
use crate::router::{Route, route_of, route_spec, static_sub, static_subpath};
use crate::statics::{escapes_root, is_safe_subpath};

verus! {

/// An HTTP response computed by a handler: a status code and a text
/// body.
pub struct Response {
    pub status: u16,
    pub body: String,
}

/// The configuration read once at startup: the client identifier that
/// `/login` reports, if the environment held one.
pub struct Config {
    pub client_id: Option<String>,
}

/// The configured client identifier, as a value.
pub open spec fn config_view(c: &Config) -> Option<Seq<char>> {
    match c.client_id {
        Option::Some(s) => Option::Some(s@),
        Option::None => Option::None,
    }
}

/// What serving a request comes to: a page response together with an
/// optional diagnostic line to emit, or a file to serve from the static
/// root.
pub enum Handled {
    Page(Response, Option<String>),
    StaticFile(String),
}

/// The observable content of a handled request.
pub ghost enum HandledView {
    Page { status: int, body: Seq<char>, log: Option<Seq<char>> },
    StaticFile { subpath: Seq<char> },
}

impl View for Handled {
    type V = HandledView;

    open spec fn view(&self) -> HandledView {
        match self {
            Handled::Page(resp, log) => HandledView::Page {
                status: resp.status as int,
                body: resp.body@,
                log: match log {
                    Option::Some(s) => Option::Some(s@),
                    Option::None => Option::None,
                },
            },
            Handled::StaticFile(p) => HandledView::StaticFile { subpath: p@ },
        }
    }
}

/// The page a template-backed route answers with: the rendered text, or
/// the fixed failure page when rendering fails.
pub open spec fn page_for_render(r: Result<Seq<char>, RenderError>) -> HandledView {
    match r {
        Result::Ok(s) => HandledView::Page { status: 200, body: s, log: Option::None },
        Result::Err(_) => HandledView::Page {
            status: 500,
            body: "template error"@,
            log: Option::None,
        },
    }
}

/// The context every `/account` render uses: the fixed placeholder
/// address, since no real account lookup exists.
pub open spec fn account_ctx() -> Map<Seq<char>, Seq<char>> {
    Map::empty().insert("email"@, "todo@example.com"@)
}

/// The outcome of a request, as a function of its method and path, the
/// configured client identifier and the registered templates — and of
/// nothing else.
pub open spec fn expected_outcome(
    method: Seq<char>,
    path: Seq<char>,
    client_id: Option<Seq<char>>,
    templates: Map<Seq<char>, Seq<char>>,
) -> HandledView {
    match route_spec(method, path) {
        Route::Index => page_for_render(
            render_view(templates, "index"@, Map::<Seq<char>, Seq<char>>::empty()),
        ),
        Route::Account => page_for_render(render_view(templates, "account"@, account_ctx())),
        Route::Login => match client_id {
            Option::Some(c) => HandledView::Page {
                status: 200,
                body: "login"@,
                log: Option::Some(c),
            },
            Option::None => HandledView::Page {
                status: 500,
                body: "FUSIONAUTH_CLIENT_ID is not set"@,
                log: Option::None,
            },
        },
        Route::Logout => HandledView::Page {
            status: 200,
            body: "logout"@,
            log: Option::None,
        },
        Route::StaticAsset => if escapes_root(static_sub(path)) {
            HandledView::Page { status: 404, body: "not found"@, log: Option::None }
        } else {
            HandledView::StaticFile { subpath: static_sub(path) }
        },
        Route::NotFound => HandledView::Page {
            status: 404,
            body: "not found"@,
            log: Option::None,
        },
    }
}

/// Serve `/`: render the `index` template with an empty context.
pub fn handle_index(reg: &TemplateRegistry) -> (r: Response)
    requires
        reg.wf(),
    ensures
        match render_view(reg@, "index"@, Map::<Seq<char>, Seq<char>>::empty()) {
            Result::Ok(s) => r.status == 200 && r.body@ == s,
            Result::Err(_) => r.status == 500 && r.body@ == "template error"@,
        },
{
    let ctx = RenderContext::new();
    match reg.render("index", &ctx) {
        Ok(body) => Response { status: 200, body },
        Err(_) => Response { status: 500, body: "template error".to_owned() },
    }
}

/// Serve `/account`: render the `account` template with the fixed
/// placeholder address bound to `email`.
pub fn handle_account(reg: &TemplateRegistry) -> (r: Response)
    requires
        reg.wf(),
    ensures
        match render_view(reg@, "account"@, account_ctx()) {
            Result::Ok(s) => r.status == 200 && r.body@ == s,
            Result::Err(_) => r.status == 500 && r.body@ == "template error"@,
        },
{
    let mut ctx = RenderContext::new();
    ctx.insert("email".to_owned(), "todo@example.com".to_owned());
    match reg.render("account", &ctx) {
        Ok(body) => Response { status: 200, body },
        Err(_) => Response { status: 500, body: "template error".to_owned() },
    }
}

/// Serve `/login`: report the configured client identifier as a
/// diagnostic line and answer with the fixed body, or answer with an
/// error page when the identifier was never configured.
pub fn handle_login(config: &Config) -> (r: (Response, Option<String>))
    ensures
        match config.client_id {
            Option::Some(c) => r.0.status == 200 && r.0.body@ == "login"@ && (r.1 matches
            Option::Some(l) && l@ == c@),
            Option::None => r.0.status == 500 && r.0.body@ == "FUSIONAUTH_CLIENT_ID is not set"@
                && r.1 is None,
        },
{
    match &config.client_id {
        Some(c) => (Response { status: 200, body: "login".to_owned() }, Some(c.clone())),
        None => (
            Response { status: 500, body: "FUSIONAUTH_CLIENT_ID is not set".to_owned() },
            None,
        ),
    }
}

/// Serve `/logout`: the fixed body, whatever the request carried.
pub fn handle_logout() -> (r: Response)
    ensures
        r.status == 200 && r.body@ == "logout"@,
{
    Response { status: 200, body: "logout".to_owned() }
}

/// The answer for a path no route matches.
pub fn handle_not_found() -> (r: Response)
    ensures
        r.status == 404 && r.body@ == "not found"@,
{
    Response { status: 404, body: "not found".to_owned() }
}

/// Dispatch one request: route it by method and path, run the matching
/// handler, and guard any static-asset path against escaping its root.
/// The registry must be well-formed, as every registry built through
/// this library is.
pub fn handle_request(method: &str, path: &str, config: &Config, reg: &TemplateRegistry) -> (h:
    Handled)
    requires
        reg.wf(),
    ensures
        h@ == expected_outcome(method@, path@, config_view(config), reg@),
{
    match route_of(method, path) {
        Route::Index => Handled::Page(handle_index(reg), None),
        Route::Account => Handled::Page(handle_account(reg), None),
        Route::Login => {
            let (resp, log) = handle_login(config);
            Handled::Page(resp, log)
        },
        Route::Logout => Handled::Page(handle_logout(), None),
        Route::StaticAsset => {
            match static_subpath(path) {
                Some(sub) => {
                    if is_safe_subpath(sub.as_str()) {
                        Handled::StaticFile(sub)
                    } else {
                        Handled::Page(handle_not_found(), None)
                    }
                },
                None => {
                    proof {
                        assert(false);
                    }
                    Handled::Page(handle_not_found(), None)
                },
            }
        },
        Route::NotFound => Handled::Page(handle_not_found(), None),
    }
}

/// When `/` is requested and the registered `index` template renders to
/// `s`, the answer is exactly the 200 page whose body is `s`.
pub proof fn lemma_index_success(
    templates: Map<Seq<char>, Seq<char>>,
    client_id: Option<Seq<char>>,
    s: Seq<char>,
)
    requires
        render_view(templates, "index"@, Map::<Seq<char>, Seq<char>>::empty()) == Result::<
            Seq<char>,
            RenderError,
        >::Ok(s),
    ensures
        expected_outcome("GET"@, "/"@, client_id, templates) == (HandledView::Page {
            status: 200,
            body: s,
            log: Option::<Seq<char>>::None,
        }),
{
    reveal_strlit("GET");
    reveal_strlit("/");
    assert(route_spec("GET"@, "/"@) == Route::Index);
}

/// When `/account` is requested and the registered `account` template
/// renders to `s` under the fixed email context, the answer is exactly
/// the 200 page whose body is `s`.
pub proof fn lemma_account_success(
    templates: Map<Seq<char>, Seq<char>>,
    client_id: Option<Seq<char>>,
    s: Seq<char>,
)
    requires
        render_view(templates, "account"@, account_ctx()) == Result::<
            Seq<char>,
            RenderError,
        >::Ok(s),
    ensures
        expected_outcome("GET"@, "/account"@, client_id, templates) == (HandledView::Page {
            status: 200,
            body: s,
            log: Option::<Seq<char>>::None,
        }),
{
    reveal_strlit("GET");
    reveal_strlit("/");
    reveal_strlit("/account");
    assert("/account"@.len() == 8);
    assert("/"@.len() == 1);
    assert(route_spec("GET"@, "/account"@) == Route::Account);
}

/// Each request's outcome is a function of its own method and path, the
/// startup configuration and the registry contents, so requests served
/// concurrently cannot interfere: two requests with the same inputs get
/// the same outcome, whatever else the server does between them.
pub proof fn lemma_requests_independent(
    method: Seq<char>,
    path: Seq<char>,
    client_id: Option<Seq<char>>,
    templates: Map<Seq<char>, Seq<char>>,
    h1: HandledView,
    h2: HandledView,
)
    requires
        h1 == expected_outcome(method, path, client_id, templates),
        h2 == expected_outcome(method, path, client_id, templates),
    ensures
        h1 == h2,
{
}

} // verus!
