//! Route groups.
//!
//! Two disjoint groups of HTTP routes: public (content pages, login, the
//! read-only RPCs) and protected (the admin page, publish and delete
//! RPCs). The assignment is static: of the declared page paths only the
//! admin panel is protected, everything else is public; a path matching
//! no route falls back to static-asset resolution and then a full render.
use vstd::prelude::*;
use vstd::string::StrSliceExecFns;
use crate::session::CookiePairView;
use crate::session::credentials_match;
use crate::session::is_authorized;
use crate::session::session_cookie_value;
use crate::session::session_token_value;
use crate::text::str_eq;
use crate::text::str_starts_with;
use crate::text::str_after;

verus! {

/// Whether `p` is a prefix of `s`.
pub open spec fn is_prefix(p: Seq<char>, s: Seq<char>) -> bool {
    s.len() >= p.len() && s.take(p.len() as int) == p
}

/// The HTTP methods the site serves.
#[derive(Clone, Copy, PartialEq, Eq, Structural, Debug)]
pub enum Method {
    Get,
    Post,
}

/// The declared page paths.
#[derive(Clone, Copy, PartialEq, Eq, Structural, Debug)]
pub enum PagePath {
    Home,
    Projects,
    Views,
    Contacts,
    Login,
    AdminPanel,
}

/// Where a request is routed.
pub enum Route {
    /// POST `/api/login`.
    LoginApi,
    /// POST `/api/publish-blog`.
    PublishBlog,
    /// POST `/api/publish-project`.
    PublishProject,
    /// POST `/api/admin/{rpc-name}`: the protected RPC group.
    AdminRpc(String),
    /// POST `/api/{rpc-name}`: the public RPC group.
    PublicRpc(String),
    /// GET of a declared page path.
    Page(PagePath),
    /// Anything else: static assets first, then a full render.
    Fallback,
}

/// The mathematical image of a route.
pub enum RouteView {
    LoginApi,
    PublishBlog,
    PublishProject,
    AdminRpc(Seq<char>),
    PublicRpc(Seq<char>),
    Page(PagePath),
    Fallback,
}

impl View for Route {
    type V = RouteView;

    open spec fn view(&self) -> RouteView {
        match self {
            Route::LoginApi => RouteView::LoginApi,
            Route::PublishBlog => RouteView::PublishBlog,
            Route::PublishProject => RouteView::PublishProject,
            Route::AdminRpc(name) => RouteView::AdminRpc(name@),
            Route::PublicRpc(name) => RouteView::PublicRpc(name@),
            Route::Page(p) => RouteView::Page(*p),
            Route::Fallback => RouteView::Fallback,
        }
    }
}

/// The static route table: where a method and path lead.
pub open spec fn classify_spec(m: Method, path: Seq<char>) -> RouteView {
    if m == Method::Post {
        if path == "/api/login"@ {
            RouteView::LoginApi
        } else if path == "/api/publish-blog"@ {
            RouteView::PublishBlog
        } else if path == "/api/publish-project"@ {
            RouteView::PublishProject
        } else if is_prefix("/api/admin/"@, path) {
            RouteView::AdminRpc(path.skip("/api/admin/"@.len() as int))
        } else if is_prefix("/api/"@, path) {
            RouteView::PublicRpc(path.skip("/api/"@.len() as int))
        } else {
            RouteView::Fallback
        }
    } else {
        if path == "/"@ {
            RouteView::Page(PagePath::Home)
        } else if path == "/projects"@ {
            RouteView::Page(PagePath::Projects)
        } else if path == "/views"@ {
            RouteView::Page(PagePath::Views)
        } else if path == "/contacts"@ {
            RouteView::Page(PagePath::Contacts)
        } else if path == "/login"@ {
            RouteView::Page(PagePath::Login)
        } else if path == "/adminpanel"@ {
            RouteView::Page(PagePath::AdminPanel)
        } else {
            RouteView::Fallback
        }
    }
}

/// Routes the request method and path through the static route table.
pub fn classify(m: Method, path: &str) -> (r: Route)
    ensures
        r@ == classify_spec(m, path@),
{
    match m {
        Method::Post => {
            if str_eq(path, "/api/login") {
                Route::LoginApi
            } else if str_eq(path, "/api/publish-blog") {
                Route::PublishBlog
            } else if str_eq(path, "/api/publish-project") {
                Route::PublishProject
            } else if str_starts_with(path, "/api/admin/") {
                let n: usize = "/api/admin/".unicode_len();
                Route::AdminRpc(str_after(path, n))
            } else if str_starts_with(path, "/api/") {
                let n: usize = "/api/".unicode_len();
                Route::PublicRpc(str_after(path, n))
            } else {
                Route::Fallback
            }
        },
        Method::Get => {
            if str_eq(path, "/") {
                Route::Page(PagePath::Home)
            } else if str_eq(path, "/projects") {
                Route::Page(PagePath::Projects)
            } else if str_eq(path, "/views") {
                Route::Page(PagePath::Views)
            } else if str_eq(path, "/contacts") {
                Route::Page(PagePath::Contacts)
            } else if str_eq(path, "/login") {
                Route::Page(PagePath::Login)
            } else if str_eq(path, "/adminpanel") {
                Route::Page(PagePath::AdminPanel)
            } else {
                Route::Fallback
            }
        },
    }
}

/// Whether a route sits in the protected group.
pub open spec fn route_protected(r: RouteView) -> bool {
    match r {
        RouteView::PublishBlog => true,
        RouteView::PublishProject => true,
        RouteView::AdminRpc(_) => true,
        RouteView::Page(p) => p == PagePath::AdminPanel,
        _ => false,
    }
}

/// Whether the authorization gate lets a request through: the route is
/// public, or the jar proves a prior login.
pub open spec fn gate_allows(r: RouteView, jar: Seq<CookiePairView>) -> bool {
    !route_protected(r) || is_authorized(jar)
}

/// Executable test for the protected group.
pub fn is_protected(r: &Route) -> (b: bool)
    ensures
        b == route_protected(r@),
{
    match r {
        Route::PublishBlog => true,
        Route::PublishProject => true,
        Route::AdminRpc(_) => true,
        Route::Page(p) => match p {
            PagePath::AdminPanel => true,
            _ => false,
        },
        _ => false,
    }
}

/// Holding the session token is enough for the whole protected group:
/// a jar carrying the token handed out by a successful login passes the
/// gate on any method and path, for as long as the server runs.
pub proof fn lemma_token_authorizes_every_route(
    email: Seq<char>,
    password: Seq<char>,
    token: Seq<char>,
    jar: Seq<CookiePairView>,
)
    requires
        credentials_match(email, password),
        token == session_token_value(),
        session_cookie_value(jar) == Some(token),
    ensures
        forall|m: Method, path: Seq<char>| gate_allows(classify_spec(m, path), jar),
{
}

/// The two delete RPCs sit in the protected group: their paths route to
/// the admin RPC table.
pub proof fn lemma_delete_routes_protected()
    ensures
        route_protected(classify_spec(Method::Post, "/api/admin/delete-blog"@)),
        route_protected(classify_spec(Method::Post, "/api/admin/delete-project"@)),
{
    reveal_strlit("/api/login");
    reveal_strlit("/api/publish-blog");
    reveal_strlit("/api/publish-project");
    reveal_strlit("/api/admin/");
    reveal_strlit("/api/admin/delete-blog");
    reveal_strlit("/api/admin/delete-project");
    assert("/api/admin/delete-blog"@.take("/api/admin/"@.len() as int) =~= "/api/admin/"@);
    assert("/api/admin/delete-project"@.take("/api/admin/"@.len() as int) =~= "/api/admin/"@);
}

/// Without the session token, neither admin delete RPC is reachable.
pub proof fn lemma_anonymous_delete_gated(jar: Seq<CookiePairView>)
    requires
        !is_authorized(jar),
    ensures
        !gate_allows(classify_spec(Method::Post, "/api/admin/delete-blog"@), jar),
        !gate_allows(classify_spec(Method::Post, "/api/admin/delete-project"@), jar),
{
    lemma_delete_routes_protected();
}

/// With the token of a successful login, both admin delete RPCs are
/// reachable.
pub proof fn lemma_token_opens_delete_routes(
    email: Seq<char>,
    password: Seq<char>,
    token: Seq<char>,
    jar: Seq<CookiePairView>,
)
    requires
        credentials_match(email, password),
        token == session_token_value(),
        session_cookie_value(jar) == Some(token),
    ensures
        gate_allows(classify_spec(Method::Post, "/api/admin/delete-blog"@), jar),
        gate_allows(classify_spec(Method::Post, "/api/admin/delete-project"@), jar),
{
    lemma_token_authorizes_every_route(email, password, token, jar);
}

} // verus!
