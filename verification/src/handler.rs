//! The request handler: route lookup, the authorization gate, and RPC
//! dispatch.
//!
//! An incoming request is routed through the static route table; a
//! protected route is short-circuited with `401 Unauthorized` before its
//! handler runs unless the cookie jar proves a prior login; the handler
//! then reads the body's fields, invokes the record store through the
//! per-request context, and answers with a status, a structured body, and
//! at most one cookie to set. Each endpoint's outcome is pinned both
//! ways: the contracts say not only what a status implies but on which
//! bodies and states each status is owed, over the named body fields
//! (`field_of`).
use vstd::prelude::*;
use vstd::string::StringExecFns;
use crate::json::field_of;
use crate::json::string_field;
use crate::records::BlogPost;
use crate::records::BlogPostView;
use crate::records::BlogRecord;
use crate::records::Project;
use crate::records::ProjectView;
use crate::records::ProjectRecord;
use crate::records::blog_collection;
use crate::records::project_collection;
use crate::render::RenderedPage;
use crate::render::Section;
use crate::render::fallback_sections_spec;
use crate::render::page_sections_spec;
use crate::render::render_fallback;
use crate::render::render_page;
use crate::render::site_title;
use crate::routes::Method;
use crate::routes::PagePath;
use crate::routes::Route;
use crate::routes::RouteView;
use crate::routes::classify;
use crate::routes::classify_spec;
use crate::routes::gate_allows;
use crate::routes::is_protected;
use crate::rpc::RequestContext;
use crate::rpc::blog_doc;
use crate::rpc::blogs_of;
use crate::rpc::delete_blog;
use crate::rpc::delete_project;
use crate::rpc::get_blogs;
use crate::rpc::get_projects;
use crate::rpc::project_doc;
use crate::rpc::projects_of;
use crate::rpc::publish_blog_post;
use crate::rpc::publish_project;
use crate::session::AuthState;
use crate::session::CookiePair;
use crate::session::CookiePairView;
use crate::session::authorize;
use crate::session::credentials_match;
use crate::session::jar_of;
use crate::session::login;
use crate::session::session_cookie_name;
use crate::session::session_token_value;
use crate::store::delete_spec;
use crate::text::str_eq;

verus! {

/// One HTTP request as the host hands it over: method, path, the parsed
/// cookie jar, and the raw body.
pub struct HttpRequest {
    pub method: Method,
    pub path: String,
    pub cookies: Vec<CookiePair>,
    pub body: String,
}

/// The structured payload of a response; the host serializes it.
pub enum ResponseBody {
    Empty,
    Message(String),
    Blogs(Vec<BlogRecord>),
    Projects(Vec<ProjectRecord>),
    Page(RenderedPage),
}

/// A cookie the response asks the client to set.
pub struct SetCookie {
    pub name: String,
    pub value: String,
    pub path: String,
    pub http_only: bool,
    pub same_site_lax: bool,
}

/// The response: a status code, a structured body, and at most one cookie
/// to set.
pub struct HttpResponse {
    pub status: u16,
    pub body: ResponseBody,
    pub set_cookie: Option<SetCookie>,
}

/// Where the request is routed.
pub open spec fn req_route(req: HttpRequest) -> RouteView {
    classify_spec(req.method, req.path@)
}

/// The request's cookie jar.
pub open spec fn req_jar(req: HttpRequest) -> Seq<CookiePairView> {
    jar_of(req.cookies@)
}

/// The credential fields of a login body: both string members, or
/// nothing.
pub open spec fn login_fields_of(body: Seq<char>) -> Option<(Seq<char>, Seq<char>)> {
    match (field_of(body, "email"@), field_of(body, "password"@)) {
        (Some(e), Some(p)) => Some((e, p)),
        _ => None,
    }
}

/// The blog payload of a body: title and content, or nothing.
pub open spec fn blog_fields_of(body: Seq<char>) -> Option<BlogPostView> {
    match (field_of(body, "title"@), field_of(body, "content"@)) {
        (Some(t), Some(c)) => Some(BlogPostView { title: t, content: c }),
        _ => None,
    }
}

/// The project payload of a body: title, content and link, or nothing.
pub open spec fn project_fields_of(body: Seq<char>) -> Option<ProjectView> {
    match (field_of(body, "title"@), field_of(body, "content"@), field_of(body, "link"@)) {
        (Some(t), Some(c), Some(l)) => Some(ProjectView { title: t, content: c, link: l }),
        _ => None,
    }
}

/// What the login endpoint answers, status by status: `400` exactly when
/// a credential field is missing from the body; `200` exactly when both
/// are present and match the fixed pair, with the session cookie set as
/// an HTTP-only, Lax, path-"/" cookie carrying the token; `401` exactly
/// when both are present and do not match, with no cookie set.
pub open spec fn login_outcome(body: Seq<char>, r: HttpResponse) -> bool {
    &&& r.status == 200 || r.status == 400 || r.status == 401
    &&& (r.status == 400) <==> login_fields_of(body) is None
    &&& (r.status == 200) <==> (login_fields_of(body) matches Some(p) && credentials_match(
        p.0,
        p.1,
    ))
    &&& (r.status == 401) <==> (login_fields_of(body) matches Some(p) && !credentials_match(
        p.0,
        p.1,
    ))
    &&& r.status == 200 ==> (r.set_cookie matches Some(sc) && sc.name@ == session_cookie_name()
        && sc.value@ == session_token_value() && sc.path@ == "/"@ && sc.http_only
        && sc.same_site_lax)
    &&& r.status != 200 ==> r.set_cookie is None
}

/// What the blog publish endpoint answers: `400` exactly when title or
/// content is missing; `201` exactly when both are present, a store
/// handle is present and the key counter is unexhausted — and then the
/// stored document holds exactly the named field values under the fresh
/// key; `500` for the remaining case, with the store unchanged.
pub open spec fn publish_blog_outcome(
    old_cx: RequestContext,
    new_cx: RequestContext,
    body: Seq<char>,
    r: HttpResponse,
) -> bool {
    &&& r.set_cookie is None
    &&& r.status == 201 || r.status == 400 || r.status == 500
    &&& (r.status == 400) <==> blog_fields_of(body) is None
    &&& (r.status == 201) <==> (blog_fields_of(body) is Some && old_cx.has_db()
        && old_cx.store_next_key() < u64::MAX as nat)
    &&& r.status == 201 ==> (blog_fields_of(body) matches Some(p) && new_cx.store_docs()
        == old_cx.store_docs().push(blog_doc(p, old_cx.store_next_key()))
        && new_cx.store_next_key() == old_cx.store_next_key() + 1)
    &&& r.status != 201 ==> new_cx.store_docs() == old_cx.store_docs()
        && new_cx.store_next_key() == old_cx.store_next_key()
    &&& r.status == 400 ==> new_cx == old_cx
}

/// What the project publish endpoint answers: as for blogs, with the
/// link field also required and stored verbatim.
pub open spec fn publish_project_outcome(
    old_cx: RequestContext,
    new_cx: RequestContext,
    body: Seq<char>,
    r: HttpResponse,
) -> bool {
    &&& r.set_cookie is None
    &&& r.status == 201 || r.status == 400 || r.status == 500
    &&& (r.status == 400) <==> project_fields_of(body) is None
    &&& (r.status == 201) <==> (project_fields_of(body) is Some && old_cx.has_db()
        && old_cx.store_next_key() < u64::MAX as nat)
    &&& r.status == 201 ==> (project_fields_of(body) matches Some(p) && new_cx.store_docs()
        == old_cx.store_docs().push(project_doc(p, old_cx.store_next_key()))
        && new_cx.store_next_key() == old_cx.store_next_key() + 1)
    &&& r.status != 201 ==> new_cx.store_docs() == old_cx.store_docs()
        && new_cx.store_next_key() == old_cx.store_next_key()
    &&& r.status == 400 ==> new_cx == old_cx
}

/// What a delete endpoint answers: `400` exactly when the id field is
/// missing; `200` exactly when it is present and a store handle is
/// present — and then the new store is the old one with that id deleted
/// from the collection (a no-op when absent, fail-closed across
/// collections), with no content; `500` exactly when the id is present
/// but no handle is, with nothing changed.
pub open spec fn delete_outcome(
    old_cx: RequestContext,
    new_cx: RequestContext,
    body: Seq<char>,
    collection: Seq<char>,
    r: HttpResponse,
) -> bool {
    &&& r.set_cookie is None
    &&& new_cx.store_next_key() == old_cx.store_next_key()
    &&& r.status == 200 || r.status == 400 || r.status == 500
    &&& (r.status == 400) <==> field_of(body, "id"@) is None
    &&& (r.status == 200) <==> (field_of(body, "id"@) is Some && old_cx.has_db())
    &&& r.status == 200 ==> r.body is Empty && (field_of(body, "id"@) matches Some(id)
        && new_cx.store_docs() == delete_spec(old_cx.store_docs(), collection, id))
    &&& r.status != 200 ==> new_cx == old_cx
}

/// What the project list endpoint answers: the stored projects, or `500`
/// when no store handle is present.
pub open spec fn list_projects_outcome(cx: RequestContext, r: HttpResponse) -> bool {
    &&& r.set_cookie is None
    &&& cx.has_db() ==> r.status == 200 && (r.body matches ResponseBody::Projects(v)
        && v@.map_values(|p: ProjectRecord| p@) == projects_of(cx.store_docs()))
    &&& !cx.has_db() ==> r.status == 500
}

/// What the blog list endpoint answers: the stored blog posts, or `500`
/// when no store handle is present.
pub open spec fn list_blogs_outcome(cx: RequestContext, r: HttpResponse) -> bool {
    &&& r.set_cookie is None
    &&& cx.has_db() ==> r.status == 200 && (r.body matches ResponseBody::Blogs(v)
        && v@.map_values(|b: BlogRecord| b@) == blogs_of(cx.store_docs()))
    &&& !cx.has_db() ==> r.status == 500
}

/// What a page render answers: the page's sections resolved under the
/// request's context.
pub open spec fn page_outcome(cx: RequestContext, p: PagePath, r: HttpResponse) -> bool {
    &&& r.set_cookie is None
    &&& r.status == 200
    &&& (r.body matches ResponseBody::Page(pg) && pg.sections@.map_values(|s: Section| s@)
        == page_sections_spec(cx, p) && pg.title@ == site_title())
}

/// What the fallback answers once static-asset resolution has failed.
pub open spec fn fallback_outcome(r: HttpResponse) -> bool {
    &&& r.set_cookie is None
    &&& r.status == 200
    &&& (r.body matches ResponseBody::Page(pg) && pg.sections@.map_values(|s: Section| s@)
        == fallback_sections_spec() && pg.title@ == site_title())
}

/// An unknown RPC name: `404`, nothing else.
pub open spec fn not_found_outcome(r: HttpResponse) -> bool {
    r.status == 404 && r.set_cookie is None && r.body is Empty
}

fn empty_response(status: u16) -> (r: HttpResponse)
    ensures
        r.status == status,
        r.set_cookie is None,
        r.body is Empty,
{
    HttpResponse { status, body: ResponseBody::Empty, set_cookie: None }
}

fn parse_login_fields(body: &str) -> (r: Option<(String, String)>)
    ensures
        match r {
            Some(p) => login_fields_of(body@) == Some((p.0@, p.1@)),
            None => login_fields_of(body@) is None,
        },
{
    let email = string_field(body, "email");
    let password = string_field(body, "password");
    match (email, password) {
        (Some(e), Some(p)) => Some((e, p)),
        _ => None,
    }
}

fn parse_blog_fields(body: &str) -> (r: Option<BlogPost>)
    ensures
        match r {
            Some(p) => blog_fields_of(body@) == Some(p@),
            None => blog_fields_of(body@) is None,
        },
{
    let title = string_field(body, "title");
    let content = string_field(body, "content");
    match (title, content) {
        (Some(t), Some(c)) => Some(BlogPost { title: t, content: c }),
        _ => None,
    }
}

fn parse_project_fields(body: &str) -> (r: Option<Project>)
    ensures
        match r {
            Some(p) => project_fields_of(body@) == Some(p@),
            None => project_fields_of(body@) is None,
        },
{
    let title = string_field(body, "title");
    let content = string_field(body, "content");
    let link = string_field(body, "link");
    match (title, content, link) {
        (Some(t), Some(c), Some(l)) => Some(Project { title: t, content: c, link: l }),
        _ => None,
    }
}

fn handle_login(body: &str) -> (r: HttpResponse)
    ensures
        login_outcome(body@, r),
{
    match parse_login_fields(body) {
        None => empty_response(400),
        Some(fields) => match login(fields.0.as_str(), fields.1.as_str()) {
            Ok(token) => HttpResponse {
                status: 200,
                body: ResponseBody::Message(String::from_str("Login successful!")),
                set_cookie: Some(
                    SetCookie {
                        name: String::from_str("session_token"),
                        value: token,
                        path: String::from_str("/"),
                        http_only: true,
                        same_site_lax: true,
                    },
                ),
            },
            Err(_) => empty_response(401),
        },
    }
}

fn handle_publish_blog(cx: &mut RequestContext, body: &str) -> (r: HttpResponse)
    requires
        old(cx).wf(),
    ensures
        final(cx).wf(),
        final(cx).options == old(cx).options,
        final(cx).has_db() == old(cx).has_db(),
        publish_blog_outcome(*old(cx), *final(cx), body@, r),
{
    match parse_blog_fields(body) {
        None => empty_response(400),
        Some(payload) => match publish_blog_post(cx, payload) {
            Ok(_) => empty_response(201),
            Err(_) => empty_response(500),
        },
    }
}

fn handle_publish_project(cx: &mut RequestContext, body: &str) -> (r: HttpResponse)
    requires
        old(cx).wf(),
    ensures
        final(cx).wf(),
        final(cx).options == old(cx).options,
        final(cx).has_db() == old(cx).has_db(),
        publish_project_outcome(*old(cx), *final(cx), body@, r),
{
    match parse_project_fields(body) {
        None => empty_response(400),
        Some(payload) => match publish_project(cx, payload) {
            Ok(_) => empty_response(201),
            Err(_) => empty_response(500),
        },
    }
}

fn handle_delete_project(cx: &mut RequestContext, body: &str) -> (r: HttpResponse)
    requires
        old(cx).wf(),
    ensures
        final(cx).wf(),
        final(cx).options == old(cx).options,
        final(cx).has_db() == old(cx).has_db(),
        delete_outcome(*old(cx), *final(cx), body@, project_collection(), r),
{
    match string_field(body, "id") {
        None => empty_response(400),
        Some(id) => match delete_project(cx, id.as_str()) {
            Ok(_) => empty_response(200),
            Err(_) => empty_response(500),
        },
    }
}

fn handle_delete_blog(cx: &mut RequestContext, body: &str) -> (r: HttpResponse)
    requires
        old(cx).wf(),
    ensures
        final(cx).wf(),
        final(cx).options == old(cx).options,
        final(cx).has_db() == old(cx).has_db(),
        delete_outcome(*old(cx), *final(cx), body@, blog_collection(), r),
{
    match string_field(body, "id") {
        None => empty_response(400),
        Some(id) => match delete_blog(cx, id.as_str()) {
            Ok(_) => empty_response(200),
            Err(_) => empty_response(500),
        },
    }
}

fn handle_list_projects(cx: &RequestContext) -> (r: HttpResponse)
    requires
        cx.wf(),
    ensures
        list_projects_outcome(*cx, r),
{
    match get_projects(cx) {
        Ok(v) => HttpResponse { status: 200, body: ResponseBody::Projects(v), set_cookie: None },
        Err(_) => empty_response(500),
    }
}

fn handle_list_blogs(cx: &RequestContext) -> (r: HttpResponse)
    requires
        cx.wf(),
    ensures
        list_blogs_outcome(*cx, r),
{
    match get_blogs(cx) {
        Ok(v) => HttpResponse { status: 200, body: ResponseBody::Blogs(v), set_cookie: None },
        Err(_) => empty_response(500),
    }
}

/// Handles one request: route lookup, then — on a protected route — the
/// session gate, which answers `401` before the handler can run and
/// leaves the state observably untouched; then the handler itself, whose
/// outcome is pinned to the request's body fields and the store state.
pub fn handle_request(cx: &mut RequestContext, req: &HttpRequest) -> (r: HttpResponse)
    requires
        old(cx).wf(),
    ensures
        final(cx).wf(),
        final(cx).options == old(cx).options,
        final(cx).has_db() == old(cx).has_db(),
        !gate_allows(req_route(*req), req_jar(*req)) ==> r.status == 401 && *final(cx) == *old(cx)
            && r.set_cookie is None && r.body is Empty,
        gate_allows(req_route(*req), req_jar(*req)) ==> match req_route(*req) {
            RouteView::LoginApi => *final(cx) == *old(cx) && login_outcome(req.body@, r),
            RouteView::PublishBlog => publish_blog_outcome(*old(cx), *final(cx), req.body@, r),
            RouteView::PublishProject => publish_project_outcome(
                *old(cx),
                *final(cx),
                req.body@,
                r,
            ),
            RouteView::AdminRpc(name) => if name == "delete-project"@ {
                delete_outcome(*old(cx), *final(cx), req.body@, project_collection(), r)
            } else if name == "delete-blog"@ {
                delete_outcome(*old(cx), *final(cx), req.body@, blog_collection(), r)
            } else {
                *final(cx) == *old(cx) && not_found_outcome(r)
            },
            RouteView::PublicRpc(name) => *final(cx) == *old(cx) && if name == "list-projects"@ {
                list_projects_outcome(*old(cx), r)
            } else if name == "list-blogs"@ {
                list_blogs_outcome(*old(cx), r)
            } else {
                not_found_outcome(r)
            },
            RouteView::Page(p) => *final(cx) == *old(cx) && page_outcome(*old(cx), p, r),
            RouteView::Fallback => *final(cx) == *old(cx) && fallback_outcome(r),
        },
{
    let route = classify(req.method, req.path.as_str());
    if is_protected(&route) {
        let auth = authorize(&req.cookies);
        match auth {
            AuthState::Anonymous => {
                return empty_response(401);
            },
            AuthState::Authenticated => {},
        }
    }
    match route {
        Route::LoginApi => handle_login(req.body.as_str()),
        Route::PublishBlog => handle_publish_blog(cx, req.body.as_str()),
        Route::PublishProject => handle_publish_project(cx, req.body.as_str()),
        Route::AdminRpc(name) => {
            if str_eq(name.as_str(), "delete-project") {
                handle_delete_project(cx, req.body.as_str())
            } else if str_eq(name.as_str(), "delete-blog") {
                handle_delete_blog(cx, req.body.as_str())
            } else {
                empty_response(404)
            }
        },
        Route::PublicRpc(name) => {
            if str_eq(name.as_str(), "list-projects") {
                handle_list_projects(cx)
            } else if str_eq(name.as_str(), "list-blogs") {
                handle_list_blogs(cx)
            } else {
                empty_response(404)
            }
        },
        Route::Page(p) => {
            let page = render_page(cx, p);
            HttpResponse { status: 200, body: ResponseBody::Page(page), set_cookie: None }
        },
        Route::Fallback => {
            let page = render_fallback();
            HttpResponse { status: 200, body: ResponseBody::Page(page), set_cookie: None }
        },
    }
}

} // verus!
