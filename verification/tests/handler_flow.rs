use shilohnova::handler::handle_request;
use shilohnova::handler::HttpRequest;
use shilohnova::handler::HttpResponse;
use shilohnova::handler::ResponseBody;
use shilohnova::render::Section;
use shilohnova::routes::Method;
use shilohnova::rpc::RequestContext;
use shilohnova::rpc::SiteOptions;
use shilohnova::session::CookiePair;
use shilohnova::store::Store;

fn options() -> SiteOptions {
    SiteOptions { site_root: "target/site".to_string(), site_addr: "127.0.0.1:3000".to_string() }
}

fn context_with_store() -> RequestContext {
    RequestContext { db: Some(Store::new()), options: options() }
}

fn context_without_store() -> RequestContext {
    RequestContext { db: None, options: options() }
}

fn request(method: Method, path: &str, cookies: Vec<CookiePair>, body: &str) -> HttpRequest {
    HttpRequest { method, path: path.to_string(), cookies, body: body.to_string() }
}

fn session_cookie(value: &str) -> Vec<CookiePair> {
    vec![CookiePair { name: "session_token".to_string(), value: value.to_string() }]
}

fn cookie_from_login(r: &HttpResponse) -> String {
    let sc = r.set_cookie.as_ref().expect("a successful login sets the session cookie");
    assert_eq!(sc.name, "session_token");
    assert_eq!(sc.path, "/");
    assert!(sc.http_only);
    assert!(sc.same_site_lax);
    sc.value.clone()
}

fn listed_blogs(cx: &mut RequestContext) -> Vec<(String, String, String)> {
    let r = handle_request(cx, &request(Method::Post, "/api/list-blogs", vec![], ""));
    assert_eq!(r.status, 200);
    match r.body {
        ResponseBody::Blogs(v) => v.into_iter().map(|b| (b.id, b.title, b.content)).collect(),
        _ => panic!("list-blogs answers with blog records"),
    }
}

#[test]
fn end_to_end_login_publish_list_delete() {
    let mut cx = context_with_store();

    // Login with the correct credentials: 200, cookie set.
    let login = handle_request(
        &mut cx,
        &request(
            Method::Post,
            "/api/login",
            vec![],
            "{\"email\":\"test@example.com\",\"password\":\"password123\"}",
        ),
    );
    assert_eq!(login.status, 200);
    let token = cookie_from_login(&login);

    // Publish a blog post using that cookie: 201 Created.
    let publish = handle_request(
        &mut cx,
        &request(
            Method::Post,
            "/api/publish-blog",
            session_cookie(&token),
            "{\"title\":\"A\",\"content\":\"B\"}",
        ),
    );
    assert_eq!(publish.status, 201);

    // The list now holds the record, with a non-empty id.
    let blogs = listed_blogs(&mut cx);
    assert_eq!(blogs.len(), 1);
    let (id, title, content) = blogs[0].clone();
    assert_eq!(title, "A");
    assert_eq!(content, "B");
    assert!(!id.is_empty());

    // Delete it by its id: 200, and the list no longer holds it.
    let delete = handle_request(
        &mut cx,
        &request(
            Method::Post,
            "/api/admin/delete-blog",
            session_cookie(&token),
            &format!("{{\"id\":\"{id}\"}}"),
        ),
    );
    assert_eq!(delete.status, 200);
    assert!(matches!(delete.body, ResponseBody::Empty));
    assert!(listed_blogs(&mut cx).is_empty());
}

#[test]
fn wrong_password_gets_401_and_no_cookie_and_no_access() {
    let mut cx = context_with_store();
    let login = handle_request(
        &mut cx,
        &request(
            Method::Post,
            "/api/login",
            vec![],
            "{\"email\":\"test@example.com\",\"password\":\"wrong\"}",
        ),
    );
    assert_eq!(login.status, 401);
    assert!(login.set_cookie.is_none());

    // The admin page stays inaccessible.
    let admin = handle_request(&mut cx, &request(Method::Get, "/adminpanel", vec![], ""));
    assert_eq!(admin.status, 401);
}

#[test]
fn anonymous_requests_to_protected_paths_never_reach_the_handler() {
    let mut cx = context_with_store();

    let publish = handle_request(
        &mut cx,
        &request(
            Method::Post,
            "/api/publish-blog",
            vec![],
            "{\"title\":\"A\",\"content\":\"B\"}",
        ),
    );
    assert_eq!(publish.status, 401);
    assert!(matches!(publish.body, ResponseBody::Empty));

    let delete = handle_request(
        &mut cx,
        &request(Method::Post, "/api/admin/delete-blog", vec![], "{\"id\":\"blog_post:0\"}"),
    );
    assert_eq!(delete.status, 401);

    let forged = handle_request(
        &mut cx,
        &request(
            Method::Post,
            "/api/publish-project",
            session_cookie("forged_token"),
            "{\"title\":\"A\",\"content\":\"B\",\"link\":\"L\"}",
        ),
    );
    assert_eq!(forged.status, 401);

    // Observably zero side effects: nothing was published.
    assert!(listed_blogs(&mut cx).is_empty());
    let projects = handle_request(&mut cx, &request(Method::Post, "/api/list-projects", vec![], ""));
    assert_eq!(projects.status, 200);
    assert!(matches!(projects.body, ResponseBody::Projects(v) if v.is_empty()));
}

#[test]
fn the_login_cookie_authorizes_every_protected_route() {
    let mut cx = context_with_store();
    let login = handle_request(
        &mut cx,
        &request(
            Method::Post,
            "/api/login",
            vec![],
            "{\"email\":\"test@example.com\",\"password\":\"password123\"}",
        ),
    );
    let token = cookie_from_login(&login);

    let admin_page = handle_request(
        &mut cx,
        &request(Method::Get, "/adminpanel", session_cookie(&token), ""),
    );
    assert_eq!(admin_page.status, 200);

    let publish_project = handle_request(
        &mut cx,
        &request(
            Method::Post,
            "/api/publish-project",
            session_cookie(&token),
            "{\"title\":\"P\",\"content\":\"C\",\"link\":\"L\"}",
        ),
    );
    assert_eq!(publish_project.status, 201);

    let delete = handle_request(
        &mut cx,
        &request(
            Method::Post,
            "/api/admin/delete-project",
            session_cookie(&token),
            "{\"id\":\"project:99\"}",
        ),
    );
    assert_eq!(delete.status, 200);
}

#[test]
fn unreadable_bodies_get_400() {
    let mut cx = context_with_store();
    let token = {
        let login = handle_request(
            &mut cx,
            &request(
                Method::Post,
                "/api/login",
                vec![],
                "{\"email\":\"test@example.com\",\"password\":\"password123\"}",
            ),
        );
        cookie_from_login(&login)
    };

    let bad_login = handle_request(
        &mut cx,
        &request(Method::Post, "/api/login", vec![], "not json at all"),
    );
    assert_eq!(bad_login.status, 400);
    assert!(bad_login.set_cookie.is_none());

    let missing_field = handle_request(
        &mut cx,
        &request(Method::Post, "/api/publish-blog", session_cookie(&token), "{\"title\":\"A\"}"),
    );
    assert_eq!(missing_field.status, 400);

    let bad_delete = handle_request(
        &mut cx,
        &request(Method::Post, "/api/admin/delete-blog", session_cookie(&token), "{}"),
    );
    assert_eq!(bad_delete.status, 400);

    // The project payload requires its link field too.
    let missing_link = handle_request(
        &mut cx,
        &request(
            Method::Post,
            "/api/publish-project",
            session_cookie(&token),
            "{\"title\":\"A\",\"content\":\"B\"}",
        ),
    );
    assert_eq!(missing_link.status, 400);

    // A field of the wrong JSON type is as absent as a missing one.
    let wrong_type = handle_request(
        &mut cx,
        &request(
            Method::Post,
            "/api/publish-blog",
            session_cookie(&token),
            "{\"title\":\"A\",\"content\":7}",
        ),
    );
    assert_eq!(wrong_type.status, 400);

    assert!(listed_blogs(&mut cx).is_empty());
}

#[test]
fn unknown_rpc_names_get_404() {
    let mut cx = context_with_store();
    let unknown_public = handle_request(
        &mut cx,
        &request(Method::Post, "/api/does-not-exist", vec![], ""),
    );
    assert_eq!(unknown_public.status, 404);

    let token = {
        let login = handle_request(
            &mut cx,
            &request(
                Method::Post,
                "/api/login",
                vec![],
                "{\"email\":\"test@example.com\",\"password\":\"password123\"}",
            ),
        );
        cookie_from_login(&login)
    };
    let unknown_admin = handle_request(
        &mut cx,
        &request(Method::Post, "/api/admin/does-not-exist", session_cookie(&token), ""),
    );
    assert_eq!(unknown_admin.status, 404);
}

#[test]
fn pages_render_with_their_data_sections() {
    let mut cx = context_with_store();
    let token = {
        let login = handle_request(
            &mut cx,
            &request(
                Method::Post,
                "/api/login",
                vec![],
                "{\"email\":\"test@example.com\",\"password\":\"password123\"}",
            ),
        );
        cookie_from_login(&login)
    };
    handle_request(
        &mut cx,
        &request(
            Method::Post,
            "/api/publish-project",
            session_cookie(&token),
            "{\"title\":\"P\",\"content\":\"C\",\"link\":\"L\"}",
        ),
    );

    let projects_page = handle_request(&mut cx, &request(Method::Get, "/projects", vec![], ""));
    assert_eq!(projects_page.status, 200);
    match projects_page.body {
        ResponseBody::Page(pg) => {
            assert_eq!(pg.title, "Shiloh Antony John");
            assert_eq!(pg.sections.len(), 1);
            match &pg.sections[0] {
                Section::ProjectList(Ok(v)) => {
                    assert_eq!(v.len(), 1);
                    assert_eq!(v[0].title, "P");
                    assert_eq!(v[0].link, "L");
                },
                _ => panic!("the projects page carries one resolved project section"),
            }
        },
        _ => panic!("a page route renders a page"),
    }

    let admin_page = handle_request(
        &mut cx,
        &request(Method::Get, "/adminpanel", session_cookie(&token), ""),
    );
    match admin_page.body {
        ResponseBody::Page(pg) => {
            assert_eq!(pg.sections.len(), 2);
            assert!(matches!(&pg.sections[0], Section::ProjectList(Ok(_))));
            assert!(matches!(&pg.sections[1], Section::BlogList(Ok(_))));
        },
        _ => panic!("the admin page renders"),
    }
}

#[test]
fn a_failed_fetch_degrades_its_section_not_the_page() {
    let mut cx = context_without_store();
    let views = handle_request(&mut cx, &request(Method::Get, "/views", vec![], ""));
    assert_eq!(views.status, 200);
    match views.body {
        ResponseBody::Page(pg) => {
            assert_eq!(pg.sections.len(), 1);
            match &pg.sections[0] {
                Section::BlogList(Err(m)) => assert_eq!(m, "Database not provided"),
                _ => panic!("the data section degrades to its error message"),
            }
        },
        _ => panic!("the page still renders"),
    }
}

#[test]
fn unmatched_paths_fall_back_to_a_rendered_page() {
    let mut cx = context_with_store();
    let r = handle_request(&mut cx, &request(Method::Get, "/no/such/path", vec![], ""));
    assert_eq!(r.status, 200);
    match r.body {
        ResponseBody::Page(pg) => match &pg.sections[0] {
            Section::Fixed(m) => assert_eq!(m, "Page not found."),
            _ => panic!("the fallback page holds its notice"),
        },
        _ => panic!("the fallback renders a page"),
    }
}

#[test]
fn login_succeeds_without_a_store_handle() {
    let mut cx = context_without_store();
    let login = handle_request(
        &mut cx,
        &request(
            Method::Post,
            "/api/login",
            vec![],
            "{\"email\":\"test@example.com\",\"password\":\"password123\"}",
        ),
    );
    assert_eq!(login.status, 200);
    match login.body {
        ResponseBody::Message(m) => assert_eq!(m, "Login successful!"),
        _ => panic!("login answers with its message"),
    }
}
