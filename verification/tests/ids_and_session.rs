use shilohnova::ids::compose_id;
use shilohnova::ids::decompose_id;
use shilohnova::ids::u64_to_dec;
use shilohnova::routes::classify;
use shilohnova::routes::is_protected;
use shilohnova::routes::Method;
use shilohnova::routes::PagePath;
use shilohnova::routes::Route;
use shilohnova::session::authorize;
use shilohnova::session::login;
use shilohnova::session::AuthState;
use shilohnova::session::CookiePair;

fn cookie(name: &str, value: &str) -> CookiePair {
    CookiePair { name: name.to_string(), value: value.to_string() }
}

#[test]
fn decimal_rendering() {
    assert_eq!(u64_to_dec(0), "0");
    assert_eq!(u64_to_dec(7), "7");
    assert_eq!(u64_to_dec(10), "10");
    assert_eq!(u64_to_dec(12345), "12345");
    assert_eq!(u64_to_dec(u64::MAX), "18446744073709551615");
}

#[test]
fn id_compose_and_decompose_round_trip() {
    let id = compose_id("project", "41");
    assert_eq!(id, "project:41");
    let parts = decompose_id(&id).expect("a composed id decomposes");
    assert_eq!(parts.0, "project");
    assert_eq!(parts.1, "41");
}

#[test]
fn id_decompose_splits_at_first_separator() {
    let parts = decompose_id("a:b:c").expect("has a separator");
    assert_eq!(parts.0, "a");
    assert_eq!(parts.1, "b:c");
}

#[test]
fn id_without_separator_does_not_decompose() {
    assert!(decompose_id("justasuffix").is_none());
    assert!(decompose_id("").is_none());
}

#[test]
fn login_with_correct_credentials_returns_token() {
    let token = login("test@example.com", "password123").expect("the fixed pair logs in");
    assert_eq!(token, "mock_session_token_123");
}

#[test]
fn login_with_wrong_password_is_unauthorized() {
    assert!(login("test@example.com", "wrong").is_err());
    assert!(login("other@example.com", "password123").is_err());
    assert!(login("", "").is_err());
}

#[test]
fn authorize_accepts_only_the_token() {
    let good = vec![cookie("session_token", "mock_session_token_123")];
    assert_eq!(authorize(&good), AuthState::Authenticated);

    let wrong_value = vec![cookie("session_token", "forged")];
    assert_eq!(authorize(&wrong_value), AuthState::Anonymous);

    let wrong_name = vec![cookie("other_cookie", "mock_session_token_123")];
    assert_eq!(authorize(&wrong_name), AuthState::Anonymous);

    let empty: Vec<CookiePair> = Vec::new();
    assert_eq!(authorize(&empty), AuthState::Anonymous);
}

#[test]
fn authorize_finds_the_cookie_among_others() {
    let jar = vec![
        cookie("theme", "dark"),
        cookie("session_token", "mock_session_token_123"),
        cookie("lang", "en"),
    ];
    assert_eq!(authorize(&jar), AuthState::Authenticated);
}

#[test]
fn route_table_post_routes() {
    assert!(matches!(classify(Method::Post, "/api/login"), Route::LoginApi));
    assert!(matches!(classify(Method::Post, "/api/publish-blog"), Route::PublishBlog));
    assert!(matches!(classify(Method::Post, "/api/publish-project"), Route::PublishProject));
    match classify(Method::Post, "/api/admin/delete-project") {
        Route::AdminRpc(name) => assert_eq!(name, "delete-project"),
        _ => panic!("expected the protected rpc group"),
    }
    match classify(Method::Post, "/api/list-blogs") {
        Route::PublicRpc(name) => assert_eq!(name, "list-blogs"),
        _ => panic!("expected the public rpc group"),
    }
    assert!(matches!(classify(Method::Post, "/elsewhere"), Route::Fallback));
}

#[test]
fn route_table_get_routes() {
    assert!(matches!(classify(Method::Get, "/"), Route::Page(PagePath::Home)));
    assert!(matches!(classify(Method::Get, "/projects"), Route::Page(PagePath::Projects)));
    assert!(matches!(classify(Method::Get, "/views"), Route::Page(PagePath::Views)));
    assert!(matches!(classify(Method::Get, "/contacts"), Route::Page(PagePath::Contacts)));
    assert!(matches!(classify(Method::Get, "/login"), Route::Page(PagePath::Login)));
    assert!(matches!(classify(Method::Get, "/adminpanel"), Route::Page(PagePath::AdminPanel)));
    assert!(matches!(classify(Method::Get, "/missing"), Route::Fallback));
}

#[test]
fn protected_group_is_admin_surface_only() {
    assert!(is_protected(&classify(Method::Post, "/api/publish-blog")));
    assert!(is_protected(&classify(Method::Post, "/api/publish-project")));
    assert!(is_protected(&classify(Method::Post, "/api/admin/delete-blog")));
    assert!(is_protected(&classify(Method::Get, "/adminpanel")));

    assert!(!is_protected(&classify(Method::Post, "/api/login")));
    assert!(!is_protected(&classify(Method::Post, "/api/list-projects")));
    assert!(!is_protected(&classify(Method::Get, "/")));
    assert!(!is_protected(&classify(Method::Get, "/projects")));
    assert!(!is_protected(&classify(Method::Get, "/missing")));
}
