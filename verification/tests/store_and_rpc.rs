use shilohnova::rpc::delete_blog;
use shilohnova::rpc::delete_project;
use shilohnova::rpc::get_blogs;
use shilohnova::rpc::get_projects;
use shilohnova::rpc::publish_blog_post;
use shilohnova::rpc::publish_project;
use shilohnova::rpc::RequestContext;
use shilohnova::rpc::ServerFnError;
use shilohnova::rpc::SiteOptions;
use shilohnova::records::BlogPost;
use shilohnova::records::Project;
use shilohnova::store::Store;

fn options() -> SiteOptions {
    SiteOptions { site_root: "target/site".to_string(), site_addr: "127.0.0.1:3000".to_string() }
}

fn context_with_store() -> RequestContext {
    RequestContext { db: Some(Store::new()), options: options() }
}

fn context_without_store() -> RequestContext {
    RequestContext { db: None, options: options() }
}

#[test]
fn list_of_fresh_store_is_empty_not_an_error() {
    let cx = context_with_store();
    let projects = get_projects(&cx).expect("list never fails with a store present");
    assert!(projects.is_empty());
    let blogs = get_blogs(&cx).expect("list never fails with a store present");
    assert!(blogs.is_empty());
}

#[test]
fn list_without_store_reports_missing_database() {
    let cx = context_without_store();
    match get_projects(&cx) {
        Err(ServerFnError::ServerError(m)) => assert_eq!(m, "Database not provided"),
        Ok(_) => panic!("no store handle was provided"),
    }
    assert!(get_blogs(&cx).is_err());
}

#[test]
fn create_returns_record_with_collection_scoped_id() {
    let mut cx = context_with_store();
    publish_blog_post(
        &mut cx,
        BlogPost { title: "A".to_string(), content: "B".to_string() },
    )
    .expect("publish succeeds with a store present");
    let blogs = get_blogs(&cx).unwrap();
    assert_eq!(blogs.len(), 1);
    assert_eq!(blogs[0].title, "A");
    assert_eq!(blogs[0].content, "B");
    assert!(!blogs[0].id.is_empty());
    assert!(blogs[0].id.starts_with("blog_post:"));
    // The very first record drawn from a fresh store gets key zero.
    assert_eq!(blogs[0].id, "blog_post:0");
}

#[test]
fn created_ids_are_distinct() {
    let mut cx = context_with_store();
    for i in 0..5 {
        publish_blog_post(
            &mut cx,
            BlogPost { title: format!("t{i}"), content: "c".to_string() },
        )
        .unwrap();
    }
    let blogs = get_blogs(&cx).unwrap();
    assert_eq!(blogs.len(), 5);
    for i in 0..5 {
        for j in (i + 1)..5 {
            assert_ne!(blogs[i].id, blogs[j].id);
        }
    }
}

#[test]
fn project_records_keep_their_link() {
    let mut cx = context_with_store();
    publish_project(
        &mut cx,
        Project {
            title: "P".to_string(),
            content: "C".to_string(),
            link: "https://example.com".to_string(),
        },
    )
    .unwrap();
    let projects = get_projects(&cx).unwrap();
    assert_eq!(projects.len(), 1);
    assert_eq!(projects[0].link, "https://example.com");
    assert!(projects[0].id.starts_with("project:"));
}

#[test]
fn delete_removes_the_addressed_record() {
    let mut cx = context_with_store();
    publish_blog_post(
        &mut cx,
        BlogPost { title: "gone".to_string(), content: "soon".to_string() },
    )
    .unwrap();
    let id = get_blogs(&cx).unwrap()[0].id.clone();
    delete_blog(&mut cx, &id).expect("delete succeeds");
    assert!(get_blogs(&cx).unwrap().is_empty());
}

#[test]
fn delete_is_idempotent() {
    let mut cx = context_with_store();
    publish_blog_post(
        &mut cx,
        BlogPost { title: "t".to_string(), content: "c".to_string() },
    )
    .unwrap();
    let id = get_blogs(&cx).unwrap()[0].id.clone();
    delete_blog(&mut cx, &id).expect("first delete succeeds");
    delete_blog(&mut cx, &id).expect("deleting an absent id still succeeds");
    delete_blog(&mut cx, "blog_post:12345").expect("deleting a never-created id succeeds");
    assert!(get_blogs(&cx).unwrap().is_empty());
}

#[test]
fn delete_with_cross_collection_id_fails_closed() {
    let mut cx = context_with_store();
    publish_blog_post(
        &mut cx,
        BlogPost { title: "keep".to_string(), content: "me".to_string() },
    )
    .unwrap();
    let blog_id = get_blogs(&cx).unwrap()[0].id.clone();

    // The blog record's id handed to the project delete must not remove
    // anything, least of all the blog record.
    delete_project(&mut cx, &blog_id).expect("delete still reports success");
    assert_eq!(get_blogs(&cx).unwrap().len(), 1);
    assert!(get_projects(&cx).unwrap().is_empty());
}

#[test]
fn delete_accepts_a_bare_suffix() {
    let mut cx = context_with_store();
    publish_project(
        &mut cx,
        Project {
            title: "p".to_string(),
            content: "c".to_string(),
            link: String::new(),
        },
    )
    .unwrap();
    let id = get_projects(&cx).unwrap()[0].id.clone();
    let suffix = id.split(':').nth(1).unwrap().to_string();
    delete_project(&mut cx, &suffix).unwrap();
    assert!(get_projects(&cx).unwrap().is_empty());
}

#[test]
fn deletes_only_touch_their_own_collection() {
    let mut cx = context_with_store();
    publish_blog_post(
        &mut cx,
        BlogPost { title: "b".to_string(), content: "c".to_string() },
    )
    .unwrap();
    publish_project(
        &mut cx,
        Project { title: "p".to_string(), content: "c".to_string(), link: String::new() },
    )
    .unwrap();
    let project_id = get_projects(&cx).unwrap()[0].id.clone();
    delete_project(&mut cx, &project_id).unwrap();
    assert!(get_projects(&cx).unwrap().is_empty());
    assert_eq!(get_blogs(&cx).unwrap().len(), 1);
}

#[test]
fn publish_without_store_fails() {
    let mut cx = context_without_store();
    let r = publish_blog_post(
        &mut cx,
        BlogPost { title: "t".to_string(), content: "c".to_string() },
    );
    match r {
        Err(ServerFnError::ServerError(m)) => assert_eq!(m, "Database not provided"),
        Ok(_) => panic!("no store handle was provided"),
    }
    let r = publish_project(
        &mut cx,
        Project { title: "t".to_string(), content: "c".to_string(), link: String::new() },
    );
    match r {
        Err(ServerFnError::ServerError(m)) => assert_eq!(m, "Database not provided"),
        Ok(_) => panic!("no store handle was provided"),
    }
    match delete_blog(&mut cx, "blog_post:0") {
        Err(ServerFnError::ServerError(m)) => assert_eq!(m, "Database not provided"),
        Ok(_) => panic!("no store handle was provided"),
    }
    match delete_project(&mut cx, "project:0") {
        Err(ServerFnError::ServerError(m)) => assert_eq!(m, "Database not provided"),
        Ok(_) => panic!("no store handle was provided"),
    }
}
