//! The server-side remote operations: list, publish and delete, each bound
//! to one collection, invoked over the record store handle carried by the
//! per-request context.
use vstd::prelude::*;
use vstd::string::StringExecFns;
use crate::records::BlogPost;
use crate::records::BlogPostView;
use crate::records::BlogRecord;
use crate::records::BlogRecordView;
use crate::records::Project;
use crate::records::ProjectView;
use crate::records::ProjectRecord;
use crate::records::ProjectRecordView;
use crate::records::blog_collection;
use crate::records::lemma_collections_wf;
use crate::records::project_collection;
use crate::store::DocView;
use crate::store::RecordOut;
use crate::store::RecordOutView;
use crate::store::Store;
use crate::store::delete_spec;
use crate::store::list_spec;

verus! {

/// What a failed remote operation reports.
#[derive(Debug, Clone, PartialEq)]
pub enum ServerFnError {
    ServerError(String),
}

/// Site configuration carried alongside the store handle.
#[derive(Debug, Clone, PartialEq)]
pub struct SiteOptions {
    pub site_root: String,
    pub site_addr: String,
}

/// The ambient per-request dependencies: the record store handle and the
/// site configuration, one instance per request. A handler finding no
/// store handle here reports "Database not provided".
pub struct RequestContext {
    pub db: Option<Store>,
    pub options: SiteOptions,
}

impl RequestContext {
    /// Whether a store handle was provided.
    pub open spec fn has_db(self) -> bool {
        self.db is Some
    }

    /// The store's contents (meaningful only when a handle is present).
    pub open spec fn store_docs(self) -> Seq<DocView> {
        match self.db {
            Some(s) => s.docs_view(),
            None => Seq::empty(),
        }
    }

    /// The store's key counter (meaningful only when a handle is present).
    pub open spec fn store_next_key(self) -> nat {
        match self.db {
            Some(s) => s.next_key as nat,
            None => 0,
        }
    }

    /// Well-formedness: the store handle, if present, is well-formed.
    pub open spec fn wf(self) -> bool {
        match self.db {
            Some(s) => s.wf(),
            None => true,
        }
    }
}

/// How a stored record renders as a project: an absent link renders
/// empty.
pub open spec fn project_of_rec(r: RecordOutView) -> ProjectRecordView {
    ProjectRecordView {
        id: r.id,
        title: r.title,
        content: r.content,
        link: match r.link {
            Some(l) => l,
            None => Seq::empty(),
        },
    }
}

/// How a stored record renders as a blog post.
pub open spec fn blog_of_rec(r: RecordOutView) -> BlogRecordView {
    BlogRecordView { id: r.id, title: r.title, content: r.content }
}

/// All projects, as the list operation returns them.
pub open spec fn projects_of(docs: Seq<DocView>) -> Seq<ProjectRecordView> {
    list_spec(docs, project_collection()).map_values(|r: RecordOutView| project_of_rec(r))
}

/// All blog posts, as the list operation returns them.
pub open spec fn blogs_of(docs: Seq<DocView>) -> Seq<BlogRecordView> {
    list_spec(docs, blog_collection()).map_values(|r: RecordOutView| blog_of_rec(r))
}

fn no_db_error() -> (r: ServerFnError)
    ensures
        r matches ServerFnError::ServerError(m) && m@ == "Database not provided"@,
{
    ServerFnError::ServerError(String::from_str("Database not provided"))
}

/// Lists every project record; fails exactly when the context carries no
/// store handle.
pub fn get_projects(cx: &RequestContext) -> (r: Result<Vec<ProjectRecord>, ServerFnError>)
    requires
        cx.wf(),
    ensures
        match r {
            Ok(v) => cx.has_db() && v@.map_values(|p: ProjectRecord| p@) == projects_of(
                cx.store_docs(),
            ),
            Err(e) => !cx.has_db() && (e matches ServerFnError::ServerError(m) && m@
                == "Database not provided"@),
        },
{
    match &cx.db {
        None => Err(no_db_error()),
        Some(store) => {
            let recs: Vec<RecordOut> = store.list("project");
            let ghost target = projects_of(cx.store_docs());
            let mut out: Vec<ProjectRecord> = Vec::new();
            let mut i: usize = 0;
            while i < recs.len()
                invariant
                    recs@.map_values(|x: RecordOut| x@) == list_spec(
                        cx.store_docs(),
                        project_collection(),
                    ),
                    target == projects_of(cx.store_docs()),
                    0 <= i <= recs.len(),
                    out@.len() == i,
                    forall|k: int| 0 <= k < i ==> #[trigger] out@[k]@ == target[k],
                decreases recs.len() - i,
            {
                let d = &recs[i];
                let rec = ProjectRecord {
                    id: d.id.clone(),
                    title: d.title.clone(),
                    content: d.content.clone(),
                    link: match &d.link {
                        Some(l) => l.clone(),
                        None => String::new(),
                    },
                };
                proof {
                    assert(recs@.map_values(|x: RecordOut| x@)[i as int] == recs@[i as int]@);
                    assert(rec@ == project_of_rec(recs@[i as int]@));
                }
                out.push(rec);
                i = i + 1;
            }
            proof {
                assert(out@.map_values(|p: ProjectRecord| p@) =~= target);
            }
            Ok(out)
        },
    }
}

/// Lists every blog record; fails exactly when the context carries no
/// store handle.
pub fn get_blogs(cx: &RequestContext) -> (r: Result<Vec<BlogRecord>, ServerFnError>)
    requires
        cx.wf(),
    ensures
        match r {
            Ok(v) => cx.has_db() && v@.map_values(|p: BlogRecord| p@) == blogs_of(
                cx.store_docs(),
            ),
            Err(e) => !cx.has_db() && (e matches ServerFnError::ServerError(m) && m@
                == "Database not provided"@),
        },
{
    match &cx.db {
        None => Err(no_db_error()),
        Some(store) => {
            let recs: Vec<RecordOut> = store.list("blog_post");
            let ghost target = blogs_of(cx.store_docs());
            let mut out: Vec<BlogRecord> = Vec::new();
            let mut i: usize = 0;
            while i < recs.len()
                invariant
                    recs@.map_values(|x: RecordOut| x@) == list_spec(
                        cx.store_docs(),
                        blog_collection(),
                    ),
                    target == blogs_of(cx.store_docs()),
                    0 <= i <= recs.len(),
                    out@.len() == i,
                    forall|k: int| 0 <= k < i ==> #[trigger] out@[k]@ == target[k],
                decreases recs.len() - i,
            {
                let d = &recs[i];
                let rec = BlogRecord {
                    id: d.id.clone(),
                    title: d.title.clone(),
                    content: d.content.clone(),
                };
                proof {
                    assert(recs@.map_values(|x: RecordOut| x@)[i as int] == recs@[i as int]@);
                    assert(rec@ == blog_of_rec(recs@[i as int]@));
                }
                out.push(rec);
                i = i + 1;
            }
            proof {
                assert(out@.map_values(|p: BlogRecord| p@) =~= target);
            }
            Ok(out)
        },
    }
}

/// Deletes the project addressed by `id`; a best-effort delete that
/// succeeds as a no-op on an absent id and fails closed on an id from
/// another collection. Fails exactly when no store handle is present.
pub fn delete_project(cx: &mut RequestContext, id: &str) -> (r: Result<(), ServerFnError>)
    requires
        old(cx).wf(),
    ensures
        final(cx).wf(),
        final(cx).options == old(cx).options,
        final(cx).has_db() == old(cx).has_db(),
        final(cx).store_next_key() == old(cx).store_next_key(),
        match r {
            Ok(_) => old(cx).has_db() && final(cx).store_docs() == delete_spec(
                old(cx).store_docs(),
                project_collection(),
                id@,
            ),
            Err(e) => !old(cx).has_db() && *final(cx) == *old(cx) && (e
                matches ServerFnError::ServerError(m) && m@ == "Database not provided"@),
        },
{
    let mut taken: Option<Store> = None;
    core::mem::swap(&mut cx.db, &mut taken);
    match taken {
        None => Err(no_db_error()),
        Some(mut store) => {
            store.delete("project", id);
            cx.db = Some(store);
            Ok(())
        },
    }
}

/// Deletes the blog post addressed by `id`; a best-effort delete that
/// succeeds as a no-op on an absent id and fails closed on an id from
/// another collection. Fails exactly when no store handle is present.
pub fn delete_blog(cx: &mut RequestContext, id: &str) -> (r: Result<(), ServerFnError>)
    requires
        old(cx).wf(),
    ensures
        final(cx).wf(),
        final(cx).options == old(cx).options,
        final(cx).has_db() == old(cx).has_db(),
        final(cx).store_next_key() == old(cx).store_next_key(),
        match r {
            Ok(_) => old(cx).has_db() && final(cx).store_docs() == delete_spec(
                old(cx).store_docs(),
                blog_collection(),
                id@,
            ),
            Err(e) => !old(cx).has_db() && *final(cx) == *old(cx) && (e
                matches ServerFnError::ServerError(m) && m@ == "Database not provided"@),
        },
{
    let mut taken: Option<Store> = None;
    core::mem::swap(&mut cx.db, &mut taken);
    match taken {
        None => Err(no_db_error()),
        Some(mut store) => {
            store.delete("blog_post", id);
            cx.db = Some(store);
            Ok(())
        },
    }
}

/// The image of the document a blog payload persists as.
pub open spec fn blog_doc(payload: BlogPostView, key: nat) -> DocView {
    DocView {
        collection: blog_collection(),
        key,
        title: payload.title,
        content: payload.content,
        link: None,
    }
}

/// The image of the document a project payload persists as.
pub open spec fn project_doc(payload: ProjectView, key: nat) -> DocView {
    DocView {
        collection: project_collection(),
        key,
        title: payload.title,
        content: payload.content,
        link: Some(payload.link),
    }
}

/// Persists a blog payload under a fresh id. The payload is stored as
/// given — emptiness of title or content is not re-checked here, the
/// client validates before dispatch. Fails exactly when no store handle
/// is present or the store cannot persist.
pub fn publish_blog_post(cx: &mut RequestContext, payload: BlogPost) -> (r: Result<
    (),
    ServerFnError,
>)
    requires
        old(cx).wf(),
    ensures
        final(cx).wf(),
        final(cx).options == old(cx).options,
        final(cx).has_db() == old(cx).has_db(),
        match r {
            Ok(_) => {
                &&& old(cx).has_db()
                &&& old(cx).store_next_key() < u64::MAX as nat
                &&& final(cx).store_docs() == old(cx).store_docs().push(
                    blog_doc(payload@, old(cx).store_next_key()),
                )
                &&& final(cx).store_next_key() == old(cx).store_next_key() + 1
            },
            Err(e) => {
                &&& final(cx).store_docs() == old(cx).store_docs()
                &&& final(cx).store_next_key() == old(cx).store_next_key()
                &&& if old(cx).has_db() {
                    old(cx).store_next_key() == u64::MAX as nat && (e
                        matches ServerFnError::ServerError(m) && m@ == "Storage error"@)
                } else {
                    (e matches ServerFnError::ServerError(m) && m@ == "Database not provided"@)
                }
            },
        },
{
    let mut taken: Option<Store> = None;
    core::mem::swap(&mut cx.db, &mut taken);
    match taken {
        None => Err(no_db_error()),
        Some(mut store) => {
            proof {
                lemma_collections_wf();
            }
            let created = store.create("blog_post", payload.title, payload.content, None);
            cx.db = Some(store);
            match created {
                Ok(_) => Ok(()),
                Err(_) => Err(ServerFnError::ServerError(String::from_str("Storage error"))),
            }
        },
    }
}

/// Persists a project payload under a fresh id. The payload is stored as
/// given — emptiness of title or content is not re-checked here, the
/// client validates before dispatch. Fails exactly when no store handle
/// is present or the store cannot persist.
pub fn publish_project(cx: &mut RequestContext, payload: Project) -> (r: Result<
    (),
    ServerFnError,
>)
    requires
        old(cx).wf(),
    ensures
        final(cx).wf(),
        final(cx).options == old(cx).options,
        final(cx).has_db() == old(cx).has_db(),
        match r {
            Ok(_) => {
                &&& old(cx).has_db()
                &&& old(cx).store_next_key() < u64::MAX as nat
                &&& final(cx).store_docs() == old(cx).store_docs().push(
                    project_doc(payload@, old(cx).store_next_key()),
                )
                &&& final(cx).store_next_key() == old(cx).store_next_key() + 1
            },
            Err(e) => {
                &&& final(cx).store_docs() == old(cx).store_docs()
                &&& final(cx).store_next_key() == old(cx).store_next_key()
                &&& if old(cx).has_db() {
                    old(cx).store_next_key() == u64::MAX as nat && (e
                        matches ServerFnError::ServerError(m) && m@ == "Storage error"@)
                } else {
                    (e matches ServerFnError::ServerError(m) && m@ == "Database not provided"@)
                }
            },
        },
{
    let mut taken: Option<Store> = None;
    core::mem::swap(&mut cx.db, &mut taken);
    match taken {
        None => Err(no_db_error()),
        Some(mut store) => {
            proof {
                lemma_collections_wf();
            }
            let created = store.create(
                "project",
                payload.title,
                payload.content,
                Some(payload.link),
            );
            cx.db = Some(store);
            match created {
                Ok(_) => Ok(()),
                Err(_) => Err(ServerFnError::ServerError(String::from_str("Storage error"))),
            }
        },
    }
}

} // verus!
