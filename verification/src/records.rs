//! The client-facing data shapes: creation payloads (no id — the server
//! assigns one at persistence time) and stored records (id filled in).
use vstd::prelude::*;
use crate::ids::sep_free;

verus! {

/// The name of the blog collection.
pub open spec fn blog_collection() -> Seq<char> {
    "blog_post"@
}

/// The name of the project collection.
pub open spec fn project_collection() -> Seq<char> {
    "project"@
}

/// The two collection names hold no id separator and differ.
pub proof fn lemma_collections_wf()
    ensures
        sep_free(blog_collection()),
        sep_free(project_collection()),
        blog_collection() != project_collection(),
{
    reveal_strlit("blog_post");
    reveal_strlit("project");
    assert forall|i: int| 0 <= i < blog_collection().len() implies blog_collection()[i] != ':' by {
        assert(blog_collection().len() == 9);
    }
    assert forall|i: int|
        0 <= i < project_collection().len() implies project_collection()[i] != ':' by {
        assert(project_collection().len() == 7);
    }
    assert(blog_collection().len() != project_collection().len());
}

/// A blog post as submitted for publication.
#[derive(Debug, Clone, PartialEq)]
pub struct BlogPost {
    pub title: String,
    pub content: String,
}

/// A persisted blog post.
#[derive(Debug, Clone, PartialEq)]
pub struct BlogRecord {
    pub id: String,
    pub title: String,
    pub content: String,
}

/// A project as submitted for publication.
#[derive(Debug, Clone, PartialEq)]
pub struct Project {
    pub title: String,
    pub content: String,
    pub link: String,
}

/// A persisted project.
#[derive(Debug, Clone, PartialEq)]
pub struct ProjectRecord {
    pub id: String,
    pub title: String,
    pub content: String,
    pub link: String,
}

/// The mathematical image of a blog payload.
pub struct BlogPostView {
    pub title: Seq<char>,
    pub content: Seq<char>,
}

/// The mathematical image of a persisted blog post.
pub struct BlogRecordView {
    pub id: Seq<char>,
    pub title: Seq<char>,
    pub content: Seq<char>,
}

/// The mathematical image of a project payload.
pub struct ProjectView {
    pub title: Seq<char>,
    pub content: Seq<char>,
    pub link: Seq<char>,
}

/// The mathematical image of a persisted project.
pub struct ProjectRecordView {
    pub id: Seq<char>,
    pub title: Seq<char>,
    pub content: Seq<char>,
    pub link: Seq<char>,
}

impl View for BlogPost {
    type V = BlogPostView;

    open spec fn view(&self) -> BlogPostView {
        BlogPostView { title: self.title@, content: self.content@ }
    }
}

impl View for BlogRecord {
    type V = BlogRecordView;

    open spec fn view(&self) -> BlogRecordView {
        BlogRecordView { id: self.id@, title: self.title@, content: self.content@ }
    }
}

impl View for Project {
    type V = ProjectView;

    open spec fn view(&self) -> ProjectView {
        ProjectView { title: self.title@, content: self.content@, link: self.link@ }
    }
}

impl View for ProjectRecord {
    type V = ProjectRecordView;

    open spec fn view(&self) -> ProjectRecordView {
        ProjectRecordView {
            id: self.id@,
            title: self.title@,
            content: self.content@,
            link: self.link@,
        }
    }
}

} // verus!
