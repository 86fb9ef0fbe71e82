//! The render pipeline's data layer.
//!
//! Each page is a tree of sections; a data-dependent section draws on the
//! record store through the per-request context and resolves on its own:
//! a failed fetch degrades that section to an inline error message without
//! aborting the rest of the page.
use vstd::prelude::*;
use vstd::string::StringExecFns;
use crate::records::BlogRecord;
use crate::records::BlogRecordView;
use crate::records::ProjectRecord;
use crate::records::ProjectRecordView;
use crate::routes::PagePath;
use crate::rpc::RequestContext;
use crate::rpc::ServerFnError;
use crate::rpc::blogs_of;
use crate::rpc::get_blogs;
use crate::rpc::get_projects;
use crate::rpc::projects_of;

verus! {

/// One rendered section: static copy, or a data-dependent part that
/// resolved to records or degraded to an inline error message.
pub enum Section {
    Fixed(String),
    ProjectList(Result<Vec<ProjectRecord>, String>),
    BlogList(Result<Vec<BlogRecord>, String>),
}

/// The mathematical image of a section.
pub enum SectionView {
    Fixed(Seq<char>),
    ProjectList(Result<Seq<ProjectRecordView>, Seq<char>>),
    BlogList(Result<Seq<BlogRecordView>, Seq<char>>),
}

impl View for Section {
    type V = SectionView;

    open spec fn view(&self) -> SectionView {
        match self {
            Section::Fixed(s) => SectionView::Fixed(s@),
            Section::ProjectList(r) => SectionView::ProjectList(
                match r {
                    Ok(v) => Ok(v@.map_values(|p: ProjectRecord| p@)),
                    Err(e) => Err(e@),
                },
            ),
            Section::BlogList(r) => SectionView::BlogList(
                match r {
                    Ok(v) => Ok(v@.map_values(|b: BlogRecord| b@)),
                    Err(e) => Err(e@),
                },
            ),
        }
    }
}

/// A page evaluated server-side, ready to stream.
pub struct RenderedPage {
    pub title: String,
    pub sections: Vec<Section>,
}

/// The site title every page carries.
pub open spec fn site_title() -> Seq<char> {
    "Shiloh Antony John"@
}

/// What the project fetch resolves to under a given context.
pub open spec fn project_fetch_spec(cx: RequestContext) -> Result<
    Seq<ProjectRecordView>,
    Seq<char>,
> {
    if cx.has_db() {
        Ok(projects_of(cx.store_docs()))
    } else {
        Err("Database not provided"@)
    }
}

/// What the blog fetch resolves to under a given context.
pub open spec fn blog_fetch_spec(cx: RequestContext) -> Result<Seq<BlogRecordView>, Seq<char>> {
    if cx.has_db() {
        Ok(blogs_of(cx.store_docs()))
    } else {
        Err("Database not provided"@)
    }
}

/// The sections each page resolves to: the content pages are static, the
/// project and blog pages each carry one data section, and the admin
/// panel carries both, each resolved independently.
pub open spec fn page_sections_spec(cx: RequestContext, page: PagePath) -> Seq<SectionView> {
    match page {
        PagePath::Projects => seq![SectionView::ProjectList(project_fetch_spec(cx))],
        PagePath::Views => seq![SectionView::BlogList(blog_fetch_spec(cx))],
        PagePath::AdminPanel => seq![
            SectionView::ProjectList(project_fetch_spec(cx)),
            SectionView::BlogList(blog_fetch_spec(cx)),
        ],
        _ => Seq::empty(),
    }
}

/// The sections of the fallback page, reached when no route and no static
/// asset matched.
pub open spec fn fallback_sections_spec() -> Seq<SectionView> {
    seq![SectionView::Fixed("Page not found."@)]
}

fn fetch_projects(cx: &RequestContext) -> (r: Result<Vec<ProjectRecord>, String>)
    requires
        cx.wf(),
    ensures
        (match r {
            Ok(v) => Ok(v@.map_values(|p: ProjectRecord| p@)),
            Err(e) => Err::<Seq<ProjectRecordView>, Seq<char>>(e@),
        }) == project_fetch_spec(*cx),
{
    match get_projects(cx) {
        Ok(v) => Ok(v),
        Err(e) => match e {
            ServerFnError::ServerError(m) => Err(m),
        },
    }
}

fn fetch_blogs(cx: &RequestContext) -> (r: Result<Vec<BlogRecord>, String>)
    requires
        cx.wf(),
    ensures
        (match r {
            Ok(v) => Ok(v@.map_values(|b: BlogRecord| b@)),
            Err(e) => Err::<Seq<BlogRecordView>, Seq<char>>(e@),
        }) == blog_fetch_spec(*cx),
{
    match get_blogs(cx) {
        Ok(v) => Ok(v),
        Err(e) => match e {
            ServerFnError::ServerError(m) => Err(m),
        },
    }
}

/// Evaluates the page tree for `page` under the request's context,
/// resolving each data-dependent section on its own.
pub fn render_page(cx: &RequestContext, page: PagePath) -> (r: RenderedPage)
    requires
        cx.wf(),
    ensures
        r.title@ == site_title(),
        r.sections@.map_values(|s: Section| s@) == page_sections_spec(*cx, page),
{
    let mut sections: Vec<Section> = Vec::new();
    match page {
        PagePath::Projects => {
            sections.push(Section::ProjectList(fetch_projects(cx)));
        },
        PagePath::Views => {
            sections.push(Section::BlogList(fetch_blogs(cx)));
        },
        PagePath::AdminPanel => {
            sections.push(Section::ProjectList(fetch_projects(cx)));
            sections.push(Section::BlogList(fetch_blogs(cx)));
        },
        _ => {},
    }
    proof {
        assert(sections@.map_values(|s: Section| s@) =~= page_sections_spec(*cx, page));
    }
    RenderedPage { title: String::from_str("Shiloh Antony John"), sections }
}

/// Evaluates the fallback page.
pub fn render_fallback() -> (r: RenderedPage)
    ensures
        r.title@ == site_title(),
        r.sections@.map_values(|s: Section| s@) == fallback_sections_spec(),
{
    let mut sections: Vec<Section> = Vec::new();
    sections.push(Section::Fixed(String::from_str("Page not found.")));
    proof {
        assert(sections@.map_values(|s: Section| s@) =~= fallback_sections_spec());
    }
    RenderedPage { title: String::from_str("Shiloh Antony John"), sections }
}

} // verus!
