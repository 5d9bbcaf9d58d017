//! The handlers of the HTML site.

use vstd::prelude::*;
use crate::common::base_paging_query::BasePagingQuery;
use crate::post::{Post, PostView};
use crate::protocol::{
    abort, aborts_with, ends_request, unexpected_event, unexpected_event_message, Action, Event, PageContext,
    Reply,
};
use crate::service::posts::controller::missing_value_message;

verus! {

/// Posts per page when the query does not say.
pub const DEFAULT_POSTS_PER_PAGE: u64 = 20;

/// The number of pages that `items` posts fill at `per_page` posts a page.
pub open spec fn page_count(items: nat, per_page: nat) -> nat
    recommends
        per_page > 0,
{
    items / per_page + if items % per_page > 0 { 1nat } else { 0nat }
}

/// Builds [`page_count`].
pub fn num_pages(items: u64, per_page: u64) -> (pages: u64)
    requires
        per_page > 0,
    ensures
        pages == page_count(items as nat, per_page as nat),
{
    let full = items / per_page;
    if items % per_page > 0 {
        proof {
            assert(full * per_page <= items) by (nonlinear_arith)
                requires
                    full == items / per_page,
                    per_page > 0,
            ;
            assert(full < items || full == 0) by (nonlinear_arith)
                requires
                    full == items / per_page,
                    per_page > 0,
                    items % per_page > 0,
            ;
        }
        full + 1
    } else {
        full
    }
}

/// Law: the pages cover every post, and none of them is empty: `pages`
/// pages hold at least `items` posts, and one page fewer would not.
pub proof fn lemma_page_count_is_least_cover(items: nat, per_page: nat)
    requires
        per_page > 0,
    ensures
        page_count(items, per_page) * per_page >= items,
        page_count(items, per_page) == 0 || (page_count(items, per_page) - 1) * per_page < items,
{
    let q = items / per_page;
    let r = items % per_page;
    assert(items == q * per_page + r) by (nonlinear_arith)
        requires
            q == items / per_page,
            r == items % per_page,
            per_page > 0,
    ;
    assert(r < per_page);
    if r > 0 {
        assert(page_count(items, per_page) == q + 1);
        assert((q + 1) * per_page == q * per_page + per_page) by (nonlinear_arith);
    } else {
        assert(page_count(items, per_page) == q);
        if q > 0 {
            assert((q - 1) * per_page == q * per_page - per_page) by (nonlinear_arith);
        }
    }
}

/// The template of each page.
pub open spec fn index_template() -> Seq<char> {
    "index.html.tera"@
}

/// Which write a save performs.
#[derive(Debug, Clone, Copy, PartialEq, Eq)]
pub enum Write {
    Insert,
    Update,
}

/// What follows a post lookup.
#[derive(Debug, Clone, Copy, PartialEq, Eq)]
pub enum AfterFind {
    /// Render the edit form.
    Edit,
    /// Delete the post.
    Delete,
}

/// Where a site request stands.
#[derive(Debug, Clone, Copy, PartialEq, Eq)]
pub enum SitePhase {
    /// Waiting for the number of posts.
    AwaitCount { page: u64, per_page: u64 },
    /// Waiting for the posts of the page.
    AwaitPage { page: u64, per_page: u64, num_pages: u64 },
    /// Waiting for a post looked up by id.
    AwaitFind { purpose: AfterFind },
    /// Waiting for a save.
    AwaitSave { write: Write },
    /// Waiting for a deletion.
    AwaitDelete,
    /// Waiting for a template.
    AwaitRender,
    /// The request is over.
    Finished,
}

/// One request to the site.
#[derive(Debug, Clone, PartialEq, Eq)]
pub struct SiteRun {
    pub phase: SitePhase,
}

/// The panic message of unwrapping a database error.
pub open spec fn database_error_message() -> Seq<char> {
    "called `Result::unwrap()` on an `Err` value"@
}

/// Whether `action` is the redirection to `/` that ends every write.
pub open spec fn redirects_home(action: Action) -> bool {
    action matches Action::Respond(Reply::Redirect(location)) && location@ == "/"@
}

impl SiteRun {
    /// The transition of this request on `event` to `next`, doing `action`.
    pub open spec fn steps_to(&self, event: Event, next: SiteRun, action: Action) -> bool {
        match self.phase {
            SitePhase::AwaitCount { page, per_page } => match event {
                Event::Counted(Some(items)) => if per_page == 0 {
                    &&& next.phase is Finished
                    &&& aborts_with(action, "attempt to divide by zero"@)
                } else if page == 0 {
                    &&& next.phase is Finished
                    &&& aborts_with(action, "attempt to subtract with overflow"@)
                } else {
                    &&& next.phase == SitePhase::AwaitPage {
                        page,
                        per_page,
                        num_pages: page_count(items as nat, per_page as nat) as u64,
                    }
                    &&& action == Action::FetchPage { pattern: None, page: (page - 1) as u64, page_size: per_page }
                },
                Event::Counted(None) => {
                    &&& next.phase is Finished
                    &&& aborts_with(action, missing_value_message())
                },
                _ => next.phase is Finished && aborts_with(action, unexpected_event_message()),
            },
            SitePhase::AwaitPage { page, per_page, num_pages } => match event {
                Event::PageFetched(Some(posts)) => {
                    &&& next.phase is AwaitRender
                    &&& action matches Action::Render {
                        template,
                        context: PageContext::Index { posts: shown, page: p, posts_per_page: s, num_pages: n },
                    }
                    &&& template@ == index_template()
                    &&& shown.deep_view() == posts.deep_view()
                    &&& p == page
                    &&& s == per_page
                    &&& n == num_pages
                },
                Event::PageFetched(None) => {
                    &&& next.phase is Finished
                    &&& aborts_with(action, "could not retrieve posts"@)
                },
                _ => next.phase is Finished && aborts_with(action, unexpected_event_message()),
            },
            SitePhase::AwaitFind { purpose } => match event {
                Event::PostFound(Some(Some(post))) => match purpose {
                    AfterFind::Edit => {
                        &&& next.phase is AwaitRender
                        &&& action matches Action::Render { template, context: PageContext::Edit { post: shown } }
                        &&& template@ == "edit.html.tera"@
                        &&& shown@ == post@
                    },
                    AfterFind::Delete => {
                        &&& next.phase is AwaitDelete
                        &&& action == Action::DeletePost { id: post.id }
                    },
                },
                Event::PostFound(Some(None)) => {
                    &&& next.phase is Finished
                    &&& aborts_with(action, missing_value_message())
                },
                Event::PostFound(None) => {
                    &&& next.phase is Finished
                    &&& match purpose {
                        AfterFind::Edit => aborts_with(action, "could not find post"@),
                        AfterFind::Delete => aborts_with(action, database_error_message()),
                    }
                },
                _ => next.phase is Finished && aborts_with(action, unexpected_event_message()),
            },
            SitePhase::AwaitSave { write } => {
                &&& next.phase is Finished
                &&& match event {
                    Event::Saved(true) => redirects_home(action),
                    Event::Saved(false) => match write {
                        Write::Insert => aborts_with(action, "could not insert post"@),
                        Write::Update => aborts_with(action, "could not edit post"@),
                    },
                    _ => aborts_with(action, unexpected_event_message()),
                }
            },
            SitePhase::AwaitDelete => {
                &&& next.phase is Finished
                &&& match event {
                    Event::Deleted(true) => redirects_home(action),
                    Event::Deleted(false) => aborts_with(action, database_error_message()),
                    _ => aborts_with(action, unexpected_event_message()),
                }
            },
            SitePhase::AwaitRender => {
                &&& next.phase is Finished
                &&& match event {
                    Event::Rendered(Some(body)) => action matches Action::Respond(Reply::Html(b))
                        && b@ == body@,
                    Event::Rendered(None) => action == Action::Respond(Reply::TemplateError),
                    _ => aborts_with(action, unexpected_event_message()),
                }
            },
            SitePhase::Finished => {
                &&& next.phase is Finished
                &&& aborts_with(action, unexpected_event_message())
            },
        }
    }

    /// Takes the request one step on `event`, as [`SiteRun::steps_to`] states.
    pub fn step(&mut self, event: Event) -> (action: Action)
        ensures
            old(self).steps_to(event, *final(self), action),
            final(self).phase is Finished <==> ends_request(action),
    {
        let phase = self.phase;
        self.phase = SitePhase::Finished;
        match phase {
            SitePhase::AwaitCount { page, per_page } => match event {
                Event::Counted(Some(items)) => if per_page == 0 {
                    abort("attempt to divide by zero")
                } else if page == 0 {
                    abort("attempt to subtract with overflow")
                } else {
                    let pages = num_pages(items, per_page);
                    self.phase = SitePhase::AwaitPage { page, per_page, num_pages: pages };
                    Action::FetchPage { pattern: None, page: page - 1, page_size: per_page }
                },
                Event::Counted(None) => abort("called `Option::unwrap()` on a `None` value"),
                _ => unexpected_event(),
            },
            SitePhase::AwaitPage { page, per_page, num_pages } => match event {
                Event::PageFetched(Some(posts)) => {
                    self.phase = SitePhase::AwaitRender;
                    render(
                        "index.html.tera",
                        PageContext::Index { posts, page, posts_per_page: per_page, num_pages },
                    )
                },
                Event::PageFetched(None) => abort("could not retrieve posts"),
                _ => unexpected_event(),
            },
            SitePhase::AwaitFind { purpose } => match event {
                Event::PostFound(Some(Some(post))) => match purpose {
                    AfterFind::Edit => {
                        self.phase = SitePhase::AwaitRender;
                        render("edit.html.tera", PageContext::Edit { post })
                    },
                    AfterFind::Delete => {
                        self.phase = SitePhase::AwaitDelete;
                        Action::DeletePost { id: post.id }
                    },
                },
                Event::PostFound(Some(None)) => abort("called `Option::unwrap()` on a `None` value"),
                Event::PostFound(None) => match purpose {
                    AfterFind::Edit => abort("could not find post"),
                    AfterFind::Delete => abort("called `Result::unwrap()` on an `Err` value"),
                },
                _ => unexpected_event(),
            },
            SitePhase::AwaitSave { write } => match event {
                Event::Saved(true) => redirect_home(),
                Event::Saved(false) => match write {
                    Write::Insert => abort("could not insert post"),
                    Write::Update => abort("could not edit post"),
                },
                _ => unexpected_event(),
            },
            SitePhase::AwaitDelete => match event {
                Event::Deleted(true) => redirect_home(),
                Event::Deleted(false) => abort("called `Result::unwrap()` on an `Err` value"),
                _ => unexpected_event(),
            },
            SitePhase::AwaitRender => match event {
                Event::Rendered(Some(body)) => Action::Respond(Reply::Html(body)),
                Event::Rendered(None) => Action::Respond(Reply::TemplateError),
                _ => unexpected_event(),
            },
            SitePhase::Finished => unexpected_event(),
        }
    }
}

fn owned(text: &str) -> (s: String)
    ensures
        s@ == text@,
{
    let mut s = String::new();
    s.append(text);
    proof {
        assert(s@ =~= text@);
    }
    s
}

fn render(template: &str, context: PageContext) -> (action: Action)
    ensures
        (action matches Action::Render { template: t, context: c } && t@ == template@ && c == context),
{
    Action::Render { template: owned(template), context }
}

fn redirect_home() -> (action: Action)
    ensures
        redirects_home(action),
{
    Action::Respond(Reply::Redirect(owned("/")))
}

/// Starts `GET /`: counts the posts to number the pages; page 1 and
/// [`DEFAULT_POSTS_PER_PAGE`] posts per page unless the query says otherwise.
/// The search text plays no part.
pub fn list(query: BasePagingQuery) -> (r: (SiteRun, Action))
    ensures
        r.0.phase == (SitePhase::AwaitCount {
            page: match query.page { Some(p) => p, None => 1 },
            per_page: match query.page_size { Some(s) => s, None => DEFAULT_POSTS_PER_PAGE },
        }),
        r.1 == Action::CountPosts,
{
    let page = match query.page {
        Some(p) => p,
        None => 1,
    };
    let per_page = match query.page_size {
        Some(s) => s,
        None => DEFAULT_POSTS_PER_PAGE,
    };
    (SiteRun { phase: SitePhase::AwaitCount { page, per_page } }, Action::CountPosts)
}

/// Starts `GET /new`: renders the empty form.
pub fn new() -> (r: (SiteRun, Action))
    ensures
        r.0.phase is AwaitRender,
        (r.1 matches Action::Render { template, context: PageContext::Blank } && template@ == "new.html.tera"@),
{
    (SiteRun { phase: SitePhase::AwaitRender }, render("new.html.tera", PageContext::Blank))
}

/// Starts `POST /`: inserts a post with the form's title and text under a
/// fresh id (the form's id plays no part).
pub fn create(form: Post) -> (r: (SiteRun, Action))
    ensures
        r.0.phase == (SitePhase::AwaitSave { write: Write::Insert }),
        (r.1 matches Action::InsertPost { title, text } && title@ == form.title@ && text@ == form.text@),
{
    (
        SiteRun { phase: SitePhase::AwaitSave { write: Write::Insert } },
        Action::InsertPost { title: form.title, text: form.text },
    )
}

/// Starts `GET /{id}`: looks the post up to render its edit form.
pub fn edit(id: i32) -> (r: (SiteRun, Action))
    ensures
        r.0.phase == (SitePhase::AwaitFind { purpose: AfterFind::Edit }),
        r.1 == (Action::FindPost { id }),
{
    (SiteRun { phase: SitePhase::AwaitFind { purpose: AfterFind::Edit } }, Action::FindPost { id })
}

/// Starts `POST /{id}`: overwrites the title and text of the post with the
/// id of the path (the form's id plays no part).
pub fn update(id: i32, form: Post) -> (r: (SiteRun, Action))
    ensures
        r.0.phase == (SitePhase::AwaitSave { write: Write::Update }),
        (r.1 matches Action::UpdatePost { id: i, title, text } && i == id && title@ == form.title@
            && text@ == form.text@),
{
    (
        SiteRun { phase: SitePhase::AwaitSave { write: Write::Update } },
        Action::UpdatePost { id, title: form.title, text: form.text },
    )
}

/// Starts `POST /delete/{id}`: looks the post up, then deletes it.
pub fn delete(id: i32) -> (r: (SiteRun, Action))
    ensures
        r.0.phase == (SitePhase::AwaitFind { purpose: AfterFind::Delete }),
        r.1 == (Action::FindPost { id }),
{
    (SiteRun { phase: SitePhase::AwaitFind { purpose: AfterFind::Delete } }, Action::FindPost { id })
}

/// Starts the answer to a path that matched no route: renders the 404 page
/// with the path (the response status stays 200).
pub fn not_found(uri: String) -> (r: (SiteRun, Action))
    ensures
        r.0.phase is AwaitRender,
        (r.1 matches Action::Render { template, context: PageContext::NotFound { uri: u } }
            && template@ == "error/404.html.tera"@ && u@ == uri@),
{
    (SiteRun { phase: SitePhase::AwaitRender }, render("error/404.html.tera", PageContext::NotFound { uri }))
}

/// The rows, by id, after the database carries out `action`: an update
/// gives its row the new title and text and keeps its id; other actions
/// leave the rows as they are.
pub open spec fn after_write(rows: Map<i32, PostView>, action: Action) -> Map<i32, PostView> {
    match action {
        Action::UpdatePost { id, title, text } => rows.insert(
            id,
            PostView { id, title: title@, text: text@ },
        ),
        _ => rows,
    }
}

/// Whether `(run, action)` is what [`update`] starts with for `id` and `form`.
pub open spec fn starts_update(id: i32, form: Post, run: SiteRun, action: Action) -> bool {
    &&& run.phase == (SitePhase::AwaitSave { write: Write::Update })
    &&& action matches Action::UpdatePost { id: i, title, text }
    &&& i == id
    &&& title@ == form.title@
    &&& text@ == form.text@
}

/// Law: after an update of post `id` succeeded, editing that post renders
/// the form with the updated title and text under the same id (whatever id
/// the update's form carried), given that the database answers the lookup
/// with the row it holds.
pub proof fn lemma_edit_shows_update(
    rows: Map<i32, PostView>,
    id: i32,
    form: Post,
    updating: SiteRun,
    write: Action,
    editing: SiteRun,
    found: Post,
    shown: SiteRun,
    render: Action,
)
    requires
        rows.contains_key(id),
        starts_update(id, form, updating, write),
        editing.phase == (SitePhase::AwaitFind { purpose: AfterFind::Edit }),
        found@ == after_write(rows, write)[id],
        editing.steps_to(Event::PostFound(Some(Some(found))), shown, render),
    ensures
        render matches Action::Render { template, context: PageContext::Edit { post } }
            && template@ == "edit.html.tera"@ && post@ == (PostView { id, title: form.title@, text: form.text@ }),
{
}

/// Law: updating a post twice with the same form leaves the rows as one
/// update does, and both requests redirect to `/` (the row exists, so both
/// saves succeed).
pub proof fn lemma_update_idempotent(
    rows: Map<i32, PostView>,
    id: i32,
    form: Post,
    first: SiteRun,
    first_write: Action,
    first_done: SiteRun,
    first_reply: Action,
    second: SiteRun,
    second_write: Action,
    second_done: SiteRun,
    second_reply: Action,
)
    requires
        rows.contains_key(id),
        starts_update(id, form, first, first_write),
        first.steps_to(Event::Saved(true), first_done, first_reply),
        starts_update(id, form, second, second_write),
        second.steps_to(Event::Saved(true), second_done, second_reply),
    ensures
        after_write(after_write(rows, first_write), second_write) == after_write(rows, first_write),
        redirects_home(first_reply),
        redirects_home(second_reply),
{
    assert(after_write(after_write(rows, first_write), second_write) =~= after_write(rows, first_write));
}


proof fn lemma_page_count_at_most_items(items: nat, per_page: nat)
    requires
        per_page > 0,
    ensures
        page_count(items, per_page) <= items,
{
    let q = items / per_page;
    let r = items % per_page;
    assert(items == q * per_page + r && q <= q * per_page) by (nonlinear_arith)
        requires
            q == items / per_page,
            r == items % per_page,
            per_page > 0,
    ;
}

/// Law: the site's index shows the requested page and the number of pages
/// the stored posts fill: after counting `items` posts and fetching database
/// page `page - 1`, the rendered `num_pages` is the least page count that
/// covers every post (`num_pages * per_page >= items`, and one page fewer
/// would not), and the fetched posts are shown as fetched.
pub proof fn lemma_index_counts_least_pages(
    page: u64,
    per_page: u64,
    run: SiteRun,
    items: u64,
    counted: SiteRun,
    fetch: Action,
    posts: Vec<Post>,
    rendering: SiteRun,
    render: Action,
)
    requires
        page >= 1,
        per_page > 0,
        run.phase == (SitePhase::AwaitCount { page, per_page }),
        run.steps_to(Event::Counted(Some(items)), counted, fetch),
        counted.steps_to(Event::PageFetched(Some(posts)), rendering, render),
    ensures
        fetch == (Action::FetchPage { pattern: None, page: (page - 1) as u64, page_size: per_page }),
        render matches Action::Render {
            template,
            context: PageContext::Index { posts: shown, page: p, posts_per_page: s, num_pages: n },
        } && template@ == "index.html.tera"@ && shown.deep_view() == posts.deep_view() && p == page
            && s == per_page && n * per_page >= items && (n == 0 || (n - 1) * per_page < items),
{
    lemma_page_count_is_least_cover(items as nat, per_page as nat);
    lemma_page_count_at_most_items(items as nat, per_page as nat);
}

/// Law: a deletion deletes the post that was asked for: when the lookup of
/// the requested id finds a post with that id, the deletion targets that id.
pub proof fn lemma_delete_removes_requested_post(
    requested: i32,
    run: SiteRun,
    found: Post,
    next: SiteRun,
    action: Action,
)
    requires
        run.phase == (SitePhase::AwaitFind { purpose: AfterFind::Delete }),
        found.id == requested,
        run.steps_to(Event::PostFound(Some(Some(found))), next, action),
    ensures
        action matches Action::DeletePost { id } && id == requested,
        next.phase is AwaitDelete,
{
}


/// Law: every write that succeeds ends with a redirection to `/`.
pub proof fn lemma_writes_redirect_home(run: SiteRun, event: Event, next: SiteRun, action: Action)
    requires
        (run.phase is AwaitSave && event == Event::Saved(true)) || (run.phase is AwaitDelete && event
            == Event::Deleted(true)),
        run.steps_to(event, next, action),
    ensures
        action matches Action::Respond(Reply::Redirect(location)) && location@ == seq!['/'],
        next.phase is Finished,
{
    reveal_strlit("/");
}

/// Law: a rendered page is answered as rendered, and a failed render is
/// answered with the template error.
pub proof fn lemma_render_answers_page(run: SiteRun, rendered: Option<String>, next: SiteRun, action: Action)
    requires
        run.phase is AwaitRender,
        run.steps_to(Event::Rendered(rendered), next, action),
    ensures
        rendered matches Some(body) ==> (action matches Action::Respond(Reply::Html(b)) && b@ == body@),
        rendered is None ==> action == Action::Respond(Reply::TemplateError),
{
}

} // verus!
