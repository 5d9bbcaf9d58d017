//! A paged, searchable listing of posts served through the cache: look the
//! page up in the cache; on a hit answer with the cached posts; on a miss
//! fetch the page from the database, store it in the cache for
//! [`CACHE_TTL_SECONDS`], and answer with it.

use vstd::prelude::*;
use vstd::utf8::{decode_utf8, valid_utf8};
use crate::cache::{paging_cache_key, paging_key, CACHE_TTL_SECONDS};
use crate::post::{copy_posts, Post, PostView};
use crate::root::controller::{lemma_page_count_is_least_cover, page_count};
use crate::protocol::{
    abort, aborts_with, contains_pattern, ends_request, like_pattern, unexpected_event,
    unexpected_event_message, utf8_text, Action, CacheReply, Event, Reply,
};

verus! {

/// Posts per page when the query does not say.
pub const DEFAULT_PAGE_SIZE: u64 = 20;

/// Where a listing stands.
#[derive(Debug, Clone, PartialEq, Eq)]
pub enum PagingPhase {
    /// Waiting for the cache lookup.
    AwaitLookup,
    /// Waiting for the cached text to be read as posts.
    AwaitDecode,
    /// Waiting for the page from the database.
    AwaitPage,
    /// Waiting for the cache to store these fetched posts.
    AwaitStore { posts: Vec<Post> },
    /// The request is over.
    Finished,
}

/// One listing request.
#[derive(Debug, Clone, PartialEq, Eq)]
pub struct PagingRun {
    /// The requested page number.
    pub page: u64,
    /// The number of posts per page.
    pub page_size: u64,
    /// The text that listed posts contain in their title or text.
    pub search: String,
    /// The cache key of this query.
    pub key: String,
    /// The page number of the first page.
    pub first_page: u64,
    /// Whether a failed cache lookup panics (else it counts as a miss).
    pub lookup_faults_abort: bool,
    pub phase: PagingPhase,
}

/// The panic message of a page number below the first page.
pub open spec fn page_underflow_message() -> Seq<char> {
    "attempt to subtract with overflow"@
}

/// The panic message of cached text that is not JSON posts.
pub open spec fn bad_json_message() -> Seq<char> {
    "called `Result::unwrap()` on an `Err` value"@
}

impl PagingRun {
    /// The key is the cache key of the query.
    pub open spec fn wf(&self) -> bool {
        self.key@ == paging_key(self.page, self.page_size, self.search@)
    }

    /// Same query, same key, same settings.
    pub open spec fn same_query(&self, other: &PagingRun) -> bool {
        &&& other.page == self.page
        &&& other.page_size == self.page_size
        &&& other.search@ == self.search@
        &&& other.key@ == self.key@
        &&& other.first_page == self.first_page
        &&& other.lookup_faults_abort == self.lookup_faults_abort
    }

    /// What a cache miss leads to: the page fetch, or a panic when the page
    /// number lies below the first page.
    pub open spec fn on_miss(&self, next: PagingRun, action: Action) -> bool {
        if self.page < self.first_page {
            &&& next.phase is Finished
            &&& aborts_with(action, page_underflow_message())
        } else {
            &&& next.phase is AwaitPage
            &&& action matches Action::FetchPage { pattern: Some(p), page, page_size }
            &&& p@ == like_pattern(self.search@)
            &&& page == self.page - self.first_page
            &&& page_size == self.page_size
        }
    }

    /// The transition of this run on `event` to `next`, doing `action`.
    pub open spec fn steps_to(&self, event: Event, next: PagingRun, action: Action) -> bool {
        &&& self.same_query(&next)
        &&& match self.phase {
            PagingPhase::AwaitLookup => match event {
                Event::CacheAnswered(CacheReply::Bulk(bytes)) => if valid_utf8(bytes@) {
                    &&& next.phase is AwaitDecode
                    &&& action matches Action::DecodePosts { text }
                    &&& text@ == decode_utf8(bytes@)
                } else {
                    &&& next.phase is Finished
                    &&& aborts_with(action, "Invalid UTF-8!"@)
                },
                Event::CacheAnswered(CacheReply::Other) => self.on_miss(next, action),
                Event::CacheRejected => if self.lookup_faults_abort {
                    &&& next.phase is Finished
                    &&& aborts_with(action, "Can't get posts cache"@)
                } else {
                    self.on_miss(next, action)
                },
                Event::CacheUnreachable => if self.lookup_faults_abort {
                    &&& next.phase is Finished
                    &&& aborts_with(action, "Error getting post cache"@)
                } else {
                    self.on_miss(next, action)
                },
                _ => next.phase is Finished && aborts_with(action, unexpected_event_message()),
            },
            PagingPhase::AwaitDecode => match event {
                Event::PostsDecoded(Some(posts)) => {
                    &&& next.phase is Finished
                    &&& action matches Action::Respond(Reply::Posts(r))
                    &&& r.deep_view() == posts.deep_view()
                },
                Event::PostsDecoded(None) => {
                    &&& next.phase is Finished
                    &&& aborts_with(action, bad_json_message())
                },
                _ => next.phase is Finished && aborts_with(action, unexpected_event_message()),
            },
            PagingPhase::AwaitPage => match event {
                Event::PageFetched(Some(posts)) => {
                    &&& next.phase matches PagingPhase::AwaitStore { posts: kept }
                    &&& kept.deep_view() == posts.deep_view()
                    &&& action matches Action::CacheSetPosts { key, seconds, posts: stored }
                    &&& key@ == self.key@
                    &&& seconds == CACHE_TTL_SECONDS
                    &&& stored.deep_view() == posts.deep_view()
                },
                Event::PageFetched(None) => {
                    &&& next.phase is Finished
                    &&& aborts_with(action, "could not retrieve posts"@)
                },
                _ => next.phase is Finished && aborts_with(action, unexpected_event_message()),
            },
            PagingPhase::AwaitStore { posts: kept } => match event {
                Event::CacheAnswered(_) => {
                    &&& next.phase is Finished
                    &&& action matches Action::Respond(Reply::Posts(r))
                    &&& r.deep_view() == kept.deep_view()
                },
                Event::CacheRejected => {
                    &&& next.phase is Finished
                    &&& aborts_with(action, "Can't get cache set result"@)
                },
                Event::CacheUnreachable => {
                    &&& next.phase is Finished
                    &&& aborts_with(action, "Error setting posts cache"@)
                },
                _ => next.phase is Finished && aborts_with(action, unexpected_event_message()),
            },
            PagingPhase::Finished => {
                &&& next.phase is Finished
                &&& aborts_with(action, unexpected_event_message())
            },
        }
    }

    /// Starts a listing of page `page` of `page_size` posts that contain
    /// `search`: looks the query's key up in the cache.
    pub fn begin(
        page: u64,
        page_size: u64,
        search: String,
        first_page: u64,
        lookup_faults_abort: bool,
    ) -> (r: (PagingRun, Action))
        ensures
            r.0.page == page,
            r.0.page_size == page_size,
            r.0.search@ == search@,
            r.0.first_page == first_page,
            r.0.lookup_faults_abort == lookup_faults_abort,
            r.0.wf(),
            r.0.phase is AwaitLookup,
            r.1 matches Action::CacheGet { key } && key@ == paging_key(page, page_size, search@),
    {
        let key = paging_cache_key(page, page_size, search.as_str());
        let lookup = key.clone();
        let run = PagingRun {
            page,
            page_size,
            search,
            key,
            first_page,
            lookup_faults_abort,
            phase: PagingPhase::AwaitLookup,
        };
        (run, Action::CacheGet { key: lookup })
    }

    fn miss(&mut self) -> (action: Action)
        ensures
            old(self).same_query(final(self)),
            old(self).on_miss(*final(self), action),
    {
        if self.page < self.first_page {
            self.phase = PagingPhase::Finished;
            abort("attempt to subtract with overflow")
        } else {
            self.phase = PagingPhase::AwaitPage;
            Action::FetchPage {
                pattern: Some(contains_pattern(self.search.as_str())),
                page: self.page - self.first_page,
                page_size: self.page_size,
            }
        }
    }

    /// Takes the run one step on `event`, as [`PagingRun::steps_to`] states.
    /// Every key this run writes to is the key of its query.
    pub fn step(&mut self, event: Event) -> (action: Action)
        ensures
            old(self).steps_to(event, *final(self), action),
            final(self).phase is Finished <==> ends_request(action),
            old(self).wf() ==> final(self).wf(),
            old(self).wf() ==> (action matches Action::CacheSetPosts { key, .. } ==> key@
                == paging_key(old(self).page, old(self).page_size, old(self).search@)),
    {
        let mut phase = PagingPhase::Finished;
        std::mem::swap(&mut phase, &mut self.phase);
        match phase {
            PagingPhase::AwaitLookup => match event {
                Event::CacheAnswered(CacheReply::Bulk(bytes)) => match utf8_text(bytes) {
                    Some(text) => {
                        self.phase = PagingPhase::AwaitDecode;
                        Action::DecodePosts { text }
                    },
                    None => abort("Invalid UTF-8!"),
                },
                Event::CacheAnswered(CacheReply::Other) => self.miss(),
                Event::CacheRejected => if self.lookup_faults_abort {
                    abort("Can't get posts cache")
                } else {
                    self.miss()
                },
                Event::CacheUnreachable => if self.lookup_faults_abort {
                    abort("Error getting post cache")
                } else {
                    self.miss()
                },
                _ => unexpected_event(),
            },
            PagingPhase::AwaitDecode => match event {
                Event::PostsDecoded(Some(posts)) => Action::Respond(Reply::Posts(posts)),
                Event::PostsDecoded(None) => abort("called `Result::unwrap()` on an `Err` value"),
                _ => unexpected_event(),
            },
            PagingPhase::AwaitPage => match event {
                Event::PageFetched(Some(posts)) => {
                    let kept = copy_posts(&posts);
                    self.phase = PagingPhase::AwaitStore { posts: kept };
                    Action::CacheSetPosts {
                        key: self.key.clone(),
                        seconds: CACHE_TTL_SECONDS,
                        posts,
                    }
                },
                Event::PageFetched(None) => abort("could not retrieve posts"),
                _ => unexpected_event(),
            },
            PagingPhase::AwaitStore { posts } => match event {
                Event::CacheAnswered(_) => Action::Respond(Reply::Posts(posts)),
                Event::CacheRejected => abort("Can't get cache set result"),
                Event::CacheUnreachable => abort("Error setting posts cache"),
                _ => unexpected_event(),
            },
            PagingPhase::Finished => unexpected_event(),
        }
    }
}

/// Law: on a miss, the posts written to the cache under the query's key are
/// the fetched posts, and once the write is acknowledged the response serves
/// those same posts.
pub proof fn lemma_miss_serves_what_it_stores(
    run: PagingRun,
    fetched: Vec<Post>,
    storing: PagingRun,
    store: Action,
    ack: CacheReply,
    done: PagingRun,
    answer: Action,
)
    requires
        run.phase is AwaitPage,
        run.steps_to(Event::PageFetched(Some(fetched)), storing, store),
        storing.steps_to(Event::CacheAnswered(ack), done, answer),
    ensures
        store matches Action::CacheSetPosts { key, seconds, posts } && key@ == run.key@
            && seconds == 300 && posts.deep_view() == fetched.deep_view(),
        answer matches Action::Respond(Reply::Posts(served)) && served.deep_view()
            == fetched.deep_view(),
        done.phase is Finished,
{
}

/// Law: a cache hit is answered with the cached posts as soon as they are
/// read, without any database action.
pub proof fn lemma_hit_serves_cached(
    run: PagingRun,
    bytes: Vec<u8>,
    decoding: PagingRun,
    decode: Action,
    cached: Vec<Post>,
    done: PagingRun,
    answer: Action,
)
    requires
        run.phase is AwaitLookup,
        valid_utf8(bytes@),
        run.steps_to(Event::CacheAnswered(CacheReply::Bulk(bytes)), decoding, decode),
        decoding.steps_to(Event::PostsDecoded(Some(cached)), done, answer),
    ensures
        decode matches Action::DecodePosts { text } && text@ == decode_utf8(bytes@),
        answer matches Action::Respond(Reply::Posts(served)) && served.deep_view()
            == cached.deep_view(),
        done.phase is Finished,
{
}

/// Law: a listing repeated while its cached page lives is served from the
/// cache: it sends only the lookup of the same key, never reaches the
/// database (whatever the database holds by then), and answers with the
/// posts the first listing fetched and stored.
///
/// The cache is modelled by `cache`, the posts it holds under each live key;
/// the premises say that the first listing's write is still held (no other
/// write to that key, the lifetime not over) and that a lookup of a held key
/// answers with text that reads back as the held posts.
pub proof fn lemma_repeat_listing_served_from_cache(
    first: PagingRun,
    fetched: Vec<Post>,
    storing: PagingRun,
    store: Action,
    cache: Map<Seq<char>, Seq<PostView>>,
    second: PagingRun,
    bytes: Vec<u8>,
    decoding: PagingRun,
    decode: Action,
    cached: Vec<Post>,
    done: PagingRun,
    answer: Action,
)
    requires
        first.wf(),
        first.phase is AwaitPage,
        first.steps_to(Event::PageFetched(Some(fetched)), storing, store),
        store matches Action::CacheSetPosts { key, posts, .. } && cache.contains_key(key@)
            && cache[key@] == posts.deep_view(),
        second.wf(),
        second.page == first.page,
        second.page_size == first.page_size,
        second.search@ == first.search@,
        second.phase is AwaitLookup,
        valid_utf8(bytes@),
        second.steps_to(Event::CacheAnswered(CacheReply::Bulk(bytes)), decoding, decode),
        cache.contains_key(second.key@) ==> cached.deep_view() == cache[second.key@],
        decoding.steps_to(Event::PostsDecoded(Some(cached)), done, answer),
    ensures
        second.key@ == first.key@,
        decode is DecodePosts,
        answer matches Action::Respond(Reply::Posts(served)) && served.deep_view()
            == fetched.deep_view(),
        done.phase is Finished,
{
}

/// The rows a database page holds: `LIMIT size OFFSET index * size` over
/// `rows`, the matching rows in ascending id order.
pub open spec fn db_page(rows: Seq<PostView>, index: nat, size: nat) -> Seq<PostView> {
    let start = if index * size < rows.len() { index * size } else { rows.len() };
    let end = if start + size < rows.len() { start + size } else { rows.len() };
    rows.subrange(start as int, end as int)
}

/// The first `count` database pages of `rows`, one after the other.
pub open spec fn first_pages(rows: Seq<PostView>, size: nat, count: nat) -> Seq<PostView>
    decreases count,
{
    if count == 0 {
        Seq::empty()
    } else {
        first_pages(rows, size, (count - 1) as nat) + db_page(rows, (count - 1) as nat, size)
    }
}

/// Law: on a miss, a listing serves the database page numbered from its
/// first page: page `page` is database page `page - first_page` of
/// `page_size` rows.
pub proof fn lemma_miss_serves_db_page(
    run: PagingRun,
    miss: Event,
    fetching: PagingRun,
    fetch: Action,
    rows: Seq<PostView>,
    fetched: Vec<Post>,
    storing: PagingRun,
    store: Action,
    ack: CacheReply,
    done: PagingRun,
    answer: Action,
)
    requires
        run.phase is AwaitLookup,
        run.steps_to(miss, fetching, fetch),
        fetch matches Action::FetchPage { page, page_size, .. } && fetched.deep_view() == db_page(
            rows,
            page as nat,
            page_size as nat,
        ),
        fetching.steps_to(Event::PageFetched(Some(fetched)), storing, store),
        storing.steps_to(Event::CacheAnswered(ack), done, answer),
    ensures
        run.page >= run.first_page,
        answer matches Action::Respond(Reply::Posts(served)) && served.deep_view() == db_page(
            rows,
            (run.page - run.first_page) as nat,
            run.page_size as nat,
        ),
{
    assert(fetching.phase is AwaitPage);
}

proof fn lemma_first_pages_prefix(rows: Seq<PostView>, size: nat, count: nat)
    requires
        size > 0,
    ensures
        first_pages(rows, size, count) == rows.subrange(
            0,
            if count * size < rows.len() { (count * size) as int } else { rows.len() as int },
        ),
    decreases count,
{
    if count == 0 {
        assert(count * size == 0);
        assert(first_pages(rows, size, count) =~= rows.subrange(0, 0));
    } else {
        let k = (count - 1) as nat;
        lemma_first_pages_prefix(rows, size, k);
        assert(count * size == k * size + size) by (nonlinear_arith)
            requires
                k == count - 1,
        ;
        let len = rows.len();
        let mid: int = if k * size < len { (k * size) as int } else { len as int };
        let top: int = if count * size < len { (count * size) as int } else { len as int };
        let page = db_page(rows, k, size);
        assert(page =~= rows.subrange(mid, top));
        assert(first_pages(rows, size, count) == rows.subrange(0, mid) + page);
        assert(rows.subrange(0, mid) + rows.subrange(mid, top) =~= rows.subrange(0, top));
    }
}

/// Law: numbered from 1 as the site numbers them, pages `1 ..= n` of
/// `size` rows, where `n` is the page count of the rows, hold every matching
/// row once, in ascending id order; every page before the last is full, and
/// every page after the last is empty.
pub proof fn lemma_pages_tile_rows(rows: Seq<PostView>, size: nat)
    requires
        size > 0,
    ensures
        first_pages(rows, size, page_count(rows.len(), size)) == rows,
        forall|page: nat|
            1 <= page < page_count(rows.len(), size) ==> (#[trigger] db_page(rows, (page - 1) as nat, size)).len()
                == size,
        forall|page: nat|
            page > page_count(rows.len(), size) ==> #[trigger] db_page(rows, (page - 1) as nat, size)
                == Seq::<PostView>::empty(),
{
    let n = page_count(rows.len(), size);
    lemma_page_count_is_least_cover(rows.len(), size);
    lemma_first_pages_prefix(rows, size, n);
    assert(rows.subrange(0, rows.len() as int) =~= rows);
    assert forall|page: nat| 1 <= page < n implies (#[trigger] db_page(rows, (page - 1) as nat, size)).len()
        == size by {
        let i = (page - 1) as nat;
        assert(i * size + size <= (n - 1) * size) by (nonlinear_arith)
            requires
                i + 1 <= n - 1,
                size > 0,
        ;
    }
    assert forall|page: nat| page > n implies #[trigger] db_page(rows, (page - 1) as nat, size)
        == Seq::<PostView>::empty() by {
        let i = (page - 1) as nat;
        assert(i * size >= n * size) by (nonlinear_arith)
            requires
                i >= n,
                size > 0,
        ;
    }
}


/// Law: on a miss, the database is asked for the rows whose title or text
/// contains the whole search text: the `LIKE` pattern is `%`, then every
/// character of the search text in order, then `%`.
pub proof fn lemma_miss_searches_whole_text(run: PagingRun, miss: Event, next: PagingRun, action: Action)
    requires
        run.phase is AwaitLookup,
        run.steps_to(miss, next, action),
        action is FetchPage,
    ensures
        action matches Action::FetchPage { pattern: Some(p), .. } && p@ == seq!['%'] + run.search@
            + seq!['%'] && p@.len() == run.search@.len() + 2,
{
}


/// Law: where cache faults count as misses, a failed or refused lookup
/// leads to the very fetch that a miss leads to.
pub proof fn lemma_lookup_fault_is_miss(
    run: PagingRun,
    fault: Event,
    after_fault: PagingRun,
    fault_action: Action,
    after_miss: PagingRun,
    miss_action: Action,
)
    requires
        !run.lookup_faults_abort,
        run.phase is AwaitLookup,
        fault is CacheRejected || fault is CacheUnreachable,
        run.steps_to(fault, after_fault, fault_action),
        run.steps_to(Event::CacheAnswered(CacheReply::Other), after_miss, miss_action),
    ensures
        fault_action is FetchPage <==> miss_action is FetchPage,
        fault_action matches Action::FetchPage { pattern: p1, page: i1, page_size: s1 }
            ==> (miss_action matches Action::FetchPage { pattern: p2, page: i2, page_size: s2 }
            && p1 is Some && p2 is Some && p1->0@ == p2->0@ && i1 == i2 && s1 == s2),
        after_fault.phase == after_miss.phase,
{
}

} // verus!
