//! The handlers under `/api/v1/post`.

use vstd::prelude::*;
use fake::Fake;
use vstd::utf8::{decode_utf8, valid_utf8};
use crate::cache::{detail_cache_key, detail_key, paging_key, CACHE_TTL_SECONDS};
use crate::common::base_paging_query::BasePagingQuery;
use crate::decimal::{push_signed_decimal, signed_decimal};
use crate::paging::{PagingRun, DEFAULT_PAGE_SIZE};
use crate::post::{NewPost, Post, PostView};
use crate::posts::controller::search_of;
use crate::protocol::{
    abort, aborts_with, ends_request, unexpected_event, unexpected_event_message, utf8_text, Action, CacheReply,
    Event, Reply,
};

verus! {

/// Starts `GET /api/v1/post/paging`: pages are numbered from 0, 20 posts per
/// page unless the query says otherwise, and a failed cache lookup counts as
/// a miss.
pub fn get_posts(query: BasePagingQuery) -> (r: (PagingRun, Action))
    ensures
        r.0.page == (match query.page { Some(p) => p, None => 0 }),
        r.0.page_size == (match query.page_size { Some(s) => s, None => DEFAULT_PAGE_SIZE }),
        r.0.search@ == search_of(query),
        r.0.first_page == 0,
        !r.0.lookup_faults_abort,
        r.0.wf(),
        r.0.phase is AwaitLookup,
        r.1 matches Action::CacheGet { key } && key@ == paging_key(r.0.page, r.0.page_size, r.0.search@),
{
    let page = match query.page {
        Some(p) => p,
        None => 0,
    };
    let page_size = match query.page_size {
        Some(s) => s,
        None => DEFAULT_PAGE_SIZE,
    };
    let search = match query.search {
        Some(s) => s,
        None => String::new(),
    };
    PagingRun::begin(page, page_size, search, 0, false)
}

/// Where a detail request stands.
#[derive(Debug, Clone, PartialEq, Eq)]
pub enum DetailPhase {
    /// Waiting for the cache lookup.
    AwaitLookup,
    /// Waiting for the cached text to be read as a post.
    AwaitDecode,
    /// Waiting for the post from the database.
    AwaitPost,
    /// Waiting for the cache to store this post.
    AwaitStore { post: Post },
    /// The request is over.
    Finished,
}

/// One `GET /api/v1/post/{id}` request.
#[derive(Debug, Clone, PartialEq, Eq)]
pub struct DetailRun {
    pub id: i32,
    /// The cache key of the post.
    pub key: String,
    pub phase: DetailPhase,
}

/// The text answered when the database fails: `Error getting post with id: {id}`.
pub open spec fn lookup_error_text(id: i32) -> Seq<char> {
    "Error getting post with id: "@ + signed_decimal(id as int)
}

/// The panic message of unwrapping a missing value.
pub open spec fn missing_value_message() -> Seq<char> {
    "called `Option::unwrap()` on a `None` value"@
}

impl DetailRun {
    /// The key is the cache key of the post.
    pub open spec fn wf(&self) -> bool {
        self.key@ == detail_key(self.id)
    }

    /// The transition of this request on `event` to `next`, doing `action`.
    pub open spec fn steps_to(&self, event: Event, next: DetailRun, action: Action) -> bool {
        &&& next.id == self.id
        &&& next.key@ == self.key@
        &&& match self.phase {
            DetailPhase::AwaitLookup => match event {
                Event::CacheAnswered(CacheReply::Bulk(bytes)) => if valid_utf8(bytes@) {
                    &&& next.phase is AwaitDecode
                    &&& action matches Action::DecodePost { text }
                    &&& text@ == decode_utf8(bytes@)
                } else {
                    &&& next.phase is Finished
                    &&& aborts_with(action, "Should convert from utf8 to string"@)
                },
                Event::CacheAnswered(CacheReply::Other) => {
                    &&& next.phase is AwaitPost
                    &&& action == Action::FindPost { id: self.id }
                },
                Event::CacheRejected => {
                    &&& next.phase is Finished
                    &&& aborts_with(action, "Can't get result from redis"@)
                },
                Event::CacheUnreachable => {
                    &&& next.phase is Finished
                    &&& aborts_with(action, "Can't send command"@)
                },
                _ => next.phase is Finished && aborts_with(action, unexpected_event_message()),
            },
            DetailPhase::AwaitDecode => match event {
                Event::PostDecoded(Some(post)) => {
                    &&& next.phase is Finished
                    &&& action matches Action::Respond(Reply::Post(p))
                    &&& p@ == post@
                },
                Event::PostDecoded(None) => {
                    &&& next.phase is Finished
                    &&& aborts_with(action, "Can't serialize cache string"@)
                },
                _ => next.phase is Finished && aborts_with(action, unexpected_event_message()),
            },
            DetailPhase::AwaitPost => match event {
                Event::PostFound(Some(Some(post))) => {
                    &&& next.phase matches DetailPhase::AwaitStore { post: kept }
                    &&& kept@ == post@
                    &&& action matches Action::CacheSetPost { key, seconds, post: stored }
                    &&& key@ == self.key@
                    &&& seconds == CACHE_TTL_SECONDS
                    &&& stored@ == post@
                },
                Event::PostFound(Some(None)) => {
                    &&& next.phase is Finished
                    &&& aborts_with(action, missing_value_message())
                },
                Event::PostFound(None) => {
                    &&& next.phase is Finished
                    &&& action matches Action::Respond(Reply::Message(m))
                    &&& m@ == lookup_error_text(self.id)
                },
                _ => next.phase is Finished && aborts_with(action, unexpected_event_message()),
            },
            DetailPhase::AwaitStore { post: kept } => match event {
                Event::CacheAnswered(_) => {
                    &&& next.phase is Finished
                    &&& action matches Action::Respond(Reply::Post(p))
                    &&& p@ == kept@
                },
                Event::CacheRejected => {
                    &&& next.phase is Finished
                    &&& aborts_with(action, "Should return ok"@)
                },
                Event::CacheUnreachable => {
                    &&& next.phase is Finished
                    &&& aborts_with(action, "Should set command"@)
                },
                _ => next.phase is Finished && aborts_with(action, unexpected_event_message()),
            },
            DetailPhase::Finished => {
                &&& next.phase is Finished
                &&& aborts_with(action, unexpected_event_message())
            },
        }
    }

    /// Takes the request one step on `event`, as [`DetailRun::steps_to`]
    /// states. The post is only ever cached under its own key.
    pub fn step(&mut self, event: Event) -> (action: Action)
        ensures
            old(self).steps_to(event, *final(self), action),
            final(self).phase is Finished <==> ends_request(action),
            old(self).wf() ==> final(self).wf(),
            old(self).wf() ==> (action matches Action::CacheSetPost { key, .. } ==> key@
                == detail_key(old(self).id)),
    {
        let mut phase = DetailPhase::Finished;
        std::mem::swap(&mut phase, &mut self.phase);
        match phase {
            DetailPhase::AwaitLookup => match event {
                Event::CacheAnswered(CacheReply::Bulk(bytes)) => match utf8_text(bytes) {
                    Some(text) => {
                        self.phase = DetailPhase::AwaitDecode;
                        Action::DecodePost { text }
                    },
                    None => abort("Should convert from utf8 to string"),
                },
                Event::CacheAnswered(CacheReply::Other) => {
                    self.phase = DetailPhase::AwaitPost;
                    Action::FindPost { id: self.id }
                },
                Event::CacheRejected => abort("Can't get result from redis"),
                Event::CacheUnreachable => abort("Can't send command"),
                _ => unexpected_event(),
            },
            DetailPhase::AwaitDecode => match event {
                Event::PostDecoded(Some(post)) => Action::Respond(Reply::Post(post)),
                Event::PostDecoded(None) => abort("Can't serialize cache string"),
                _ => unexpected_event(),
            },
            DetailPhase::AwaitPost => match event {
                Event::PostFound(Some(Some(post))) => {
                    self.phase = DetailPhase::AwaitStore { post: post.duplicate() };
                    Action::CacheSetPost { key: self.key.clone(), seconds: CACHE_TTL_SECONDS, post }
                },
                Event::PostFound(Some(None)) => abort("called `Option::unwrap()` on a `None` value"),
                Event::PostFound(None) => {
                    let mut message = String::new();
                    message.append("Error getting post with id: ");
                    push_signed_decimal(&mut message, self.id);
                    proof {
                        assert(message@ =~= lookup_error_text(self.id));
                    }
                    Action::Respond(Reply::Message(message))
                },
                _ => unexpected_event(),
            },
            DetailPhase::AwaitStore { post } => match event {
                Event::CacheAnswered(_) => Action::Respond(Reply::Post(post)),
                Event::CacheRejected => abort("Should return ok"),
                Event::CacheUnreachable => abort("Should set command"),
                _ => unexpected_event(),
            },
            DetailPhase::Finished => unexpected_event(),
        }
    }
}

/// Law: when the post is not cached, the post written to the cache under its
/// key is the post found, and once the write is acknowledged the response
/// serves that same post.
pub proof fn lemma_detail_miss_serves_what_it_stores(
    run: DetailRun,
    found: Post,
    storing: DetailRun,
    store: Action,
    ack: CacheReply,
    done: DetailRun,
    answer: Action,
)
    requires
        run.phase is AwaitPost,
        run.steps_to(Event::PostFound(Some(Some(found))), storing, store),
        storing.steps_to(Event::CacheAnswered(ack), done, answer),
    ensures
        store matches Action::CacheSetPost { key, seconds, post } && key@ == run.key@
            && seconds == 300 && post@ == found@,
        answer matches Action::Respond(Reply::Post(served)) && served@ == found@,
        done.phase is Finished,
{
}

/// Law: a post requested again while its cached copy lives is served from
/// the cache: the second request looks up the same key only, never reaches
/// the database (even if the row changed or went), and answers with the post
/// the first request found and stored.
///
/// The cache is modelled by `cache`, the post it holds under each live key;
/// the premises say that the first request's write is still held and that a
/// lookup of a held key answers with text that reads back as the held post.
pub proof fn lemma_repeat_detail_served_from_cache(
    first: DetailRun,
    found: Post,
    storing: DetailRun,
    store: Action,
    cache: Map<Seq<char>, PostView>,
    second: DetailRun,
    bytes: Vec<u8>,
    decoding: DetailRun,
    decode: Action,
    cached: Post,
    done: DetailRun,
    answer: Action,
)
    requires
        first.wf(),
        first.phase is AwaitPost,
        first.steps_to(Event::PostFound(Some(Some(found))), storing, store),
        store matches Action::CacheSetPost { key, post, .. } && cache.contains_key(key@) && cache[key@]
            == post@,
        second.wf(),
        second.id == first.id,
        second.phase is AwaitLookup,
        valid_utf8(bytes@),
        second.steps_to(Event::CacheAnswered(CacheReply::Bulk(bytes)), decoding, decode),
        cache.contains_key(second.key@) ==> cached@ == cache[second.key@],
        decoding.steps_to(Event::PostDecoded(Some(cached)), done, answer),
    ensures
        second.key@ == first.key@,
        decode is DecodePost,
        answer matches Action::Respond(Reply::Post(served)) && served@ == found@,
        done.phase is Finished,
{
}

/// Starts `GET /api/v1/post/{id}`: looks the post's key up in the cache.
pub fn get_detail(id: i32) -> (r: (DetailRun, Action))
    ensures
        r.0.id == id,
        r.0.wf(),
        r.0.phase is AwaitLookup,
        r.1 matches Action::CacheGet { key } && key@ == detail_key(id),
{
    let key = detail_cache_key(id);
    let lookup = key.clone();
    (DetailRun { id, key, phase: DetailPhase::AwaitLookup }, Action::CacheGet { key: lookup })
}

/// How many posts a seeding inserts.
pub const SEED_COUNT: usize = 30000;

/// Whether `word` is a lorem word: a non-empty run of lower-case ASCII
/// letters.
pub open spec fn is_lorem_word(word: Seq<char>) -> bool {
    &&& word.len() > 0
    &&& forall|i: int| 0 <= i < word.len() ==> 'a' <= #[trigger] word[i] <= 'z'
}

/// `words` joined by single spaces.
pub open spec fn joined(words: Seq<Seq<char>>) -> Seq<char>
    decreases words.len(),
{
    if words.len() == 0 {
        Seq::empty()
    } else if words.len() == 1 {
        words[0]
    } else {
        joined(words.drop_last()) + seq![' '] + words.last()
    }
}

/// Whether `text` is one lorem sentence: four to nine lorem words joined by
/// single spaces and closed by a full stop.
pub open spec fn is_lorem_sentence(text: Seq<char>) -> bool {
    exists|words: Seq<Seq<char>>|
        {
            &&& 4 <= words.len() <= 9
            &&& forall|i: int| 0 <= i < words.len() ==> is_lorem_word(#[trigger] words[i])
            &&& text == joined(words).push('.')
        }
}

/// A lorem-ipsum paragraph of one sentence.
///
/// Trusted: fake's `Paragraph(1..2)` draws one sentence (the count is drawn
/// from `1..2`), which is four to nine words (drawn from `4..10`) taken from
/// fake's lorem word list, all lower-case ASCII letters, joined by single
/// spaces and closed by `.`. The contract states that shape; which words are
/// drawn is random and left unsaid.
#[verifier::external_body]
fn lorem_paragraph() -> (paragraph: String)
    ensures
        is_lorem_sentence(paragraph@),
{
    fake::faker::lorem::en::Paragraph(1..2).fake()
}

/// Where a seeding stands.
#[derive(Debug, Clone, PartialEq, Eq)]
pub enum SeedPhase {
    /// Waiting for the insertion.
    AwaitInsert,
    /// The request is over.
    Finished,
}

/// One `GET /api/v1/post/seed` request.
#[derive(Debug, Clone, PartialEq, Eq)]
pub struct SeedRun {
    pub phase: SeedPhase,
}

/// Starts `GET /api/v1/post/seed`: draws [`SEED_COUNT`] posts whose text and
/// title are random one-sentence lorem paragraphs and inserts them in one
/// statement.
pub fn seed_posts() -> (r: (SeedRun, Action))
    ensures
        r.0.phase is AwaitInsert,
        r.1 matches Action::InsertPosts { rows } && rows.len() == 30000 && forall|i: int|
            0 <= i < rows.len() ==> is_lorem_sentence(#[trigger] rows[i].title@) && is_lorem_sentence(rows[i].text@),
{
    let mut rows: Vec<NewPost> = Vec::new();
    for _i in 0..SEED_COUNT
        invariant
            rows.len() == _i,
            forall|j: int| 0 <= j < rows.len() ==> is_lorem_sentence(#[trigger] rows[j].title@) && is_lorem_sentence(rows[j].text@),
    {
        let text = lorem_paragraph();
        let title = lorem_paragraph();
        rows.push(NewPost { title, text });
    }
    (SeedRun { phase: SeedPhase::AwaitInsert }, Action::InsertPosts { rows })
}

impl SeedRun {
    /// The transition of this request on `event` to `next`, doing `action`:
    /// the inserted id on success, the text `Server error` on failure.
    pub open spec fn steps_to(&self, event: Event, next: SeedRun, action: Action) -> bool {
        &&& next.phase is Finished
        &&& match (self.phase, event) {
            (SeedPhase::AwaitInsert, Event::PostsInserted(Some(id))) => action == Action::Respond(
                Reply::Id(id),
            ),
            (SeedPhase::AwaitInsert, Event::PostsInserted(None)) => action matches Action::Respond(
                Reply::Message(m),
            ) && m@ == "Server error"@,
            _ => aborts_with(action, unexpected_event_message()),
        }
    }

    /// Takes the seeding one step on `event`, as [`SeedRun::steps_to`] states.
    pub fn step(&mut self, event: Event) -> (action: Action)
        ensures
            old(self).steps_to(event, *final(self), action),
            ends_request(action),
    {
        let awaiting = match self.phase {
            SeedPhase::AwaitInsert => true,
            SeedPhase::Finished => false,
        };
        self.phase = SeedPhase::Finished;
        if !awaiting {
            return unexpected_event();
        }
        match event {
            Event::PostsInserted(Some(id)) => Action::Respond(Reply::Id(id)),
            Event::PostsInserted(None) => {
                let mut message = String::new();
                message.append("Server error");
                Action::Respond(Reply::Message(message))
            },
            _ => unexpected_event(),
        }
    }
}


/// Law: on a miss, the post stored and served is the post with the requested
/// id: when the database answers the lookup with the row of the id it was
/// asked for, the stored post, its key and the served post all belong to the
/// requested id.
pub proof fn lemma_detail_miss_serves_requested_post(
    run: DetailRun,
    finding: DetailRun,
    find: Action,
    found: Post,
    storing: DetailRun,
    store: Action,
    ack: CacheReply,
    done: DetailRun,
    answer: Action,
)
    requires
        run.wf(),
        run.phase is AwaitLookup,
        run.steps_to(Event::CacheAnswered(CacheReply::Other), finding, find),
        find matches Action::FindPost { id } && found.id == id,
        finding.steps_to(Event::PostFound(Some(Some(found))), storing, store),
        storing.steps_to(Event::CacheAnswered(ack), done, answer),
    ensures
        store matches Action::CacheSetPost { key, post, .. } && key@ == detail_key(run.id) && post.id
            == run.id,
        answer matches Action::Respond(Reply::Post(served)) && served.id == run.id,
{
}

/// Law: a seeding answers the id of the last inserted post as the database
/// reports it, whatever that id is.
pub proof fn lemma_seed_answers_last_id(run: SeedRun, last: i32, next: SeedRun, action: Action)
    requires
        run.phase is AwaitInsert,
        run.steps_to(Event::PostsInserted(Some(last)), next, action),
    ensures
        action matches Action::Respond(Reply::Id(n)) && n == last,
{
}


/// Law: when the database fails to look a post up, the answer names the
/// requested id: the text `Error getting post with id: ` followed by the
/// id's decimal rendering, so distinct ids get distinct answers.
pub proof fn lemma_detail_error_names_id(run: DetailRun, finding: DetailRun, answer: Action)
    requires
        run.phase is AwaitPost,
        run.steps_to(Event::PostFound(None), finding, answer),
    ensures
        answer matches Action::Respond(Reply::Message(m)) && m@ == "Error getting post with id: "@
            + signed_decimal(run.id as int),
{
}

} // verus!
