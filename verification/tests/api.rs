use posts_service::common::base_paging_query::BasePagingQuery;
use posts_service::paging::PagingPhase;
use posts_service::post::Post;
use posts_service::posts::controller::get_posts as site_get_posts;
use posts_service::protocol::{Action, CacheReply, Event, Reply};
use posts_service::service::posts::controller::{
    get_detail, get_posts, seed_posts, DetailPhase, SeedPhase, SEED_COUNT,
};

fn post(id: i32, title: &str, text: &str) -> Post {
    Post { id, title: title.to_string(), text: text.to_string() }
}

fn query(page: Option<u64>, page_size: Option<u64>, search: Option<&str>) -> BasePagingQuery {
    BasePagingQuery { page, page_size, search: search.map(|s| s.to_string()) }
}

fn abort(message: &str) -> Action {
    Action::Abort { message: message.to_string() }
}

fn cache_get(key: &str) -> Action {
    Action::CacheGet { key: key.to_string() }
}

#[test]
fn site_listing_looks_up_default_key() {
    let (run, action) = site_get_posts(query(None, None, None));
    assert_eq!(action, cache_get("products:paging:page=1:pageSize=20:search="));
    assert_eq!(run.page, 1);
    assert_eq!(run.page_size, 20);
    assert_eq!(run.phase, PagingPhase::AwaitLookup);
}

#[test]
fn api_listing_looks_up_default_key() {
    let (_, action) = get_posts(query(None, None, None));
    assert_eq!(action, cache_get("products:paging:page=0:pageSize=20:search="));
    let (_, action) = get_posts(query(Some(2), Some(5), Some("hi")));
    assert_eq!(action, cache_get("products:paging:page=2:pageSize=5:search=hi"));
}

#[test]
fn cache_hit_serves_cached_posts() {
    let (mut run, _) = site_get_posts(query(Some(1), Some(2), Some("x")));
    let decode = run.step(Event::CacheAnswered(CacheReply::Bulk(b"[]".to_vec())));
    assert_eq!(decode, Action::DecodePosts { text: "[]".to_string() });
    let cached = vec![post(1, "x", "y")];
    assert_eq!(
        run.step(Event::PostsDecoded(Some(cached.clone()))),
        Action::Respond(Reply::Posts(cached))
    );
    assert_eq!(run.phase, PagingPhase::Finished);
}

#[test]
fn cache_hit_with_invalid_utf8_panics() {
    let (mut run, _) = site_get_posts(query(None, None, None));
    assert_eq!(
        run.step(Event::CacheAnswered(CacheReply::Bulk(vec![0xff, 0xfe]))),
        abort("Invalid UTF-8!")
    );
}

#[test]
fn cache_hit_with_bad_json_panics() {
    let (mut run, _) = get_posts(query(None, None, None));
    run.step(Event::CacheAnswered(CacheReply::Bulk("caf\u{e9}".as_bytes().to_vec())));
    assert_eq!(
        run.step(Event::PostsDecoded(None)),
        abort("called `Result::unwrap()` on an `Err` value")
    );
}

#[test]
fn utf8_cache_text_is_decoded() {
    let (mut run, _) = get_posts(query(None, None, None));
    let action = run.step(Event::CacheAnswered(CacheReply::Bulk("caf\u{e9}".as_bytes().to_vec())));
    assert_eq!(action, Action::DecodePosts { text: "caf\u{e9}".to_string() });
}

#[test]
fn miss_fetches_stores_and_serves() {
    let (mut run, _) = site_get_posts(query(Some(3), Some(10), Some("rust")));
    let fetch = run.step(Event::CacheAnswered(CacheReply::Other));
    assert_eq!(
        fetch,
        Action::FetchPage { pattern: Some("%rust%".to_string()), page: 2, page_size: 10 }
    );
    let fetched = vec![post(21, "rust", "a"), post(22, "b", "rust")];
    let store = run.step(Event::PageFetched(Some(fetched.clone())));
    assert_eq!(
        store,
        Action::CacheSetPosts {
            key: "products:paging:page=3:pageSize=10:search=rust".to_string(),
            seconds: 300,
            posts: fetched.clone(),
        }
    );
    let answer = run.step(Event::CacheAnswered(CacheReply::Other));
    assert_eq!(answer, Action::Respond(Reply::Posts(fetched)));
}

#[test]
fn api_pages_start_at_zero() {
    let (mut run, _) = get_posts(query(None, None, None));
    assert_eq!(
        run.step(Event::CacheAnswered(CacheReply::Other)),
        Action::FetchPage { pattern: Some("%%".to_string()), page: 0, page_size: 20 }
    );
}

#[test]
fn site_page_zero_panics_on_miss_only() {
    let (mut run, _) = site_get_posts(query(Some(0), None, None));
    assert_eq!(
        run.step(Event::CacheAnswered(CacheReply::Other)),
        abort("attempt to subtract with overflow")
    );
    let (mut run, _) = site_get_posts(query(Some(0), None, None));
    let action = run.step(Event::CacheAnswered(CacheReply::Bulk(b"[]".to_vec())));
    assert_eq!(action, Action::DecodePosts { text: "[]".to_string() });
}

#[test]
fn site_lookup_failures_panic() {
    let (mut run, _) = site_get_posts(query(None, None, None));
    assert_eq!(run.step(Event::CacheUnreachable), abort("Error getting post cache"));
    let (mut run, _) = site_get_posts(query(None, None, None));
    assert_eq!(run.step(Event::CacheRejected), abort("Can't get posts cache"));
}

#[test]
fn api_lookup_failures_are_misses() {
    let (mut run, _) = get_posts(query(Some(1), Some(3), None));
    assert_eq!(
        run.step(Event::CacheUnreachable),
        Action::FetchPage { pattern: Some("%%".to_string()), page: 1, page_size: 3 }
    );
    let (mut run, _) = get_posts(query(Some(1), Some(3), None));
    assert_eq!(
        run.step(Event::CacheRejected),
        Action::FetchPage { pattern: Some("%%".to_string()), page: 1, page_size: 3 }
    );
}

#[test]
fn listing_store_failures_panic() {
    let (mut run, _) = get_posts(query(None, None, None));
    run.step(Event::CacheAnswered(CacheReply::Other));
    assert_eq!(run.step(Event::PageFetched(None)), abort("could not retrieve posts"));
    for (event, message) in [
        (Event::CacheUnreachable, "Error setting posts cache"),
        (Event::CacheRejected, "Can't get cache set result"),
    ] {
        let (mut run, _) = get_posts(query(None, None, None));
        run.step(Event::CacheAnswered(CacheReply::Other));
        run.step(Event::PageFetched(Some(vec![])));
        assert_eq!(run.step(event), abort(message));
    }
}

#[test]
fn finished_listing_rejects_events() {
    let (mut run, _) = get_posts(query(None, None, None));
    assert_eq!(run.step(Event::Saved(true)), abort("unexpected event"));
    assert_eq!(run.step(Event::CacheAnswered(CacheReply::Other)), abort("unexpected event"));
}

#[test]
fn detail_hit_serves_cached_post() {
    let (mut run, action) = get_detail(42);
    assert_eq!(action, cache_get("post:detail:id=42"));
    let decode = run.step(Event::CacheAnswered(CacheReply::Bulk(b"{}".to_vec())));
    assert_eq!(decode, Action::DecodePost { text: "{}".to_string() });
    let p = post(42, "t", "x");
    assert_eq!(run.step(Event::PostDecoded(Some(p.clone()))), Action::Respond(Reply::Post(p)));
}

#[test]
fn detail_miss_finds_stores_and_serves() {
    let (mut run, _) = get_detail(-7);
    assert_eq!(run.key, "post:detail:id=-7");
    assert_eq!(run.step(Event::CacheAnswered(CacheReply::Other)), Action::FindPost { id: -7 });
    let p = post(-7, "t", "x");
    assert_eq!(
        run.step(Event::PostFound(Some(Some(p.clone())))),
        Action::CacheSetPost { key: "post:detail:id=-7".to_string(), seconds: 300, post: p.clone() }
    );
    assert_eq!(run.phase, DetailPhase::AwaitStore { post: p.clone() });
    assert_eq!(run.step(Event::CacheAnswered(CacheReply::Other)), Action::Respond(Reply::Post(p)));
}

#[test]
fn detail_database_error_answers_message() {
    let (mut run, _) = get_detail(9);
    run.step(Event::CacheAnswered(CacheReply::Other));
    assert_eq!(
        run.step(Event::PostFound(None)),
        Action::Respond(Reply::Message("Error getting post with id: 9".to_string()))
    );
}

#[test]
fn detail_failures_panic() {
    let cases: Vec<(Vec<Event>, &str)> = vec![
        (vec![Event::CacheUnreachable], "Can't send command"),
        (vec![Event::CacheRejected], "Can't get result from redis"),
        (
            vec![Event::CacheAnswered(CacheReply::Bulk(vec![0xc3]))],
            "Should convert from utf8 to string",
        ),
        (
            vec![Event::CacheAnswered(CacheReply::Bulk(b"x".to_vec())), Event::PostDecoded(None)],
            "Can't serialize cache string",
        ),
        (
            vec![Event::CacheAnswered(CacheReply::Other), Event::PostFound(Some(None))],
            "called `Option::unwrap()` on a `None` value",
        ),
        (
            vec![
                Event::CacheAnswered(CacheReply::Other),
                Event::PostFound(Some(Some(post(1, "a", "b")))),
                Event::CacheUnreachable,
            ],
            "Should set command",
        ),
        (
            vec![
                Event::CacheAnswered(CacheReply::Other),
                Event::PostFound(Some(Some(post(1, "a", "b")))),
                Event::CacheRejected,
            ],
            "Should return ok",
        ),
    ];
    for (events, message) in cases {
        let (mut run, _) = get_detail(1);
        let mut last = None;
        for event in events {
            last = Some(run.step(event));
        }
        assert_eq!(last, Some(abort(message)));
        assert_eq!(run.phase, DetailPhase::Finished);
    }
}

#[test]
fn seeding_draws_lorem_posts() {
    let (run, action) = seed_posts();
    assert_eq!(run.phase, SeedPhase::AwaitInsert);
    match action {
        Action::InsertPosts { rows } => {
            assert_eq!(rows.len(), SEED_COUNT);
            assert_eq!(SEED_COUNT, 30000);
            for row in rows.iter().take(100) {
                assert!(row.title.ends_with('.'));
                assert!(row.text.ends_with('.'));
            }
        }
        other => panic!("unexpected action {:?}", other),
    }
}

#[test]
fn seeding_answers_id_or_server_error() {
    let (mut run, _) = seed_posts();
    assert_eq!(run.step(Event::PostsInserted(Some(30000))), Action::Respond(Reply::Id(30000)));
    assert_eq!(run.phase, SeedPhase::Finished);
    let (mut run, _) = seed_posts();
    assert_eq!(
        run.step(Event::PostsInserted(None)),
        Action::Respond(Reply::Message("Server error".to_string()))
    );
}
