use std::collections::HashMap;

use posts_service::common::base_paging_query::BasePagingQuery;
use posts_service::post::Post;
use posts_service::posts::controller::get_posts as site_get_posts;
use posts_service::protocol::{Action, CacheReply, Event, PageContext, Reply};
use posts_service::root::controller::{edit, num_pages, update};
use posts_service::service::posts::controller::{get_detail, get_posts, seed_posts};

fn post(id: i32, title: &str, text: &str) -> Post {
    Post { id, title: title.to_string(), text: text.to_string() }
}

/// The database's answer to a page fetch: `LIMIT size OFFSET page * size`.
fn db_page(rows: &[Post], page: u64, size: u64) -> Vec<Post> {
    let start = ((page * size) as usize).min(rows.len());
    let end = (start + size as usize).min(rows.len());
    rows[start..end].to_vec()
}

/// Runs a listing against a cache and a table held in memory.
fn serve(
    cache: &mut HashMap<String, Vec<Post>>,
    rows: &[Post],
    start: (posts_service::paging::PagingRun, Action),
) -> (Vec<Action>, Vec<Post>) {
    let (mut run, mut action) = start;
    let mut trace = vec![];
    loop {
        trace.push(action.clone());
        let event = match &action {
            Action::CacheGet { key } => match cache.get(key) {
                Some(_) => Event::CacheAnswered(CacheReply::Bulk(key.as_bytes().to_vec())),
                None => Event::CacheAnswered(CacheReply::Other),
            },
            Action::DecodePosts { text } => Event::PostsDecoded(cache.get(text).cloned()),
            Action::FetchPage { page, page_size, .. } => {
                Event::PageFetched(Some(db_page(rows, *page, *page_size)))
            }
            Action::CacheSetPosts { key, posts, .. } => {
                cache.insert(key.clone(), posts.clone());
                Event::CacheAnswered(CacheReply::Other)
            }
            Action::Respond(Reply::Posts(posts)) => return (trace, posts.clone()),
            other => panic!("unexpected action {:?}", other),
        };
        action = run.step(event);
    }
}

fn query(page: u64, size: u64) -> BasePagingQuery {
    BasePagingQuery { page: Some(page), page_size: Some(size), search: Some("".to_string()) }
}

#[test]
fn repeated_listing_is_served_from_cache() {
    let mut cache = HashMap::new();
    let rows: Vec<Post> = (1..=7).map(|i| post(i, "t", "x")).collect();
    let (first_trace, first_body) = serve(&mut cache, &rows, get_posts(query(0, 3)));
    assert!(first_trace.iter().any(|a| matches!(a, Action::FetchPage { .. })));
    let changed: Vec<Post> = vec![];
    let (second_trace, second_body) = serve(&mut cache, &changed, get_posts(query(0, 3)));
    assert_eq!(second_body, first_body);
    assert!(!second_trace.iter().any(|a| matches!(a, Action::FetchPage { .. })));
    assert_eq!(second_trace.len(), 3);
}

#[test]
fn site_pages_tile_the_rows() {
    let rows: Vec<Post> = (1..=23).map(|i| post(i, "t", "x")).collect();
    let size = 5;
    let count = num_pages(rows.len() as u64, size);
    assert_eq!(count, 5);
    let mut all = vec![];
    for page in 1..=count {
        let mut cache = HashMap::new();
        let (_, body) = serve(&mut cache, &rows, site_get_posts(query(page, size)));
        if page < count {
            assert_eq!(body.len(), size as usize);
        }
        all.extend(body);
    }
    assert_eq!(all, rows);
    let mut cache = HashMap::new();
    let (_, beyond) = serve(&mut cache, &rows, site_get_posts(query(count + 1, size)));
    assert!(beyond.is_empty());
}

#[test]
fn repeated_detail_is_served_from_cache() {
    let (mut run, action) = get_detail(3);
    let key = match action {
        Action::CacheGet { key } => key,
        other => panic!("{:?}", other),
    };
    run.step(Event::CacheAnswered(CacheReply::Other));
    let stored = match run.step(Event::PostFound(Some(Some(post(3, "a", "b"))))) {
        Action::CacheSetPost { key: k, post: p, .. } => {
            assert_eq!(k, key);
            p
        }
        other => panic!("{:?}", other),
    };
    let (mut again, action) = get_detail(3);
    assert_eq!(action, Action::CacheGet { key: key.clone() });
    let decode = again.step(Event::CacheAnswered(CacheReply::Bulk(b"{}".to_vec())));
    assert!(matches!(decode, Action::DecodePost { .. }));
    assert_eq!(
        again.step(Event::PostDecoded(Some(stored))),
        Action::Respond(Reply::Post(post(3, "a", "b")))
    );
}

#[test]
fn edit_after_update_shows_update() {
    let mut table: HashMap<i32, Post> = HashMap::new();
    table.insert(4, post(4, "old", "old"));
    let (mut run, write) = update(4, post(99, "new", "body"));
    if let Action::UpdatePost { id, title, text } = write {
        table.insert(id, Post { id, title, text });
    }
    assert_eq!(run.step(Event::Saved(true)), Action::Respond(Reply::Redirect("/".to_string())));
    let (mut run, find) = edit(4);
    let found = match find {
        Action::FindPost { id } => table.get(&id).cloned(),
        other => panic!("{:?}", other),
    };
    assert_eq!(
        run.step(Event::PostFound(Some(found))),
        Action::Render {
            template: "edit.html.tera".to_string(),
            context: PageContext::Edit { post: post(4, "new", "body") },
        }
    );
}

#[test]
fn update_twice_is_update_once() {
    let mut table: HashMap<i32, Post> = HashMap::new();
    table.insert(4, post(4, "old", "old"));
    let mut snapshots = vec![];
    for _ in 0..2 {
        let (mut run, write) = update(4, post(0, "new", "body"));
        if let Action::UpdatePost { id, title, text } = write {
            table.insert(id, Post { id, title, text });
        }
        assert_eq!(run.step(Event::Saved(true)), Action::Respond(Reply::Redirect("/".to_string())));
        snapshots.push(table.clone());
    }
    assert_eq!(snapshots[0], snapshots[1]);
}

#[test]
fn seeded_texts_are_lorem_sentences() {
    let (_, action) = seed_posts();
    let rows = match action {
        Action::InsertPosts { rows } => rows,
        other => panic!("{:?}", other),
    };
    for row in rows.iter().take(200) {
        for text in [&row.title, &row.text] {
            let body = text.strip_suffix('.').expect("ends with a full stop");
            let words: Vec<&str> = body.split(' ').collect();
            assert!((4..=9).contains(&words.len()), "{:?}", text);
            for word in words {
                assert!(!word.is_empty() && word.chars().all(|c| c.is_ascii_lowercase()), "{:?}", text);
            }
        }
    }
}
