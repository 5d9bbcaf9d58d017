use posts_service::cache::{detail_cache_key, paging_cache_key, CACHE_TTL_SECONDS};
use posts_service::decimal::{i32_to_decimal, u64_to_decimal};
use posts_service::protocol::contains_pattern;
use posts_service::root::controller::num_pages;

#[test]
fn decimal_matches_display() {
    for n in [0u64, 1, 9, 10, 19, 20, 99, 100, 300, 1234567890, u64::MAX] {
        assert_eq!(u64_to_decimal(n), n.to_string());
    }
}

#[test]
fn signed_decimal_matches_display() {
    for i in [0i32, 5, -5, 10, -10, 42, i32::MAX, i32::MIN, -1] {
        assert_eq!(i32_to_decimal(i), i.to_string());
    }
}

#[test]
fn paging_key_format() {
    assert_eq!(
        paging_cache_key(1, 20, ""),
        "products:paging:page=1:pageSize=20:search="
    );
    assert_eq!(
        paging_cache_key(3, 15, "rust"),
        "products:paging:page=3:pageSize=15:search=rust"
    );
    assert_eq!(
        paging_cache_key(0, 20, "a:pageSize=9"),
        format!("products:paging:page={}:pageSize={}:search={}", 0, 20, "a:pageSize=9")
    );
}

#[test]
fn paging_keys_of_distinct_queries_differ() {
    assert_ne!(paging_cache_key(1, 23, ""), paging_cache_key(12, 3, ""));
    assert_ne!(paging_cache_key(1, 2, "3"), paging_cache_key(1, 23, ""));
    assert_ne!(paging_cache_key(1, 20, "x"), paging_cache_key(1, 20, "y"));
}

#[test]
fn detail_key_format() {
    assert_eq!(detail_cache_key(7), "post:detail:id=7");
    assert_eq!(detail_cache_key(-3), "post:detail:id=-3");
    assert_ne!(detail_cache_key(3), detail_cache_key(-3));
}

#[test]
fn page_and_post_keys_never_collide() {
    assert_ne!(paging_cache_key(1, 1, ""), detail_cache_key(1));
    assert!(paging_cache_key(0, 0, "").starts_with("products:"));
    assert!(detail_cache_key(0).starts_with("post:"));
}

#[test]
fn cache_lifetime_is_five_minutes() {
    assert_eq!(CACHE_TTL_SECONDS, 300);
}

#[test]
fn like_pattern_wraps_search() {
    assert_eq!(contains_pattern("abc"), "%abc%");
    assert_eq!(contains_pattern(""), "%%");
}

#[test]
fn page_count_rounds_up() {
    assert_eq!(num_pages(0, 20), 0);
    assert_eq!(num_pages(1, 20), 1);
    assert_eq!(num_pages(20, 20), 1);
    assert_eq!(num_pages(21, 20), 2);
    assert_eq!(num_pages(25, 10), 3);
    assert_eq!(num_pages(u64::MAX, 1), u64::MAX);
}

#[test]
fn page_count_is_least_cover() {
    for items in 0u64..200 {
        for per_page in 1u64..30 {
            let pages = num_pages(items, per_page);
            assert!(pages * per_page >= items);
            assert!(pages == 0 || (pages - 1) * per_page < items);
        }
    }
}
