use nicopad::fav::{collect_pages, list_all_url, media_list_url, MediaData, MediaObj, PaginationError, Paginator};

fn item(id: i64) -> MediaObj {
    MediaObj { id, title: format!("item {}", id), ..Default::default() }
}

fn page(ids: &[i64], has_more: bool) -> MediaData {
    MediaData { has_more, medias: ids.iter().map(|&i| item(i)).collect(), ..Default::default() }
}

fn ids(p: &Paginator) -> Vec<i64> {
    p.items.iter().map(|m| m.id).collect()
}

#[test]
fn four_pages_are_concatenated_in_order() {
    let replies = vec![
        Some(page(&[1, 2, 3], true)),
        Some(page(&[4, 5], true)),
        Some(page(&[6], true)),
        Some(page(&[7, 8], false)),
    ];
    let p = collect_pages("99".to_string(), replies);
    assert_eq!(ids(&p), vec![1, 2, 3, 4, 5, 6, 7, 8]);
    assert_eq!(p.items.len(), 3 + 2 + 1 + 2);
    assert!(!p.has_more);
    assert_eq!(p.error, None);
    assert_eq!(p.next_page, 4);
    assert!(p.finished);
}

#[test]
fn failure_on_page_two_keeps_page_one() {
    let replies = vec![
        Some(page(&[1, 2], true)),
        None,
        Some(page(&[3], true)),
        Some(page(&[4], false)),
    ];
    let p = collect_pages("99".to_string(), replies);
    assert_eq!(ids(&p), vec![1, 2]);
    assert_eq!(p.error, Some(PaginationError { page: 2 }));
    assert_eq!(p.next_page, 2);
    assert!(p.has_more);
}

#[test]
fn failure_on_first_page_gives_nothing() {
    let p = collect_pages("99".to_string(), vec![None]);
    assert!(p.items.is_empty());
    assert_eq!(p.error, Some(PaginationError { page: 1 }));
}

#[test]
fn missing_page_counts_as_failure() {
    let p = collect_pages("99".to_string(), vec![Some(page(&[1], true))]);
    assert_eq!(ids(&p), vec![1]);
    assert_eq!(p.error, Some(PaginationError { page: 2 }));
}

#[test]
fn single_empty_page() {
    let p = collect_pages("99".to_string(), vec![Some(page(&[], false))]);
    assert!(p.items.is_empty());
    assert_eq!(p.error, None);
    assert!(!p.has_more);
}

#[test]
fn collecting_twice_gives_identical_lists() {
    let make = || vec![Some(page(&[1, 2], true)), Some(page(&[3], false))];
    let a = collect_pages("5".to_string(), make());
    let b = collect_pages("5".to_string(), make());
    assert_eq!(a.items, b.items);
    assert_eq!(a.has_more, b.has_more);
    assert_eq!(a.error, b.error);
}

#[test]
fn paginator_requests_pages_in_turn() {
    let mut p = Paginator::new("123".to_string());
    assert_eq!(
        p.next_request().unwrap(),
        "https://api.bilibili.com/x/v3/fav/resource/list?media_id=123&pn=1&ps=36&tid=0\
&keyword=&order=mtime&type=0&platform=web&web_location=333.1387"
    );
    p.on_page(page(&[1], true));
    assert_eq!(
        p.next_request().unwrap(),
        "https://api.bilibili.com/x/v3/fav/resource/list?media_id=123&pn=2&ps=36&tid=0\
&keyword=&order=mtime&type=0&platform=web&web_location=333.1387"
    );
    p.on_page(page(&[2], false));
    assert_eq!(p.next_request(), None);
}

#[test]
fn paginator_error_ends_requests() {
    let mut p = Paginator::new("1".to_string());
    p.on_error();
    assert_eq!(p.next_request(), None);
    assert_eq!(p.error, Some(PaginationError { page: 1 }));
}

#[test]
fn media_list_address_with_every_parameter() {
    let url = media_list_url(
        "77",
        Some(3),
        Some("cat".to_string()),
        Some("view".to_string()),
        Some(2),
        Some(4),
        Some(20),
        Some("ios".to_string()),
    );
    assert_eq!(
        url,
        "https://api.bilibili.com/x/v3/fav/resource/list?media_id=77&pn=4&ps=20&tid=3\
&keyword=cat&order=view&type=2&platform=ios&web_location=333.1387"
    );
}

#[test]
fn media_list_address_negative_numbers() {
    let url = media_list_url("1", Some(-12), None, None, None, Some(-2147483648), None, None);
    assert_eq!(
        url,
        "https://api.bilibili.com/x/v3/fav/resource/list?media_id=1&pn=-2147483648&ps=36&tid=-12\
&keyword=&order=mtime&type=0&platform=web&web_location=333.1387"
    );
}

#[test]
fn list_all_address_defaults() {
    assert_eq!(
        list_all_url(12345, None, None, None),
        "https://api.bilibili.com/x/v3/fav/folder/created/list-all?up_mid=12345&web_location=333.1387"
    );
}

#[test]
fn list_all_address_with_filters() {
    assert_eq!(
        list_all_url(0, Some(2), Some(10), Some("x.y".to_string())),
        "https://api.bilibili.com/x/v3/fav/folder/created/list-all?up_mid=0&type=2&rid=10&web_location=x.y"
    );
}
