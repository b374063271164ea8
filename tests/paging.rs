use potluck::paging::{has_more, page_for_offset, page_offset, people_request};
use potluck::routes::{NextUrl, PeopleParams, PeopleQuery};

#[test]
fn third_page_of_twenty_five_starts_at_fifty() {
    assert_eq!(page_offset(3, 25), 50);
    assert_eq!(page_offset(1, 25), 0);
}

#[test]
fn more_remain_when_offset_and_count_fall_short() {
    assert!(has_more(50, 25, 120));
    assert!(!has_more(50, 10, 60));
    assert!(!has_more(0, 0, 0));
    assert!(!has_more(usize::MAX, 1, 5));
}

#[test]
fn offset_maps_to_page() {
    assert_eq!(page_for_offset(0, 25), 1);
    assert_eq!(page_for_offset(24, 25), 1);
    assert_eq!(page_for_offset(50, 25), 3);
}

#[test]
fn request_percent_encodes_name() {
    let r = people_request(3, 25, Some("foo bar?"));
    assert_eq!(r.offset, 50);
    assert_eq!(r.per_page, 25);
    assert_eq!(r.search_name, Some("foo%20bar%3F".to_string()));
    let r = people_request(1, 25, Some("Zoë-1"));
    assert_eq!(r.search_name, Some("Zo%C3%AB%2D1".to_string()));
    let r = people_request(1, 25, None);
    assert_eq!(r.search_name, None);
}

#[test]
fn search_query_paging() {
    let q = PeopleQuery { offset: Some(50), name: None };
    let p = q.paging().unwrap();
    assert_eq!(p.page, 3);
    assert_eq!(p.offset, 50);
    assert_eq!(p.next_offset, 75);
    assert!(q.has_more(25, 120));
    assert!(!q.has_more(10, 60));
    let q = PeopleQuery { offset: None, name: None };
    assert_eq!(q.paging().unwrap().page, 1);
    let q = PeopleQuery { offset: Some(usize::MAX), name: None };
    assert!(q.paging().is_none());
}

#[test]
fn people_tab_defaults_to_active() {
    assert_eq!(PeopleParams { tab: None }.tab(), "active");
    assert_eq!(PeopleParams { tab: Some("hosts".to_string()) }.tab(), "hosts");
}

#[test]
fn login_destination() {
    let n = NextUrl { next: Some("/search".to_string()) };
    assert_eq!(n.login_query(), "?next=/search");
    assert_eq!(n.redirect_target(), "/search");
    let n = NextUrl { next: None };
    assert_eq!(n.login_query(), "");
    assert_eq!(n.redirect_target(), "/me");
}
