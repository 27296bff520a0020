use iotics_grpc_client::page::{
    client_ref, next_list_page, page_range, page_request, PageRange, ResponseType, Scope, PAGE_SIZE,
};

#[test]
fn client_ref_joins_id_and_page() {
    assert_eq!(client_ref("abc", 0), "abc_0");
    assert_eq!(client_ref("Xy7", 12), "Xy7_12");
    assert_eq!(client_ref("q", 4294967295), "q_4294967295");
    assert_eq!(client_ref("", 7), "_7");
}

#[test]
fn client_ref_differs_between_pages() {
    assert_ne!(client_ref("abc", 1), client_ref("abc", 10));
    assert_ne!(client_ref("abc", 0), client_ref("abc", 1));
}

#[test]
fn page_range_is_page_size_from_page_offset() {
    assert_eq!(page_range(0), Some(PageRange { limit: 100, offset: 0 }));
    assert_eq!(page_range(1), Some(PageRange { limit: 100, offset: 100 }));
    assert_eq!(page_range(7), Some(PageRange { limit: PAGE_SIZE, offset: 700 }));
}

#[test]
fn page_range_largest_pages() {
    assert_eq!(page_range(42949672), Some(PageRange { limit: 100, offset: 4294967200 }));
    assert_eq!(page_range(42949673), None);
    assert_eq!(page_range(u32::MAX), None);
}

#[test]
fn page_request_fills_every_field() {
    let tr = vec!["abc1234".to_string()];
    let r = page_request("abc1234", &tr, Scope::Local, 3).unwrap();
    assert_eq!(r.client_app_id, "abc1234");
    assert_eq!(r.client_ref, "abc1234_3");
    assert_eq!(r.transaction_ref, tr);
    assert_eq!(r.scope, Scope::Local);
    assert_eq!(r.lang, "en");
    assert_eq!(r.response_type, ResponseType::Full);
    assert_eq!(r.range, PageRange { limit: 100, offset: 300 });
}

#[test]
fn page_request_out_of_range() {
    let tr = vec!["abc1234".to_string()];
    assert!(page_request("abc1234", &tr, Scope::Global, 42949673).is_none());
}

#[test]
fn next_list_page_continues_after_full_page() {
    assert_eq!(next_list_page(0, 100), Some(1));
    assert_eq!(next_list_page(4, 250), Some(5));
    assert_eq!(next_list_page(0, 99), None);
    assert_eq!(next_list_page(3, 0), None);
    assert_eq!(next_list_page(42949671, 100), Some(42949672));
    assert_eq!(next_list_page(42949672, 100), None);
}
