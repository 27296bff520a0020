use iotics_grpc_client::coordinator::{Action, Coordinator, Event, ResponseMeta, SearchFailure};
use iotics_grpc_client::page::Scope;
use iotics_grpc_client::session::SearchSession;

type Coord = Coordinator<&'static str>;
type Act = Action<&'static str, String>;

fn coordinator() -> Coord {
    Coordinator::new("abc1234".to_string(), vec!["abc1234".to_string()], Scope::Global)
}

fn response(client_ref: &str, twins: usize) -> ResponseMeta {
    ResponseMeta { client_ref: Some(client_ref.to_string()), twin_count: Some(twins) }
}

fn received(c: &mut Coord, item: &'static str, meta: ResponseMeta) -> Vec<Act> {
    c.handle(Event::Received(item, meta))
}

fn delivered(actions: &[Act]) -> Vec<&'static str> {
    actions
        .iter()
        .filter_map(|a| match a {
            Action::Deliver(Ok(item)) => Some(*item),
            _ => None,
        })
        .collect()
}

fn dispatched_pages(actions: &[Act]) -> Vec<u32> {
    actions
        .iter()
        .filter_map(|a| match a {
            Action::Dispatch(r) => Some(r.range.offset / 100),
            _ => None,
        })
        .collect()
}

#[test]
fn scenario_no_matching_twins() {
    let session: SearchSession<&'static str> = SearchSession::new("abc1234".to_string(), Scope::Global);
    assert_eq!(session.first_page.range.limit, 100);
    assert_eq!(session.first_page.range.offset, 0);
    assert_eq!(session.first_page.client_ref, "abc1234_0");
    let mut c = session.coordinator;
    let a = received(&mut c, "empty", response("abc1234_0", 0));
    assert_eq!(delivered(&a), vec!["empty"]);
    assert!(dispatched_pages(&a).is_empty());
    let a = c.handle::<String>(Event::StreamEnded);
    assert_eq!(a.len(), 1);
    assert!(matches!(a[0], Action::Close));
    assert!(c.is_closed());
}

#[test]
fn scenario_single_host_full_page() {
    let mut c = coordinator();
    let a = received(&mut c, "page0", response("abc1234_0", 100));
    assert_eq!(a.len(), 1);
    match &a[0] {
        Action::Dispatch(r) => {
            assert_eq!(r.client_ref, "abc1234_1");
            assert_eq!(r.range.offset, 100);
            assert_eq!(r.range.limit, 100);
            assert_eq!(r.client_app_id, "abc1234");
        }
        _ => panic!("expected a dispatch"),
    }
    assert!(c.awaits_dispatch());
    let a = c.handle::<String>(Event::Dispatched(Ok(())));
    assert_eq!(delivered(&a), vec!["page0"]);
    assert_eq!(c.page(), 1);
    let a = received(&mut c, "page1", response("abc1234_1", 0));
    assert_eq!(delivered(&a), vec!["page1"]);
    assert!(dispatched_pages(&a).is_empty());
    let a = c.handle::<String>(Event::StreamEnded);
    assert!(matches!(a[..], [Action::Close]));
}

#[test]
fn scenario_two_hosts_no_duplicate_advance() {
    let mut c = coordinator();
    let a = received(&mut c, "hostA-page0", response("abc1234_0", 100));
    assert_eq!(dispatched_pages(&a), vec![1]);
    let a = c.handle::<String>(Event::Dispatched(Ok(())));
    assert_eq!(delivered(&a), vec!["hostA-page0"]);
    assert_eq!(c.page(), 1);
    let a = received(&mut c, "hostB-page0", response("abc1234_0", 100));
    assert_eq!(delivered(&a), vec!["hostB-page0"]);
    assert!(dispatched_pages(&a).is_empty());
    assert_eq!(c.page(), 1);
}

#[test]
fn scenario_timeout_closes_without_sentinel() {
    let mut c = coordinator();
    let a = received(&mut c, "partial", response("abc1234_0", 3));
    assert_eq!(delivered(&a), vec!["partial"]);
    let a = c.handle::<String>(Event::TimedOut);
    assert_eq!(a.len(), 1);
    assert!(matches!(a[0], Action::Close));
    assert!(c.is_closed());
    let a = received(&mut c, "late", response("abc1234_0", 3));
    assert!(a.is_empty());
}

#[test]
fn full_page_with_other_ref_does_not_dispatch() {
    let mut c = coordinator();
    let a = received(&mut c, "x", response("zzz9999_0", 150));
    assert_eq!(delivered(&a), vec!["x"]);
    let a = received(&mut c, "y", ResponseMeta { client_ref: None, twin_count: Some(100) });
    assert_eq!(delivered(&a), vec!["y"]);
    let a = received(&mut c, "z", ResponseMeta { client_ref: Some("abc1234_0".to_string()), twin_count: None });
    assert_eq!(delivered(&a), vec!["z"]);
    let a = received(&mut c, "w", response("abc1234_0", 99));
    assert_eq!(delivered(&a), vec!["w"]);
    assert_eq!(c.page(), 0);
}

#[test]
fn failed_dispatch_keeps_counter_and_forwards_error_then_response() {
    let mut c = coordinator();
    received(&mut c, "page0", response("abc1234_0", 100));
    let a = c.handle(Event::Dispatched(Err("unavailable".to_string())));
    assert_eq!(a.len(), 2);
    match &a[0] {
        Action::Deliver(Err(SearchFailure::Dispatch { page, cause })) => {
            assert_eq!(*page, 1);
            assert_eq!(cause, "unavailable");
        }
        _ => panic!("expected the dispatch error first"),
    }
    assert_eq!(delivered(&a), vec!["page0"]);
    assert_eq!(c.page(), 0);
    let a = received(&mut c, "page0-again", response("abc1234_0", 100));
    assert_eq!(dispatched_pages(&a), vec![1]);
}

#[test]
fn stream_errors_are_forwarded_and_the_session_goes_on() {
    let mut c = coordinator();
    let a = c.handle(Event::StreamFailed("reset".to_string()));
    assert_eq!(a.len(), 1);
    assert!(matches!(&a[0], Action::Deliver(Err(SearchFailure::Stream(e))) if e == "reset"));
    assert!(!c.is_closed());
    let a = received(&mut c, "after", response("abc1234_0", 1));
    assert_eq!(delivered(&a), vec!["after"]);
}

#[test]
fn stream_end_delivers_response_waiting_for_dispatch() {
    let mut c = coordinator();
    received(&mut c, "page0", response("abc1234_0", 100));
    let a = c.handle::<String>(Event::StreamEnded);
    assert_eq!(delivered(&a), vec!["page0"]);
    assert!(matches!(a.last(), Some(Action::Close)));
}

#[test]
fn counter_advances_by_one_per_acknowledged_dispatch() {
    let mut c = coordinator();
    for page in 0..5u32 {
        let r = format!("abc1234_{}", page);
        let a = received(&mut c, "full", response(&r, 100));
        assert_eq!(dispatched_pages(&a), vec![page + 1]);
        c.handle::<String>(Event::Dispatched(Ok(())));
        assert_eq!(c.page(), page + 1);
    }
    let a = c.handle::<String>(Event::Dispatched(Ok(())));
    assert!(a.is_empty());
    assert_eq!(c.page(), 5);
}

#[test]
fn every_item_is_forwarded_once() {
    let mut c = coordinator();
    let mut out: Vec<&'static str> = Vec::new();
    let items = ["a", "b", "c", "d"];
    let metas = [
        response("abc1234_0", 100),
        response("abc1234_1", 100),
        response("abc1234_0", 100),
        response("abc1234_2", 5),
    ];
    for (item, meta) in items.iter().zip(metas.into_iter()) {
        let a = received(&mut c, item, meta);
        out.extend(delivered(&a));
        if c.awaits_dispatch() {
            out.extend(delivered(&c.handle::<String>(Event::Dispatched(Ok(())))));
        }
    }
    out.extend(delivered(&c.handle::<String>(Event::StreamEnded)));
    assert_eq!(out, items.to_vec());
    assert_eq!(c.page(), 2);
}
