use iotics_grpc_client::page::{ResponseType, Scope};
use iotics_grpc_client::session::{start_search, SearchSession};

#[test]
fn session_starts_on_page_zero() {
    let s: SearchSession<()> = SearchSession::new("Ab3dE5g".to_string(), Scope::Local);
    assert_eq!(s.subscription.client_app_id, "Ab3dE5g");
    assert_eq!(s.subscription.transaction_ref, vec!["Ab3dE5g".to_string()]);
    assert_eq!(s.first_page.client_ref, "Ab3dE5g_0");
    assert_eq!(s.first_page.client_app_id, "Ab3dE5g");
    assert_eq!(s.first_page.transaction_ref, vec!["Ab3dE5g".to_string()]);
    assert_eq!(s.first_page.scope, Scope::Local);
    assert_eq!(s.first_page.response_type, ResponseType::Full);
    assert_eq!(s.first_page.lang, "en");
    assert_eq!(s.first_page.range.limit, 100);
    assert_eq!(s.first_page.range.offset, 0);
    assert_eq!(s.coordinator.page(), 0);
    assert!(!s.coordinator.awaits_dispatch());
    assert!(!s.coordinator.is_closed());
}

#[test]
fn started_session_uses_a_fresh_id() {
    let s: SearchSession<()> = start_search(Scope::Global);
    let id = s.subscription.client_app_id.clone();
    assert_eq!(id.len(), 7);
    assert!(id.chars().all(|c| c.is_ascii_alphanumeric()));
    assert_eq!(s.first_page.client_ref, format!("{}_0", id));
}
