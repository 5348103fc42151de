use judge_engine::common::response::ApiResponse;
use judge_engine::common::response::ResponseMeta;

#[test]
fn a_success_carries_its_data() {
    let r = ApiResponse::success(5);
    assert!(r.success);
    assert_eq!(r.data, Some(5));
    assert_eq!(r.message, None);
    assert_eq!(r.error_code, None);
    assert!(r.meta.is_none());
}

#[test]
fn a_success_with_meta_carries_both() {
    let meta = ResponseMeta {
        total: Some(41),
        page: Some(2),
        per_page: Some(20),
        total_pages: Some(3),
        has_next: Some(true),
        has_prev: Some(true),
    };
    let r = ApiResponse::success_with_meta("x".to_string(), meta);
    assert!(r.success);
    assert_eq!(r.data.as_deref(), Some("x"));
    assert_eq!(r.message, None);
    assert_eq!(r.error_code, None);
    let meta = r.meta.expect("meta");
    assert_eq!(meta.total, Some(41));
    assert_eq!(meta.page, Some(2));
    assert_eq!(meta.per_page, Some(20));
    assert_eq!(meta.total_pages, Some(3));
    assert_eq!(meta.has_next, Some(true));
    assert_eq!(meta.has_prev, Some(true));
}

#[test]
fn a_success_with_message_carries_both() {
    let r = ApiResponse::success_with_message(vec![1, 2], "created".to_string());
    assert!(r.success);
    assert_eq!(r.data, Some(vec![1, 2]));
    assert_eq!(r.message.as_deref(), Some("created"));
    assert_eq!(r.error_code, None);
    assert!(r.meta.is_none());
}

#[test]
fn an_empty_success_carries_nothing() {
    let r = ApiResponse::success_empty();
    assert!(r.success);
    assert_eq!(r.data, None);
    assert_eq!(r.message, None);
    assert_eq!(r.error_code, None);
    assert!(r.meta.is_none());
}

#[test]
fn a_success_message_carries_only_the_message() {
    let r = ApiResponse::success_message("deleted".to_string());
    assert!(r.success);
    assert_eq!(r.data, None);
    assert_eq!(r.message.as_deref(), Some("deleted"));
    assert_eq!(r.error_code, None);
}

#[test]
fn an_error_is_no_success() {
    let r = ApiResponse::error("boom".to_string());
    assert!(!r.success);
    assert_eq!(r.data, None);
    assert_eq!(r.message.as_deref(), Some("boom"));
    assert_eq!(r.error_code, None);
    assert!(r.meta.is_none());
}

#[test]
fn an_error_with_code_carries_the_code() {
    let r = ApiResponse::error_with_code("no such thing".to_string(), "NOT_FOUND".to_string());
    assert!(!r.success);
    assert_eq!(r.data, None);
    assert_eq!(r.message.as_deref(), Some("no such thing"));
    assert_eq!(r.error_code.as_deref(), Some("NOT_FOUND"));
    assert!(r.meta.is_none());
}
