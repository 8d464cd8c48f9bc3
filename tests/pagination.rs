use page_scraper::config::{parse_key_val, EndpointConfig, KeyValueError};
use page_scraper::pagination::{
    build_request, total_pages, ConfigError, PaginationConfig, PaginationType, ParamKey,
    QueryParam,
};

fn param(key: ParamKey, value: u64) -> QueryParam {
    QueryParam { key, value }
}

#[test]
fn offset_request_for_third_page() {
    let r = build_request(PaginationType::Offset, 3, 100);
    assert_eq!(r, vec![param(ParamKey::Offset, 200), param(ParamKey::Limit, 100)]);
}

#[test]
fn page_request_for_third_page() {
    let r = build_request(PaginationType::Page, 3, 100);
    assert_eq!(r, vec![param(ParamKey::Page, 3), param(ParamKey::PageSize, 100)]);
}

#[test]
fn cursor_request_uses_page_index() {
    let r = build_request(PaginationType::Cursor, 3, 100);
    assert_eq!(r, vec![param(ParamKey::Cursor, 3), param(ParamKey::Limit, 100)]);
}

#[test]
fn first_offset_page_starts_at_zero() {
    let r = build_request(PaginationType::Offset, 1, 250);
    assert_eq!(r, vec![param(ParamKey::Offset, 0), param(ParamKey::Limit, 250)]);
}

#[test]
fn request_is_deterministic() {
    for t in [PaginationType::Offset, PaginationType::Cursor, PaginationType::Page] {
        assert_eq!(build_request(t, 7, 33), build_request(t, 7, 33));
    }
}

#[test]
fn param_names() {
    assert_eq!(ParamKey::Offset.name(), "offset");
    assert_eq!(ParamKey::Limit.name(), "limit");
    assert_eq!(ParamKey::Cursor.name(), "cursor");
    assert_eq!(ParamKey::Page.name(), "page");
    assert_eq!(ParamKey::PageSize.name(), "pageSize");
}

#[test]
fn total_pages_rounds_up() {
    assert_eq!(total_pages(500, 250), 2);
    assert_eq!(total_pages(501, 250), 3);
    assert_eq!(total_pages(1, 250), 1);
    assert_eq!(total_pages(250, 250), 1);
    assert_eq!(total_pages(7, 1), 7);
}

#[test]
fn total_pages_of_nothing_is_zero() {
    assert_eq!(total_pages(0, 250), 0);
    assert_eq!(total_pages(-5, 250), 0);
}

#[test]
fn total_pages_of_largest_count() {
    assert_eq!(total_pages(i64::MAX, 1), i64::MAX as u64);
    assert_eq!(total_pages(i64::MAX, u64::MAX), 1);
}

#[test]
fn variant_names_ignore_case() {
    assert_eq!(PaginationType::from_name("OFFSET"), PaginationType::Offset);
    assert_eq!(PaginationType::from_name("Cursor"), PaginationType::Cursor);
    assert_eq!(PaginationType::from_name("page"), PaginationType::Page);
    assert_eq!(PaginationType::from_name("anything"), PaginationType::Page);
}

#[test]
fn lowercase_names() {
    assert_eq!(PaginationType::from_lowercase_name("offset"), PaginationType::Offset);
    assert_eq!(PaginationType::from_lowercase_name("cursor"), PaginationType::Cursor);
    assert_eq!(PaginationType::from_lowercase_name("OFFSET"), PaginationType::Page);
}

#[test]
fn config_is_validated() {
    let ok = PaginationConfig::new(PaginationType::Page, 250, "data".to_string(), "totalCount".to_string());
    let c = ok.unwrap();
    assert_eq!(c.page_size, 250);
    assert_eq!(c.data_path, "data");
    assert_eq!(c.build_request(2), vec![param(ParamKey::Page, 2), param(ParamKey::PageSize, 250)]);
    let e = PaginationConfig::new(PaginationType::Page, 0, "data".to_string(), "n".to_string());
    assert_eq!(e.unwrap_err(), ConfigError::ZeroPageSize);
    let e = PaginationConfig::new(PaginationType::Page, 1, String::new(), "n".to_string());
    assert_eq!(e.unwrap_err(), ConfigError::EmptyDataPath);
    let e = PaginationConfig::new(PaginationType::Page, 1, "d".to_string(), String::new());
    assert_eq!(e.unwrap_err(), ConfigError::EmptyTotalCountPath);
}

#[test]
fn key_value_split_at_first_separator() {
    assert_eq!(parse_key_val("Accept=application/json"), Ok(("Accept".to_string(), "application/json".to_string())));
    assert_eq!(parse_key_val("a=b=c"), Ok(("a".to_string(), "b=c".to_string())));
    assert_eq!(parse_key_val("=x"), Ok((String::new(), "x".to_string())));
    assert_eq!(parse_key_val("k="), Ok(("k".to_string(), String::new())));
}

#[test]
fn key_value_without_separator() {
    assert_eq!(parse_key_val("novalue"), Err(KeyValueError::MissingSeparator));
    assert_eq!(parse_key_val(""), Err(KeyValueError::MissingSeparator));
}

#[test]
fn later_header_replaces_earlier() {
    let pairs = vec![
        ("Accept".to_string(), "text/plain".to_string()),
        ("X-Key".to_string(), "k".to_string()),
        ("Accept".to_string(), "application/json".to_string()),
    ];
    let e = EndpointConfig::new("http://example.test/api".to_string(), &pairs);
    assert_eq!(e.base_url, "http://example.test/api");
    let mut hs = e.headers.clone();
    hs.sort();
    assert_eq!(hs, vec![
        ("Accept".to_string(), "application/json".to_string()),
        ("X-Key".to_string(), "k".to_string()),
    ]);
}
