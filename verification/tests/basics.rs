use dropshipping::analyst::formatter::format_count;
use dropshipping::aliexpress_provider::formatter::{checked_float_text, is_float_text, parse_u64_text, str_to_u64, IntParseFailure};
use dropshipping::analyst::aggregator::{
    distribution_products_by_orders, distribution_products_by_rating, distribution_stores_by_rating, orders_from_total,
};
use dropshipping::config::{
    default_asset_directory, default_category_pages, default_log_directory, default_mongo_endpoint,
    default_report_directory, PullingConfig,
};
use dropshipping::database::{is_bulk_write_conflict_codes, is_conflict_document_code, is_conflict_index_code};
use dropshipping::javascript::{get_rhs_object, script_call};
use dropshipping::json::{as_array, as_str, index_of, is_null, is_object, key_of, take_key, JsonNumber, JsonValue};
use dropshipping::path::file_stem;
use dropshipping::progress::Progress;
use dropshipping::provider::ProviderIdentity;
use dropshipping::result::{PullError, PullErrorKind, UnexpectedError};
use dropshipping::scraper_extension::{get_inner_text_element, query_selector_all_html, query_selector_html, select_first, HtmlElement};
use dropshipping::task_tracker::{CategoryState, CategoryTask, GeneralTask, ProductState};
use dropshipping::text::{contains, first_word_of, join_texts, trim, u64_to_text};

#[test]
fn decimal_text_reads_back() {
    for n in [0u64, 7, 10, 42, 1005003678799430, u64::MAX] {
        let text = u64_to_text(n);
        assert_eq!(text, n.to_string());
        assert_eq!(str_to_u64(&text).unwrap(), n);
        assert_eq!(parse_u64_text(&text), Ok(n));
    }
}

#[test]
fn grouped_text_reads_back() {
    for (n, grouped) in [(0u64, "0"), (999, "999"), (1000, "1,000"), (1234567, "1,234,567"), (u64::MAX, "18,446,744,073,709,551,615")] {
        assert_eq!(format_count(n), grouped);
        assert_eq!(str_to_u64(&format_count(n)).unwrap(), n);
    }
}

#[test]
fn str_to_u64_ignores_spaces_and_commas() {
    assert_eq!(str_to_u64(" 1,234 ").unwrap(), 1234);
    assert_eq!(str_to_u64("+5").unwrap(), 5);
    assert_eq!(str_to_u64("").unwrap_err().description(), "cannot parse integer from empty string");
    assert_eq!(str_to_u64(" , ").unwrap_err().description(), "cannot parse integer from empty string");
    assert_eq!(str_to_u64("-5").unwrap_err().description(), "invalid digit found in string");
    assert_eq!(str_to_u64("1.5").unwrap_err().description(), "invalid digit found in string");
    assert_eq!(str_to_u64("18446744073709551616").unwrap_err().description(), "number too large to fit in target type");
    assert_eq!(parse_u64_text("+"), Err(IntParseFailure::InvalidDigit));
}

#[test]
fn float_texts() {
    for ok in ["1", "1.", ".5", "1e5", "1E-5", "+2.5e+3", "inf", "-Infinity", "NaN", "1,234.5"] {
        let t = checked_float_text(ok).unwrap();
        assert!(t.parse::<f64>().is_ok(), "{}", ok);
    }
    assert_eq!(checked_float_text(" 1 234,5 ").unwrap(), "12345");
    for bad in [".", "e5", "1e", "1.2.3", "abc", "+", "infinite", "0x10"] {
        assert_eq!(checked_float_text(bad).unwrap_err().description(), "invalid float literal", "{}", bad);
        assert!(bad.replace(' ', "").replace(',', "").parse::<f64>().is_err());
    }
    assert_eq!(checked_float_text("").unwrap_err().description(), "cannot parse float from empty string");
    assert!(is_float_text("98.5"));
    assert!(!is_float_text(""));
    assert!(!is_float_text("98.5%"));
}

#[test]
fn file_stems() {
    assert_eq!(file_stem("hardware.html"), Some("hardware".to_string()));
    assert_eq!(file_stem("a.tar.gz"), Some("a.tar".to_string()));
    assert_eq!(file_stem(".hidden"), Some(".hidden".to_string()));
    assert_eq!(file_stem("plain"), Some("plain".to_string()));
    assert_eq!(file_stem("dir/file.txt"), Some("file".to_string()));
    assert_eq!(file_stem("dir/file.txt/."), Some("file".to_string()));
    assert_eq!(file_stem("a."), Some("a".to_string()));
    assert_eq!(file_stem(""), None);
    assert_eq!(file_stem("."), None);
    assert_eq!(file_stem(".."), None);
    assert_eq!(file_stem("a/.."), None);
    for p in ["hardware.html", "a.tar.gz", ".hidden", "x/y.z", "a.", "..x", ""] {
        let std_stem = std::path::Path::new(p).file_stem().map(|s| s.to_str().unwrap().to_string());
        assert_eq!(file_stem(p), std_stem, "{}", p);
    }
}

#[test]
fn texts() {
    assert_eq!(trim("  a b \n"), "a b");
    assert_eq!(first_word_of("  12 sold"), Some("12".to_string()));
    assert_eq!(first_word_of(" \t "), None);
    assert!(contains("window.x = 1", "x = "));
    assert!(!contains("abc", "abd"));
    assert_eq!(join_texts(&vec!["a".to_string(), "b".to_string(), "c".to_string()]), "a b c");
    assert_eq!(join_texts(&vec![]), "");
    let call = script_call("window = {};\n", "let a = 1", "function f() {return a};\n", "f");
    assert_eq!(call.program, "window = {};\nlet a = 1;\nfunction f() {return a};\n");
    assert_eq!(call.function, "f");
}

#[test]
fn rhs_objects_open_with_a_brace() {
    let found = get_rhs_object("v = ", "v = {a} v = x {b}} v = {", 5);
    assert_eq!(found, vec!["{a}".to_string(), "{b}".to_string(), "{".to_string()]);
    assert!(found.iter().all(|o| o.starts_with('{')));
}

#[test]
fn pull_error_builders() {
    let e = PullError::from_step("inner", PullErrorKind::BadData)
        .set_message("bad")
        .set_http_fragment("<a>")
        .set_skip(true)
        .stack_step("middle")
        .stack_step("outer");
    assert_eq!(e.steps(), vec!["outer".to_string(), "middle".to_string(), "inner".to_string()]);
    assert_eq!(e.kind(), PullErrorKind::BadData);
    assert_eq!(e.description(), "bad");
    assert_eq!(e.http_fragment(), Some("<a>"));
    assert!(e.skip);
    let plain = PullError::from_step("s", PullErrorKind::Http);
    assert_eq!(plain.description(), "no message from error");
    assert!(!plain.skip);
    let r: Result<u8, PullError> = plain.to_result();
    assert!(r.is_err());
    let http = PullError::from_http_error("fetch", "https://a.com/", "timeout");
    assert_eq!(http.kind(), PullErrorKind::Http);
    assert_eq!(PullErrorKind::Http.code(), 1);
    assert_eq!(PullErrorKind::Database.code(), 4);
}

#[test]
fn unexpected_errors() {
    let e = UnexpectedError::new("boom");
    assert_eq!(e.description(), "boom");
    let r: Result<u8, UnexpectedError> = UnexpectedError::new_as_box_result("bang");
    assert_eq!(r.unwrap_err().description(), "bang");
}

#[test]
fn progress_ticks_stop_at_total() {
    let mut p = Progress::new(1, 3, 20000).unwrap();
    for _ in 0..5 {
        p.tick();
    }
    assert_eq!(p.finished_tasks(), 3);
    assert_eq!(p.ticked_tasks(), 2);
    assert_eq!(p.total_tasks(), 3);
    assert_eq!(p.estimated_task_time_ms(), 20000);
    let mut done = Progress::new(4, 3, 1).unwrap();
    done.tick();
    assert_eq!(done.finished_tasks(), 4);
    assert_eq!(done.ticked_tasks(), 0);
    assert_eq!(Progress::new(0, 3, 0).err().unwrap().description(), "estimated_task_time must be > 0");
}

#[test]
fn progress_estimates_from_expected_time_before_any_tick() {
    let p = Progress::new(1, 3, 20000).unwrap();
    let start = p.started_at_ms();
    assert_eq!(p.estimated_at(start + 123_456), 40_000_000_000);
    assert_eq!(p.estimated(), Some(40_000_000_000));
}

#[test]
fn progress_estimates_from_elapsed_time_after_ticks() {
    let mut p = Progress::new(0, 5, 1000).unwrap();
    p.tick();
    p.tick();
    p.tick();
    let start = p.started_at_ms();
    // 1.002 s shared among 3 tasks: chrono divides the second and the 2 ms apart,
    // 333_333_333 + 666_666 ns, one short of the exact quotient; 2 tasks remain.
    assert_eq!(p.estimated_at(start + 1002), 667_999_998);
    // no time elapsed: the share is zero and the expected time stands in.
    assert_eq!(p.estimated_at(start), 2_000_000_000);
    // the clock went back half a second.
    assert_eq!(p.estimated_at(start - 500), -333_333_334);
}

#[test]
fn provider_codes() {
    for p in [ProviderIdentity::Aliexpress, ProviderIdentity::Ebay, ProviderIdentity::Amazon] {
        assert_eq!(ProviderIdentity::from_code(p.code()), Some(p));
    }
    assert_eq!(ProviderIdentity::Ebay.code(), 2);
    assert_eq!(ProviderIdentity::from_code(0), None);
    assert_eq!(ProviderIdentity::from_code(4), None);
}

#[test]
fn database_codes() {
    assert!(is_conflict_index_code(86));
    assert!(!is_conflict_index_code(11000));
    assert!(is_conflict_document_code(11000));
    assert!(!is_conflict_document_code(86));
    assert!(is_bulk_write_conflict_codes(Some(&vec![11000, 11000])));
    assert!(is_bulk_write_conflict_codes(Some(&vec![])));
    assert!(!is_bulk_write_conflict_codes(Some(&vec![11000, 2])));
    assert!(!is_bulk_write_conflict_codes(None));
}

#[test]
fn configuration_defaults() {
    assert_eq!(default_category_pages(), 2);
    let c = PullingConfig::default();
    assert!(c.category.is_empty());
    assert_eq!(c.category_pages, 2);
    assert_eq!(default_log_directory(), "log");
    assert_eq!(default_report_directory(), "report");
    assert_eq!(default_asset_directory(), "asset");
    assert_eq!(default_mongo_endpoint(), "mongodb://localhost/dropshipping");
}

#[test]
fn distributions_count_the_unknown() {
    let m = distribution_products_by_rating(20, 1, 2, 3, 4, 5);
    assert_eq!(m.unknown_count, 5);
    let o = distribution_products_by_orders(100, 1, 2, 3, 4, 5, 6, 7, 8, 9);
    assert_eq!(o.unknown_count, 55);
    assert_eq!(o.count_10000_n, 9);
    let s = distribution_stores_by_rating(70, 1, 2, 3, 4, 5, 6, 7, 8, 9, 10, 11);
    assert_eq!(s.unknown_count, 4);
    assert_eq!(orders_from_total(None), 0);
    assert_eq!(orders_from_total(Some(12)), 12);
}

#[test]
fn task_states() {
    let t = CategoryTask::new(None);
    assert_eq!(*t.state(), CategoryState { done: false, prepared: false, from_identity: 0 });
    let s = CategoryState { done: true, prepared: true, from_identity: 9 };
    let mut t = CategoryTask::new(Some(s));
    assert_eq!(*t.state(), s);
    t.state_mut().from_identity = 10;
    assert_eq!(t.state().from_identity, 10);
    assert_eq!(CategoryTask::identity(), "pull.category");
    assert_eq!(ProductState::new(), ProductState { category_identity: 0, category_page_index: 0, done: false });
}

fn number(n: u64) -> JsonValue {
    JsonValue::Number(JsonNumber { as_u64: n, f64_bits: (n as f64).to_bits() })
}

#[test]
fn json_lookups() {
    let v = JsonValue::Object(vec![
        ("a".to_string(), JsonValue::Array(vec![number(1), JsonValue::String("x".to_string())])),
        ("b".to_string(), JsonValue::Null),
        ("a".to_string(), number(9)),
    ]);
    let a = key_of(Some(&v), "a");
    assert!(as_array(a).is_some());
    assert_eq!(as_str(index_of(a, 1)), Some("x"));
    assert!(is_null(index_of(a, 2)));
    assert!(is_null(key_of(Some(&v), "b")));
    assert!(is_null(key_of(Some(&v), "c")));
    assert!(is_null(key_of(index_of(a, 0), "a")));
    assert!(is_object(Some(&v)));
    assert!(!is_object(a));
    match take_key(v, "a") {
        JsonValue::Array(items) => assert_eq!(items.len(), 2),
        _ => panic!("first entry expected"),
    }
}

#[test]
fn html_queries() {
    let page = "<div><p class='x' title='one'>a <b>b</b></p><p class='x'>c</p></div>";
    let all = query_selector_all_html(page, "p.x", "title").unwrap();
    assert_eq!(all.len(), 2);
    assert_eq!(all[0].attribute, Some("one".to_string()));
    assert_eq!(all[1].attribute, None);
    assert_eq!(get_inner_text_element(&all[0]), "a  b");
    assert_eq!(all[1].inner_html, "c");
    assert_eq!(all[1].html, "<p class=\"x\">c</p>");
    assert_eq!(query_selector_all_html(page, "p[", "").unwrap_err().description(), "bad css selector");
    assert!(query_selector_html(page, "span", "").unwrap().is_none());
    let first: HtmlElement = select_first(page, "p", "").unwrap();
    assert_eq!(first.texts, vec!["a ".to_string(), "b".to_string()]);
    assert!(select_first(page, "p[", "").is_none());
}
