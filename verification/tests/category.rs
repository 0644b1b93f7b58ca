use dropshipping::aliexpress_provider::category::{
    adopt_level_3_items, extract_category, extract_category_identity_and_name_url,
    extract_level_1_2_items, extract_level_3_items, extract_level_3_items_from_data,
    extract_selected_category_from_data, filter_items, get_category_page_url,
    get_level_3_page_url, is_empty_data, is_ignored_category,
};
use dropshipping::javascript::{get_rhs_object, ScriptCall};
use dropshipping::json::{JsonNumber, JsonValue};
use dropshipping::provider::Category;
use dropshipping::result::PullErrorKind;

fn to_json(value: &serde_json::Value) -> JsonValue {
    match value {
        serde_json::Value::Null => JsonValue::Null,
        serde_json::Value::Bool(b) => JsonValue::Bool(*b),
        serde_json::Value::Number(n) => {
            let f = n.as_f64().unwrap();
            JsonValue::Number(JsonNumber { as_u64: f as u64, f64_bits: f.to_bits() })
        }
        serde_json::Value::String(s) => JsonValue::String(s.clone()),
        serde_json::Value::Array(items) => JsonValue::Array(items.iter().map(to_json).collect()),
        serde_json::Value::Object(entries) => {
            JsonValue::Object(entries.iter().map(|(k, v)| (k.clone(), to_json(v))).collect())
        }
    }
}

/// Runs the data script of a test page: its data is a JSON object assigned to the page's
/// data variable.
fn evaluate(call: ScriptCall) -> Result<JsonValue, String> {
    let found = get_rhs_object("window._dida_config_._init_data_= ", &call.program, 1);
    match found.first() {
        None => Err("ReferenceError: window is not defined".to_string()),
        Some(text) => {
            let value: serde_json::Value = serde_json::from_str(text).map_err(|e| e.to_string())?;
            Ok(to_json(&value))
        }
    }
}

fn page_with_data(data: &str) -> String {
    format!(
        "<html><head><script>var config = 1;</script><script>window._dida_config_._init_data_= {};</script></head><body></body></html>",
        data
    )
}

fn category_page() -> String {
    page_with_data(
        r#"{"data":{"data":{"root":{"fields":{"mods":{"searchRefineFilters":{"content":[{"type":"price"},{"type":"category","content":[{"categoryEnName":"Hardware","categoryId":42}]}]}}}}}}}"#,
    )
}

fn level_3_page(count: u64) -> String {
    let items: Vec<String> = (0..count)
        .map(|i| {
            format!(
                r#"{{"categoryId":{},"categoryName":"Item {}","categoryUrl":"//www.aliexpress.com/category/{}/item-{}.html"}}"#,
                100 + i,
                i,
                100 + i,
                i
            )
        })
        .collect();
    page_with_data(&format!(
        r#"{{"data":{{"data":{{"root":{{"fields":{{"mods":{{"searchRefineFilters":{{"content":[{{"type":"category"}}]}}}}}}}}}}}},"refineCategory":[{{"childCategories":[{}]}}]}}"#,
        items.join(",")
    ))
}

fn json(text: &str) -> JsonValue {
    to_json(&serde_json::from_str(text).unwrap())
}

#[test]
fn test_extract_level_3_items() {
    let page = level_3_page(15);
    let items = extract_level_3_items(&page, evaluate).unwrap();
    assert_eq!(items.len(), 15);
}

#[test]
fn test_extract_category() {
    let page = category_page();
    let actual = extract_category(&page, evaluate).unwrap();
    assert_eq!(actual.identity, 42);
    assert_eq!(actual.name, "Hardware");
}

#[test]
fn level_3_items_are_level_3_without_parent() {
    let items = extract_level_3_items(&level_3_page(3), evaluate).unwrap();
    for (i, item) in items.iter().enumerate() {
        assert_eq!(item.level, 3);
        assert_eq!(item.parent_identity, None);
        assert_eq!(item.identity, 100 + i as u64);
        assert_eq!(item.name, format!("Item {}", i));
        assert_eq!(item.name_url, format!("item-{}", i));
    }
}

#[test]
fn adopted_level_3_items_get_their_parent() {
    let items = extract_level_3_items(&level_3_page(2), evaluate).unwrap();
    let adopted = adopt_level_3_items(items, 7);
    assert_eq!(adopted.len(), 2);
    assert!(adopted.iter().all(|c| c.parent_identity == Some(7) && c.level == 3));
    assert_eq!(adopted[1].identity, 101);
}

#[test]
fn category_page_without_data_script() {
    let page = "<html><head><script>var x = 1;</script></head></html>".to_string();
    let e = extract_category(&page, evaluate).unwrap_err();
    assert_eq!(e.kind(), PullErrorKind::NoData);
    assert_eq!(e.steps(), vec!["extract_page_script".to_string()]);
}

#[test]
fn category_page_whose_script_fails() {
    let page = category_page();
    let e = extract_category(&page, |_call: ScriptCall| Err("SyntaxError".to_string())).unwrap_err();
    assert_eq!(e.kind(), PullErrorKind::BadData);
    assert_eq!(e.description(), "SyntaxError");
    assert_eq!(e.steps(), vec!["extract_page_data".to_string()]);
}

#[test]
fn empty_category_page_is_skipped() {
    let data = json(r#"{"resultType":"zero_result"}"#);
    assert!(is_empty_data(Some(&data)));
    let e = extract_selected_category_from_data(Some(&data)).unwrap_err();
    assert!(e.skip);
    assert_eq!(e.kind(), PullErrorKind::NoData);
    assert_eq!(e.description(), "category page has no data");
    let items = extract_level_3_items_from_data(Some(&data)).unwrap();
    assert!(items.is_empty());
}

#[test]
fn selected_category_errors() {
    let no_filters = json(r#"{"data":{}}"#);
    let e = extract_selected_category_from_data(Some(&no_filters)).unwrap_err();
    assert_eq!(e.kind(), PullErrorKind::BadData);
    assert_eq!(e.description(), "no message from error");
    let wrong_type = json(
        r#"{"data":{"data":{"root":{"fields":{"mods":{"searchRefineFilters":{"content":[{},{"type":"brand"}]}}}}}}}"#,
    );
    let e = extract_selected_category_from_data(Some(&wrong_type)).unwrap_err();
    assert_eq!(e.description(), "expect refine type: category");
    let one_filter = json(
        r#"{"data":{"data":{"root":{"fields":{"mods":{"searchRefineFilters":{"content":[{"type":"category"}]}}}}}}}"#,
    );
    let e = extract_selected_category_from_data(Some(&one_filter)).unwrap_err();
    assert_eq!(e.description(), "no refine type");
    let no_content = json(
        r#"{"data":{"data":{"root":{"fields":{"mods":{"searchRefineFilters":{"content":[{},{"type":"category","content":[]}]}}}}}}}"#,
    );
    let e = extract_selected_category_from_data(Some(&no_content)).unwrap_err();
    assert_eq!(e.description(), "no refine content");
    let bad_name = json(
        r#"{"data":{"data":{"root":{"fields":{"mods":{"searchRefineFilters":{"content":[{},{"type":"category","content":[{"categoryId":3}]}]}}}}}}}"#,
    );
    let e = extract_selected_category_from_data(Some(&bad_name)).unwrap_err();
    assert_eq!(e.description(), "bad name");
    let bad_identity = json(
        r#"{"data":{"data":{"root":{"fields":{"mods":{"searchRefineFilters":{"content":[{},{"type":"category","content":[{"categoryEnName":"X","categoryId":"3"}]}]}}}}}}}"#,
    );
    let e = extract_selected_category_from_data(Some(&bad_identity)).unwrap_err();
    assert_eq!(e.description(), "bad identity");
}

#[test]
fn selected_category_fields() {
    let data = json(
        r#"{"data":{"data":{"root":{"fields":{"mods":{"searchRefineFilters":{"content":[{},{"type":"category","content":[{"categoryEnName":"Tools","categoryId":1420}]}]}}}}}}}"#,
    );
    let c = extract_selected_category_from_data(Some(&data)).unwrap();
    assert_eq!(c.identity, 1420);
    assert_eq!(c.name, "Tools");
    assert_eq!(c.name_url, "_anything_is_ok_");
    assert_eq!(c.level, 2);
    assert_eq!(c.parent_identity, None);
}

#[test]
fn level_3_items_data_errors() {
    let none = json(r#"{}"#);
    let e = extract_level_3_items_from_data(Some(&none)).unwrap_err();
    assert_eq!(e.description(), "no attribute '...refineCategory'");
    assert_eq!(
        e.steps(),
        vec!["extract_level_3_items_from_data".to_string(), "extract_level_3_items_data".to_string()]
    );
    let empty = json(r#"{"data":{"data":{"root":{"fields":{"mods":{"searchRefineFilters":{"content":[]}}}}}}}"#);
    assert_eq!(
        extract_level_3_items_from_data(Some(&empty)).unwrap_err().description(),
        "empty 'refineCategory'"
    );
    let two = json(r#"{"data":{"data":{"root":{"fields":{"mods":{"searchRefineFilters":{"content":[{},{}]}}}}}}}"#);
    assert_eq!(
        extract_level_3_items_from_data(Some(&two)).unwrap_err().description(),
        "too many 'refineCategory'"
    );
    let no_children = json(r#"{"data":{"data":{"root":{"fields":{"mods":{"searchRefineFilters":{"content":[{}]}}}}}}}"#);
    assert!(extract_level_3_items_from_data(Some(&no_children)).unwrap().is_empty());
    let bad_children = json(
        r#"{"data":{"data":{"root":{"fields":{"mods":{"searchRefineFilters":{"content":[{}]}}}}}},"refineCategory":[{"childCategories":7}]}"#,
    );
    assert_eq!(
        extract_level_3_items_from_data(Some(&bad_children)).unwrap_err().kind(),
        PullErrorKind::BadData
    );
}

#[test]
fn level_3_item_with_short_url() {
    let data = json(
        r#"{"data":{"data":{"root":{"fields":{"mods":{"searchRefineFilters":{"content":[{}]}}}}}},"refineCategory":[{"childCategories":[{"categoryId":5,"categoryName":"A","categoryUrl":"/"}]}]}"#,
    );
    let e = extract_level_3_items_from_data(Some(&data)).unwrap_err();
    assert_eq!(e.kind(), PullErrorKind::BadData);
    assert_eq!(
        e.steps(),
        vec![
            "extract_level_3_items_from_data".to_string(),
            "extract_level_3_item_from_data".to_string(),
            "extract_level_3_item_name_url".to_string()
        ]
    );
}

#[test]
fn category_url_identity_and_name() {
    let (identity, name_url) =
        extract_category_identity_and_name_url("https://www.aliexpress.com/category/42/hardware.html?spm=x").unwrap();
    assert_eq!(identity, 42);
    assert_eq!(name_url, "hardware");
    let (_, dotted) = extract_category_identity_and_name_url("https://a.com/category/7/.hidden").unwrap();
    assert_eq!(dotted, ".hidden");
    let (_, plain) = extract_category_identity_and_name_url("https://a.com/category/7/plain").unwrap();
    assert_eq!(plain, "plain");
}

#[test]
fn category_url_errors() {
    let e = extract_category_identity_and_name_url("not a url").unwrap_err();
    assert_eq!(e.kind(), PullErrorKind::BadData);
    assert_eq!(e.description(), "relative URL without a base");
    let e = extract_category_identity_and_name_url("https://a.com/store/42/x.html").unwrap_err();
    assert_eq!(e.description(), "bad category url");
    let e = extract_category_identity_and_name_url("https://a.com/category/42").unwrap_err();
    assert_eq!(e.description(), "bad category url");
    let e = extract_category_identity_and_name_url("mailto:someone").unwrap_err();
    assert_eq!(e.description(), "bad category url");
    let e = extract_category_identity_and_name_url("https://a.com/category/4x/x.html").unwrap_err();
    assert_eq!(e.description(), "invalid digit found in string");
    let e = extract_category_identity_and_name_url("https://a.com/category/42/").unwrap_err();
    assert_eq!(e.description(), "bad category name");
    let e = extract_category_identity_and_name_url("https://a.com/category/42/..").unwrap_err();
    assert_eq!(e.description(), "bad category url");
}

fn category(identity: u64, parent_identity: Option<u64>) -> Category {
    Category { identity, parent_identity, name: "c".to_string(), name_url: "c".to_string(), level: 2 }
}

#[test]
fn ignored_categories() {
    assert!(is_ignored_category(2));
    assert!(is_ignored_category(1501));
    assert!(!is_ignored_category(3));
    assert!(!is_ignored_category(1500));
}

#[test]
fn filter_items_drops_ignored_categories_and_their_children() {
    let items = vec![
        category(1, None),
        category(2, None),
        category(3, Some(2)),
        category(4, Some(1)),
        category(1501, Some(1)),
        category(5, Some(1501)),
    ];
    let kept: Vec<u64> = filter_items(items).iter().map(|c| c.identity).collect();
    assert_eq!(kept, vec![1, 4]);
}

#[test]
fn filter_items_twice_is_filter_items_once() {
    let items = vec![category(2, None), category(8, Some(2)), category(9, None), category(10, Some(9))];
    let once = filter_items(items);
    let once_ids: Vec<u64> = once.iter().map(|c| c.identity).collect();
    let twice: Vec<u64> = filter_items(once).iter().map(|c| c.identity).collect();
    assert_eq!(once_ids, twice);
    assert_eq!(twice, vec![9, 10]);
}

#[test]
fn menu_page_items() {
    let page = r#"<html><body><div id="category"><div class="cg-main">
        <div class="item"><h3><a href="//www.aliexpress.com/category/100/women.html">Women</a></h3>
            <ul><li><a href="//www.aliexpress.com/category/101/dresses.html">Dresses</a></li>
                <li><a href="//www.aliexpress.com/category/102/tops.html">Tops <b>New</b></a></li></ul></div>
        <div class="item"><h3><a href="//www.aliexpress.com/category/2/food.html">Food</a></h3>
            <ul><li><a href="//www.aliexpress.com/category/201/snacks.html">Snacks</a></li></ul></div>
    </div></div></body></html>"#
        .to_string();
    let items = extract_level_1_2_items(&page).unwrap();
    let summary: Vec<(u64, Option<u64>, u32, String, String)> = items
        .iter()
        .map(|c| (c.identity, c.parent_identity, c.level, c.name.clone(), c.name_url.clone()))
        .collect();
    assert_eq!(
        summary,
        vec![
            (100, None, 1, "Women".to_string(), "women".to_string()),
            (101, Some(100), 2, "Dresses".to_string(), "dresses".to_string()),
            (102, Some(100), 2, "Tops  New".to_string(), "tops".to_string()),
        ]
    );
}

#[test]
fn menu_item_without_link() {
    let page = r#"<div id="category"><div class="cg-main"><div class="item"><h3>Women</h3></div></div></div>"#.to_string();
    let e = extract_level_1_2_items(&page).unwrap_err();
    assert_eq!(e.description(), "no category link");
    assert_eq!(e.steps(), vec!["extract_level_1_2_items".to_string(), "extract_level_1_item".to_string()]);
    let page = r#"<div id="category"><div class="cg-main"><div class="item"><h3><a href="//a.com/category/1/x.html">X</a></h3><ul><li><a>Y</a></li></ul></div></div></div>"#.to_string();
    let e = extract_level_1_2_items(&page).unwrap_err();
    assert_eq!(e.description(), "no category url");
    assert_eq!(
        e.steps(),
        vec![
            "extract_level_1_2_items".to_string(),
            "extract_level_1_2_items_from_node".to_string(),
            "extract_level_2_items".to_string(),
            "extract_level_2_item".to_string()
        ]
    );
}

#[test]
fn category_page_addresses() {
    assert_eq!(get_category_page_url(42), "https://www.aliexpress.com/category/42/hardware.html");
    assert_eq!(get_level_3_page_url(0), "https://www.aliexpress.com/category/0/something.html");
}
