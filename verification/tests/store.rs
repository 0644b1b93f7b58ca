use dropshipping::aliexpress_provider::store::{
    extract_store, extract_store_identity, extract_store_owner_identity, get_feedback_page_url,
    get_store_page_url,
};
use dropshipping::javascript::ScriptCall;
use dropshipping::json::{JsonNumber, JsonValue};
use dropshipping::result::PullErrorKind;

fn feedback_page(link: &str, ratio: &str, count45: &str, date: &str) -> String {
    format!(
        r#"<html><body>
<div id="feedback-summary"><div class="middle middle-seller"><table><tbody>
<tr><td>{}</td></tr>
<tr><td>seller</td></tr>
<tr><td> {} </td></tr>
</tbody></table></div></div>
<div id="feedback-history"><div class="middle"><table><tbody>
<tr><th>a</th><th>b</th><th>c</th><th>d</th></tr>
<tr><td>1</td><td>2</td><td>3</td><td><a>{}</a></td></tr>
<tr><td>1</td><td>2</td><td>3</td><td><a>-</a></td></tr>
<tr><td>1</td><td>2</td><td>3</td><td><a> 7 </a></td></tr>
<tr><td>1</td><td>2</td><td>3</td><td>{}</td></tr>
</tbody></table></div></div>
<div id="feedback-detail" class="clearfix"></div>
</body></html>"#,
        link, date, count45, ratio
    )
}

fn good_page() -> String {
    feedback_page(
        r#"<a href="//www.aliexpress.com/store/1100263087">Good <b>Store</b></a>"#,
        " 98.5% ",
        "1,234",
        "5 Mar 2019",
    )
}

#[test]
fn test_extract_store() {
    let page = good_page();
    let owner_id = 123;
    let actual = match extract_store(&page, owner_id) {
        Err(e) => {
            if e.skip {
                return;
            }
            panic!("{}", e.description());
        }
        Ok(v) => v,
    };
    assert_eq!(actual.identity, 1100263087);
}

#[test]
fn store_fields_from_feedback_page() {
    let s = extract_store(&good_page(), 123).unwrap();
    assert_eq!(s.owner_identity, 123);
    assert_eq!(s.name, "Good  Store");
    assert_eq!(s.rating45_ratio, "98.5");
    assert_eq!(s.rating45_count, 1234);
    assert_eq!(s.rating3_count, 0);
    assert_eq!(s.rating12_count, 7);
    assert_eq!(s.online_at_ms, 1551744000000);
    assert!(s.modified_at_ms > 1551744000000);
}

#[test]
fn store_ratio_dash_is_zero() {
    let page = feedback_page(r#"<a href="//a.com/store/5">S</a>"#, "-", "-", "1 Jan 2020");
    let s = extract_store(&page, 1).unwrap();
    assert_eq!(s.rating45_ratio, "0");
    assert_eq!(s.rating45_count, 0);
    assert_eq!(s.online_at_ms, 1577836800000);
}

#[test]
fn store_page_errors() {
    let e = extract_store(&"<html></html>".to_string(), 1).unwrap_err();
    assert_eq!(e.kind(), PullErrorKind::NoData);
    assert_eq!(e.steps(), vec!["extract_store".to_string()]);

    let no_link = feedback_page("no link", "1%", "1", "1 Jan 2020");
    let e = extract_store(&no_link, 1).unwrap_err();
    assert!(e.skip);
    assert_eq!(e.steps(), vec!["extract_store_identity".to_string()]);

    let hash = feedback_page(r##"<a href="#">S</a>"##, "1%", "1", "1 Jan 2020");
    let e = extract_store(&hash, 1).unwrap_err();
    assert!(e.skip);
    assert_eq!(e.description(), "nothing on store url");

    let no_href = feedback_page("<a>S</a>", "1%", "1", "1 Jan 2020");
    let e = extract_store(&no_href, 1).unwrap_err();
    assert!(!e.skip);
    assert_eq!(e.http_fragment(), Some("<a>S</a>"));

    let bad_url = feedback_page(r#"<a href="//a.com/shop/5">S</a>"#, "1%", "1", "1 Jan 2020");
    let e = extract_store(&bad_url, 1).unwrap_err();
    assert_eq!(e.kind(), PullErrorKind::BadData);
    assert_eq!(
        e.steps(),
        vec!["extract_store_identity".to_string(), "extract_store_identity_from_url".to_string()]
    );
    assert_eq!(e.http_fragment(), Some(r#"<a href="//a.com/shop/5">S</a>"#));

    let bad_ratio = feedback_page(r#"<a href="//a.com/store/5">S</a>"#, "lots", "1", "1 Jan 2020");
    let e = extract_store(&bad_ratio, 1).unwrap_err();
    assert_eq!(e.steps(), vec!["extract_rating45_ratio".to_string()]);
    assert_eq!(e.http_fragment(), Some("<td>lots</td>"));

    let bad_count = feedback_page(r#"<a href="//a.com/store/5">S</a>"#, "1%", "many", "1 Jan 2020");
    let e = extract_store(&bad_count, 1).unwrap_err();
    assert_eq!(e.kind(), PullErrorKind::BadData);
    assert_eq!(e.steps(), vec!["extract_rating45_count".to_string()]);

    let bad_date = feedback_page(r#"<a href="//a.com/store/5">S</a>"#, "1%", "1", "someday");
    let e = extract_store(&bad_date, 1).unwrap_err();
    assert_eq!(e.steps(), vec!["extract_online_timestamp".to_string()]);
}

#[test]
fn store_identity_only() {
    assert_eq!(extract_store_identity(&good_page()).unwrap(), 1100263087);
}

fn owner_page() -> String {
    "<html><script>var a = 1;</script><script>window.shopPageDataApi = 'x';</script></html>".to_string()
}

#[test]
fn store_owner_from_data_address() {
    let reply = |_c: ScriptCall| Ok(JsonValue::String("https://shop.aliexpress.com/api?a=1&sellerId=2668104220&sellerId=5".to_string()));
    assert_eq!(extract_store_owner_identity(&owner_page(), reply).unwrap(), 2668104220);
}

#[test]
fn store_owner_errors() {
    let no_param = |_c: ScriptCall| Ok(JsonValue::String("https://shop.aliexpress.com/api?a=1".to_string()));
    assert_eq!(
        extract_store_owner_identity(&owner_page(), no_param).unwrap_err().description(),
        "no query param sellerId"
    );
    let not_text = |_c: ScriptCall| Ok(JsonValue::Number(JsonNumber { as_u64: 1, f64_bits: 1.0f64.to_bits() }));
    assert_eq!(extract_store_owner_identity(&owner_page(), not_text).unwrap_err().description(), "bad data");
    let failing = |_c: ScriptCall| Err("ReferenceError".to_string());
    assert_eq!(extract_store_owner_identity(&owner_page(), failing).unwrap_err().description(), "ReferenceError");
    let relative = |_c: ScriptCall| Ok(JsonValue::String("/api?sellerId=1".to_string()));
    assert_eq!(
        extract_store_owner_identity(&owner_page(), relative).unwrap_err().description(),
        "relative URL without a base"
    );
    let reply = |_c: ScriptCall| Ok(JsonValue::String("https://a.com/?sellerId=1".to_string()));
    assert_eq!(
        extract_store_owner_identity(&"<p>x</p>".to_string(), reply).unwrap_err().description(),
        "data not found"
    );
}

#[test]
fn store_addresses() {
    assert_eq!(
        get_feedback_page_url(252607694).unwrap(),
        "https://feedback.aliexpress.com//display/evaluationDetail.htm?ownerMemberId=252607694"
    );
    assert_eq!(get_store_page_url(2855009).unwrap(), "https://m.aliexpress.com/store/2855009");
}
