use dropshipping::aliexpress_provider::product_puller::{ProductPagePuller, ShippingFee};
use dropshipping::aliexpress_provider::{
    extract_product_identity_and_name, extract_product_price, get_data_script, get_product_data,
    get_standard_url, js_str_to_u64, js_value_to_f64, js_value_to_u64,
};
use dropshipping::javascript::{get_rhs_object, ScriptCall};
use dropshipping::json::{JsonNumber, JsonValue};
use dropshipping::result::PullErrorKind;

fn to_json(value: &serde_json::Value) -> JsonValue {
    match value {
        serde_json::Value::Null => JsonValue::Null,
        serde_json::Value::Bool(b) => JsonValue::Bool(*b),
        serde_json::Value::Number(n) => {
            let f = n.as_f64().unwrap();
            JsonValue::Number(JsonNumber { as_u64: f as u64, f64_bits: f.to_bits() })
        }
        serde_json::Value::String(s) => JsonValue::String(s.clone()),
        serde_json::Value::Array(items) => JsonValue::Array(items.iter().map(to_json).collect()),
        serde_json::Value::Object(entries) => {
            JsonValue::Object(entries.iter().map(|(k, v)| (k.clone(), to_json(v))).collect())
        }
    }
}

fn json(text: &str) -> JsonValue {
    to_json(&serde_json::from_str(text).unwrap())
}

/// Runs the data script of a test page: its data is a JSON object assigned to one of the
/// variables the pages use.
fn evaluate(call: ScriptCall) -> Result<JsonValue, String> {
    for name in ["window._dida_config_._init_data_= ", "window.runParams = "] {
        if let Some(text) = get_rhs_object(name, &call.program, 1).first() {
            let value: serde_json::Value = serde_json::from_str(text).map_err(|e| e.to_string())?;
            return Ok(to_json(&value));
        }
    }
    Err("ReferenceError: no data".to_string())
}

const PRODUCT: &str = r#"{"productId":"1005001","prices":{"salePrice":{"minPrice":12.5}},
    "trade":{"tradeDesc":"  1000 sold"},
    "sellingPoints":[{"sellingPointTagId":"1"},{"sellingPointTagId":"885603359","tagContent":{"tagText":"+Shipping: US $1,234.50"}}],
    "image":{"imgUrl":"//ae01.alicdn.com/kf/a.jpg"},
    "store":{"storeName":"Shop","storeId":77,"aliMemberId":88},
    "evaluation":{"starRating":4.5}}"#;

fn listing_page(items: &str) -> String {
    format!(
        "<html><script>window._dida_config_._init_data_= {{\"data\":{{\"data\":{{\"root\":{{\"fields\":{{\"mods\":{{\"itemList\":{{\"content\":[{}]}}}}}}}}}}}}}};</script></html>",
        items
    )
}

#[test]
fn test_extract_products() {
    let page = listing_page(&[PRODUCT, PRODUCT].join(","));
    let products = ProductPagePuller::extract_products(&page, evaluate).unwrap();
    assert!(products.len() > 0);
}

#[test]
fn product_fields_from_listing() {
    let data = json(PRODUCT);
    let p = ProductPagePuller::extract_product_from_data(&data).unwrap().unwrap();
    assert_eq!(p.identity, 1005001);
    assert_eq!(p.name, "UNABLE_TO_GET");
    assert_eq!(f64::from_bits(p.price_bits), 12.5);
    assert_eq!(p.orders, Some(1000));
    assert_eq!(p.shipping_fee, Some(ShippingFee::Charged("1234.50".to_string())));
    assert_eq!(p.image_url, "http://ae01.alicdn.com/kf/a.jpg");
    assert_eq!(p.store_name, "Shop");
    assert_eq!(p.store_identity, 77);
    assert_eq!(p.owner_identity, 88);
    assert_eq!(p.category_identity, 0);
    assert_eq!(p.rating_bits.map(f64::from_bits), Some(4.5));
}

#[test]
fn listing_item_without_store_is_dropped() {
    let advert = r#"{"productId":"5","image":{"imgUrl":"//a.com/x.jpg"},"store":{}}"#;
    let page = listing_page(&[advert, PRODUCT].join(","));
    let products = ProductPagePuller::extract_products(&page, evaluate).unwrap();
    assert_eq!(products.len(), 1);
    assert_eq!(products[0].identity, 1005001);
}

#[test]
fn product_parts_fail_in_order() {
    let cases = [
        (r#"{"productId":5}"#, "identity"),
        (r#"{"productId":"5","prices":{"salePrice":{"minPrice":"x"}}}"#, "price"),
        (r#"{"productId":"5","trade":{"tradeDesc":"many sold"}}"#, "order"),
        (r#"{"productId":"5","trade":{"tradeDesc":"   "}}"#, "order"),
        (r#"{"productId":"5","sellingPoints":[{"sellingPointTagId":"885603359"}]}"#, "shipping_fee"),
        (r#"{"productId":"5"}"#, "image_url"),
        (r#"{"productId":"5","image":{"imgUrl":"//a.com/x.jpg"},"store":{"storeName":3}}"#, "store_name"),
        (r#"{"productId":"5","image":{"imgUrl":"//a.com/x.jpg"},"store":{"storeName":"s"}}"#, "store_identity"),
        (r#"{"productId":"5","image":{"imgUrl":"//a.com/x.jpg"},"store":{"storeName":"s","storeId":1}}"#, "owner_identity"),
        (
            r#"{"productId":"5","image":{"imgUrl":"//a.com/x.jpg"},"store":{"storeName":"s","storeId":1,"aliMemberId":2},"evaluation":{"starRating":"5"}}"#,
            "rating",
        ),
    ];
    for (text, part) in cases {
        let e = ProductPagePuller::extract_product_from_data(&json(text)).unwrap_err();
        assert_eq!(e.kind(), PullErrorKind::BadData);
        assert_eq!(e.description(), part, "{}", text);
        assert_eq!(e.steps(), vec!["extract_product_from_data".to_string()]);
    }
}

#[test]
fn product_without_optional_parts() {
    let text = r#"{"productId":"+9","image":{"imgUrl":"//a.com/x.jpg"},"store":{"storeName":"s","storeId":1,"aliMemberId":2}}"#;
    let p = ProductPagePuller::extract_product_from_data(&json(text)).unwrap().unwrap();
    assert_eq!(p.identity, 9);
    assert_eq!(p.price_bits, 0);
    assert_eq!(p.orders, None);
    assert_eq!(p.shipping_fee, None);
    assert_eq!(p.rating_bits, None);
}

#[test]
fn listing_without_products_is_skipped() {
    let page = "<script>window._dida_config_._init_data_= {\"resultType\":\"zero_result\"};</script>".to_string();
    let e = ProductPagePuller::extract_products(&page, evaluate).unwrap_err();
    assert!(e.skip);
    assert_eq!(e.description(), "no products in the category");
    let page = "<script>window._dida_config_._init_data_= {\"data\":{}};</script>".to_string();
    let e = ProductPagePuller::extract_products(&page, evaluate).unwrap_err();
    assert_eq!(e.kind(), PullErrorKind::NoData);
    assert_eq!(e.steps(), vec!["extract_products_from_data".to_string()]);
    let e = ProductPagePuller::extract_products(&"<p>nothing</p>".to_string(), evaluate).unwrap_err();
    assert_eq!(e.steps(), vec!["get_page_data_script".to_string()]);
}

#[test]
fn listing_error_names_the_failing_item() {
    let page = listing_page(&[PRODUCT, r#"{"productId":"x"}"#].join(","));
    let e = ProductPagePuller::extract_products(&page, evaluate).unwrap_err();
    assert_eq!(
        e.steps(),
        vec!["extract_products_from_data".to_string(), "extract_product_from_data".to_string()]
    );
    assert_eq!(e.description(), "identity");
}

#[test]
fn shipping_fee_points() {
    let free = json(r#"{"tagContent":{"tagText":"Free Shipping"}}"#);
    assert_eq!(ProductPagePuller::extract_shipping_fee_from_point(&free).unwrap(), ShippingFee::Free);
    let bad = json(r#"{"tagContent":{"tagText":"Shipping soon"}}"#);
    assert_eq!(
        ProductPagePuller::extract_shipping_fee_from_point(&bad).unwrap_err().description(),
        "bad shipping fee tag"
    );
    let none = json(r#"{"tagContent":{}}"#);
    assert_eq!(
        ProductPagePuller::extract_shipping_fee_from_point(&none).unwrap_err().description(),
        "no shipping fee tag"
    );
    let not_number = json(r#"{"tagContent":{"tagText":"+Shipping: US $ abc"}}"#);
    assert_eq!(
        ProductPagePuller::extract_shipping_fee_from_point(&not_number).unwrap_err().description(),
        "invalid float literal"
    );
    let empty = json(r#"{"tagContent":{"tagText":"+Shipping: US $"}}"#);
    assert_eq!(
        ProductPagePuller::extract_shipping_fee_from_point(&empty).unwrap_err().description(),
        "cannot parse float from empty string"
    );
    let two = json(
        r#"{"sellingPoints":[{"sellingPointTagId":"885603359"},{"sellingPointTagId":"885603359"}]}"#,
    );
    assert_eq!(
        ProductPagePuller::extract_shipping_fee(Some(&two)).unwrap_err().description(),
        "too many matched shipping fee"
    );
    let not_array = json(r#"{"sellingPoints":{}}"#);
    assert_eq!(ProductPagePuller::extract_shipping_fee(Some(&not_array)).unwrap(), None);
}

#[test]
fn orders_from_trade_description() {
    let d = json(r#"{"trade":{"tradeDesc":"\t42 sold"}}"#);
    assert_eq!(ProductPagePuller::extract_product_orders(Some(&d)).unwrap(), Some(42));
    let d = json(r#"{"trade":{"tradeDesc":"99999999999999999999 sold"}}"#);
    assert_eq!(
        ProductPagePuller::extract_product_orders(Some(&d)).unwrap_err().description(),
        "number too large to fit in target type"
    );
    let d = json(r#"{"trade":{}}"#);
    assert_eq!(ProductPagePuller::extract_product_orders(Some(&d)).unwrap(), None);
    let d = json(r#"{"trade":{"tradeDesc":""}}"#);
    assert_eq!(
        ProductPagePuller::extract_product_orders(Some(&d)).unwrap_err().description(),
        "bad orders data"
    );
}

#[test]
fn image_url_is_serialized_by_the_url_crate() {
    let d = json(r#"{"image":{"imgUrl":"//AE01.Alicdn.com/kf/a b.jpg"}}"#);
    assert_eq!(ProductPagePuller::extract_image_url(Some(&d)).unwrap(), "http://ae01.alicdn.com/kf/a%20b.jpg");
    let d = json(r#"{"image":{"imgUrl":"//[bad"}}"#);
    assert_eq!(ProductPagePuller::extract_image_url(Some(&d)).unwrap_err().description(), "invalid IPv6 address");
    let d = json(r#"{"image":{}}"#);
    assert_eq!(ProductPagePuller::extract_image_url(Some(&d)).unwrap_err().description(), "bad image url");
}

#[test]
fn listing_page_address() {
    assert_eq!(
        ProductPagePuller::get_page_url(100003109, 2).unwrap(),
        "https://aliexpress.com/category/100003109/meaningless.html?page=2&trafficChannel=main"
    );
}

#[test]
fn products_get_their_category() {
    let page = listing_page(&[PRODUCT, PRODUCT].join(","));
    let products = ProductPagePuller::extract_products(&page, evaluate).unwrap();
    let products = ProductPagePuller::assign_category(products, 31);
    assert!(products.iter().all(|p| p.category_identity == 31 && p.identity == 1005001));
}

#[test]
fn test_get_standard_url() {
    let link = String::from("https://vi.aliexpress.com/item/1005003678799430.html?x1&y=2");
    let actual = get_standard_url(&link).unwrap();
    let expectation = "https://aliexpress.com/item/1005003678799430.html".to_string();
    assert_eq!(actual, expectation)
}

#[test]
fn test_get_data_script() {
    let mut page = String::from("<html><head>");
    for i in 0..17 {
        page.push_str(&format!("<script>var s{} = {};</script>", i, i));
    }
    page.push_str("<script>window.runParams = {\"data\":{}};</script></head></html>");
    let actual = get_data_script(String::from(page)).unwrap();
    assert!(actual.contains("window.runParams = "));
}

#[test]
fn data_script_missing() {
    let page = "<script>window.runParams = {};</script>".to_string();
    assert_eq!(get_data_script(page).unwrap_err().description(), "no data script tag");
}

#[test]
fn test_get_product_data() {
    let script_data = "window.runParams = {\"data\":{\"actionModule\":{\"productId\":1005003678799430}}}".to_string();
    let data = get_product_data(script_data, evaluate).unwrap();
    let actual = match &data {
        JsonValue::Object(entries) => entries.iter().find(|(k, _)| k == "actionModule").map(|(_, v)| v),
        _ => None,
    };
    let id = match actual {
        Some(JsonValue::Object(entries)) => entries.iter().find(|(k, _)| k == "productId").map(|(_, v)| v),
        _ => None,
    };
    match id {
        Some(JsonValue::Number(v)) => assert_eq!(f64::from_bits(v.f64_bits), 1005003678799430.0),
        _ => panic!("bad data structure"),
    };
}

#[test]
fn product_identity_and_name_from_page_data() {
    let data = json(r#"{"actionModule":{"productId":1005003678799430},"titleModule":{"subject":"foo bar"}}"#);
    let (identity, name) = extract_product_identity_and_name(Some(&data)).unwrap();
    assert_eq!(identity, 1005003678799430);
    assert_eq!(name, "foo bar");
    let no_name = json(r#"{"actionModule":{"productId":1}}"#);
    assert_eq!(extract_product_identity_and_name(Some(&no_name)).unwrap_err().description(), "bad product name");
    let no_id = json(r#"{"titleModule":{"subject":"x"}}"#);
    assert_eq!(extract_product_identity_and_name(Some(&no_id)).unwrap_err().description(), "bad product identity");
}

#[test]
fn json_numbers_and_strings() {
    let n = json("3.9");
    assert_eq!(js_value_to_u64(Some(&n)).unwrap(), 3);
    assert_eq!(f64::from_bits(js_value_to_f64(Some(&n)).unwrap()), 3.9);
    assert_eq!(js_value_to_u64(None).unwrap_err().description(), "bad product identity");
    assert_eq!(js_value_to_f64(Some(&json("\"1\""))).unwrap_err().description(), "bad float data");
    assert_eq!(js_str_to_u64(Some(&json("\"17\""))).unwrap(), 17);
    assert_eq!(js_str_to_u64(Some(&json("17"))).unwrap_err().description(), "bad data");
    assert_eq!(js_str_to_u64(Some(&json("\"\""))).unwrap_err().description(), "cannot parse integer from empty string");
    let price = json(r#"{"prices":{"salePrice":{"minPrice":null}}}"#);
    assert_eq!(extract_product_price(Some(&price)).unwrap(), 0);
}
