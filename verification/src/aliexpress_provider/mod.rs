pub mod formatter;
pub mod category;
pub mod product_puller;
pub mod store;

use vstd::prelude::*;
use crate::json::{JsonValue, or_null, at_key, key_of, as_str, text_of, take_key};
use crate::javascript::{ScriptCall, ScriptCallView, script_call, script_program};
use crate::scraper_extension::{html_select_of, query_selector_all_html};
use crate::web::{url_with_path, url_with_path_of};
use crate::result::{BoxResult, UnexpectedError};
use crate::aliexpress_provider::formatter::{parse_u64, failure_message, parse_u64_text, failure_text};

verus! {

/// The root of the provider's site.
pub const ROOT_URL: &'static str = "https://aliexpress.com";

/// The number a JSON value stands for where it is a number, cast to `u64`.
pub open spec fn json_u64(v: JsonValue) -> Option<u64> {
    match v {
        JsonValue::Number(n) => Some(n.as_u64),
        _ => None,
    }
}

/// The bits of the `f64` a JSON value stands for where it is a number.
pub open spec fn json_f64_bits(v: JsonValue) -> Option<u64> {
    match v {
        JsonValue::Number(n) => Some(n.f64_bits),
        _ => None,
    }
}

/// A number of a document, cast to `u64`; an error where `value` is no number.
pub fn js_value_to_u64(value: Option<&JsonValue>) -> (r: BoxResult<u64>)
    ensures
        match json_u64(or_null(value)) {
            Some(n) => r == Ok::<u64, UnexpectedError>(n),
            None => r matches Err(e) && e.message_view() == "bad product identity"@,
        },
{
    match value {
        Some(JsonValue::Number(n)) => Ok(n.as_u64),
        _ => UnexpectedError::new_as_box_result("bad product identity"),
    }
}

/// A string of a document read as an unsigned integer; an error where `value` is no
/// string, or the reason it is no integer.
pub fn js_str_to_u64(value: Option<&JsonValue>) -> (r: BoxResult<u64>)
    ensures
        match or_null(value) {
            JsonValue::String(s) => match parse_u64(s@) {
                Ok(n) => r == Ok::<u64, UnexpectedError>(n),
                Err(f) => r matches Err(e) && e.message_view() == failure_message(f),
            },
            _ => r matches Err(e) && e.message_view() == "bad data"@,
        },
{
    let s = match value {
        Some(JsonValue::String(v)) => v,
        _ => return UnexpectedError::new_as_box_result("bad data"),
    };
    match parse_u64_text(s.as_str()) {
        Err(f) => UnexpectedError::new_as_box_result(failure_text(f)),
        Ok(v) => Ok(v),
    }
}

/// A number of a document as an `f64`, given by its bits; an error where `value` is no
/// number.
pub fn js_value_to_f64(value: Option<&JsonValue>) -> (r: BoxResult<u64>)
    ensures
        match json_f64_bits(or_null(value)) {
            Some(b) => r == Ok::<u64, UnexpectedError>(b),
            None => r matches Err(e) && e.message_view() == "bad float data"@,
        },
{
    match value {
        Some(JsonValue::Number(n)) => Ok(n.f64_bits),
        _ => UnexpectedError::new_as_box_result("bad float data"),
    }
}

/// The sale price of a product of a listing.
pub open spec fn sale_price(product: JsonValue) -> JsonValue {
    at_key(at_key(at_key(product, "prices"@), "salePrice"@), "minPrice"@)
}

/// The lowest sale price of a product of a listing, as the bits of an `f64`: zero (the
/// bits of `0.0`) where it has none, an error where it is no number.
pub fn extract_product_price(product: Option<&JsonValue>) -> (r: BoxResult<u64>)
    ensures
        match sale_price(or_null(product)) {
            JsonValue::Null => r == Ok::<u64, UnexpectedError>(0),
            JsonValue::Number(n) => r == Ok::<u64, UnexpectedError>(n.f64_bits),
            _ => r matches Err(e) && e.message_view() == "bad float data"@,
        },
{
    let price_value = key_of(key_of(key_of(product, "prices"), "salePrice"), "minPrice");
    match price_value {
        None => Ok(0),
        Some(JsonValue::Null) => Ok(0),
        _ => js_value_to_f64(price_value),
    }
}


/// The address of a product's page in its standard form: the path of `link` on the
/// provider's root.
pub fn get_standard_url(link: &str) -> (r: Result<String, String>)
    ensures
        match r {
            Ok(s) => url_with_path_of("https://aliexpress.com"@, link@) == Ok::<Seq<char>, Seq<char>>(s@),
            Err(e) => url_with_path_of("https://aliexpress.com"@, link@) == Err::<Seq<char>, Seq<char>>(e@),
        },
{
    url_with_path(ROOT_URL, link)
}

/// The script of a product page that holds its data: the eighteenth `script` of the
/// page.
pub open spec fn data_script(page: Seq<char>) -> Result<Seq<char>, Seq<char>> {
    match html_select_of(page, "script"@, ""@) {
        Some(scripts) => if scripts.len() > 17 {
            Ok(scripts[17].inner_html)
        } else {
            Err("no data script tag"@)
        },
        None => Err("bad css selector"@),
    }
}

/// The script of a product page that holds its data.
pub fn get_data_script(page: String) -> (r: BoxResult<String>)
    ensures
        match data_script(page@) {
            Ok(s) => r matches Ok(t) && t@ == s,
            Err(m) => r matches Err(e) && e.message_view() == m,
        },
{
    let scripts = match query_selector_all_html(page.as_str(), "script", "") {
        Err(e) => return Err(e),
        Ok(v) => v,
    };
    if scripts.len() <= 17 {
        return UnexpectedError::new_as_box_result("no data script tag");
    }
    let mut scripts = scripts;
    let node = scripts.remove(17);
    Ok(node.inner_html)
}

/// The call that reads the data of a product page out of its data script.
pub open spec fn product_data_call(script: Seq<char>) -> ScriptCallView {
    ScriptCallView {
        program: script_program("window = {};\n"@, script, "function getProduct() {return window.runParams};\n"@),
        function: "getProduct"@,
    }
}

/// The data of a product page: what its data script puts under `data`. `evaluate` runs
/// a script call and gives the value its function returns, or the message of its
/// failure.
pub fn get_product_data<F: Fn(ScriptCall) -> Result<JsonValue, String>>(data_script: String, evaluate: F) -> (r: BoxResult<JsonValue>)
    requires
        forall|c: ScriptCall| call_requires(evaluate, (c,)),
    ensures
        exists|c: ScriptCall, out: Result<JsonValue, String>|
            c@ == product_data_call(data_script@) && call_ensures(evaluate, (c,), out) && match out {
                Err(m) => r matches Err(e) && e.message_view() == m@,
                Ok(v) => r == Ok::<JsonValue, UnexpectedError>(at_key(v, "data"@)),
            },
{
    let call = script_call("window = {};\n", data_script.as_str(), "function getProduct() {return window.runParams};\n", "getProduct");
    let out = evaluate(call);
    match out {
        Err(m) => UnexpectedError::new_as_box_result(m.as_str()),
        Ok(v) => Ok(take_key(v, "data")),
    }
}

/// The identity and the name of a product, as the data of its page gives them.
pub open spec fn product_identity_and_name(data: JsonValue) -> Result<(u64, Seq<char>), Seq<char>> {
    match json_u64(at_key(at_key(data, "actionModule"@), "productId"@)) {
        None => Err("bad product identity"@),
        Some(identity) => match text_of(at_key(at_key(data, "titleModule"@), "subject"@)) {
            None => Err("bad product name"@),
            Some(name) => Ok((identity, name)),
        },
    }
}

/// The identity and the name of a product, as the data of its page gives them.
pub fn extract_product_identity_and_name(data: Option<&JsonValue>) -> (r: BoxResult<(u64, String)>)
    ensures
        match product_identity_and_name(or_null(data)) {
            Ok((identity, name)) => r matches Ok((i, n)) && i == identity && n@ == name,
            Err(m) => r matches Err(e) && e.message_view() == m,
        },
{
    let identity = match js_value_to_u64(key_of(key_of(data, "actionModule"), "productId")) {
        Ok(v) => v,
        Err(e) => return Err(e),
    };
    let name = match as_str(key_of(key_of(data, "titleModule"), "subject")) {
        Some(v) => v,
        None => return UnexpectedError::new_as_box_result("bad product name"),
    };
    Ok((identity, name.to_owned()))
}

} // verus!
