use vstd::prelude::*;
use crate::aliexpress_provider::{ROOT_URL, extract_product_price, js_str_to_u64, js_value_to_f64, js_value_to_u64, json_u64, sale_price};
use crate::aliexpress_provider::category::{empty_data, find_page_data_script, is_empty_data, page_data_script};
use crate::aliexpress_provider::formatter::{checked_float_text, failure_message, float_text, parse_u64, parse_u64_text, failure_text};
use crate::javascript::{ScriptCall, ScriptCallView, script_call, script_program};
use crate::json::{JsonValue, at_key, as_array, as_str, key_of, or_null, text_of};
use crate::result::{BoxResult, PullError, PullErrorKind, PullErrorView, PullResult, UnexpectedError, error_with_message, fresh_error, stacked};
use crate::text::{contains, contains_text, decimal_text, first_word, first_word_of, last_index_in, last_index_of, same_text, to_chars, u64_to_text};
use crate::web::{url_append_pair, url_append_pair_of, url_serialization, url_serialization_of, url_set_path, url_set_path_of};

verus! {

/// What a product pays for shipping, as a listing says it: nothing, or the amount in
/// dollars, written as a number that std reads as an `f64`.
#[derive(Debug, Clone, PartialEq, Eq)]
pub enum ShippingFee {
    Free,
    Charged(String),
}

pub ghost enum ShippingFeeView {
    Free,
    Charged(Seq<char>),
}

impl View for ShippingFee {
    type V = ShippingFeeView;

    open spec fn view(&self) -> ShippingFeeView {
        match self {
            ShippingFee::Free => ShippingFeeView::Free,
            ShippingFee::Charged(t) => ShippingFeeView::Charged(t@),
        }
    }
}

/// A product as a listing page of a category shows it. The price and the rating are the
/// bits of `f64` values.
#[derive(Debug)]
pub struct ProductRecord {
    pub identity: u64,
    pub name: String,
    pub price_bits: u64,
    pub shipping_fee: Option<ShippingFee>,
    pub image_url: String,
    pub store_name: String,
    pub store_identity: u64,
    pub owner_identity: u64,
    pub category_identity: u64,
    pub orders: Option<u64>,
    pub rating_bits: Option<u64>,
}

pub ghost struct ProductRecordView {
    pub identity: u64,
    pub name: Seq<char>,
    pub price_bits: u64,
    pub shipping_fee: Option<ShippingFeeView>,
    pub image_url: Seq<char>,
    pub store_name: Seq<char>,
    pub store_identity: u64,
    pub owner_identity: u64,
    pub category_identity: u64,
    pub orders: Option<u64>,
    pub rating_bits: Option<u64>,
}

impl View for ProductRecord {
    type V = ProductRecordView;

    open spec fn view(&self) -> ProductRecordView {
        ProductRecordView {
            identity: self.identity,
            name: self.name@,
            price_bits: self.price_bits,
            shipping_fee: match self.shipping_fee {
                Some(f) => Some(f@),
                None => None,
            },
            image_url: self.image_url@,
            store_name: self.store_name@,
            store_identity: self.store_identity,
            owner_identity: self.owner_identity,
            category_identity: self.category_identity,
            orders: self.orders,
            rating_bits: self.rating_bits,
        }
    }
}

pub open spec fn records_view(v: Seq<ProductRecord>) -> Seq<ProductRecordView> {
    v.map_values(|p: ProductRecord| p@)
}

/// What a step that gives products gave, by views.
pub open spec fn records_outcome(r: PullResult<Vec<ProductRecord>>) -> Result<Seq<ProductRecordView>, PullErrorView> {
    match r {
        Ok(v) => Ok(records_view(v@)),
        Err(e) => Err(e@),
    }
}

/// The path of the listing of the category `category_id`.
pub open spec fn listing_path(category_id: u64) -> Seq<char> {
    "/category/"@ + decimal_text(category_id as nat) + "/meaningless.html"@
}

/// The address of the page `page_index` of the listing of the category `category_id`, as
/// the url crate builds it: the site's root with the listing's path, then the query pairs
/// `page` and `trafficChannel=main` appended; or the message of the url crate's error.
pub open spec fn page_url(category_id: u64, page_index: u32) -> Result<Seq<char>, Seq<char>> {
    match url_set_path_of(ROOT_URL@, listing_path(category_id)) {
        Err(e) => Err(e),
        Ok(with_path) => match url_append_pair_of(with_path, "page"@, decimal_text(page_index as nat)) {
            Err(e) => Err(e),
            Ok(with_page) => url_append_pair_of(with_page, "trafficChannel"@, "main"@),
        },
    }
}

/// The orders of a product, as the first word of its trade description gives them;
/// nothing where it has none.
pub open spec fn product_orders(data: JsonValue) -> Result<Option<u64>, Seq<char>> {
    match text_of(at_key(at_key(data, "trade"@), "tradeDesc"@)) {
        None => Ok(None),
        Some(t) => match first_word(t) {
            None => Err("bad orders data"@),
            Some(w) => match parse_u64(w) {
                Err(f) => Err(failure_message(f)),
                Ok(n) => Ok(Some(n)),
            },
        },
    }
}

/// The address of a product's image, which the data gives without a scheme, as the url
/// crate writes it.
pub open spec fn product_image_url(data: JsonValue) -> Result<Seq<char>, Seq<char>> {
    match at_key(at_key(data, "image"@), "imgUrl"@) {
        JsonValue::String(s) => url_serialization_of("http:"@ + s@),
        _ => Err("bad image url"@),
    }
}

/// Whether a selling point is the one that tells the shipping fee.
pub open spec fn is_shipping_fee_point(point: JsonValue) -> bool {
    text_of(at_key(point, "sellingPointTagId"@)) == Some("885603359"@)
}

/// The selling point that tells the shipping fee, where there is one; more than one is
/// an error.
pub open spec fn shipping_fee_point(points: Seq<JsonValue>) -> Result<Option<JsonValue>, Seq<char>> {
    let matched = points.filter(|p: JsonValue| is_shipping_fee_point(p));
    if matched.len() > 1 {
        Err("too many matched shipping fee"@)
    } else if matched.len() == 0 {
        Ok(None)
    } else {
        Ok(Some(matched[0]))
    }
}

/// The text after the last `$` of `s` (all of it where it has none).
pub open spec fn after_last_dollar(s: Seq<char>) -> Seq<char> {
    s.subrange(last_index_of(s, '$') + 1, s.len() as int)
}

/// The shipping fee that a selling point tells: free, or the amount after the last `$`
/// of a tag that says `+Shipping: US $`.
pub open spec fn shipping_fee_from_point(point: JsonValue) -> Result<ShippingFeeView, Seq<char>> {
    match at_key(at_key(point, "tagContent"@), "tagText"@) {
        JsonValue::String(tag) => if tag@ == "Free Shipping"@ {
            Ok(ShippingFeeView::Free)
        } else if !contains_text(tag@, "+Shipping: US $"@) {
            Err("bad shipping fee tag"@)
        } else {
            match float_text(after_last_dollar(tag@)) {
                Err(m) => Err(m),
                Ok(t) => Ok(ShippingFeeView::Charged(t)),
            }
        },
        _ => Err("no shipping fee tag"@),
    }
}

/// The shipping fee of a product, as its selling points tell it; nothing where they do
/// not.
pub open spec fn product_shipping_fee(data: JsonValue) -> Result<Option<ShippingFeeView>, Seq<char>> {
    match at_key(data, "sellingPoints"@) {
        JsonValue::Array(points) => match shipping_fee_point(points@) {
            Err(m) => Err(m),
            Ok(None) => Ok(None),
            Ok(Some(point)) => match shipping_fee_from_point(point) {
                Err(m) => Err(m),
                Ok(fee) => Ok(Some(fee)),
            },
        },
        _ => Ok(None),
    }
}

/// The star rating of a product, as the bits of an `f64`; nothing where it has none.
pub open spec fn product_rating(data: JsonValue) -> Result<Option<u64>, Seq<char>> {
    match at_key(at_key(data, "evaluation"@), "starRating"@) {
        JsonValue::Null => Ok(None),
        JsonValue::Number(n) => Ok(Some(n.f64_bits)),
        _ => Err("bad float data"@),
    }
}

/// The identity of a product, which the data gives as a string.
pub open spec fn product_identity(data: JsonValue) -> Option<u64> {
    match at_key(data, "productId"@) {
        JsonValue::String(s) => match parse_u64(s@) {
            Ok(n) => Some(n),
            Err(_) => None,
        },
        _ => None,
    }
}

/// The price of a product as the bits of an `f64`, zero where it has none.
pub open spec fn product_price(data: JsonValue) -> Option<u64> {
    match sale_price(data) {
        JsonValue::Null => Some(0),
        JsonValue::Number(n) => Some(n.f64_bits),
        _ => None,
    }
}

/// The error of a part of a product that cannot be read.
pub open spec fn bad_part(part: Seq<char>) -> PullErrorView {
    error_with_message("extract_product_from_data"@, PullErrorKind::BadData, part)
}

/// The parts of a product that come before its store.
pub ghost struct ProductParts {
    pub identity: u64,
    pub price_bits: u64,
    pub orders: Option<u64>,
    pub shipping_fee: Option<ShippingFeeView>,
    pub image_url: Seq<char>,
}

/// The parts of a product before its store, read in order; the first that cannot be
/// read fails the product, with the part's name as the message.
pub open spec fn product_parts(data: JsonValue) -> Result<ProductParts, PullErrorView> {
    if product_identity(data) is None {
        Err(bad_part("identity"@))
    } else if product_price(data) is None {
        Err(bad_part("price"@))
    } else if product_orders(data) is Err {
        Err(bad_part("order"@))
    } else if product_shipping_fee(data) is Err {
        Err(bad_part("shipping_fee"@))
    } else if product_image_url(data) is Err {
        Err(bad_part("image_url"@))
    } else {
        Ok(ProductParts {
            identity: product_identity(data)->0,
            price_bits: product_price(data)->0,
            orders: product_orders(data)->Ok_0,
            shipping_fee: product_shipping_fee(data)->Ok_0,
            image_url: product_image_url(data)->Ok_0,
        })
    }
}

/// The product once its store is read: nothing where the item has no store name (an
/// advertisement).
pub open spec fn product_with_store(data: JsonValue, parts: ProductParts) -> Result<Option<ProductRecordView>, PullErrorView> {
    let store = at_key(data, "store"@);
    match at_key(store, "storeName"@) {
        JsonValue::Null => Ok(None),
        JsonValue::String(store_name) => if json_u64(at_key(store, "storeId"@)) is None {
            Err(bad_part("store_identity"@))
        } else if json_u64(at_key(store, "aliMemberId"@)) is None {
            Err(bad_part("owner_identity"@))
        } else if product_rating(data) is Err {
            Err(bad_part("rating"@))
        } else {
            Ok(Some(ProductRecordView {
                identity: parts.identity,
                name: "UNABLE_TO_GET"@,
                price_bits: parts.price_bits,
                shipping_fee: parts.shipping_fee,
                image_url: parts.image_url,
                store_name: store_name@,
                store_identity: json_u64(at_key(store, "storeId"@))->0,
                owner_identity: json_u64(at_key(store, "aliMemberId"@))->0,
                category_identity: 0,
                orders: parts.orders,
                rating_bits: product_rating(data)->Ok_0,
            }))
        },
        _ => Err(bad_part("store_name"@)),
    }
}

/// The product that the data of an item of a listing describes; nothing where the item
/// has no store.
pub open spec fn product_from_data(data: JsonValue) -> Result<Option<ProductRecordView>, PullErrorView> {
    match product_parts(data) {
        Err(e) => Err(e),
        Ok(parts) => product_with_store(data, parts),
    }
}

/// The products of the items of a listing, in order, without the items that have no
/// store; the first item that fails fails them all.
pub open spec fn products_of_items(items: Seq<JsonValue>) -> Result<Seq<ProductRecordView>, PullErrorView>
    decreases items.len(),
{
    if items.len() == 0 {
        Ok(Seq::empty())
    } else {
        match product_from_data(items[0]) {
            Err(e) => Err(stacked(e, "extract_products_from_data"@)),
            Ok(p) => match products_of_items(items.drop_first()) {
                Err(e) => Err(e),
                Ok(ps) => match p {
                    Some(v) => Ok(seq![v] + ps),
                    None => Ok(ps),
                },
            },
        }
    }
}

/// Where the data of a listing page holds its items.
pub open spec fn item_list(data: JsonValue) -> JsonValue {
    at_key(at_key(at_key(at_key(at_key(at_key(at_key(data, "data"@), "data"@), "root"@), "fields"@), "mods"@),
        "itemList"@), "content"@)
}

/// The products that the data of a listing page lists.
pub open spec fn products_from_data(data: JsonValue) -> Result<Seq<ProductRecordView>, PullErrorView> {
    match item_list(data) {
        JsonValue::Array(items) => products_of_items(items@),
        _ => Err(fresh_error("extract_products_from_data"@, PullErrorKind::NoData)),
    }
}

/// The products of the items of a listing are those of the items, in order: where every
/// item gives a product, there are as many products as items and the `i`th product is the
/// `i`th item's; in any case there are no more products than items.
proof fn lemma_products_of_items_in_order(items: Seq<JsonValue>)
    ensures
        products_of_items(items) matches Ok(ps) ==> ps.len() <= items.len(),
        (forall|i: int| 0 <= i < items.len() ==> (#[trigger] product_from_data(items[i])) matches Ok(Some(_))) ==> (
            products_of_items(items) matches Ok(ps) && ps.len() == items.len()
            && forall|i: int| 0 <= i < items.len() ==>
                product_from_data(items[i]) == Ok::<Option<ProductRecordView>, PullErrorView>(Some(#[trigger] ps[i]))),
    decreases items.len(),
{
    if items.len() > 0 {
        let tail = items.drop_first();
        lemma_products_of_items_in_order(tail);
        if forall|i: int| 0 <= i < items.len() ==> (#[trigger] product_from_data(items[i])) matches Ok(Some(_)) {
            assert forall|i: int| 0 <= i < tail.len() implies (#[trigger] product_from_data(tail[i])) matches Ok(Some(_)) by {
                assert(tail[i] == items[i + 1]);
                assert(product_from_data(items[i + 1]) matches Ok(Some(_)));
            }
            assert(product_from_data(items[0]) matches Ok(Some(_)));
            let v = product_from_data(items[0])->Ok_0->0;
            let rest = products_of_items(tail)->Ok_0;
            let ps = products_of_items(items)->Ok_0;
            assert(ps == seq![v] + rest);
            assert forall|i: int| 0 <= i < items.len() implies
                product_from_data(items[i]) == Ok::<Option<ProductRecordView>, PullErrorView>(Some(#[trigger] ps[i])) by {
                if i > 0 {
                    assert(tail[i - 1] == items[i]);
                    assert(ps[i] == rest[i - 1]);
                }
            }
        }
    }
}

/// Every item of the listing of a page is read, in order: where every item gives a
/// product (it has a store), the products are as many as the items, the `i`th product
/// being the `i`th item's; the listing never gives more products than it has items.
pub proof fn law_listing_products_in_order(data: JsonValue)
    ensures
        products_from_data(data) matches Ok(ps) ==> (item_list(data) matches JsonValue::Array(items) && ps.len() <= items@.len()),
        item_list(data) matches JsonValue::Array(items) ==> (
            (forall|i: int| 0 <= i < items@.len() ==> (#[trigger] product_from_data(items@[i])) matches Ok(Some(_))) ==> (
            products_from_data(data) matches Ok(ps) && ps.len() == items@.len()
            && forall|i: int| 0 <= i < items@.len() ==>
                product_from_data(items@[i]) == Ok::<Option<ProductRecordView>, PullErrorView>(Some(#[trigger] ps[i])))),
{
    if let JsonValue::Array(items) = item_list(data) {
        lemma_products_of_items_in_order(items@);
    }
}

/// The call that reads the data of a listing page out of its data script.
pub open spec fn listing_data_call(script: Seq<char>) -> ScriptCallView {
    ScriptCallView {
        program: script_program("window = {};\n"@, script, "function getProduct() {return window._dida_config_._init_data_};\n"@),
        function: "getProduct"@,
    }
}

/// The products of a listing page once its script ran: the script's failure message is
/// the error's; a page of no products is an error to skip.
pub open spec fn listing_products(out: Result<JsonValue, String>) -> Result<Seq<ProductRecordView>, PullErrorView> {
    match out {
        Err(m) => Err(error_with_message("get_page_run_params"@, PullErrorKind::BadData, m@)),
        Ok(data) => if empty_data(data) {
            Err(PullErrorView {
                skip: true,
                ..error_with_message("extract_products"@, PullErrorKind::NoData, "no products in the category"@)
            })
        } else {
            products_from_data(data)
        },
    }
}

/// The `after_done` of products.
pub open spec fn after_records(done: Seq<ProductRecordView>, r: Result<Seq<ProductRecordView>, PullErrorView>) -> Result<Seq<ProductRecordView>, PullErrorView> {
    match r {
        Ok(ps) => Ok(done + ps),
        Err(e) => Err(e),
    }
}

/// The puller of the listing pages of categories.
pub struct ProductPagePuller;

impl ProductPagePuller {
    /// The address of the page `page_index` of the listing of the category `category_id`.
    pub fn get_page_url(category_id: u64, page_index: u32) -> (r: BoxResult<String>)
        ensures
            match r {
                Ok(url) => page_url(category_id, page_index) == Ok::<Seq<char>, Seq<char>>(url@),
                Err(e) => page_url(category_id, page_index) == Err::<Seq<char>, Seq<char>>(e.message_view()),
            },
    {
        let mut path = "/category/".to_owned();
        path.append(u64_to_text(category_id).as_str());
        path.append("/meaningless.html");
        proof {
            reveal_strlit("/category/");
            reveal_strlit("/meaningless.html");
        }
        assert(path@ == listing_path(category_id));
        let with_path = match url_set_path(ROOT_URL, path.as_str()) {
            Ok(u) => u,
            Err(m) => return Err(UnexpectedError::new(m.as_str())),
        };
        let with_page = match url_append_pair(with_path.as_str(), "page", u64_to_text(page_index as u64).as_str()) {
            Ok(u) => u,
            Err(m) => return Err(UnexpectedError::new(m.as_str())),
        };
        match url_append_pair(with_page.as_str(), "trafficChannel", "main") {
            Ok(u) => Ok(u),
            Err(m) => Err(UnexpectedError::new(m.as_str())),
        }
    }

    /// Whether the data of a listing page says that it lists no products.
    pub fn is_no_products(data: Option<&JsonValue>) -> (r: bool)
        ensures
            r == empty_data(or_null(data)),
    {
        is_empty_data(data)
    }

    /// The orders of a product, from the first word of its trade description.
    pub fn extract_product_orders(raw_product: Option<&JsonValue>) -> (r: BoxResult<Option<u64>>)
        ensures
            match product_orders(or_null(raw_product)) {
                Ok(o) => r == Ok::<Option<u64>, UnexpectedError>(o),
                Err(m) => r matches Err(e) && e.message_view() == m,
            },
    {
        let trade_str = match as_str(key_of(key_of(raw_product, "trade"), "tradeDesc")) {
            Some(v) => v,
            None => return Ok(None),
        };
        let orders_str = match first_word_of(trade_str) {
            Some(v) => v,
            None => return UnexpectedError::new_as_box_result("bad orders data"),
        };
        match parse_u64_text(orders_str.as_str()) {
            Err(f) => UnexpectedError::new_as_box_result(failure_text(f)),
            Ok(v) => Ok(Some(v)),
        }
    }

    /// The address of a product's image.
    pub fn extract_image_url(raw_product: Option<&JsonValue>) -> (r: BoxResult<String>)
        ensures
            match product_image_url(or_null(raw_product)) {
                Ok(u) => r matches Ok(s) && s@ == u,
                Err(m) => r matches Err(e) && e.message_view() == m,
            },
    {
        let s = match key_of(key_of(raw_product, "image"), "imgUrl") {
            Some(JsonValue::String(v)) => v,
            _ => return UnexpectedError::new_as_box_result("bad image url"),
        };
        let mut url_str = "http:".to_owned();
        url_str.append(s.as_str());
        match url_serialization(url_str.as_str()) {
            Err(e) => UnexpectedError::new_as_box_result(e.as_str()),
            Ok(v) => Ok(v),
        }
    }

    /// The selling point that tells the shipping fee, where there is one.
    pub fn extract_shipping_fee_point(selling_points: &Vec<JsonValue>) -> (r: BoxResult<Option<&JsonValue>>)
        ensures
            match shipping_fee_point(selling_points@) {
                Ok(Some(p)) => r matches Ok(Some(q)) && *q == p,
                Ok(None) => r matches Ok(None),
                Err(m) => r matches Err(e) && e.message_view() == m,
            },
    {
        let ghost all = selling_points@;
        let mut matched: Vec<&JsonValue> = Vec::new();
        let mut i: usize = 0;
        while i < selling_points.len()
            invariant
                i <= all.len(),
                all == selling_points@,
                matched.len() <= 1,
                matched@.map_values(|p: &JsonValue| *p) == all.take(i as int).filter(|p: JsonValue| is_shipping_fee_point(p)),
            decreases all.len() - i,
        {
            proof {
                reveal_with_fuel(Seq::filter, 1);
                assert(all.take(i + 1).drop_last() =~= all.take(i as int));
            }
            let point = &selling_points[i];
            i = i + 1;
            let tag_id = match as_str(key_of(Some(point), "sellingPointTagId")) {
                None => continue,
                Some(v) => v,
            };
            if !same_text(tag_id, "885603359") {
                continue;
            }
            let ghost before = matched@.map_values(|p: &JsonValue| *p);
            matched.push(point);
            assert(matched@.map_values(|p: &JsonValue| *p) =~= before.push(*point));
            if matched.len() > 1 {
                proof {
                    lemma_filter_prefix_len(all, i as int, |p: JsonValue| is_shipping_fee_point(p));
                }
                return UnexpectedError::new_as_box_result("too many matched shipping fee");
            }
        }
        assert(all.take(i as int) =~= all);
        if matched.len() == 0 {
            return Ok(None);
        }
        assert(matched@.map_values(|p: &JsonValue| *p)[0] == *matched@[0]);
        Ok(Some(matched[0]))
    }

    /// The shipping fee that a selling point tells.
    pub fn extract_shipping_fee_from_point(point: &JsonValue) -> (r: BoxResult<ShippingFee>)
        ensures
            match shipping_fee_from_point(*point) {
                Ok(f) => r matches Ok(g) && g@ == f,
                Err(m) => r matches Err(e) && e.message_view() == m,
            },
    {
        let tag = match key_of(key_of(Some(point), "tagContent"), "tagText") {
            Some(JsonValue::String(v)) => v,
            _ => return UnexpectedError::new_as_box_result("no shipping fee tag"),
        };
        if same_text(tag.as_str(), "Free Shipping") {
            return Ok(ShippingFee::Free);
        }
        if !contains(tag.as_str(), "+Shipping: US $") {
            return UnexpectedError::new_as_box_result("bad shipping fee tag");
        }
        let chars = to_chars(tag.as_str());
        let dollar = last_index_in(&chars, chars.len(), '$');
        assert(tag@.subrange(0, tag@.len() as int) =~= tag@);
        proof { crate::path::lemma_last_index_bounds(tag@, '$'); }
        let start = match dollar {
            Some(k) => k + 1,
            None => 0,
        };
        let fee_str = tag.as_str().substring_char(start, chars.len());
        match checked_float_text(fee_str) {
            Err(e) => Err(e),
            Ok(t) => Ok(ShippingFee::Charged(t)),
        }
    }

    /// The shipping fee of a product; nothing where its selling points do not tell it.
    pub fn extract_shipping_fee(raw_product: Option<&JsonValue>) -> (r: BoxResult<Option<ShippingFee>>)
        ensures
            match product_shipping_fee(or_null(raw_product)) {
                Ok(Some(f)) => r matches Ok(Some(g)) && g@ == f,
                Ok(None) => r matches Ok(None),
                Err(m) => r matches Err(e) && e.message_view() == m,
            },
    {
        let selling_points = match as_array(key_of(raw_product, "sellingPoints")) {
            None => return Ok(None),
            Some(v) => v,
        };
        let point = match Self::extract_shipping_fee_point(selling_points) {
            Err(e) => return Err(e),
            Ok(None) => return Ok(None),
            Ok(Some(v)) => v,
        };
        match Self::extract_shipping_fee_from_point(point) {
            Err(e) => Err(e),
            Ok(fee) => Ok(Some(fee)),
        }
    }

    /// The star rating of a product as the bits of an `f64`; nothing where it has none.
    pub fn extract_product_rating(raw_product: Option<&JsonValue>) -> (r: BoxResult<Option<u64>>)
        ensures
            match product_rating(or_null(raw_product)) {
                Ok(v) => r == Ok::<Option<u64>, UnexpectedError>(v),
                Err(m) => r matches Err(e) && e.message_view() == m,
            },
    {
        let rating_value = key_of(key_of(raw_product, "evaluation"), "starRating");
        match rating_value {
            None => return Ok(None),
            Some(JsonValue::Null) => return Ok(None),
            _ => {},
        }
        match js_value_to_f64(rating_value) {
            Err(e) => Err(e),
            Ok(v) => Ok(Some(v)),
        }
    }

    /// The product that an item of a listing describes; nothing where it has no store.
    pub fn extract_product_from_data(data: &JsonValue) -> (r: PullResult<Option<ProductRecord>>)
        ensures
            match r {
                Ok(Some(p)) => product_from_data(*data) == Ok::<Option<ProductRecordView>, PullErrorView>(Some(p@)),
                Ok(None) => product_from_data(*data) == Ok::<Option<ProductRecordView>, PullErrorView>(None),
                Err(e) => product_from_data(*data) == Err::<Option<ProductRecordView>, PullErrorView>(e@),
            },
    {
        let data = Some(data);
        let identity = match js_str_to_u64(key_of(data, "productId")) {
            Err(_) => return Self::bad_part("identity"),
            Ok(v) => v,
        };
        let price_bits = match extract_product_price(data) {
            Err(_) => return Self::bad_part("price"),
            Ok(v) => v,
        };
        let orders = match Self::extract_product_orders(data) {
            Err(_) => return Self::bad_part("order"),
            Ok(v) => v,
        };
        let shipping_fee = match Self::extract_shipping_fee(data) {
            Err(_) => return Self::bad_part("shipping_fee"),
            Ok(v) => v,
        };
        let image_url = match Self::extract_image_url(data) {
            Err(_) => return Self::bad_part("image_url"),
            Ok(v) => v,
        };
        let store = key_of(data, "store");
        let store_name = match key_of(store, "storeName") {
            Some(JsonValue::String(v)) => v.clone(),
            None => return Ok(None),
            Some(JsonValue::Null) => return Ok(None),
            _ => return Self::bad_part("store_name"),
        };
        let store_identity = match js_value_to_u64(key_of(store, "storeId")) {
            Err(_) => return Self::bad_part("store_identity"),
            Ok(v) => v,
        };
        let owner_identity = match js_value_to_u64(key_of(store, "aliMemberId")) {
            Err(_) => return Self::bad_part("owner_identity"),
            Ok(v) => v,
        };
        let rating_bits = match Self::extract_product_rating(data) {
            Err(_) => return Self::bad_part("rating"),
            Ok(v) => v,
        };
        Ok(Some(ProductRecord {
            identity,
            name: "UNABLE_TO_GET".to_owned(),
            price_bits,
            shipping_fee,
            image_url,
            store_name,
            store_identity,
            owner_identity,
            category_identity: 0,
            orders,
            rating_bits,
        }))
    }

    fn bad_part(part: &str) -> (r: PullResult<Option<ProductRecord>>)
        ensures
            r matches Err(e) && e@ == bad_part(part@),
    {
        PullError::from_step("extract_product_from_data", PullErrorKind::BadData).set_message(part).to_result()
    }

    /// The products that the data of a listing page lists.
    pub fn extract_products_from_data(data: Option<&JsonValue>) -> (r: PullResult<Vec<ProductRecord>>)
        ensures
            records_outcome(r) == products_from_data(or_null(data)),
    {
        let raw_products = match as_array(key_of(key_of(key_of(key_of(key_of(key_of(key_of(data, "data"), "data"), "root"), "fields"), "mods"), "itemList"), "content")) {
            Some(v) => v,
            None => return PullError::from_step("extract_products_from_data", PullErrorKind::NoData).to_result(),
        };
        let ghost all = raw_products@;
        let mut products: Vec<ProductRecord> = Vec::new();
        let mut i: usize = 0;
        assert(all.skip(0) =~= all);
        assert(records_view(products@) =~= Seq::<ProductRecordView>::empty());
        while i < raw_products.len()
            invariant
                i <= all.len(),
                all == raw_products@,
                products_from_data(or_null(data)) == products_of_items(all),
                products_of_items(all) == after_records(records_view(products@), products_of_items(all.skip(i as int))),
            decreases all.len() - i,
        {
            assert(all.skip(i as int)[0] == all[i as int]);
            assert(all.skip(i as int).drop_first() =~= all.skip(i + 1));
            let product = match Self::extract_product_from_data(&raw_products[i]) {
                Err(e) => {
                    let e = e.stack_step("extract_products_from_data");
                    return Err(e);
                },
                Ok(v) => v,
            };
            let ghost before = records_view(products@);
            match product {
                None => {
                    assert(before + Seq::<ProductRecordView>::empty() =~= before);
                },
                Some(p) => {
                    let ghost pv = p@;
                    products.push(p);
                    assert(records_view(products@) =~= before + seq![pv]);
                    proof {
                        match products_of_items(all.skip(i + 1)) {
                            Ok(ps) => {
                                assert(before + (seq![pv] + ps) =~= (before + seq![pv]) + ps);
                            },
                            Err(e) => {},
                        }
                    }
                },
            }
            i = i + 1;
        }
        assert(all.skip(i as int) =~= Seq::<JsonValue>::empty());
        assert(records_view(products@) + Seq::<ProductRecordView>::empty() =~= records_view(products@));
        Ok(products)
    }

    /// The products that a listing page lists. `evaluate` runs a script call and gives the
    /// value its function returns, or the message of its failure.
    pub fn extract_products<F: Fn(ScriptCall) -> Result<JsonValue, String>>(page: &String, evaluate: F) -> (r: PullResult<Vec<ProductRecord>>)
        requires
            forall|c: ScriptCall| call_requires(evaluate, (c,)),
        ensures
            match page_data_script(page@, "get_page_data_script"@) {
                Err(e) => r matches Err(x) && x@ == e,
                Ok(script) => exists|c: ScriptCall, out: Result<JsonValue, String>|
                    c@ == listing_data_call(script) && call_ensures(evaluate, (c,), out)
                        && records_outcome(r) == listing_products(out),
            },
    {
        let script = match find_page_data_script(page.as_str(), "get_page_data_script") {
            Err(e) => return Err(e),
            Ok(v) => v,
        };
        let call = script_call("window = {};\n", script.as_str(), "function getProduct() {return window._dida_config_._init_data_};\n", "getProduct");
        let out = evaluate(call);
        let data = match &out {
            Err(m) => {
                let e = PullError::from_step("get_page_run_params", PullErrorKind::BadData).set_message(m.as_str());
                return Err(e);
            },
            Ok(v) => v,
        };
        if Self::is_no_products(Some(data)) {
            return PullError::from_step("extract_products", PullErrorKind::NoData)
                .set_message("no products in the category")
                .set_skip(true)
                .to_result();
        }
        Self::extract_products_from_data(Some(data))
    }

    /// The products of a page of the listing of the category `category_identity`, each
    /// put in that category.
    pub fn assign_category(products: Vec<ProductRecord>, category_identity: u64) -> (r: Vec<ProductRecord>)
        ensures
            records_view(r@) == records_view(products@).map_values(|p: ProductRecordView| ProductRecordView { category_identity, ..p }),
    {
        let ghost original = records_view(products@);
        let mut rest = products;
        let mut done: Vec<ProductRecord> = Vec::new();
        let ghost n = rest@.len();
        while rest.len() > 0
            invariant
                done@.len() + rest@.len() == n,
                n == original.len(),
                records_view(rest@) =~= original.skip(done@.len() as int),
                records_view(done@) =~= original.take(done@.len() as int).map_values(|p: ProductRecordView| ProductRecordView { category_identity, ..p }),
            decreases rest@.len(),
        {
            let ghost k = done@.len() as int;
            let ghost old_rest = rest@;
            assert(records_view(old_rest)[0] == old_rest[0]@);
            assert(original.skip(k)[0] == original[k]);
            let mut product = rest.remove(0);
            assert(product@ == original[k]);
            assert(rest@ =~= old_rest.drop_first());
            assert forall|j: int| 0 <= j < rest@.len() implies #[trigger] records_view(rest@)[j] == original.skip(k + 1)[j] by {
                assert(records_view(rest@)[j] == rest@[j]@);
                assert(rest@[j] == old_rest[j + 1]);
                assert(records_view(old_rest)[j + 1] == original.skip(k)[j + 1]);
            }
            assert(records_view(rest@) =~= original.skip(k + 1));
            product.category_identity = category_identity;
            let ghost old_done = done@;
            let ghost pv = product@;
            done.push(product);
            assert(done@ =~= old_done.push(product));
            assert(records_view(done@) =~= records_view(old_done).push(pv));
            assert(original.take(k + 1) =~= original.take(k).push(original[k]));
        }
        assert(original.take(n as int) =~= original);
        done
    }
}

/// Of the first `k` items, those that pass `f` number at most those of all.
proof fn lemma_filter_prefix_len(s: Seq<JsonValue>, k: int, f: spec_fn(JsonValue) -> bool)
    requires
        0 <= k <= s.len(),
    ensures
        s.take(k).filter(f).len() <= s.filter(f).len(),
        s.take(k).filter(f).len() > 1 ==> s.filter(f).len() > 1,
    decreases s.len() - k,
{
    if k < s.len() {
        lemma_filter_prefix_len(s, k + 1, f);
        reveal_with_fuel(Seq::filter, 1);
        assert(s.take(k + 1).drop_last() =~= s.take(k));
    } else {
        assert(s.take(k) =~= s);
    }
}

} // verus!
