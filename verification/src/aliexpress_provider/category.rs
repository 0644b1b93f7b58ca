use vstd::prelude::*;
use crate::aliexpress_provider::{js_value_to_u64, json_u64};
use crate::aliexpress_provider::formatter::{parse_u64, failure_message, parse_u64_text, failure_text};
use crate::json::{JsonValue, or_null, at_key, at_index, text_of, key_of, index_of, as_str, as_array, is_object, is_null};
use crate::path::{file_stem, file_stem_of};
use crate::provider::{Category, CategoryView, category_outcome, categories_outcome, categories_view};
use crate::result::{PullError, PullErrorKind, PullErrorView, PullResult, fresh_error, error_with_message, stacked};
use crate::text::{same_text, contains, contains_text, to_chars, decimal_text, u64_to_text};
use crate::scraper_extension::{HtmlElement, HtmlElementView, html_select_of, html_select_within_of, query_selector_all_html, query_selector_all_within, elements_view, pairs_view, inner_text, get_inner_text_element};
use crate::javascript::{ScriptCall, ScriptCallView, script_call, script_program};
use crate::web::{url_path_segments, url_path_segments_of};

verus! {

/// What the category URL `url` says: the identity and the name of the category in its
/// path, which is `/category/<identity>/<name>.<extension>`.
pub open spec fn identity_and_name_url(url: Seq<char>) -> Result<(u64, Seq<char>), PullErrorView> {
    let step = "extract_category_identity_and_name_url"@;
    match url_path_segments_of(url) {
        Err(m) => Err(error_with_message(step, PullErrorKind::BadData, m)),
        Ok(None) => Err(error_with_message(step, PullErrorKind::BadData, "bad category url"@)),
        Ok(Some(segments)) => if segments.len() != 3 || segments[0] != "category"@ {
            Err(error_with_message(step, PullErrorKind::BadData, "bad category url"@))
        } else {
            match parse_u64(segments[1]) {
                Err(f) => Err(error_with_message(step, PullErrorKind::BadData, failure_message(f))),
                Ok(identity) => match file_stem_of(segments[2]) {
                    None => Err(error_with_message(step, PullErrorKind::BadData, "bad category name"@)),
                    Some(name_url) => Ok((identity, name_url)),
                },
            }
        },
    }
}

/// The identity and the name of the category that the URL `url_str` points to.
pub fn extract_category_identity_and_name_url(url_str: &str) -> (r: PullResult<(u64, String)>)
    ensures
        match r {
            Ok((identity, name_url)) => identity_and_name_url(url_str@) == Ok::<(u64, Seq<char>), PullErrorView>((identity, name_url@)),
            Err(e) => identity_and_name_url(url_str@) == Err::<(u64, Seq<char>), PullErrorView>(e@),
        },
{
    let segments = match url_path_segments(url_str) {
        Err(e) => {
            return PullError::from_step("extract_category_identity_and_name_url", PullErrorKind::BadData)
                .set_message(e.as_str())
                .to_result();
        },
        Ok(None) => {
            return PullError::from_step("extract_category_identity_and_name_url", PullErrorKind::BadData)
                .set_message("bad category url")
                .to_result();
        },
        Ok(Some(v)) => v,
    };
    assert(url_path_segments_of(url_str@) == Ok::<Option<Seq<Seq<char>>>, Seq<char>>(Some(segments@.map_values(|s: String| s@))));
    if segments.len() != 3 || !same_text(segments[0].as_str(), "category") {
        return PullError::from_step("extract_category_identity_and_name_url", PullErrorKind::BadData)
            .set_message("bad category url")
            .to_result();
    }
    let identity = match parse_u64_text(segments[1].as_str()) {
        Err(f) => {
            return PullError::from_step("extract_category_identity_and_name_url", PullErrorKind::BadData)
                .set_message(failure_text(f))
                .to_result();
        },
        Ok(v) => v,
    };
    let name_url = match file_stem(segments[2].as_str()) {
        None => {
            return PullError::from_step("extract_category_identity_and_name_url", PullErrorKind::BadData)
                .set_message("bad category name")
                .to_result();
        },
        Some(v) => v,
    };
    Ok((identity, name_url))
}

/// Whether the category is one the provider lists but that sells nothing worth pulling.
pub open spec fn ignored_category(identity: u64) -> bool {
    identity == 2 || identity == 1501
}

/// Whether the category is one the provider lists but that sells nothing worth pulling.
pub fn is_ignored_category(identity: u64) -> (r: bool)
    ensures
        r == ignored_category(identity),
{
    identity == 2 || identity == 1501
}

/// Whether a category is kept: neither it nor its parent is ignored.
pub open spec fn kept_category(c: CategoryView) -> bool {
    !ignored_category(c.identity) && match c.parent_identity {
        None => true,
        Some(p) => !ignored_category(p),
    }
}

/// The categories of `items` that are kept, in their order.
pub fn filter_items(items: Vec<Category>) -> (r: Vec<Category>)
    ensures
        categories_view(r@) == categories_view(items@).filter(|c: CategoryView| kept_category(c)),
{
    let ghost all = categories_view(items@);
    let mut kept: Vec<Category> = Vec::new();
    let mut rest = items;
    let mut i: usize = 0;
    let n = rest.len();
    let ghost original = rest@;
    proof {
        assert(original.skip(0) =~= original);
    }
    while rest.len() > 0
        invariant
            all == categories_view(original),
            i + rest@.len() == n,
            n == original.len(),
            rest@ =~= original.skip(i as int),
            categories_view(kept@) == all.take(i as int).filter(|c: CategoryView| kept_category(c)),
        decreases rest@.len(),
    {
        let item = rest.remove(0);
        proof {
            reveal_with_fuel(Seq::filter, 1);
            assert(all.take(i + 1).drop_last() =~= all.take(i as int));
            assert(all.take(i + 1).last() == item@);
            assert(original.skip(i + 1) =~= original.skip(i as int).drop_first());
        }
        let keep = !is_ignored_category(item.identity) && match item.parent_identity {
            None => true,
            Some(p) => !is_ignored_category(p),
        };
        if keep {
            kept.push(item);
            assert(categories_view(kept@) =~= all.take(i + 1).filter(|c: CategoryView| kept_category(c)));
        } else {
            assert(categories_view(kept@) =~= all.take(i + 1).filter(|c: CategoryView| kept_category(c)));
        }
        i = i + 1;
    }
    assert(all.take(i as int) =~= all);
    kept
}

/// Whether the data of a page says that the page lists nothing.
pub open spec fn empty_data(data: JsonValue) -> bool {
    text_of(at_key(data, "resultType"@)) == Some("zero_result"@)
}

/// Whether the data of a page says that the page lists nothing.
pub fn is_empty_data(data: Option<&JsonValue>) -> (r: bool)
    ensures
        r == empty_data(or_null(data)),
{
    match as_str(key_of(data, "resultType")) {
        None => false,
        Some(v) => same_text(v, "zero_result"),
    }
}

/// Where the data of a category page holds its refine filters.
pub open spec fn refine_filters(data: JsonValue) -> JsonValue {
    at_key(at_key(at_key(at_key(at_key(at_key(at_key(data, "data"@), "data"@), "root"@), "fields"@), "mods"@),
        "searchRefineFilters"@), "content"@)
}

fn refine_filters_of(data: Option<&JsonValue>) -> (r: Option<&JsonValue>)
    ensures
        or_null(r) == refine_filters(or_null(data)),
{
    key_of(key_of(key_of(key_of(key_of(key_of(key_of(data, "data"), "data"), "root"), "fields"), "mods"),
        "searchRefineFilters"), "content")
}

/// The category that the data of a category page selects: the one of the second refine
/// filter, which must be of type `category`.
pub open spec fn selected_category(data: JsonValue) -> Result<CategoryView, PullErrorView> {
    let step = "extract_selected_category_from_data"@;
    if empty_data(data) {
        Err(PullErrorView { skip: true, ..error_with_message(step, PullErrorKind::NoData, "category page has no data"@) })
    } else if !(refine_filters(data) is Array) {
        Err(fresh_error(step, PullErrorKind::BadData))
    } else {
        let filter = at_index(refine_filters(data), 1);
        match text_of(at_key(filter, "type"@)) {
            None => Err(error_with_message(step, PullErrorKind::BadData, "no refine type"@)),
            Some(t) => if t != "category"@ {
                Err(error_with_message(step, PullErrorKind::BadData, "expect refine type: category"@))
            } else {
                let content = at_index(at_key(filter, "content"@), 0);
                if !(content is Object) {
                    Err(error_with_message(step, PullErrorKind::BadData, "no refine content"@))
                } else {
                    match text_of(at_key(content, "categoryEnName"@)) {
                        None => Err(error_with_message(step, PullErrorKind::BadData, "bad name"@)),
                        Some(name) => match json_u64(at_key(content, "categoryId"@)) {
                            None => Err(error_with_message(step, PullErrorKind::BadData, "bad identity"@)),
                            Some(identity) => Ok(CategoryView {
                                identity,
                                name,
                                name_url: "_anything_is_ok_"@,
                                level: 2,
                                parent_identity: None,
                            }),
                        },
                    }
                }
            },
        }
    }
}

/// The category that a category page selects is the first entry of the content of its
/// second refine filter: its name and identity are that entry's, whatever entries follow;
/// it is a level 2 category with no parent.
pub proof fn law_selected_category_is_first_entry(data: JsonValue)
    ensures
        selected_category(data) matches Ok(c) ==> (
            refine_filters(data) matches JsonValue::Array(filters)
            && filters@.len() >= 2
            && (at_key(filters@[1], "content"@) matches JsonValue::Array(entries)
                && entries@.len() >= 1
                && text_of(at_key(entries@[0], "categoryEnName"@)) == Some(c.name)
                && json_u64(at_key(entries@[0], "categoryId"@)) == Some(c.identity))
            && c.level == 2
            && c.parent_identity is None),
{
}

/// The category that the data of a category page selects.
pub fn extract_selected_category_from_data(data: Option<&JsonValue>) -> (r: PullResult<Category>)
    ensures
        category_outcome(r) == selected_category(or_null(data)),
{
    if is_empty_data(data) {
        return PullError::from_step("extract_selected_category_from_data", PullErrorKind::NoData)
            .set_message("category page has no data")
            .set_skip(true)
            .to_result();
    }
    let filters = refine_filters_of(data);
    if as_array(filters).is_none() {
        return PullError::from_step("extract_selected_category_from_data", PullErrorKind::BadData).to_result();
    }
    let filter = index_of(filters, 1);
    let filter_type = match as_str(key_of(filter, "type")) {
        None => {
            return PullError::from_step("extract_selected_category_from_data", PullErrorKind::BadData)
                .set_message("no refine type")
                .to_result();
        },
        Some(v) => v,
    };
    if !same_text(filter_type, "category") {
        return PullError::from_step("extract_selected_category_from_data", PullErrorKind::BadData)
            .set_message("expect refine type: category")
            .to_result();
    }
    let content = index_of(key_of(filter, "content"), 0);
    if !is_object(content) {
        return PullError::from_step("extract_selected_category_from_data", PullErrorKind::BadData)
            .set_message("no refine content")
            .to_result();
    }
    let name = match as_str(key_of(content, "categoryEnName")) {
        None => {
            return PullError::from_step("extract_selected_category_from_data", PullErrorKind::BadData)
                .set_message("bad name")
                .to_result();
        },
        Some(v) => v.to_owned(),
    };
    let identity = match js_value_to_u64(key_of(content, "categoryId")) {
        Err(_) => {
            return PullError::from_step("extract_selected_category_from_data", PullErrorKind::BadData)
                .set_message("bad identity")
                .to_result();
        },
        Ok(v) => v,
    };
    Ok(Category {
        identity,
        name,
        name_url: "_anything_is_ok_".to_owned(),
        level: 2,
        parent_identity: None,
    })
}


/// Where a category page holds the refine category, beside its children.
pub open spec fn refine_children(data: JsonValue) -> JsonValue {
    at_key(at_index(at_key(data, "refineCategory"@), 0), "childCategories"@)
}

/// The data of the level 3 categories below the level 2 category of a page: there must
/// be exactly one refine filter; the children of the refine category are the items.
pub open spec fn level_3_items_data(data: JsonValue) -> Result<Seq<JsonValue>, PullErrorView> {
    let step = "extract_level_3_items_data"@;
    match refine_filters(data) {
        JsonValue::Array(filters) => if filters@.len() == 0 {
            Err(error_with_message(step, PullErrorKind::NoData, "empty 'refineCategory'"@))
        } else if filters@.len() >= 2 {
            Err(error_with_message(step, PullErrorKind::NoData, "too many 'refineCategory'"@))
        } else {
            match refine_children(data) {
                JsonValue::Null => Ok(Seq::empty()),
                JsonValue::Array(items) => Ok(items@),
                _ => Err(fresh_error(step, PullErrorKind::BadData)),
            }
        },
        _ => Err(error_with_message(step, PullErrorKind::NoData, "no attribute '...refineCategory'"@)),
    }
}

/// The data of the level 3 categories of a page; `Ok(None)` where there are none.
fn extract_level_3_items_data<'a>(data: Option<&'a JsonValue>) -> (r: PullResult<Option<&'a Vec<JsonValue>>>)
    ensures
        match r {
            Ok(Some(items)) => level_3_items_data(or_null(data)) == Ok::<Seq<JsonValue>, PullErrorView>(items@),
            Ok(None) => level_3_items_data(or_null(data)) == Ok::<Seq<JsonValue>, PullErrorView>(Seq::empty()),
            Err(e) => level_3_items_data(or_null(data)) == Err::<Seq<JsonValue>, PullErrorView>(e@),
        },
{
    let refine_category = match as_array(refine_filters_of(data)) {
        None => {
            return PullError::from_step("extract_level_3_items_data", PullErrorKind::NoData)
                .set_message("no attribute '...refineCategory'")
                .to_result();
        },
        Some(v) => v,
    };
    if refine_category.len() == 0 {
        return PullError::from_step("extract_level_3_items_data", PullErrorKind::NoData)
            .set_message("empty 'refineCategory'")
            .to_result();
    }
    if refine_category.len() >= 2 {
        return PullError::from_step("extract_level_3_items_data", PullErrorKind::NoData)
            .set_message("too many 'refineCategory'")
            .to_result();
    }
    let children = key_of(index_of(key_of(data, "refineCategory"), 0), "childCategories");
    if is_null(children) {
        return Ok(None);
    }
    match as_array(children) {
        Some(items) => Ok(Some(items)),
        None => PullError::from_step("extract_level_3_items_data", PullErrorKind::BadData).to_result(),
    }
}

/// The name of a level 3 category, taken from its URL, which the data gives without a
/// scheme.
pub open spec fn level_3_item_name_url(data: JsonValue) -> Result<Seq<char>, PullErrorView> {
    let step = "extract_level_3_item_name_url"@;
    match text_of(at_key(data, "categoryUrl"@)) {
        None => Err(fresh_error(step, PullErrorKind::NoData)),
        Some(url) => if vstd::utf8::encode_utf8(url).len() < 2 {
            Err(fresh_error(step, PullErrorKind::BadData))
        } else {
            match identity_and_name_url("http:"@ + url) {
                Err(e) => Err(stacked(e, step)),
                Ok((_, name_url)) => Ok(name_url),
            }
        },
    }
}

proof fn lemma_utf8_length_at_least(s: Seq<char>)
    ensures
        vstd::utf8::encode_utf8(s).len() >= s.len(),
    decreases s.len(),
{
    if s.len() > 0 {
        lemma_utf8_length_at_least(s.drop_first());
    }
}

/// Whether `s` takes fewer than two bytes in UTF-8.
fn fewer_than_two_bytes(s: &str) -> (r: bool)
    ensures
        r == (vstd::utf8::encode_utf8(s@).len() < 2),
{
    let chars = to_chars(s);
    proof {
        lemma_utf8_length_at_least(s@);
        if s@.len() == 1 {
            assert(s@.drop_first() =~= Seq::<char>::empty());
            assert(vstd::utf8::encode_utf8(s@.drop_first()) =~= Seq::<u8>::empty());
            assert(vstd::utf8::encode_utf8(s@) =~= vstd::utf8::encode_scalar(s@[0] as u32));
        }
    }
    chars.len() == 0 || (chars.len() == 1 && (chars[0] as u32) < 0x80)
}

fn extract_level_3_item_name_url(data: Option<&JsonValue>) -> (r: PullResult<String>)
    ensures
        match r {
            Ok(v) => level_3_item_name_url(or_null(data)) == Ok::<Seq<char>, PullErrorView>(v@),
            Err(e) => level_3_item_name_url(or_null(data)) == Err::<Seq<char>, PullErrorView>(e@),
        },
{
    let url_str = match as_str(key_of(data, "categoryUrl")) {
        None => return PullError::from_step("extract_level_3_item_name_url", PullErrorKind::NoData).to_result(),
        Some(v) => v,
    };
    if fewer_than_two_bytes(url_str) {
        return PullError::from_step("extract_level_3_item_name_url", PullErrorKind::BadData).to_result();
    }
    let mut valid_url_str = "http:".to_owned();
    valid_url_str.append(url_str);
    match extract_category_identity_and_name_url(valid_url_str.as_str()) {
        Err(e) => e.stack_step("extract_level_3_item_name_url").to_result(),
        Ok((_, v)) => Ok(v),
    }
}

/// The level 3 category that the data of an item describes; its parent is filled in by
/// the caller.
pub open spec fn level_3_item(data: JsonValue) -> Result<CategoryView, PullErrorView> {
    let step = "extract_level_3_item_from_data"@;
    match json_u64(at_key(data, "categoryId"@)) {
        None => Err(error_with_message(step, PullErrorKind::BadData, "bad identity"@)),
        Some(identity) => match text_of(at_key(data, "categoryName"@)) {
            None => Err(error_with_message(step, PullErrorKind::BadData, "bad name"@)),
            Some(name) => match level_3_item_name_url(data) {
                Err(e) => Err(stacked(e, step)),
                Ok(name_url) => Ok(CategoryView { identity, level: 3, name, name_url, parent_identity: None }),
            },
        },
    }
}

fn extract_level_3_item_from_data(data: &JsonValue) -> (r: PullResult<Category>)
    ensures
        category_outcome(r) == level_3_item(*data),
{
    let data = Some(data);
    let identity = match js_value_to_u64(key_of(data, "categoryId")) {
        Err(_) => {
            return PullError::from_step("extract_level_3_item_from_data", PullErrorKind::BadData)
                .set_message("bad identity")
                .to_result();
        },
        Ok(v) => v,
    };
    let name = match as_str(key_of(data, "categoryName")) {
        None => {
            return PullError::from_step("extract_level_3_item_from_data", PullErrorKind::BadData)
                .set_message("bad name")
                .to_result();
        },
        Some(v) => v.to_owned(),
    };
    let name_url = match extract_level_3_item_name_url(data) {
        Err(e) => return e.stack_step("extract_level_3_item_from_data").to_result(),
        Ok(v) => v,
    };
    Ok(Category { identity, level: 3, name, name_url, parent_identity: None })
}

/// The level 3 categories that the data of items describe, in order; the first item
/// that fails fails them all.
pub open spec fn level_3_items(items: Seq<JsonValue>) -> Result<Seq<CategoryView>, PullErrorView>
    decreases items.len(),
{
    if items.len() == 0 {
        Ok(Seq::empty())
    } else {
        match level_3_item(items[0]) {
            Err(e) => Err(stacked(e, "extract_level_3_items_from_data"@)),
            Ok(c) => match level_3_items(items.drop_first()) {
                Err(e) => Err(e),
                Ok(cs) => Ok(seq![c] + cs),
            },
        }
    }
}

/// `done` put before what `r` gives, where it gives categories.
pub open spec fn after_done(done: Seq<CategoryView>, r: Result<Seq<CategoryView>, PullErrorView>) -> Result<Seq<CategoryView>, PullErrorView> {
    match r {
        Ok(cs) => Ok(done + cs),
        Err(e) => Err(e),
    }
}

/// The level 3 categories that the data of a category page lists.
pub open spec fn level_3_items_from_data(data: JsonValue) -> Result<Seq<CategoryView>, PullErrorView> {
    if empty_data(data) {
        Ok(Seq::empty())
    } else {
        match level_3_items_data(data) {
            Err(e) => Err(stacked(e, "extract_level_3_items_from_data"@)),
            Ok(items) => level_3_items(items),
        }
    }
}

/// The level 3 categories that the data of a category page lists.
pub fn extract_level_3_items_from_data(data: Option<&JsonValue>) -> (r: PullResult<Vec<Category>>)
    ensures
        categories_outcome(r) == level_3_items_from_data(or_null(data)),
{
    let none: Vec<Category> = Vec::new();
    assert(categories_view(none@) =~= Seq::<CategoryView>::empty());
    if is_empty_data(data) {
        return Ok(none);
    }
    let items_data = match extract_level_3_items_data(data) {
        Err(e) => {
            let e = e.stack_step("extract_level_3_items_from_data");
            return Err(e);
        },
        Ok(None) => {
            assert(level_3_items(Seq::<JsonValue>::empty()) == Ok::<Seq<CategoryView>, PullErrorView>(Seq::empty()));
            return Ok(none);
        },
        Ok(Some(v)) => v,
    };
    let ghost all = items_data@;
    let mut items: Vec<Category> = Vec::new();
    let mut i: usize = 0;
    assert(all.skip(0) =~= all);
    while i < items_data.len()
        invariant
            i <= all.len(),
            all == items_data@,
            level_3_items_from_data(or_null(data)) == level_3_items(all),
            level_3_items(all) == after_done(categories_view(items@), level_3_items(all.skip(i as int))),
        decreases all.len() - i,
    {
        assert(all.skip(i as int)[0] == all[i as int]);
        assert(all.skip(i as int).drop_first() =~= all.skip(i + 1));
        let item = match extract_level_3_item_from_data(&items_data[i]) {
            Err(e) => {
                let e = e.stack_step("extract_level_3_items_from_data");
                return Err(e);
            },
            Ok(v) => v,
        };
        let ghost before = categories_view(items@);
        items.push(item);
        assert(categories_view(items@) =~= before + seq![item@]);
        proof {
            match level_3_items(all.skip(i + 1)) {
                Ok(cs) => {
                    assert(before + (seq![item@] + cs) =~= (before + seq![item@]) + cs);
                },
                Err(e) => {},
            }
        }
        i = i + 1;
    }
    assert(all.skip(i as int) =~= Seq::<JsonValue>::empty());
    assert(categories_view(items@) + Seq::<CategoryView>::empty() =~= categories_view(items@));
    Ok(items)
}

/// What a page's scripts hold of data: the first of `scripts` that holds `marker`.
pub open spec fn first_script_with(scripts: Seq<HtmlElementView>, marker: Seq<char>) -> Option<Seq<char>>
    decreases scripts.len(),
{
    if scripts.len() == 0 {
        None
    } else if contains_text(scripts[0].inner_html, marker) {
        Some(scripts[0].inner_html)
    } else {
        first_script_with(scripts.drop_first(), marker)
    }
}

/// The text that marks the script that holds a listing page's data.
pub open spec fn data_marker() -> Seq<char> {
    "window._dida_config_._init_data_= {"@
}

/// The script of a listing page that holds its data, found as `step`: the first of the
/// page's `script` elements whose inner HTML holds [`data_marker`].
pub open spec fn page_data_script(page: Seq<char>, step: Seq<char>) -> Result<Seq<char>, PullErrorView> {
    match html_select_of(page, "script"@, ""@) {
        None => Err(fresh_error(step, PullErrorKind::NoData)),
        Some(scripts) => match first_script_with(scripts, data_marker()) {
            None => Err(fresh_error(step, PullErrorKind::NoData)),
            Some(script) => Ok(script),
        },
    }
}

/// The script of a listing page that holds its data, found as `step`. No attribute of
/// the scripts is read.
pub fn find_page_data_script(page: &str, step: &str) -> (r: PullResult<String>)
    ensures
        match r {
            Ok(s) => page_data_script(page@, step@) == Ok::<Seq<char>, PullErrorView>(s@),
            Err(e) => page_data_script(page@, step@) == Err::<Seq<char>, PullErrorView>(e@),
        },
{
    let scripts = match query_selector_all_html(page, "script", "") {
        Err(_) => return PullError::from_step(step, PullErrorKind::NoData).to_result(),
        Ok(v) => v,
    };
    let ghost all = elements_view(scripts@);
    let mut i: usize = 0;
    assert(all.skip(0) =~= all);
    while i < scripts.len()
        invariant
            i <= all.len(),
            all == elements_view(scripts@),
            html_select_of(page@, "script"@, ""@) == Some(all),
            first_script_with(all, data_marker()) == first_script_with(all.skip(i as int), data_marker()),
        decreases all.len() - i,
    {
        assert(all.skip(i as int)[0] == scripts@[i as int]@);
        assert(all.skip(i as int).drop_first() =~= all.skip(i + 1));
        if contains(scripts[i].inner_html.as_str(), "window._dida_config_._init_data_= {") {
            return Ok(scripts[i].inner_html.clone());
        }
        i = i + 1;
    }
    assert(all.skip(i as int) =~= Seq::<HtmlElementView>::empty());
    PullError::from_step(step, PullErrorKind::NoData).to_result()
}

/// The call that reads the data of a listing page out of its data script.
pub open spec fn page_data_call(script: Seq<char>) -> ScriptCallView {
    ScriptCallView {
        program: script_program("window = {};\n"@, script, "function _getRunParams() {return window._dida_config_._init_data_};\n"@),
        function: "_getRunParams"@,
    }
}

/// The data of a category page as its script computes it: the script's error message,
/// where it fails, is the error's.
pub open spec fn page_data(out: Result<JsonValue, String>) -> Result<JsonValue, PullErrorView> {
    match out {
        Err(m) => Err(error_with_message("extract_page_data"@, PullErrorKind::BadData, m@)),
        Ok(v) => Ok(v),
    }
}

/// The category that a category page selects. `evaluate` runs a script call and gives
/// the value its function returns, or the message of its failure.
pub fn extract_category<F: Fn(ScriptCall) -> Result<JsonValue, String>>(page: &String, evaluate: F) -> (r: PullResult<Category>)
    requires
        forall|c: ScriptCall| call_requires(evaluate, (c,)),
    ensures
        match page_data_script(page@, "extract_page_script"@) {
            Err(e) => r matches Err(x) && x@ == e,
            Ok(script) => exists|c: ScriptCall, out: Result<JsonValue, String>|
                c@ == page_data_call(script) && call_ensures(evaluate, (c,), out) && category_outcome(r) == match page_data(out) {
                    Err(e) => Err(e),
                    Ok(data) => selected_category(data),
                },
        },
{
    let script = match find_page_data_script(page.as_str(), "extract_page_script") {
        Err(e) => return Err(e),
        Ok(v) => v,
    };
    let call = script_call("window = {};\n", script.as_str(), "function _getRunParams() {return window._dida_config_._init_data_};\n", "_getRunParams");
    let ghost call_view = call@;
    let out = evaluate(call);
    let data = match &out {
        Err(m) => {
            let e = PullError::from_step("extract_page_data", PullErrorKind::BadData).set_message(m.as_str());
            return Err(e);
        },
        Ok(v) => v,
    };
    extract_selected_category_from_data(Some(data))
}

/// The level 3 categories that a category page lists. `evaluate` runs a script call and
/// gives the value its function returns, or the message of its failure.
pub fn extract_level_3_items<F: Fn(ScriptCall) -> Result<JsonValue, String>>(page: &String, evaluate: F) -> (r: PullResult<Vec<Category>>)
    requires
        forall|c: ScriptCall| call_requires(evaluate, (c,)),
    ensures
        match page_data_script(page@, "extract_page_script"@) {
            Err(e) => r matches Err(x) && x@ == e,
            Ok(script) => exists|c: ScriptCall, out: Result<JsonValue, String>|
                c@ == page_data_call(script) && call_ensures(evaluate, (c,), out) && categories_outcome(r) == match page_data(out) {
                    Err(e) => Err(e),
                    Ok(data) => level_3_items_from_data(data),
                },
        },
{
    let script = match find_page_data_script(page.as_str(), "extract_page_script") {
        Err(e) => return Err(e),
        Ok(v) => v,
    };
    let call = script_call("window = {};\n", script.as_str(), "function _getRunParams() {return window._dida_config_._init_data_};\n", "_getRunParams");
    let out = evaluate(call);
    let data = match &out {
        Err(m) => {
            let e = PullError::from_step("extract_page_data", PullErrorKind::BadData).set_message(m.as_str());
            return Err(e);
        },
        Ok(v) => v,
    };
    extract_level_3_items_from_data(Some(data))
}


/// The level 1 category of a menu item, from the first of its title links.
pub open spec fn level_1_item(first: Seq<HtmlElementView>) -> Result<CategoryView, PullErrorView> {
    let step = "extract_level_1_item"@;
    if first.len() == 0 {
        Err(error_with_message(step, PullErrorKind::NoData, "no category link"@))
    } else {
        match first[0].attribute {
            None => Err(error_with_message(step, PullErrorKind::NoData, "no category url"@)),
            Some(href) => match identity_and_name_url("https:"@ + href) {
                Err(e) => Err(stacked(e, step)),
                Ok((identity, name_url)) => Ok(CategoryView {
                    identity,
                    name: inner_text(first[0]),
                    name_url,
                    parent_identity: None,
                    level: 1,
                }),
            },
        }
    }
}

/// The level 1 category of a menu item, from the first of its title links.
fn extract_level_1_item(first: &Vec<HtmlElement>) -> (r: PullResult<Category>)
    ensures
        category_outcome(r) == level_1_item(elements_view(first@)),
{
    if first.len() == 0 {
        return PullError::from_step("extract_level_1_item", PullErrorKind::NoData)
            .set_message("no category link")
            .to_result();
    }
    let link = &first[0];
    let url = match &link.attribute {
        None => {
            return PullError::from_step("extract_level_1_item", PullErrorKind::NoData)
                .set_message("no category url")
                .to_result();
        },
        Some(v) => {
            let mut url = "https:".to_owned();
            url.append(v.as_str());
            url
        },
    };
    let (identity, name_url) = match extract_category_identity_and_name_url(url.as_str()) {
        Err(e) => return e.stack_step("extract_level_1_item").to_result(),
        Ok(v) => v,
    };
    Ok(Category { identity, name: get_inner_text_element(link), name_url, parent_identity: None, level: 1 })
}

/// The level 2 category of a link of a menu item whose category is `level_1_identity`.
pub open spec fn level_2_item(node: HtmlElementView, level_1_identity: u64) -> Result<CategoryView, PullErrorView> {
    let step = "extract_level_2_item"@;
    match node.attribute {
        None => Err(error_with_message(step, PullErrorKind::NoData, "no category url"@)),
        Some(href) => match identity_and_name_url("http:"@ + href) {
            Err(e) => Err(stacked(e, step)),
            Ok((identity, name_url)) => Ok(CategoryView {
                identity,
                name: inner_text(node),
                name_url,
                parent_identity: Some(level_1_identity),
                level: 2,
            }),
        },
    }
}

fn extract_level_2_item(node: &HtmlElement, level_1_identity: u64) -> (r: PullResult<Category>)
    ensures
        category_outcome(r) == level_2_item(node@, level_1_identity),
{
    let url_str = match &node.attribute {
        None => {
            return PullError::from_step("extract_level_2_item", PullErrorKind::NoData)
                .set_message("no category url")
                .to_result();
        },
        Some(v) => {
            let mut url = "http:".to_owned();
            url.append(v.as_str());
            url
        },
    };
    let (identity, name_url) = match extract_category_identity_and_name_url(url_str.as_str()) {
        Err(e) => return e.stack_step("extract_level_2_item").to_result(),
        Ok(v) => v,
    };
    Ok(Category {
        identity,
        name: get_inner_text_element(node),
        name_url,
        parent_identity: Some(level_1_identity),
        level: 2,
    })
}

/// The level 2 categories of the links of a menu item, in order; the first link that
/// fails fails them all.
pub open spec fn level_2_items(nodes: Seq<HtmlElementView>, parent_identity: u64) -> Result<Seq<CategoryView>, PullErrorView>
    decreases nodes.len(),
{
    if nodes.len() == 0 {
        Ok(Seq::empty())
    } else {
        match level_2_item(nodes[0], parent_identity) {
            Err(e) => Err(stacked(e, "extract_level_2_items"@)),
            Ok(c) => match level_2_items(nodes.drop_first(), parent_identity) {
                Err(e) => Err(e),
                Ok(cs) => Ok(seq![c] + cs),
            },
        }
    }
}

fn extract_level_2_items(nodes: &Vec<HtmlElement>, parent_identity: u64) -> (r: PullResult<Vec<Category>>)
    ensures
        categories_outcome(r) == level_2_items(elements_view(nodes@), parent_identity),
{
    let ghost all = elements_view(nodes@);
    let mut items: Vec<Category> = Vec::new();
    let mut i: usize = 0;
    assert(all.skip(0) =~= all);
    assert(categories_view(items@) =~= Seq::<CategoryView>::empty());
    while i < nodes.len()
        invariant
            i <= all.len(),
            all == elements_view(nodes@),
            level_2_items(all, parent_identity) == after_done(categories_view(items@), level_2_items(all.skip(i as int), parent_identity)),
        decreases all.len() - i,
    {
        assert(all.skip(i as int)[0] == nodes@[i as int]@);
        assert(all.skip(i as int).drop_first() =~= all.skip(i + 1));
        let item = match extract_level_2_item(&nodes[i], parent_identity) {
            Err(e) => {
                let e = e.stack_step("extract_level_2_items");
                return Err(e);
            },
            Ok(v) => v,
        };
        let ghost before = categories_view(items@);
        items.push(item);
        assert(categories_view(items@) =~= before + seq![item@]);
        proof {
            match level_2_items(all.skip(i + 1), parent_identity) {
                Ok(cs) => {
                    assert(before + (seq![item@] + cs) =~= (before + seq![item@]) + cs);
                },
                Err(e) => {},
            }
        }
        i = i + 1;
    }
    assert(all.skip(i as int) =~= Seq::<HtmlElementView>::empty());
    assert(categories_view(items@) + Seq::<CategoryView>::empty() =~= categories_view(items@));
    Ok(items)
}

/// The categories of a menu item: its level 1 category, then the level 2 ones below it.
pub open spec fn level_1_2_items_from_node(first: Seq<HtmlElementView>, second: Seq<HtmlElementView>) -> Result<Seq<CategoryView>, PullErrorView> {
    match level_1_item(first) {
        Err(e) => Err(e),
        Ok(parent) => match level_2_items(second, parent.identity) {
            Err(e) => Err(stacked(e, "extract_level_1_2_items_from_node"@)),
            Ok(children) => Ok(seq![parent] + children),
        },
    }
}

fn extract_level_1_2_items_from_node(first: &Vec<HtmlElement>, second: &Vec<HtmlElement>) -> (r: PullResult<Vec<Category>>)
    ensures
        categories_outcome(r) == level_1_2_items_from_node(elements_view(first@), elements_view(second@)),
{
    let parent_item = match extract_level_1_item(first) {
        Err(e) => return Err(e),
        Ok(v) => v,
    };
    let mut child_items = match extract_level_2_items(second, parent_item.identity) {
        Err(e) => return e.stack_step("extract_level_1_2_items_from_node").to_result(),
        Ok(v) => v,
    };
    let ghost parent_view = parent_item@;
    let ghost children = categories_view(child_items@);
    let mut items: Vec<Category> = Vec::new();
    items.push(parent_item);
    items.append(&mut child_items);
    assert(categories_view(items@) =~= seq![parent_view] + children);
    Ok(items)
}

/// The categories of the menu items, in order, before they are filtered.
pub open spec fn level_1_2_items_of_nodes(nodes: Seq<(Seq<HtmlElementView>, Seq<HtmlElementView>)>) -> Result<Seq<CategoryView>, PullErrorView>
    decreases nodes.len(),
{
    if nodes.len() == 0 {
        Ok(Seq::empty())
    } else {
        match level_1_2_items_from_node(nodes[0].0, nodes[0].1) {
            Err(e) => Err(stacked(e, "extract_level_1_2_items"@)),
            Ok(more) => match level_1_2_items_of_nodes(nodes.drop_first()) {
                Err(e) => Err(e),
                Ok(rest) => Ok(more + rest),
            },
        }
    }
}

/// The selectors of the menu of the page of all categories: its items, the title link of
/// an item, and the links below it.
pub open spec fn menu_query(page: Seq<char>) -> Option<Seq<(Seq<HtmlElementView>, Seq<HtmlElementView>)>> {
    html_select_within_of(page, "#category div.cg-main div.item"@, "h3 a"@, "ul a"@, "href"@)
}

/// The level 1 and 2 categories that the page of all categories lists, without the
/// ignored ones.
pub open spec fn level_1_2_items(page: Seq<char>) -> Result<Seq<CategoryView>, PullErrorView> {
    match menu_query(page) {
        None => Err(error_with_message("extract_level_1_2_items"@, PullErrorKind::BadData, "bad css selector"@)),
        Some(nodes) => match level_1_2_items_of_nodes(nodes) {
            Err(e) => Err(e),
            Ok(items) => Ok(items.filter(|c: CategoryView| kept_category(c))),
        },
    }
}

/// The level 1 and 2 categories that the page of all categories lists, without the
/// ignored ones.
pub fn extract_level_1_2_items(page: &String) -> (r: PullResult<Vec<Category>>)
    ensures
        categories_outcome(r) == level_1_2_items(page@),
{
    let nodes = match query_selector_all_within(page.as_str(), "#category div.cg-main div.item", "h3 a", "ul a", "href") {
        Err(_) => {
            return PullError::from_step("extract_level_1_2_items", PullErrorKind::BadData)
                .set_message("bad css selector")
                .to_result();
        },
        Ok(v) => v,
    };
    let ghost all = pairs_view(nodes@);
    let mut items: Vec<Category> = Vec::new();
    let mut i: usize = 0;
    assert(all.skip(0) =~= all);
    assert(categories_view(items@) =~= Seq::<CategoryView>::empty());
    while i < nodes.len()
        invariant
            i <= all.len(),
            all == pairs_view(nodes@),
            menu_query(page@) == Some(all),
            level_1_2_items_of_nodes(all) == after_done(categories_view(items@), level_1_2_items_of_nodes(all.skip(i as int))),
        decreases all.len() - i,
    {
        assert(all.skip(i as int)[0] == all[i as int]);
        assert(all.skip(i as int).drop_first() =~= all.skip(i + 1));
        let mut more = match extract_level_1_2_items_from_node(&nodes[i].0, &nodes[i].1) {
            Err(e) => {
                let e = e.stack_step("extract_level_1_2_items");
                return Err(e);
            },
            Ok(v) => v,
        };
        let ghost before = categories_view(items@);
        let ghost added = categories_view(more@);
        items.append(&mut more);
        assert(categories_view(items@) =~= before + added);
        proof {
            match level_1_2_items_of_nodes(all.skip(i + 1)) {
                Ok(cs) => {
                    assert(before + (added + cs) =~= (before + added) + cs);
                },
                Err(e) => {},
            }
        }
        i = i + 1;
    }
    assert(all.skip(i as int) =~= Seq::<(Seq<HtmlElementView>, Seq<HtmlElementView>)>::empty());
    assert(categories_view(items@) + Seq::<CategoryView>::empty() =~= categories_view(items@));
    Ok(filter_items(items))
}


/// The page that lists all categories of levels 1 and 2.
pub const ALL_CATEGORIES_URL: &'static str = "https://www.aliexpress.com/all-wholesale-products.html";

/// The address of the page of the category `identity`.
pub open spec fn category_page_url(identity: u64) -> Seq<char> {
    "https://www.aliexpress.com/category/"@ + decimal_text(identity as nat) + "/hardware.html"@
}

/// The address of the page of the category `identity`.
pub fn get_category_page_url(identity: u64) -> (url: String)
    ensures
        url@ == category_page_url(identity),
{
    let mut url = "https://www.aliexpress.com/category/".to_owned();
    url.append(u64_to_text(identity).as_str());
    url.append("/hardware.html");
    url
}

/// The address of the page that lists the level 3 categories below the level 2 one
/// `level_2_identity`.
pub open spec fn level_3_page_url(level_2_identity: u64) -> Seq<char> {
    "https://www.aliexpress.com/category/"@ + decimal_text(level_2_identity as nat) + "/something.html"@
}

/// The address of the page that lists the level 3 categories below the level 2 one
/// `level_2_identity`.
pub fn get_level_3_page_url(level_2_identity: u64) -> (url: String)
    ensures
        url@ == level_3_page_url(level_2_identity),
{
    let mut url = "https://www.aliexpress.com/category/".to_owned();
    url.append(u64_to_text(level_2_identity).as_str());
    url.append("/something.html");
    url
}

/// The level 3 categories of a page, each put below the level 2 category of the page.
pub fn adopt_level_3_items(items: Vec<Category>, level_2_identity: u64) -> (r: Vec<Category>)
    ensures
        categories_view(r@) == categories_view(items@).map_values(|c: CategoryView| CategoryView { parent_identity: Some(level_2_identity), ..c }),
{
    let ghost original = categories_view(items@);
    let mut rest = items;
    let mut done: Vec<Category> = Vec::new();
    let ghost n = rest@.len();
    while rest.len() > 0
        invariant
            done@.len() + rest@.len() == n,
            n == original.len(),
            categories_view(rest@) =~= original.skip(done@.len() as int),
            categories_view(done@) =~= original.take(done@.len() as int).map_values(|c: CategoryView| CategoryView { parent_identity: Some(level_2_identity), ..c }),
        decreases rest@.len(),
    {
        let ghost k = done@.len() as int;
        let ghost old_rest = rest@;
        assert(categories_view(old_rest)[0] == old_rest[0]@);
        assert(original.skip(k)[0] == original[k]);
        let mut item = rest.remove(0);
        assert(item@ == original[k]);
        assert(rest@ =~= old_rest.drop_first());
        assert forall|j: int| 0 <= j < rest@.len() implies #[trigger] categories_view(rest@)[j] == original.skip(k + 1)[j] by {
            assert(categories_view(rest@)[j] == rest@[j]@);
            assert(rest@[j] == old_rest[j + 1]);
            assert(categories_view(old_rest)[j + 1] == original.skip(k)[j + 1]);
        }
        assert(categories_view(rest@) =~= original.skip(k + 1));
        item.parent_identity = Some(level_2_identity);
        let ghost old_done = done@;
        let ghost iv = item@;
        done.push(item);
        assert(done@ =~= old_done.push(item));
        assert(categories_view(done@) =~= categories_view(old_done).push(iv));
        assert(original.take(k + 1) =~= original.take(k).push(original[k]));
    }
    assert(original.take(n as int) =~= original);
    done
}


/// Filtering categories twice keeps what filtering once keeps: `filter_items` is
/// idempotent.
pub proof fn law_filter_items_idempotent(items: Seq<CategoryView>)
    ensures
        items.filter(|c: CategoryView| kept_category(c)).filter(|c: CategoryView| kept_category(c))
            == items.filter(|c: CategoryView| kept_category(c)),
    decreases items.len(),
{
    let f = |c: CategoryView| kept_category(c);
    reveal_with_fuel(Seq::filter, 1);
    if items.len() > 0 {
        law_filter_items_idempotent(items.drop_last());
        let once = items.drop_last().filter(f);
        if f(items.last()) {
            assert(once.push(items.last()).drop_last() =~= once);
        }
    }
}

/// Each category that the page of all categories yields is kept: neither it nor its
/// parent is one of the ignored categories.
pub proof fn law_menu_items_kept(page: Seq<char>)
    ensures
        level_1_2_items(page) matches Ok(items) ==> forall|i: int| 0 <= i < items.len() ==> kept_category(#[trigger] items[i]),
{
    if let Some(nodes) = menu_query(page) {
        if let Ok(all) = level_1_2_items_of_nodes(nodes) {
            let f = |c: CategoryView| kept_category(c);
            assert forall|i: int| 0 <= i < all.filter(f).len() implies kept_category(#[trigger] all.filter(f)[i]) by {
                all.lemma_filter_pred(f, i);
            }
        }
    }
}

/// Where the categories of the menu item `i` begin among those of all the items: each
/// item before it gives one level 1 category and one level 2 category per link below it.
pub open spec fn menu_item_start(nodes: Seq<(Seq<HtmlElementView>, Seq<HtmlElementView>)>, i: int) -> int
    decreases i,
{
    if i <= 0 || nodes.len() == 0 {
        0
    } else {
        1 + nodes[0].1.len() + menu_item_start(nodes.drop_first(), i - 1)
    }
}

proof fn lemma_menu_item_start_nonneg(nodes: Seq<(Seq<HtmlElementView>, Seq<HtmlElementView>)>, i: int)
    ensures
        menu_item_start(nodes, i) >= 0,
    decreases i,
{
    if i > 0 && nodes.len() > 0 {
        lemma_menu_item_start_nonneg(nodes.drop_first(), i - 1);
    }
}

/// Each link below a menu item gives its level 2 category, in order, under the given
/// parent.
proof fn lemma_level_2_items_each(nodes: Seq<HtmlElementView>, parent: u64)
    ensures
        level_2_items(nodes, parent) matches Ok(cs) ==> cs.len() == nodes.len()
            && forall|j: int| 0 <= j < nodes.len() ==> level_2_item(#[trigger] nodes[j], parent) == Ok::<CategoryView, PullErrorView>(cs[j]),
    decreases nodes.len(),
{
    if nodes.len() > 0 {
        lemma_level_2_items_each(nodes.drop_first(), parent);
        if let Ok(cs) = level_2_items(nodes, parent) {
            let rest = level_2_items(nodes.drop_first(), parent)->Ok_0;
            assert forall|j: int| 0 <= j < nodes.len() implies level_2_item(#[trigger] nodes[j], parent) == Ok::<CategoryView, PullErrorView>(cs[j]) by {
                if j > 0 {
                    assert(nodes.drop_first()[j - 1] == nodes[j]);
                    assert(cs[j] == rest[j - 1]);
                }
            }
        }
    }
}

/// Every menu item of the page of all categories is read, in document order: the
/// categories are, item after item, the item's level 1 category followed by one level 2
/// category per link below it, under that level 1 category; so there are as many as the
/// items count title links and links below them.
pub proof fn law_every_menu_item_read(nodes: Seq<(Seq<HtmlElementView>, Seq<HtmlElementView>)>)
    ensures
        level_1_2_items_of_nodes(nodes) matches Ok(cs) ==> {
            &&& cs.len() == menu_item_start(nodes, nodes.len() as int)
            &&& forall|i: int| 0 <= i < nodes.len() ==>
                menu_item_start(nodes, i) + 1 + nodes[i].1.len() <= cs.len()
                && level_1_item(nodes[i].0) == Ok::<CategoryView, PullErrorView>(cs[#[trigger] menu_item_start(nodes, i)])
            &&& forall|i: int, j: int| #![trigger nodes[i].1[j]] 0 <= i < nodes.len() && 0 <= j < nodes[i].1.len() ==>
                level_2_item(nodes[i].1[j], cs[menu_item_start(nodes, i)].identity)
                    == Ok::<CategoryView, PullErrorView>(cs[menu_item_start(nodes, i) + 1 + j])
        },
    decreases nodes.len(),
{
    if nodes.len() > 0 {
        let tail = nodes.drop_first();
        law_every_menu_item_read(tail);
        if let Ok(cs) = level_1_2_items_of_nodes(nodes) {
            let parent = level_1_item(nodes[0].0)->Ok_0;
            lemma_level_2_items_each(nodes[0].1, parent.identity);
            let children = level_2_items(nodes[0].1, parent.identity)->Ok_0;
            let more = seq![parent] + children;
            let rest = level_1_2_items_of_nodes(tail)->Ok_0;
            assert(cs == more + rest);
            assert(more.len() == 1 + nodes[0].1.len());
            assert(menu_item_start(nodes, nodes.len() as int) == more.len() + menu_item_start(tail, tail.len() as int));
            assert forall|i: int| 0 <= i < nodes.len() implies
                menu_item_start(nodes, i) + 1 + nodes[i].1.len() <= cs.len()
                && level_1_item(nodes[i].0) == Ok::<CategoryView, PullErrorView>(cs[#[trigger] menu_item_start(nodes, i)]) by {
                if i == 0 {
                    assert(cs[0] == parent);
                } else {
                    assert(tail[i - 1] == nodes[i]);
                    assert(0 <= i - 1 < tail.len());
                    lemma_menu_item_start_nonneg(tail, i - 1);
                    assert(menu_item_start(tail, i - 1) + 1 + tail[i - 1].1.len() <= rest.len());
                    assert(menu_item_start(nodes, i) == more.len() + menu_item_start(tail, i - 1));
                    assert(level_1_item(tail[i - 1].0) == Ok::<CategoryView, PullErrorView>(rest[menu_item_start(tail, i - 1)]));
                    assert(cs[more.len() + menu_item_start(tail, i - 1)] == rest[menu_item_start(tail, i - 1)]);
                }
            }
            assert forall|i: int, j: int| #![trigger nodes[i].1[j]] 0 <= i < nodes.len() && 0 <= j < nodes[i].1.len() implies
                level_2_item(nodes[i].1[j], cs[menu_item_start(nodes, i)].identity)
                    == Ok::<CategoryView, PullErrorView>(cs[menu_item_start(nodes, i) + 1 + j]) by {
                if i == 0 {
                    assert(cs[0] == parent);
                    assert(nodes[0].1[j] == nodes[0].1[j]);
                    assert(cs[1 + j] == children[j]);
                } else {
                    let k = menu_item_start(tail, i - 1);
                    assert(tail[i - 1] == nodes[i]);
                    assert(tail[i - 1].1[j] == nodes[i].1[j]);
                    assert(menu_item_start(nodes, i) == more.len() + k);
                    assert(0 <= i - 1 < tail.len());
                    lemma_menu_item_start_nonneg(tail, i - 1);
                    assert(k + 1 + tail[i - 1].1.len() <= rest.len());
                    assert(cs[more.len() + k] == rest[k]);
                    assert(cs[more.len() + k + 1 + j] == rest[k + 1 + j]);
                }
            }
        }
    }
}

/// Every menu item of the page of all categories gives its level 1 category to the result
/// where that category is kept: the items after the first are read too.
pub proof fn law_menu_categories_listed(page: Seq<char>)
    ensures
        level_1_2_items(page) matches Ok(items) ==> (menu_query(page) matches Some(nodes)
            && forall|i: int| 0 <= i < nodes.len() ==>
                ((#[trigger] level_1_item(nodes[i].0)) matches Ok(c) && (kept_category(c) ==> items.contains(c)))),
{
    if let Some(nodes) = menu_query(page) {
        law_every_menu_item_read(nodes);
        if let Ok(all) = level_1_2_items_of_nodes(nodes) {
            let f = |c: CategoryView| kept_category(c);
            assert forall|i: int| 0 <= i < nodes.len() implies
                ((#[trigger] level_1_item(nodes[i].0)) matches Ok(c) && (kept_category(c) ==> all.filter(f).contains(c))) by {
                let k = menu_item_start(nodes, i);
                assert(k + 1 + nodes[i].1.len() <= all.len());
                lemma_menu_item_start_nonneg(nodes, i);
                if kept_category(all[k]) {
                    all.lemma_filter_contains(f, k);
                }
            }
        }
    }
}

/// Each category that the data of a category page lists is a level 3 category with no
/// parent yet, and there are no more of them than items in the data.
pub proof fn law_level_3_items_shape(items: Seq<JsonValue>)
    ensures
        level_3_items(items) matches Ok(cs) ==> cs.len() == items.len() && forall|i: int| 0 <= i < cs.len() ==> (#[trigger] cs[i]).level == 3 && cs[i].parent_identity is None,
    decreases items.len(),
{
    if items.len() > 0 {
        law_level_3_items_shape(items.drop_first());
        if let Ok(cs) = level_3_items(items) {
            let c = level_3_item(items[0])->Ok_0;
            let rest = level_3_items(items.drop_first())->Ok_0;
            assert(cs == seq![c] + rest);
            assert forall|i: int| 0 <= i < cs.len() implies (#[trigger] cs[i]).level == 3 && cs[i].parent_identity is None by {
                if i > 0 {
                    assert(cs[i] == rest[i - 1]);
                }
            }
        }
    }
}

} // verus!
