use vstd::prelude::*;
use crate::aliexpress_provider::formatter::{IntParseFailure, is_float_text, failure_message, is_float_literal, parse_u64, parse_u64_text, failure_text, str_to_u64, without_separators};
use crate::javascript::{ScriptCall, ScriptCallView, script_call, script_program};
use crate::json::JsonValue;
use crate::progress::now_millis;
use crate::result::{BoxResult, PullError, PullErrorKind, PullErrorView, PullResult, UnexpectedError, error_with_message, fresh_error, stacked};
use crate::scraper_extension::{HtmlElement, HtmlElementView, html_select_of, first_match, select_first, count_matches, query_selector_all_html, elements_view, inner_text, get_inner_text_element};
use crate::text::{contains, contains_text, decimal_text, same_text, to_chars, trim, trim_spec, u64_to_text};
use crate::web::{url_append_pair, url_append_pair_of, url_join, url_join_of, url_path_segments, url_path_segments_of, url_query_pairs, url_query_pairs_of};

verus! {

/// A store as its feedback page shows it. The ratio of good ratings is a number that
/// std reads as an `f64`; the times are milliseconds since the Unix epoch.
#[derive(Debug)]
pub struct StoreRecord {
    pub identity: u64,
    pub owner_identity: u64,
    pub name: String,
    pub rating45_ratio: String,
    pub rating45_count: u64,
    pub rating3_count: u64,
    pub rating12_count: u64,
    pub online_at_ms: i64,
    pub modified_at_ms: i64,
}

/// What a feedback page says of a store: all of a [`StoreRecord`] but the time it was
/// read.
pub ghost struct StorePageView {
    pub identity: u64,
    pub owner_identity: u64,
    pub name: Seq<char>,
    pub rating45_ratio: Seq<char>,
    pub rating45_count: u64,
    pub rating3_count: u64,
    pub rating12_count: u64,
    pub online_at_ms: i64,
}

/// What a record holds of its page.
pub open spec fn page_part(s: StoreRecord) -> StorePageView {
    StorePageView {
        identity: s.identity,
        owner_identity: s.owner_identity,
        name: s.name@,
        rating45_ratio: s.rating45_ratio@,
        rating45_count: s.rating45_count,
        rating3_count: s.rating3_count,
        rating12_count: s.rating12_count,
        online_at_ms: s.online_at_ms,
    }
}

/// What chrono makes of a text: `NaiveDateTime::parse_from_str` with `format`, the time
/// it reads as milliseconds since the Unix epoch, or nothing where it reads none.
pub uninterp spec fn date_time_millis_of(text: Seq<char>, format: Seq<char>) -> Option<i64>;

/// Calls chrono's `NaiveDateTime::parse_from_str(text, format)` and takes the time it
/// reads as milliseconds since the Unix epoch: the result is named
/// [`date_time_millis_of`].
#[verifier::external_body]
fn parse_date_time_millis(text: &str, format: &str) -> (r: Option<i64>)
    ensures
        r == date_time_millis_of(text@, format@),
{
    chrono::NaiveDateTime::parse_from_str(text, format).ok().map(|d| d.and_utc().timestamp_millis())
}

/// The address of the feedback page of the stores, before its query.
pub const FEEDBACK_PAGE: &'static str = "https://feedback.aliexpress.com//display/evaluationDetail.htm";

/// The address of the mobile page of a store, which the page of any other store is
/// reached from.
pub const STORE_PAGE: &'static str = "https://m.aliexpress.com/store/912322050";

/// The address of the feedback page of the store of the owner `owner_id`, as the url crate
/// builds it: the pair `ownerMemberId` appended to the query of the feedback page; or the
/// message of the url crate's error.
pub open spec fn feedback_page_url(owner_id: u64) -> Result<Seq<char>, Seq<char>> {
    url_append_pair_of(FEEDBACK_PAGE@, "ownerMemberId"@, decimal_text(owner_id as nat))
}

/// The address of the feedback page of the store of the owner `owner_id`.
pub fn get_feedback_page_url(owner_id: u64) -> (r: BoxResult<String>)
    ensures
        match r {
            Ok(url) => feedback_page_url(owner_id) == Ok::<Seq<char>, Seq<char>>(url@),
            Err(e) => feedback_page_url(owner_id) == Err::<Seq<char>, Seq<char>>(e.message_view()),
        },
{
    match url_append_pair(FEEDBACK_PAGE, "ownerMemberId", u64_to_text(owner_id).as_str()) {
        Ok(url) => Ok(url),
        Err(m) => Err(UnexpectedError::new(m.as_str())),
    }
}

/// The address of the mobile page of the store `identity`, as the url crate builds it:
/// the identity joined to the page of another store, so that it takes the place of that
/// store's; or the message of the url crate's error.
pub open spec fn store_page_url(identity: u64) -> Result<Seq<char>, Seq<char>> {
    url_join_of(STORE_PAGE@, decimal_text(identity as nat))
}

/// The address of the mobile page of the store `identity`.
pub fn get_store_page_url(identity: u64) -> (r: BoxResult<String>)
    ensures
        match r {
            Ok(url) => store_page_url(identity) == Ok::<Seq<char>, Seq<char>>(url@),
            Err(e) => store_page_url(identity) == Err::<Seq<char>, Seq<char>>(e.message_view()),
        },
{
    match url_join(STORE_PAGE, u64_to_text(identity).as_str()) {
        Ok(url) => Ok(url),
        Err(m) => Err(UnexpectedError::new(m.as_str())),
    }
}

/// The first script of `scripts` that holds `marker`.
pub open spec fn first_holding(scripts: Seq<HtmlElementView>, marker: Seq<char>) -> Option<Seq<char>>
    decreases scripts.len(),
{
    if scripts.len() == 0 {
        None
    } else if contains_text(scripts[0].inner_html, marker) {
        Some(scripts[0].inner_html)
    } else {
        first_holding(scripts.drop_first(), marker)
    }
}

/// The script of a store page that holds the store's data.
pub open spec fn owner_data_script(page: Seq<char>) -> Result<Seq<char>, Seq<char>> {
    match html_select_of(page, "script"@, ""@) {
        None => Err("bad css selector"@),
        Some(scripts) => match first_holding(scripts, "window.shopPageDataApi = "@) {
            None => Err("data not found"@),
            Some(s) => Ok(s),
        },
    }
}

fn extract_store_owner_data_script(page: &str) -> (r: BoxResult<String>)
    ensures
        match owner_data_script(page@) {
            Ok(s) => r matches Ok(t) && t@ == s,
            Err(m) => r matches Err(e) && e.message_view() == m,
        },
{
    let nodes = match query_selector_all_html(page, "script", "") {
        Err(e) => return Err(e),
        Ok(v) => v,
    };
    let ghost all = elements_view(nodes@);
    let mut i: usize = 0;
    assert(all.skip(0) =~= all);
    while i < nodes.len()
        invariant
            i <= all.len(),
            all == elements_view(nodes@),
            html_select_of(page@, "script"@, ""@) == Some(all),
            first_holding(all, "window.shopPageDataApi = "@) == first_holding(all.skip(i as int), "window.shopPageDataApi = "@),
        decreases all.len() - i,
    {
        assert(all.skip(i as int)[0] == nodes@[i as int]@);
        assert(all.skip(i as int).drop_first() =~= all.skip(i + 1));
        if contains(nodes[i].inner_html.as_str(), "window.shopPageDataApi = ") {
            return Ok(nodes[i].inner_html.clone());
        }
        i = i + 1;
    }
    assert(all.skip(i as int) =~= Seq::<HtmlElementView>::empty());
    UnexpectedError::new_as_box_result("data not found")
}

/// The call that reads the address of a store's data out of its data script.
pub open spec fn owner_data_call(script: Seq<char>) -> ScriptCallView {
    ScriptCallView {
        program: script_program("window = {}; AES_CONFIG = {};\n"@, script, "function getData() {return window.shopPageDataApi};\n"@),
        function: "getData"@,
    }
}

/// The value of the first query pair of `pairs` whose key is `key`.
pub open spec fn first_pair_value(pairs: Seq<(Seq<char>, Seq<char>)>, key: Seq<char>) -> Option<Seq<char>>
    decreases pairs.len(),
{
    if pairs.len() == 0 {
        None
    } else if pairs[0].0 == key {
        Some(pairs[0].1)
    } else {
        first_pair_value(pairs.drop_first(), key)
    }
}

/// The identity of a store's owner, which the address of its data holds as the query
/// parameter `sellerId`.
pub open spec fn owner_identity_from_url(url: Seq<char>) -> Result<u64, Seq<char>> {
    match url_query_pairs_of(url) {
        Err(m) => Err(m),
        Ok(pairs) => match first_pair_value(pairs, "sellerId"@) {
            None => Err("no query param sellerId"@),
            Some(v) => match parse_u64(v) {
                Err(f) => Err(failure_message(f)),
                Ok(n) => Ok(n),
            },
        },
    }
}

fn extract_store_owner_identity_from_url(url_str: &str) -> (r: BoxResult<u64>)
    ensures
        match owner_identity_from_url(url_str@) {
            Ok(n) => r == Ok::<u64, UnexpectedError>(n),
            Err(m) => r matches Err(e) && e.message_view() == m,
        },
{
    let pairs = match url_query_pairs(url_str) {
        Err(e) => return UnexpectedError::new_as_box_result(e.as_str()),
        Ok(v) => v,
    };
    let ghost all = pairs@.map_values(|p: (String, String)| (p.0@, p.1@));
    let mut i: usize = 0;
    assert(all.skip(0) =~= all);
    while i < pairs.len()
        invariant
            i <= all.len(),
            all == pairs@.map_values(|p: (String, String)| (p.0@, p.1@)),
            url_query_pairs_of(url_str@) == Ok::<Seq<(Seq<char>, Seq<char>)>, Seq<char>>(all),
            first_pair_value(all, "sellerId"@) == first_pair_value(all.skip(i as int), "sellerId"@),
        decreases all.len() - i,
    {
        assert(all.skip(i as int)[0] == all[i as int]);
        assert(all.skip(i as int).drop_first() =~= all.skip(i + 1));
        if same_text(pairs[i].0.as_str(), "sellerId") {
            return match parse_u64_text(pairs[i].1.as_str()) {
                Err(f) => UnexpectedError::new_as_box_result(failure_text(f)),
                Ok(v) => Ok(v),
            };
        }
        i = i + 1;
    }
    assert(all.skip(i as int) =~= Seq::<(Seq<char>, Seq<char>)>::empty());
    UnexpectedError::new_as_box_result("no query param sellerId")
}

/// The identity of a store's owner once the store page's data script ran: the value the
/// script gives must be the address of the store's data.
pub open spec fn owner_identity_from_value(out: Result<JsonValue, String>) -> Result<u64, Seq<char>> {
    match out {
        Err(m) => Err(m@),
        Ok(JsonValue::String(url)) => owner_identity_from_url(url@),
        Ok(_) => Err("bad data"@),
    }
}

/// The identity of the owner of the store whose mobile page is `page`. `evaluate` runs
/// a script call and gives the value its function returns, or the message of its
/// failure.
pub fn extract_store_owner_identity<F: Fn(ScriptCall) -> Result<JsonValue, String>>(page: &String, evaluate: F) -> (r: BoxResult<u64>)
    requires
        forall|c: ScriptCall| call_requires(evaluate, (c,)),
    ensures
        match owner_data_script(page@) {
            Err(m) => r matches Err(e) && e.message_view() == m,
            Ok(script) => exists|c: ScriptCall, out: Result<JsonValue, String>|
                c@ == owner_data_call(script) && call_ensures(evaluate, (c,), out) && match owner_identity_from_value(out) {
                    Ok(n) => r == Ok::<u64, UnexpectedError>(n),
                    Err(m) => r matches Err(e) && e.message_view() == m,
                },
        },
{
    let script = match extract_store_owner_data_script(page.as_str()) {
        Err(e) => return Err(e),
        Ok(v) => v,
    };
    let call = script_call("window = {}; AES_CONFIG = {};\n", script.as_str(), "function getData() {return window.shopPageDataApi};\n", "getData");
    let out = evaluate(call);
    match &out {
        Err(m) => UnexpectedError::new_as_box_result(m.as_str()),
        Ok(JsonValue::String(url)) => extract_store_owner_identity_from_url(url.as_str()),
        Ok(_) => UnexpectedError::new_as_box_result("bad data"),
    }
}

/// The selectors of the parts of a feedback page.
pub open spec fn store_link_selector() -> Seq<char> {
    "#feedback-summary > div.middle.middle-seller > table > tbody > tr:nth-child(1) > td > a"@
}

/// The store that the link of a feedback page points to, by the path of its address,
/// `/store/<identity>`.
pub open spec fn store_identity_from_url(url: Seq<char>) -> Result<u64, PullErrorView> {
    let bad = fresh_error("extract_store_identity_from_url"@, PullErrorKind::BadData);
    match url_path_segments_of(url) {
        Err(_) => Err(bad),
        Ok(None) => Err(bad),
        Ok(Some(segments)) => if segments.len() != 2 || segments[0] != "store"@ {
            Err(bad)
        } else {
            match parse_u64(segments[1]) {
                Err(_) => Err(bad),
                Ok(n) => Ok(n),
            }
        },
    }
}

fn extract_store_identity_from_url(url_str: &str) -> (r: PullResult<u64>)
    ensures
        match r {
            Ok(n) => store_identity_from_url(url_str@) == Ok::<u64, PullErrorView>(n),
            Err(e) => store_identity_from_url(url_str@) == Err::<u64, PullErrorView>(e@),
        },
{
    let segments = match url_path_segments(url_str) {
        Ok(Some(v)) => v,
        _ => return PullError::from_step("extract_store_identity_from_url", PullErrorKind::BadData).to_result(),
    };
    assert(url_path_segments_of(url_str@) == Ok::<Option<Seq<Seq<char>>>, Seq<char>>(Some(segments@.map_values(|s: String| s@))));
    if segments.len() != 2 || !same_text(segments[0].as_str(), "store") {
        return PullError::from_step("extract_store_identity_from_url", PullErrorKind::BadData).to_result();
    }
    match parse_u64_text(segments[1].as_str()) {
        Err(_) => PullError::from_step("extract_store_identity_from_url", PullErrorKind::BadData).to_result(),
        Ok(v) => Ok(v),
    }
}

/// The identity of the store of a feedback page, from the link to the store: a page
/// without the link, or whose link points nowhere, is one to skip.
pub open spec fn store_identity(page: Seq<char>) -> Result<u64, PullErrorView> {
    let step = "extract_store_identity"@;
    match first_match(page, store_link_selector(), "href"@) {
        None => Err(PullErrorView { skip: true, ..fresh_error(step, PullErrorKind::NoData) }),
        Some(link) => match link.attribute {
            None => Err(PullErrorView { http_fragment: Some(link.html), ..fresh_error(step, PullErrorKind::NoData) }),
            Some(href) => if href == "#"@ {
                Err(PullErrorView { skip: true, ..error_with_message(step, PullErrorKind::NoData, "nothing on store url"@) })
            } else {
                match store_identity_from_url("https://"@ + href) {
                    Err(e) => Err(PullErrorView { http_fragment: Some(link.html), ..stacked(e, step) }),
                    Ok(n) => Ok(n),
                }
            },
        },
    }
}

/// The identity of the store of a feedback page.
pub fn extract_store_identity(page: &str) -> (r: PullResult<u64>)
    ensures
        match r {
            Ok(n) => store_identity(page@) == Ok::<u64, PullErrorView>(n),
            Err(e) => store_identity(page@) == Err::<u64, PullErrorView>(e@),
        },
{
    let node = match select_first(page, "#feedback-summary > div.middle.middle-seller > table > tbody > tr:nth-child(1) > td > a", "href") {
        None => {
            return PullError::from_step("extract_store_identity", PullErrorKind::NoData).set_skip(true).to_result();
        },
        Some(v) => v,
    };
    let url = match &node.attribute {
        None => {
            return PullError::from_step("extract_store_identity", PullErrorKind::NoData)
                .set_http_fragment(node.html.as_str())
                .to_result();
        },
        Some(v) => {
            if same_text(v.as_str(), "#") {
                return PullError::from_step("extract_store_identity", PullErrorKind::NoData)
                    .set_message("nothing on store url")
                    .set_skip(true)
                    .to_result();
            }
            let mut url = "https://".to_owned();
            url.append(v.as_str());
            url
        },
    };
    match extract_store_identity_from_url(url.as_str()) {
        Err(e) => e.stack_step("extract_store_identity").set_http_fragment(node.html.as_str()).to_result(),
        Ok(v) => Ok(v),
    }
}

/// The name of the store of a feedback page: the text of the link to the store.
pub open spec fn store_name(page: Seq<char>) -> Result<Seq<char>, PullErrorView> {
    match first_match(page, store_link_selector(), "href"@) {
        None => Err(fresh_error("extract_store_name"@, PullErrorKind::NoData)),
        Some(link) => Ok(inner_text(link)),
    }
}

fn extract_store_name(page: &str) -> (r: PullResult<String>)
    ensures
        match r {
            Ok(s) => store_name(page@) == Ok::<Seq<char>, PullErrorView>(s@),
            Err(e) => store_name(page@) == Err::<Seq<char>, PullErrorView>(e@),
        },
{
    match select_first(page, "#feedback-summary > div.middle.middle-seller > table > tbody > tr:nth-child(1) > td > a", "href") {
        None => PullError::from_step("extract_store_name", PullErrorKind::NoData).to_result(),
        Some(v) => Ok(get_inner_text_element(&v)),
    }
}

/// The ratio of good ratings of a feedback page, as the text of a number: `0` where the
/// page shows `-`; the cell's text without `%` otherwise, which std must read as an
/// `f64`.
pub open spec fn rating45_ratio(page: Seq<char>) -> Result<Seq<char>, PullErrorView> {
    let step = "extract_rating45_ratio"@;
    match first_match(page, "#feedback-history > div.middle > table > tbody > tr:nth-child(5) > td:nth-child(4)"@, ""@) {
        None => Err(fresh_error(step, PullErrorKind::NoData)),
        Some(cell) => {
            let t = trim_spec(inner_text(cell));
            let number = t.filter(|c: char| c != '%');
            if t == seq!['-'] {
                Ok(seq!['0'])
            } else if number.len() > 0 && is_float_literal(number) {
                Ok(number)
            } else {
                Err(PullErrorView { http_fragment: Some(cell.html), ..fresh_error(step, PullErrorKind::BadData) })
            }
        },
    }
}

fn extract_rating45_ratio(page: &str) -> (r: PullResult<String>)
    ensures
        match r {
            Ok(s) => rating45_ratio(page@) == Ok::<Seq<char>, PullErrorView>(s@),
            Err(e) => rating45_ratio(page@) == Err::<Seq<char>, PullErrorView>(e@),
        },
{
    let node = match select_first(page, "#feedback-history > div.middle > table > tbody > tr:nth-child(5) > td:nth-child(4)", "") {
        None => return PullError::from_step("extract_rating45_ratio", PullErrorKind::NoData).to_result(),
        Some(v) => v,
    };
    let rating_str = get_inner_text_element(&node);
    let trimmed = trim(rating_str.as_str());
    proof {
        reveal_strlit("-");
        reveal_strlit("0");
        assert("-"@ =~= seq!['-']);
        assert("0"@ =~= seq!['0']);
    }
    if same_text(trimmed.as_str(), "-") {
        return Ok("0".to_owned());
    }
    let chars = to_chars(trimmed.as_str());
    let mut number = String::new();
    let mut i: usize = 0;
    while i < chars.len()
        invariant
            i <= chars@.len(),
            chars@ == trimmed@,
            number@ == chars@.take(i as int).filter(|c: char| c != '%'),
        decreases chars@.len() - i,
    {
        proof {
            reveal_with_fuel(Seq::filter, 1);
            assert(chars@.take(i + 1).drop_last() =~= chars@.take(i as int));
        }
        if chars[i] != '%' {
            number.append(trimmed.as_str().substring_char(i, i + 1));
            assert(trimmed@.subrange(i as int, i + 1) =~= seq![chars@[i as int]]);
        }
        i = i + 1;
    }
    assert(chars@.take(chars@.len() as int) =~= chars@);
    if is_float_text(number.as_str()) {
        Ok(number)
    } else {
        PullError::from_step("extract_rating45_ratio", PullErrorKind::BadData).set_http_fragment(node.html.as_str()).to_result()
    }
}

/// A count of ratings of a feedback page: 0 where the page shows `-`; the cell's text
/// read as an integer after its spaces and commas are taken out otherwise.
pub open spec fn rating_count(page: Seq<char>, selector: Seq<char>, step: Seq<char>) -> Result<u64, PullErrorView> {
    match first_match(page, selector, ""@) {
        None => Err(fresh_error(step, PullErrorKind::NoData)),
        Some(cell) => {
            let t = trim_spec(inner_text(cell));
            if t == seq!['-'] {
                Ok(0)
            } else {
                match parse_u64(without_separators(t)) {
                    Err(_) => Err(fresh_error(step, PullErrorKind::BadData)),
                    Ok(n) => Ok(n),
                }
            }
        },
    }
}

fn extract_rating_count(page: &str, selector: &str, step: &str) -> (r: PullResult<u64>)
    ensures
        match r {
            Ok(n) => rating_count(page@, selector@, step@) == Ok::<u64, PullErrorView>(n),
            Err(e) => rating_count(page@, selector@, step@) == Err::<u64, PullErrorView>(e@),
        },
{
    let node = match select_first(page, selector, "") {
        None => return PullError::from_step(step, PullErrorKind::NoData).to_result(),
        Some(v) => v,
    };
    let count_str = get_inner_text_element(&node);
    let trimmed = trim(count_str.as_str());
    proof {
        reveal_strlit("-");
        assert("-"@ =~= seq!['-']);
    }
    if same_text(trimmed.as_str(), "-") {
        return Ok(0);
    }
    match str_to_u64(trimmed.as_str()) {
        Err(_) => PullError::from_step(step, PullErrorKind::BadData).to_result(),
        Ok(v) => Ok(v),
    }
}

/// The selectors of the three counts of ratings.
pub open spec fn rating45_count_selector() -> Seq<char> {
    "#feedback-history > div.middle > table > tbody > tr:nth-child(2) > td:nth-child(4) > a"@
}

pub open spec fn rating3_count_selector() -> Seq<char> {
    "#feedback-history > div.middle > table > tbody > tr:nth-child(3) > td:nth-child(4) > a"@
}

pub open spec fn rating12_count_selector() -> Seq<char> {
    "#feedback-history > div.middle > table > tbody > tr:nth-child(4) > td:nth-child(4) > a"@
}

/// The day since which a store is online, as a feedback page shows it (day, short month
/// name, year), at midnight, in milliseconds since the Unix epoch.
pub open spec fn online_timestamp(page: Seq<char>) -> Result<i64, PullErrorView> {
    let step = "extract_online_timestamp"@;
    match first_match(page, "#feedback-summary > div.middle.middle-seller > table > tbody > tr:nth-child(3) > td"@, ""@) {
        None => Err(fresh_error(step, PullErrorKind::NoData)),
        Some(cell) => match date_time_millis_of(trim_spec(inner_text(cell)) + " 00:00:00"@, "%e %b %Y %H:%M:%S"@) {
            None => Err(fresh_error(step, PullErrorKind::BadData)),
            Some(t) => Ok(t),
        },
    }
}

fn extract_online_timestamp(page: &str) -> (r: PullResult<i64>)
    ensures
        match r {
            Ok(t) => online_timestamp(page@) == Ok::<i64, PullErrorView>(t),
            Err(e) => online_timestamp(page@) == Err::<i64, PullErrorView>(e@),
        },
{
    let node = match select_first(page, "#feedback-summary > div.middle.middle-seller > table > tbody > tr:nth-child(3) > td", "") {
        None => return PullError::from_step("extract_online_timestamp", PullErrorKind::NoData).to_result(),
        Some(v) => v,
    };
    let mut datetime_str = trim(get_inner_text_element(&node).as_str());
    datetime_str.append(" 00:00:00");
    match parse_date_time_millis(datetime_str.as_str(), "%e %b %Y %H:%M:%S") {
        None => PullError::from_step("extract_online_timestamp", PullErrorKind::BadData).to_result(),
        Some(v) => Ok(v),
    }
}

/// Whether a page is a feedback page: it has exactly one feedback detail.
pub open spec fn feedback_page(page: Seq<char>) -> bool {
    html_select_of(page, "#feedback-detail.clearfix"@, ""@) matches Some(found) && found.len() == 1
}

fn is_feedback_page(page: &str) -> (r: bool)
    ensures
        r == feedback_page(page@),
{
    match count_matches(page, "#feedback-detail.clearfix") {
        Some(n) => n == 1,
        None => false,
    }
}

/// What a feedback page says of the store of the owner `owner_id`; each part is read in
/// turn, and the first that cannot be read is the error.
pub open spec fn store_from_page(page: Seq<char>, owner_id: u64) -> Result<StorePageView, PullErrorView> {
    if !feedback_page(page) {
        Err(fresh_error("extract_store"@, PullErrorKind::NoData))
    } else if store_identity(page) is Err {
        Err(store_identity(page)->Err_0)
    } else if store_name(page) is Err {
        Err(store_name(page)->Err_0)
    } else if rating45_ratio(page) is Err {
        Err(rating45_ratio(page)->Err_0)
    } else if rating_count(page, rating45_count_selector(), "extract_rating45_count"@) is Err {
        Err(rating_count(page, rating45_count_selector(), "extract_rating45_count"@)->Err_0)
    } else if rating_count(page, rating3_count_selector(), "extract_rating3_count"@) is Err {
        Err(rating_count(page, rating3_count_selector(), "extract_rating3_count"@)->Err_0)
    } else if rating_count(page, rating12_count_selector(), "extract_rating12_count"@) is Err {
        Err(rating_count(page, rating12_count_selector(), "extract_rating12_count"@)->Err_0)
    } else if online_timestamp(page) is Err {
        Err(online_timestamp(page)->Err_0)
    } else {
        Ok(StorePageView {
            identity: store_identity(page)->Ok_0,
            owner_identity: owner_id,
            name: store_name(page)->Ok_0,
            rating45_ratio: rating45_ratio(page)->Ok_0,
            rating45_count: rating_count(page, rating45_count_selector(), "extract_rating45_count"@)->Ok_0,
            rating3_count: rating_count(page, rating3_count_selector(), "extract_rating3_count"@)->Ok_0,
            rating12_count: rating_count(page, rating12_count_selector(), "extract_rating12_count"@)->Ok_0,
            online_at_ms: online_timestamp(page)->Ok_0,
        })
    }
}

/// Whether the cell of `page` that `selector` picks first shows the count `n`: its text,
/// trimmed, is `-` and `n` is 0, or it is `n` written in decimal, its spaces and commas
/// aside.
pub open spec fn cell_shows_count(page: Seq<char>, selector: Seq<char>, n: u64) -> bool {
    first_match(page, selector, ""@) matches Some(cell) && {
        let t = trim_spec(inner_text(cell));
        if t == seq!['-'] {
            n == 0
        } else {
            parse_u64(without_separators(t)) == Ok::<u64, IntParseFailure>(n)
        }
    }
}

/// A store read from its feedback page carries the three counts of ratings that the page
/// shows in the fourth cell of the second, third and fourth rows of the feedback history:
/// the good, the neutral and the bad ratings, in that order.
pub proof fn law_store_counts_from_history(page: Seq<char>, owner_id: u64)
    ensures
        store_from_page(page, owner_id) matches Ok(s) ==> {
            &&& cell_shows_count(page, "#feedback-history > div.middle > table > tbody > tr:nth-child(2) > td:nth-child(4) > a"@, s.rating45_count)
            &&& cell_shows_count(page, "#feedback-history > div.middle > table > tbody > tr:nth-child(3) > td:nth-child(4) > a"@, s.rating3_count)
            &&& cell_shows_count(page, "#feedback-history > div.middle > table > tbody > tr:nth-child(4) > td:nth-child(4) > a"@, s.rating12_count)
            &&& s.owner_identity == owner_id
        },
{
}

/// The store of the owner `owner_id` as its feedback page `page` shows it, read now.
pub fn extract_store(page: &String, owner_id: u64) -> (r: PullResult<StoreRecord>)
    ensures
        match r {
            Ok(s) => store_from_page(page@, owner_id) == Ok::<StorePageView, PullErrorView>(page_part(s)),
            Err(e) => store_from_page(page@, owner_id) == Err::<StorePageView, PullErrorView>(e@),
        },
{
    let page = page.as_str();
    if !is_feedback_page(page) {
        return PullError::from_step("extract_store", PullErrorKind::NoData).to_result();
    }
    let identity = extract_store_identity(page)?;
    let name = extract_store_name(page)?;
    let rating45_ratio = extract_rating45_ratio(page)?;
    let rating45_count = extract_rating_count(page, "#feedback-history > div.middle > table > tbody > tr:nth-child(2) > td:nth-child(4) > a", "extract_rating45_count")?;
    let rating3_count = extract_rating_count(page, "#feedback-history > div.middle > table > tbody > tr:nth-child(3) > td:nth-child(4) > a", "extract_rating3_count")?;
    let rating12_count = extract_rating_count(page, "#feedback-history > div.middle > table > tbody > tr:nth-child(4) > td:nth-child(4) > a", "extract_rating12_count")?;
    let online_at_ms = extract_online_timestamp(page)?;
    Ok(StoreRecord {
        identity,
        owner_identity: owner_id,
        name,
        rating45_ratio,
        rating45_count,
        rating3_count,
        rating12_count,
        online_at_ms,
        modified_at_ms: now_millis(),
    })
}

} // verus!
