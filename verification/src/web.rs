use vstd::prelude::*;

verus! {

/// What the url crate makes of a text: the path segments of the URL it parses (nothing
/// for a URL that cannot be a base), or the message of the parse error.
pub uninterp spec fn url_path_segments_of(text: Seq<char>) -> Result<Option<Seq<Seq<char>>>, Seq<char>>;

/// What the url crate makes of a text: the decoded key and value of each pair of the
/// query of the URL it parses, in order, or the message of the parse error.
pub uninterp spec fn url_query_pairs_of(text: Seq<char>) -> Result<Seq<(Seq<char>, Seq<char>)>, Seq<char>>;

/// What the url crate makes of a text: the serialization of the URL it parses, or the
/// message of the parse error.
pub uninterp spec fn url_serialization_of(text: Seq<char>) -> Result<Seq<char>, Seq<char>>;

/// What the url crate makes of two texts: `base` parsed, with its path set to the path of
/// `source` parsed, serialized; or the message of the error of the first that does not
/// parse.
pub uninterp spec fn url_with_path_of(base: Seq<char>, source: Seq<char>) -> Result<Seq<char>, Seq<char>>;

/// What the url crate makes of two texts: `base` parsed, with its path set to `path`,
/// serialized; or the message of the parse error.
pub uninterp spec fn url_set_path_of(base: Seq<char>, path: Seq<char>) -> Result<Seq<char>, Seq<char>>;

/// What the url crate makes of three texts: `base` parsed, with the pair `key`=`value`,
/// form-encoded, appended to its query, serialized; or the message of the parse error.
pub uninterp spec fn url_append_pair_of(base: Seq<char>, key: Seq<char>, value: Seq<char>) -> Result<Seq<char>, Seq<char>>;

/// What the url crate makes of two texts: `input` parsed as a reference relative to `base`
/// parsed, serialized; or the message of the first parse error.
pub uninterp spec fn url_join_of(base: Seq<char>, input: Seq<char>) -> Result<Seq<char>, Seq<char>>;

pub open spec fn texts(v: Seq<String>) -> Seq<Seq<char>> {
    v.map_values(|s: String| s@)
}

pub open spec fn segments_view(r: Result<Option<Vec<String>>, String>) -> Result<Option<Seq<Seq<char>>>, Seq<char>> {
    match r {
        Ok(Some(v)) => Ok(Some(texts(v@))),
        Ok(None) => Ok(None),
        Err(e) => Err(e@),
    }
}

pub open spec fn pairs_view(r: Result<Vec<(String, String)>, String>) -> Result<Seq<(Seq<char>, Seq<char>)>, Seq<char>> {
    match r {
        Ok(v) => Ok(v@.map_values(|p: (String, String)| (p.0@, p.1@))),
        Err(e) => Err(e@),
    }
}

/// Calls the url crate's `Url::parse` on `text`, then `path_segments`: the result is
/// named [`url_path_segments_of`], a function of the text alone.
#[verifier::external_body]
pub fn url_path_segments(text: &str) -> (r: Result<Option<Vec<String>>, String>)
    ensures
        segments_view(r) == url_path_segments_of(text@),
{
    match url::Url::parse(text) {
        Err(e) => Err(e.to_string()),
        Ok(u) => Ok(u.path_segments().map(|s| s.map(|p| p.to_string()).collect())),
    }
}

/// Calls the url crate's `Url::parse` on `text`, then `query_pairs`: the result is named
/// [`url_query_pairs_of`], a function of the text alone.
#[verifier::external_body]
pub fn url_query_pairs(text: &str) -> (r: Result<Vec<(String, String)>, String>)
    ensures
        pairs_view(r) == url_query_pairs_of(text@),
{
    match url::Url::parse(text) {
        Err(e) => Err(e.to_string()),
        Ok(u) => Ok(u.query_pairs().map(|(k, v)| (k.to_string(), v.to_string())).collect()),
    }
}

/// Calls the url crate's `Url::parse` on `text`, then `as_str`: the result is named
/// [`url_serialization_of`], a function of the text alone.
#[verifier::external_body]
pub fn url_serialization(text: &str) -> (r: Result<String, String>)
    ensures
        match r {
            Ok(s) => url_serialization_of(text@) == Ok::<Seq<char>, Seq<char>>(s@),
            Err(e) => url_serialization_of(text@) == Err::<Seq<char>, Seq<char>>(e@),
        },
{
    match url::Url::parse(text) {
        Err(e) => Err(e.to_string()),
        Ok(u) => Ok(u.as_str().to_string()),
    }
}


/// Calls the url crate's `Url::parse` on `source` and on `base`, and `set_path` on the
/// second with the `path` of the first: the result is named [`url_with_path_of`].
#[verifier::external_body]
pub(crate) fn url_with_path(base: &str, source: &str) -> (r: Result<String, String>)
    ensures
        match r {
            Ok(s) => url_with_path_of(base@, source@) == Ok::<Seq<char>, Seq<char>>(s@),
            Err(e) => url_with_path_of(base@, source@) == Err::<Seq<char>, Seq<char>>(e@),
        },
{
    let source = url::Url::parse(source).map_err(|e| e.to_string())?;
    let mut target = url::Url::parse(base).map_err(|e| e.to_string())?;
    target.set_path(source.path());
    Ok(target.as_str().to_string())
}

/// Calls the url crate's `Url::parse` on `base`, `set_path` with `path`, and `as_str`:
/// the result is named [`url_set_path_of`].
#[verifier::external_body]
pub(crate) fn url_set_path(base: &str, path: &str) -> (r: Result<String, String>)
    ensures
        match r {
            Ok(s) => url_set_path_of(base@, path@) == Ok::<Seq<char>, Seq<char>>(s@),
            Err(e) => url_set_path_of(base@, path@) == Err::<Seq<char>, Seq<char>>(e@),
        },
{
    let mut target = url::Url::parse(base).map_err(|e| e.to_string())?;
    target.set_path(path);
    Ok(target.as_str().to_string())
}

/// Calls the url crate's `Url::parse` on `base`, `query_pairs_mut().append_pair` with
/// `key` and `value`, and `as_str`: the result is named [`url_append_pair_of`].
#[verifier::external_body]
pub(crate) fn url_append_pair(base: &str, key: &str, value: &str) -> (r: Result<String, String>)
    ensures
        match r {
            Ok(s) => url_append_pair_of(base@, key@, value@) == Ok::<Seq<char>, Seq<char>>(s@),
            Err(e) => url_append_pair_of(base@, key@, value@) == Err::<Seq<char>, Seq<char>>(e@),
        },
{
    let mut target = url::Url::parse(base).map_err(|e| e.to_string())?;
    target.query_pairs_mut().append_pair(key, value);
    Ok(target.as_str().to_string())
}

/// Calls the url crate's `Url::parse` on `base`, `join` with `input`, and `as_str`: the
/// result is named [`url_join_of`].
#[verifier::external_body]
pub(crate) fn url_join(base: &str, input: &str) -> (r: Result<String, String>)
    ensures
        match r {
            Ok(s) => url_join_of(base@, input@) == Ok::<Seq<char>, Seq<char>>(s@),
            Err(e) => url_join_of(base@, input@) == Err::<Seq<char>, Seq<char>>(e@),
        },
{
    let target = url::Url::parse(base).map_err(|e| e.to_string())?;
    let joined = target.join(input).map_err(|e| e.to_string())?;
    Ok(joined.as_str().to_string())
}

} // verus!
