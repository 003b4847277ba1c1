//! Calls into outside crates. Verus believes the contracts stated here; the
//! names below stand for results that the outside code computes from the
//! arguments alone.
use vstd::prelude::*;

verus! {

/// Components of an absolute URL that the importer reads.
#[derive(Debug, Clone)]
pub struct ParsedUrl {
    /// The whole serialization of the URL.
    pub serialization: String,
    /// The host, when the URL has one.
    pub host: Option<String>,
    /// The path component.
    pub path: String,
}

/// Mathematical model of [`ParsedUrl`].
pub struct UrlView {
    pub serialization: Seq<char>,
    pub host: Option<Seq<char>>,
    pub path: Seq<char>,
}

impl View for ParsedUrl {
    type V = UrlView;

    open spec fn view(&self) -> UrlView {
        UrlView { serialization: self.serialization@, host: self.host.deep_view(), path: self.path@ }
    }
}

impl ParsedUrl {
    /// The serialization of the URL.
    pub fn as_str(&self) -> (res: &str)
        ensures
            res@ == self.serialization@,
    {
        self.serialization.as_str()
    }
}

#[verifier::external_type_specification]
#[verifier::external_body]
pub struct ExUrlParseError(url::ParseError);

/// What `url::Url::parse` makes of its input: `None` when it reports an error,
/// else the serialization, host and path of the URL it returns.
pub uninterp spec fn url_parse(input: Seq<char>) -> Option<UrlView>;

/// Calls `url::Url::parse` and keeps, of the URL it returns, `as_str()`,
/// `host_str()` and `path()`. The contract claims only that the outcome is
/// the one named by `url_parse` for this input.
#[verifier::external_body]
pub(crate) fn parse_url(input: &str) -> (res: Result<ParsedUrl, url::ParseError>)
    ensures
        match res {
            Ok(u) => url_parse(input@) == Some(u@),
            Err(_) => url_parse(input@) is None,
        },
{
    let u = url::Url::parse(input)?;
    Ok(
        ParsedUrl {
            serialization: u.as_str().to_string(),
            host: u.host_str().map(|h| h.to_string()),
            path: u.path().to_string(),
        },
    )
}

/// One element of an HTML document that matched a selector.
#[derive(Debug, Clone)]
pub struct SelectedElement {
    /// The value of the requested attribute, when the element has it.
    pub attr: Option<String>,
    /// The concatenated text of the element's descendant text nodes.
    pub text: String,
}

impl View for SelectedElement {
    type V = (Option<Seq<char>>, Seq<char>);

    open spec fn view(&self) -> (Option<Seq<char>>, Seq<char>) {
        (self.attr.deep_view(), self.text@)
    }
}

/// What `scraper` finds in the document `html` for the selector group
/// `selector`: for each matching element, in the order `Html::select`
/// yields them, the value of the attribute `attr` and the element's text.
pub uninterp spec fn html_select(html: Seq<char>, selector: Seq<char>, attr: Seq<char>) -> Seq<
    (Option<Seq<char>>, Seq<char>),
>;

/// Parses `html` with `scraper::Html::parse_document`, parses `selector` with
/// `scraper::Selector::parse` and walks `Html::select`, keeping for each
/// element `ElementRef::attr(attr)` and its `text()` collected into one string.
/// A selector that does not parse selects nothing. The contract claims only
/// that the result is the one named by `html_select` for these arguments.
#[verifier::external_body]
pub(crate) fn select_elements(html: &str, selector: &str, attr: &str) -> (res: Vec<
    SelectedElement,
>)
    ensures
        res@.map_values(|e: SelectedElement| e@) == html_select(html@, selector@, attr@),
{
    let doc = scraper::Html::parse_document(html);
    let sel = match scraper::Selector::parse(selector) {
        Ok(sel) => sel,
        Err(_) => return Vec::new(),
    };
    doc.select(&sel).map(
        |n| SelectedElement { attr: n.attr(attr).map(|a| a.to_string()), text: n.text().collect() },
    ).collect()
}

#[verifier::external_type_specification]
#[verifier::external_body]
pub struct ExJsonError(serde_json::Error);

/// What `serde_json` makes of `payload` read as a JSON value and looked up at
/// the JSON pointer `pointer`: `None` when `payload` does not parse, else
/// `Some` of the string found there, or `Some(None)` when there is no string there.
pub uninterp spec fn json_lookup(payload: Seq<char>, pointer: Seq<char>) -> Option<
    Option<Seq<char>>,
>;

/// Parses `payload` with `serde_json::from_str` into a `serde_json::Value`,
/// looks it up with `Value::pointer(pointer)` and keeps `Value::as_str` of what
/// is there. The contract claims only that the outcome is the one named by
/// `json_lookup` for these arguments.
#[verifier::external_body]
pub(crate) fn json_string_at(payload: &str, pointer: &str) -> (res: Result<
    Option<String>,
    serde_json::Error,
>)
    ensures
        match res {
            Ok(v) => json_lookup(payload@, pointer@) == Some(v.deep_view()),
            Err(_) => json_lookup(payload@, pointer@) is None,
        },
{
    let value: serde_json::Value = serde_json::from_str(payload)?;
    Ok(value.pointer(pointer).and_then(|v| v.as_str()).map(|s| s.to_string()))
}

} // verus!
