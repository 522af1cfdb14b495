//! What the library takes from the markup parser, the JSON parser and the
//! URL parser. Each function here makes one query of an outside crate; its
//! contract is believed, not proved.
use vstd::prelude::*;
use vstd::string::*;

use crate::opt_view;
use crate::opt_views;

verus! {

#[verifier::external_type_specification]
#[verifier::external_body]
pub struct ExHtml(scraper::Html);

#[verifier::external_type_specification]
#[verifier::external_body]
pub struct ExJsonValue(json::JsonValue);

/// For each element of the document `doc` that the CSS selector `selector`
/// matches, in the order scraper selects them, the value of its attribute
/// `attr`, if it has one.
pub uninterp spec fn selected_attr(doc: Seq<char>, selector: Seq<char>, attr: Seq<char>) -> Seq<
    Option<Seq<char>>,
>;

/// How many elements of the document `doc` the CSS selector `selector`
/// matches; none where `selector` does not parse.
pub uninterp spec fn match_count(doc: Seq<char>, selector: Seq<char>) -> nat;

/// Whether `text` is a well-formed JSON document.
pub uninterp spec fn json_valid(text: Seq<char>) -> bool;

/// Of the JSON document `text`: when its field `key` is an array, for each
/// item in order, the item's field `field` if that is a string; `None` when
/// `key` is absent or not an array.
pub uninterp spec fn array_field_strs(text: Seq<char>, key: Seq<char>, field: Seq<char>) -> Option<
    Seq<Option<Seq<char>>>,
>;

/// The reference `rel` resolved against the absolute URL `base`, serialized;
/// `None` when `base` is no URL or `rel` cannot be resolved against it.
pub uninterp spec fn joined_url(base: Seq<char>, rel: Seq<char>) -> Option<Seq<char>>;

/// The URL `url` with its path replaced by `path`, serialized; `None` when
/// `url` is no URL.
pub uninterp spec fn url_with_path(url: Seq<char>, path: Seq<char>) -> Option<Seq<char>>;

/// A parsed HTML document, with the text it was parsed from.
pub struct Page {
    doc: scraper::Html,
    text: Ghost<Seq<char>>,
}

impl View for Page {
    type V = Seq<char>;

    closed spec fn view(&self) -> Seq<char> {
        self.text@
    }
}

/// A parsed JSON document, with the text it was parsed from.
pub struct JsonDoc {
    value: json::JsonValue,
    text: Ghost<Seq<char>>,
}

impl View for JsonDoc {
    type V = Seq<char>;

    closed spec fn view(&self) -> Seq<char> {
        self.text@
    }
}

/// Relies on scraper::Html::parse_document, which accepts any text,
/// malformed markup included.
#[verifier::external_body]
pub(crate) fn parse_page(body: &str) -> (r: Page)
    ensures
        r@ == body@,
{
    Page { doc: scraper::Html::parse_document(body), text: Ghost(body@) }
}

/// Relies on scraper::Selector::parse, scraper::Html::select and
/// scraper::node::Element::attr: the attribute `attr` of each element that
/// `selector` matches, in the order scraper selects them. A selector that
/// does not parse matches nothing.
#[verifier::external_body]
pub(crate) fn select_attr(page: &Page, selector: &str, attr: &str) -> (r: Vec<Option<String>>)
    ensures
        opt_views(r@) == selected_attr(page@, selector@, attr@),
        r@.len() == match_count(page@, selector@),
{
    match scraper::Selector::parse(selector) {
        Ok(s) => page.doc.select(&s).map(|e| e.value().attr(attr).map(|a| a.to_string())).collect(),
        Err(_) => Vec::new(),
    }
}

/// Longest run of consecutive ASCII digits that the JSON parser is handed:
/// it counts the digits of a fraction in an `i16` exponent.
pub const DIGIT_RUN_LIMIT: usize = 30000;

/// Whether the byte is an ASCII digit.
pub open spec fn is_digit_byte(b: u8) -> bool {
    48 <= b <= 57
}

/// Whether the `n` bytes of `s` from `i` on are all ASCII digits.
pub open spec fn window_all_digits(s: Seq<u8>, i: int, n: int) -> bool {
    forall|k: int| i <= k < i + n ==> is_digit_byte(#[trigger] s[k])
}

/// Whether `s` holds no run of `n` consecutive ASCII digits.
pub open spec fn digit_runs_below(s: Seq<u8>, n: int) -> bool {
    forall|i: int| 0 <= i && i + n <= s.len() ==> !#[trigger] window_all_digits(s, i, n)
}

/// Relies on json::parse: it succeeds exactly on well-formed JSON. A number
/// whose fraction runs to more than `i16::MAX` digits overflows its exponent,
/// so text with such long digit runs is not handed to it.
#[verifier::external_body]
pub(crate) fn parse_json(text: &str) -> (r: Option<JsonDoc>)
    requires
        digit_runs_below(text.spec_bytes(), DIGIT_RUN_LIMIT as int),
    ensures
        r is Some <==> json_valid(text@),
        r matches Some(d) ==> d@ == text@,
{
    match json::parse(text) {
        Ok(v) => Some(JsonDoc { value: v, text: Ghost(text@) }),
        Err(_) => None,
    }
}

/// Relies on json::JsonValue's `Index<&str>` (absent fields read as null) and
/// json::JsonValue::as_str: the string field `field` of each item of the
/// array field `key`.
#[verifier::external_body]
pub(crate) fn array_strs(doc: &JsonDoc, key: &str, field: &str) -> (r: Option<Vec<Option<String>>>)
    ensures
        array_field_strs(doc@, key@, field@) == (match r {
            Some(v) => Some(opt_views(v@)),
            None => None,
        }),
{
    match &doc.value[key] {
        json::JsonValue::Array(items) => Some(
            items.iter().map(|o| o[field].as_str().map(|s| s.to_string())).collect(),
        ),
        _ => None,
    }
}

/// Relies on url::Url::parse and url::Url::join: `rel` resolved against `base`.
#[verifier::external_body]
pub(crate) fn join_url(base: &str, rel: &str) -> (r: Option<String>)
    ensures
        opt_view(r) == joined_url(base@, rel@),
{
    match url::Url::parse(base) {
        Ok(b) => match b.join(rel) {
            Ok(u) => Some(u.to_string()),
            Err(_) => None,
        },
        Err(_) => None,
    }
}

/// Relies on url::Url::parse and url::Url::set_path: `url` with a new path,
/// its query kept.
#[verifier::external_body]
pub(crate) fn replace_path(url: &str, path: &str) -> (r: Option<String>)
    ensures
        opt_view(r) == url_with_path(url@, path@),
{
    match url::Url::parse(url) {
        Ok(mut u) => {
            u.set_path(path);
            Some(u.to_string())
        },
        Err(_) => None,
    }
}

} // verus!
