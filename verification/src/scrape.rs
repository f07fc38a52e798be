//! Reading the portal's pages: the anti-forgery token of the landing page and
//! the weekly table of the schedule page.
//!
//! Parsing HTML and matching CSS selectors is the `scraper` crate's work; what
//! it finds is named here, not defined. Which selector is asked for, which
//! attribute is read and which error stands for which miss is verified.

use vstd::prelude::*;
use scraper::error::SelectorErrorKind;
use scraper::{Html, Selector};

verus! {

/// The error of `scraper::Selector::parse`, carried through unread.
#[verifier::external_type_specification]
#[verifier::external_body]
pub struct ExSelectorErrorKind(SelectorErrorKind);

/// Selects the input field that carries the anti-forgery token.
pub const TOKEN_SELECTOR: &'static str = "input[name=\"rnd\"]";

/// The attribute of that field which holds the token.
pub const TOKEN_ATTRIBUTE: &'static str = "value";

/// Selects the weekly table of the schedule page.
pub const SCHEDULE_SELECTOR: &'static str = "[id=\"weekTable\"]";

/// What was looked for in a page.
#[derive(Clone, Copy, Debug, PartialEq, Eq, Structural)]
pub enum Target {
    /// The anti-forgery token of the landing page.
    Token,
    /// The weekly table of the schedule page.
    Schedule,
}

/// What was not there.
#[derive(Clone, Copy, Debug, PartialEq, Eq, Structural)]
pub enum Cause {
    /// The selector itself was refused.
    Selector,
    /// No element of the page matches the selector.
    Element,
    /// The first matching element lacks the attribute.
    Attribute,
}

/// A page did not hold what was looked for: its structure has changed, or it
/// is not the expected page.
#[derive(Clone, Copy, Debug, PartialEq, Eq, Structural)]
pub struct ExtractionError {
    pub target: Target,
    pub cause: Cause,
}

/// What `attr` holds on the first element that `scraper` finds in `page` for
/// `selector`: `Err` where the selector is refused, `Ok(None)` where nothing
/// matches, `Ok(Some(None))` where the element lacks the attribute.
pub uninterp spec fn selected_attr(page: Seq<char>, selector: Seq<char>, attr: Seq<char>) -> Result<
    Option<Option<Seq<char>>>,
    (),
>;

/// The serialised HTML, tags included, of the first element that `scraper`
/// finds in `page` for `selector`: `Err` where the selector is refused,
/// `Ok(None)` where nothing matches.
pub uninterp spec fn selected_html(page: Seq<char>, selector: Seq<char>) -> Result<
    Option<Seq<char>>,
    (),
>;

/// `Selector::parse`, `Html::parse_document`, `Html::select`, the iterator's
/// first item and `Element::attr` on it. Trusted: the outcome is a function of
/// the three texts alone.
#[verifier::external_body]
fn select_attr(page: &str, selector: &str, attr: &str) -> (found: Result<
    Option<Option<String>>,
    SelectorErrorKind,
>)
    ensures
        match found {
            Ok(hit) => selected_attr(page@, selector@, attr@) == Ok::<_, ()>(hit.deep_view()),
            Err(_) => selected_attr(page@, selector@, attr@) is Err,
        },
{
    let selector = Selector::parse(selector)?;
    let document = Html::parse_document(page);
    let first = document.select(&selector).next();
    Ok(first.map(|element| element.value().attr(attr).map(str::to_owned)))
}

/// `Selector::parse`, `Html::parse_document`, `Html::select`, the iterator's
/// first item and `ElementRef::html` on it. Trusted: the outcome is a function
/// of the two texts alone.
#[verifier::external_body]
fn select_html(page: &str, selector: &str) -> (found: Result<Option<String>, SelectorErrorKind>)
    ensures
        match found {
            Ok(hit) => selected_html(page@, selector@) == Ok::<_, ()>(hit.deep_view()),
            Err(_) => selected_html(page@, selector@) is Err,
        },
{
    let selector = Selector::parse(selector)?;
    let document = Html::parse_document(page);
    let first = document.select(&selector).next();
    Ok(first.map(|element| element.html()))
}

/// Whether `got` is the text result `want`, error for error.
pub open spec fn agrees<E>(got: Result<String, E>, want: Result<Seq<char>, E>) -> bool {
    match want {
        Ok(text) => got matches Ok(t) && t@ == text,
        Err(e) => got matches Err(g) && g == e,
    }
}

/// The attribute's value, given what the query for it found.
pub open spec fn attr_of(found: Result<Option<Option<Seq<char>>>, ()>) -> Result<Seq<char>, Cause> {
    match found {
        Err(_) => Err(Cause::Selector),
        Ok(None) => Err(Cause::Element),
        Ok(Some(None)) => Err(Cause::Attribute),
        Ok(Some(Some(value))) => Ok(value),
    }
}

/// The element's HTML, given what the query for it found.
pub open spec fn html_of(found: Result<Option<Seq<char>>, ()>) -> Result<Seq<char>, Cause> {
    match found {
        Err(_) => Err(Cause::Selector),
        Ok(None) => Err(Cause::Element),
        Ok(Some(html)) => Ok(html),
    }
}

/// A miss, said of what was looked for.
pub open spec fn missing(target: Target, found: Result<Seq<char>, Cause>) -> Result<
    Seq<char>,
    ExtractionError,
> {
    match found {
        Ok(text) => Ok(text),
        Err(cause) => Err(ExtractionError { target, cause }),
    }
}

/// The anti-forgery token that a landing page carries.
pub open spec fn token_in(page: Seq<char>) -> Result<Seq<char>, ExtractionError> {
    missing(Target::Token, attr_of(selected_attr(page, TOKEN_SELECTOR@, TOKEN_ATTRIBUTE@)))
}

/// The weekly table that a schedule page carries.
pub open spec fn schedule_in(page: Seq<char>) -> Result<Seq<char>, ExtractionError> {
    missing(Target::Schedule, html_of(selected_html(page, SCHEDULE_SELECTOR@)))
}

/// Decides on an attribute once the page has been queried: its value where
/// the element and the attribute are there, and otherwise which of the two is
/// missing.
pub fn attr_from(found: Option<Option<String>>) -> (value: Result<String, Cause>)
    ensures
        agrees(value, attr_of(Ok(found.deep_view()))),
{
    match found {
        None => Err(Cause::Element),
        Some(None) => Err(Cause::Attribute),
        Some(Some(value)) => Ok(value),
    }
}

/// Decides on an element once the page has been queried: its HTML where it
/// is there.
pub fn html_from(found: Option<String>) -> (html: Result<String, Cause>)
    ensures
        agrees(html, html_of(Ok(found.deep_view()))),
{
    match found {
        None => Err(Cause::Element),
        Some(html) => Ok(html),
    }
}

/// The value of `attr` on the first element of `page` that `selector`
/// matches.
pub fn first_attr(page: &str, selector: &str, attr: &str) -> (value: Result<String, Cause>)
    ensures
        agrees(value, attr_of(selected_attr(page@, selector@, attr@))),
{
    match select_attr(page, selector, attr) {
        Ok(found) => attr_from(found),
        Err(_) => Err(Cause::Selector),
    }
}

/// The first element of `page` that `selector` matches, serialised with its
/// own tags.
pub fn first_html(page: &str, selector: &str) -> (html: Result<String, Cause>)
    ensures
        agrees(html, html_of(selected_html(page@, selector@))),
{
    match select_html(page, selector) {
        Ok(found) => html_from(found),
        Err(_) => Err(Cause::Selector),
    }
}

/// Extracts the anti-forgery token from the landing page: the `value` of the
/// first `input` element named `rnd`.
pub fn extract_token(page: &str) -> (token: Result<String, ExtractionError>)
    ensures
        agrees(token, token_in(page@)),
{
    match first_attr(page, TOKEN_SELECTOR, TOKEN_ATTRIBUTE) {
        Ok(token) => Ok(token),
        Err(cause) => Err(ExtractionError { target: Target::Token, cause }),
    }
}

/// Extracts the weekly table from the schedule page: the first element whose
/// `id` is `weekTable`, serialised with its own tags.
pub fn extract_schedule(page: &str) -> (table: Result<String, ExtractionError>)
    ensures
        agrees(table, schedule_in(page@)),
        !(table matches Err(e) && e.cause == Cause::Attribute),
{
    match first_html(page, SCHEDULE_SELECTOR) {
        Ok(table) => Ok(table),
        Err(cause) => Err(ExtractionError { target: Target::Schedule, cause }),
    }
}

impl ExtractionError {
    /// The selector that was asked for.
    pub open spec fn selector_of(self) -> Seq<char> {
        match self.target {
            Target::Token => TOKEN_SELECTOR@,
            Target::Schedule => SCHEDULE_SELECTOR@,
        }
    }

    /// The selector that was asked for.
    pub fn selector(&self) -> (selector: &'static str)
        ensures
            selector@ == self.selector_of(),
    {
        match self.target {
            Target::Token => TOKEN_SELECTOR,
            Target::Schedule => SCHEDULE_SELECTOR,
        }
    }

    /// The sentence that says what was missing.
    pub open spec fn message_of(self) -> Seq<char> {
        match (self.target, self.cause) {
            (_, Cause::Selector) => "Failed to parse selector"@,
            (Target::Token, Cause::Element) => "Failed to get rnd from html"@,
            (Target::Token, Cause::Attribute) => "Failed to get value of rnd"@,
            (Target::Schedule, Cause::Element) => "No week course table"@,
            (Target::Schedule, Cause::Attribute) => "Failed to get attribute of week course table"@,
        }
    }

    /// Says in a sentence what was missing.
    pub fn message(&self) -> (text: String)
        ensures
            text@ == self.message_of(),
    {
        match (self.target, self.cause) {
            (_, Cause::Selector) => "Failed to parse selector".to_owned(),
            (Target::Token, Cause::Element) => "Failed to get rnd from html".to_owned(),
            (Target::Token, Cause::Attribute) => "Failed to get value of rnd".to_owned(),
            (Target::Schedule, Cause::Element) => "No week course table".to_owned(),
            (Target::Schedule, Cause::Attribute) => "Failed to get attribute of week course table".to_owned(),
        }
    }
}

} // verus!
