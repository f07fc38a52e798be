use wut_jwc::scrape::{
    attr_from, extract_schedule, extract_token, first_attr, first_html, html_from, Cause,
    ExtractionError, Target, SCHEDULE_SELECTOR, TOKEN_ATTRIBUTE, TOKEN_SELECTOR,
};

#[test]
fn token_is_the_value_of_the_rnd_input() {
    let page = "<html><body><form><input name=\"rnd\" value=\"abc123\"></form></body></html>";
    assert_eq!(extract_token(page), Ok(String::from("abc123")));
}

#[test]
fn token_of_a_bare_fixture() {
    assert_eq!(extract_token("<input name=\"rnd\" value=\"abc123\">"), Ok(String::from("abc123")));
}

#[test]
fn token_is_taken_from_the_first_match() {
    let page = "<input name=\"other\" value=\"no\">\
                <input name=\"rnd\" value=\"first\">\
                <input name=\"rnd\" value=\"second\">";
    assert_eq!(extract_token(page), Ok(String::from("first")));
}

#[test]
fn token_may_be_empty() {
    assert_eq!(extract_token("<input name=\"rnd\" value=\"\">"), Ok(String::new()));
}

#[test]
fn page_without_the_input_gives_an_extraction_error() {
    let page = "<html><body><p>maintenance</p><input name=\"user\" value=\"x\"></body></html>";
    assert_eq!(
        extract_token(page),
        Err(ExtractionError { target: Target::Token, cause: Cause::Element })
    );
    assert_eq!(
        extract_token(""),
        Err(ExtractionError { target: Target::Token, cause: Cause::Element })
    );
}

#[test]
fn input_without_a_value_gives_an_extraction_error() {
    assert_eq!(
        extract_token("<input name=\"rnd\">"),
        Err(ExtractionError { target: Target::Token, cause: Cause::Attribute })
    );
}

#[test]
fn only_input_elements_carry_the_token() {
    assert_eq!(
        extract_token("<div name=\"rnd\" value=\"abc123\"></div>"),
        Err(ExtractionError { target: Target::Token, cause: Cause::Element })
    );
}

#[test]
fn schedule_is_the_outer_html_of_the_week_table() {
    let table = "<table id=\"weekTable\"><tbody><tr><td>Algebra</td></tr></tbody></table>";
    let page = format!("<html><head></head><body><h1>Week</h1>{}<p>end</p></body></html>", table);
    assert_eq!(extract_schedule(&page), Ok(String::from(table)));
}

#[test]
fn schedule_keeps_the_wrapping_tag_of_any_element() {
    let page = "<body><div id=\"weekTable\"><span>Mon</span><span>Tue</span></div></body>";
    assert_eq!(
        extract_schedule(page),
        Ok(String::from("<div id=\"weekTable\"><span>Mon</span><span>Tue</span></div>"))
    );
}

#[test]
fn page_without_the_week_table_gives_an_extraction_error() {
    let page = "<html><body><table id=\"other\"><tbody><tr><td>x</td></tr></tbody></table></body></html>";
    assert_eq!(
        extract_schedule(page),
        Err(ExtractionError { target: Target::Schedule, cause: Cause::Element })
    );
}

#[test]
fn the_fixed_selectors_are_accepted() {
    assert_eq!(first_html("<p></p>", TOKEN_SELECTOR), Err(Cause::Element));
    assert_eq!(first_html("<p></p>", SCHEDULE_SELECTOR), Err(Cause::Element));
    assert_eq!(TOKEN_ATTRIBUTE, "value");
}

#[test]
fn a_refused_selector_is_its_own_cause() {
    assert_eq!(first_attr("<p id=\"a\"></p>", "[[", "id"), Err(Cause::Selector));
    assert_eq!(first_html("<p id=\"a\"></p>", "[["), Err(Cause::Selector));
}

#[test]
fn queries_with_other_selectors() {
    let page = "<ul><li class=\"a\" data-k=\"1\">one</li><li class=\"b\" data-k=\"2\">two</li></ul>";
    assert_eq!(first_attr(page, "li.b", "data-k"), Ok(String::from("2")));
    assert_eq!(first_attr(page, "li", "data-k"), Ok(String::from("1")));
    assert_eq!(first_attr(page, "li", "href"), Err(Cause::Attribute));
    assert_eq!(first_attr(page, "a", "href"), Err(Cause::Element));
    assert_eq!(first_html(page, "li.b"), Ok(String::from("<li class=\"b\" data-k=\"2\">two</li>")));
}

#[test]
fn deciding_on_what_a_query_found() {
    assert_eq!(attr_from(None), Err(Cause::Element));
    assert_eq!(attr_from(Some(None)), Err(Cause::Attribute));
    assert_eq!(attr_from(Some(Some(String::from("v")))), Ok(String::from("v")));
    assert_eq!(html_from(None), Err(Cause::Element));
    assert_eq!(html_from(Some(String::from("<b></b>"))), Ok(String::from("<b></b>")));
}

#[test]
fn errors_name_the_selector_asked_for() {
    let e = ExtractionError { target: Target::Token, cause: Cause::Element };
    assert_eq!(e.selector(), "input[name=\"rnd\"]");
    assert_eq!(e.selector(), TOKEN_SELECTOR);
    let e = ExtractionError { target: Target::Schedule, cause: Cause::Element };
    assert_eq!(e.selector(), "[id=\"weekTable\"]");
    assert_eq!(e.selector(), SCHEDULE_SELECTOR);
}

#[test]
fn errors_say_what_was_missing() {
    let e = ExtractionError { target: Target::Token, cause: Cause::Element };
    assert_eq!(e.message(), "Failed to get rnd from html");
    let e = ExtractionError { target: Target::Token, cause: Cause::Attribute };
    assert_eq!(e.message(), "Failed to get value of rnd");
    let e = ExtractionError { target: Target::Schedule, cause: Cause::Element };
    assert_eq!(e.message(), "No week course table");
    let e = ExtractionError { target: Target::Schedule, cause: Cause::Selector };
    assert_eq!(e.message(), "Failed to parse selector");
    let e = ExtractionError { target: Target::Token, cause: Cause::Selector };
    assert_eq!(e.message(), "Failed to parse selector");
    let e = ExtractionError { target: Target::Schedule, cause: Cause::Attribute };
    assert_eq!(e.message(), "Failed to get attribute of week course table");
}
