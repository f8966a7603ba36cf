use ao3rs::models::WorkDate;
use ao3rs::parse::{
    extract_each_work, find_works, get_all_nodes, parse_search_single_work, parse_work_id, search_all_by_attrib,
    search_by_attrib,
};
use ao3rs::{parse_search, parse_search_each, Document, Landmark, ParsingError, Rating};

fn record(id_attr: &str, href: &str, title: &str, heading_class: &str) -> String {
    format!(
        r#"<li id="{id_attr}" class="work blurb group" role="article">
  <div class="header module">
    <h4 class="heading"><a href="{href}">{title}</a></h4>
    <h5 class="{heading_class}">
      <span class="landmark">Fandoms:</span>
      <a rel="author" href="/users/one">Author One</a>
      <div><span><a rel="author" href="/users/two">Author Two</a></span></div>
      <a class="tag" href="/tags/A/works">Fandom A</a>,
      <p><a class="tag" href="/tags/B/works">Fandom B</a></p>
    </h5>
  </div>
</li>"#
    )
}

fn page(records: &[String]) -> String {
    format!(
        "<!DOCTYPE html><html><head><title>Search</title></head><body><ol class=\"work index group\">{}</ol></body></html>",
        records.join("\n")
    )
}

fn sample_page() -> String {
    page(&[record("work_12345678", "/works/12345678", "Example Work", "fandoms heading")])
}

#[test]
fn it_works() {}

#[test]
fn parse_test_query_builder() {
    let html = sample_page();
    println!("{:#?}", parse_search(&html));
}

#[test]
fn extracts_the_sample_record() {
    let works = parse_search(&sample_page()).unwrap();
    assert_eq!(works.len(), 1);
    let w = &works[0];
    assert_eq!(w.id, "12345678");
    assert_eq!(w.url, "https://archiveofourown.org/works/12345678");
    assert_eq!(w.title, "Example Work");
    assert_eq!(w.authors, vec![String::from("Author One"), String::from("Author Two")]);
    assert_eq!(w.fandoms, vec![String::from("Fandom A"), String::from("Fandom B")]);
    assert_eq!(w.date, WorkDate { year: 1970, month: 1, day: 1 });
    assert!(!w.is_complete);
    assert!(!w.is_crossover);
    assert_eq!(w.word_count, 0);
    let mut w = w.clone();
    assert_eq!(w.get_rating(), Rating::Any);
}

#[test]
fn records_come_in_document_order() {
    let html = page(&[
        record("work_1", "/works/1", "First", "fandoms heading"),
        record("work_22", "/works/22", "Second", "fandoms heading"),
    ]);
    let works = parse_search(&html).unwrap();
    assert_eq!(works.len(), 2);
    assert_eq!(works[0].id, "1");
    assert_eq!(works[0].title, "First");
    assert_eq!(works[1].id, "22");
    assert_eq!(works[1].title, "Second");
}

#[test]
fn page_without_results_marker_fails() {
    let html = "<html><body><ol class=\"work index group\"><li id=\"work_1\">x</li></ol></body></html>";
    let r = parse_search(html);
    assert_eq!(r.unwrap_err(), ParsingError::CouldNotFind(Landmark::WorkList));
    assert_eq!(parse_search("").unwrap_err(), ParsingError::CouldNotFind(Landmark::WorkList));
    let each = parse_search_each(html);
    assert_eq!(each.unwrap_err(), ParsingError::CouldNotFind(Landmark::WorkList));
}

#[test]
fn record_without_title_link_fails() {
    let html = page(&[record("work_12345678", "/works/999", "Example Work", "fandoms heading")]);
    assert_eq!(parse_search(&html).unwrap_err(), ParsingError::CouldNotFind(Landmark::Title));
}

#[test]
fn record_without_id_fails() {
    let html = page(&[String::from(
        "<li class=\"work\" role=\"article\"><a href=\"/works/1\">T</a><h5 class=\"fandoms heading\"></h5></li>",
    )]);
    assert_eq!(parse_search(&html).unwrap_err(), ParsingError::CouldNotFind(Landmark::WorkId));
}

#[test]
fn record_with_malformed_id_fails() {
    let html = page(&[record("work_12ab", "/works/12ab", "T", "fandoms heading")]);
    assert_eq!(parse_search(&html).unwrap_err(), ParsingError::Malformed(Landmark::WorkId));
}

#[test]
fn record_without_heading_fails() {
    let html = page(&[record("work_5", "/works/5", "T", "heading")]);
    assert_eq!(parse_search(&html).unwrap_err(), ParsingError::CouldNotFind(Landmark::FandomsHeading));
}

#[test]
fn one_bad_record_does_not_hide_the_others() {
    let html = page(&[
        record("work_1", "/works/1", "First", "fandoms heading"),
        record("work_2", "/works/3", "Broken", "fandoms heading"),
        record("work_4", "/works/4", "Third", "fandoms heading"),
    ]);
    assert_eq!(parse_search(&html).unwrap_err(), ParsingError::CouldNotFind(Landmark::Title));
    let each = parse_search_each(&html).unwrap();
    assert_eq!(each.len(), 3);
    assert_eq!(each[0].as_ref().unwrap().title, "First");
    assert_eq!(each[1].as_ref().unwrap_err(), &ParsingError::CouldNotFind(Landmark::Title));
    assert_eq!(each[2].as_ref().unwrap().title, "Third");
}

#[test]
fn work_ids() {
    assert_eq!(parse_work_id("work_12345678"), Some(String::from("12345678")));
    assert_eq!(parse_work_id("777"), Some(String::from("777")));
    assert_eq!(parse_work_id("work_"), None);
    assert_eq!(parse_work_id("work_1x"), None);
    assert_eq!(parse_work_id(""), None);
    assert_eq!(parse_work_id("work"), None);
}

#[test]
fn error_messages() {
    assert_eq!(
        ParsingError::CouldNotFind(Landmark::WorkList).to_string(),
        "Could not find: the list of works.\nThis is a problem with the parsing!"
    );
    assert_eq!(
        ParsingError::Malformed(Landmark::WorkId).to_string(),
        "Malformed: id\nThis is a problem with the parsing!"
    );
    assert_eq!(Landmark::Title.name(), "href");
    assert_eq!(Landmark::FandomsHeading.name(), "class");
    assert_eq!(Landmark::WorkId.name(), "id");
    let html = r#"<ol><li role="article" id="work_1"><a href="/works/2">Other</a><h5 class="fandoms heading"></h5></li></ol>"#;
    assert_eq!(
        parse_search(html).unwrap_err().to_string(),
        "Could not find: href\nThis is a problem with the parsing!"
    );
}

#[test]
fn tree_walks_on_a_document() {
    let html = "<div role=\"article\" id=\"top\"><p class=\"x\">a<b class=\"x\">b</b></p><p class=\"x\">c</p></div><p class=\"x\">d</p>";
    let doc = Document::from_html(html).unwrap();
    let nodes = find_works(&doc);
    assert_eq!(nodes.len(), 1);
    let top = nodes[0];
    let below = get_all_nodes(&doc, top);
    assert_eq!(below.len(), 6);
    assert!(below.iter().all(|n| *n > top));
    assert!(below.windows(2).all(|w| w[0] < w[1]));
    let xs = search_all_by_attrib(&doc, top, "class", &String::from("x"));
    assert_eq!(xs.len(), 3);
    assert!(xs.windows(2).all(|w| w[0] < w[1]));
    let first = search_by_attrib(&doc, top, "class", &String::from("x")).unwrap();
    assert_eq!(first, xs[0]);
    assert_eq!(search_by_attrib(&doc, top, "class", &String::from("y")), None);
    assert_eq!(search_all_by_attrib(&doc, top, "id", &String::from("top")).len(), 0);
    let each = extract_each_work(&doc).unwrap();
    assert_eq!(each.len(), 1);
    assert_eq!(each[0].as_ref().unwrap_err(), &ParsingError::Malformed(Landmark::WorkId));
    let empty = Document::from_html("<p>nothing</p>").unwrap();
    assert_eq!(extract_each_work(&empty).unwrap_err(), ParsingError::CouldNotFind(Landmark::WorkList));
}

#[test]
fn single_record_extraction() {
    let html = sample_page();
    let doc = Document::from_html(&html).unwrap();
    let nodes = find_works(&doc);
    assert_eq!(nodes.len(), 1);
    let w = parse_search_single_work(&doc, nodes[0]).unwrap();
    assert_eq!(w.title, "Example Work");
    assert_eq!(w.authors.len(), 2);
}

#[test]
fn nested_matches_are_listed_once() {
    let html = r#"<div role="article"><h5 class="fandoms heading"><span><a rel="author">A<b><a rel="author">B</a></b></a></span><a rel="author">C</a></h5></div>"#;
    let doc = Document::from_html(html).unwrap();
    let top = find_works(&doc)[0];
    let heading = search_by_attrib(&doc, top, "class", &String::from("fandoms heading")).unwrap();
    let authors = search_all_by_attrib(&doc, heading, "rel", &String::from("author"));
    assert_eq!(authors.len(), 3);
    assert!(authors.windows(2).all(|w| w[0] < w[1]));
}
