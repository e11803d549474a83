use news_reader::driver::run_pipeline;
use news_reader::errors::NewsError;
use news_reader::feed::parse;
use news_reader::feed::FeedItem;
use news_reader::project::project;

fn rss_doc(items: &str) -> Vec<u8> {
    format!(
        "<?xml version=\"1.0\"?><rss version=\"2.0\"><channel><title>t</title>\
         <link>l</link><description>d</description>{}</channel></rss>",
        items
    )
    .into_bytes()
}

#[test]
fn parse_well_formed_document_yields_items_in_order() {
    let doc = rss_doc(
        "<item><title>First</title><description>one</description>\
         <link>http://example.com/1</link></item>\
         <item><title>Second</title><description>two</description>\
         <link>http://example.com/2</link></item>",
    );
    let items = parse(&doc).expect("a well-formed feed parses");
    assert_eq!(items.len(), 2);
    assert_eq!(items[0].title.as_deref(), Some("First"));
    assert_eq!(items[1].title.as_deref(), Some("Second"));
    assert_eq!(items[0].link.as_deref(), Some("http://example.com/1"));
    assert_eq!(items[1].description.as_deref(), Some("two"));
}

#[test]
fn parse_malformed_document_signals_parse_error() {
    let err = parse(b"this is not a feed at all").unwrap_err();
    assert_eq!(err, NewsError::ParseError);
    let err = parse(b"<html><body>hello</body></html>").unwrap_err();
    assert_eq!(err, NewsError::ParseError);
}

#[test]
fn pipeline_projects_each_item_to_one_record_in_order() {
    let doc = rss_doc(
        "<item><title>First</title><description>one</description>\
         <link>http://example.com/1</link></item>\
         <item><title>Second</title></item>\
         <item><title>Third</title><link>http://example.com/3</link></item>",
    );
    let records = run_pipeline(&doc).expect("titled items project");
    assert_eq!(records.len(), 3);
    assert_eq!(records[0].title, "First");
    assert_eq!(records[1].title, "Second");
    assert_eq!(records[2].title, "Third");
    assert_eq!(records[0].description, "one");
    assert_eq!(records[0].link, "http://example.com/1");
}

#[test]
fn pipeline_substitutes_fallbacks_for_missing_fields() {
    let doc = rss_doc("<item><title>Only a title</title></item>");
    let records = run_pipeline(&doc).expect("a titled item projects");
    assert_eq!(records.len(), 1);
    assert_eq!(records[0].description, "No description");
    assert_eq!(records[0].link, "No link for this news");
}

#[test]
fn pipeline_aborts_on_missing_title_with_no_output() {
    let doc = rss_doc(
        "<item><title>Fine</title></item>\
         <item><description>an item with no title</description></item>",
    );
    let err = run_pipeline(&doc).unwrap_err();
    assert_eq!(err, NewsError::MissingTitleError);
}

#[test]
fn pipeline_signals_parse_error_on_malformed_document() {
    let err = run_pipeline(b"{\"not\": \"a feed\"}").unwrap_err();
    assert_eq!(err, NewsError::ParseError);
}

#[test]
fn pipeline_on_empty_channel_yields_no_records() {
    let doc = rss_doc("");
    let records = run_pipeline(&doc).expect("an empty channel parses");
    assert!(records.is_empty());
}

#[test]
fn project_keeps_count_and_order() {
    let items = vec![
        FeedItem {
            title: Some("A".to_string()),
            description: Some("da".to_string()),
            link: None,
        },
        FeedItem {
            title: Some("B".to_string()),
            description: None,
            link: Some("http://example.com/b".to_string()),
        },
    ];
    let records = project(&items).expect("titled items project");
    assert_eq!(records.len(), 2);
    assert_eq!(records[0].title, "A");
    assert_eq!(records[0].description, "da");
    assert_eq!(records[0].link, "No link for this news");
    assert_eq!(records[1].title, "B");
    assert_eq!(records[1].description, "No description");
    assert_eq!(records[1].link, "http://example.com/b");
}

#[test]
fn project_signals_missing_title() {
    let items = vec![FeedItem {
        title: None,
        description: Some("d".to_string()),
        link: Some("l".to_string()),
    }];
    assert_eq!(project(&items).unwrap_err(), NewsError::MissingTitleError);
}

#[test]
fn error_messages_name_the_failed_stage() {
    assert!(NewsError::RegistryLookupError.describe().starts_with("registry:"));
    assert!(NewsError::NetworkError.describe().starts_with("fetch:"));
    assert!(NewsError::ParseError.describe().starts_with("parse:"));
    assert!(NewsError::MissingTitleError.describe().starts_with("project:"));
}
