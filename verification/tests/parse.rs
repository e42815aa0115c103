//! Tests of the query parser.

use est::query::Query;

#[test]
fn test_parse_query() {
    let input = "@mention";
    let reference = Query {
        mention: vec!["mention".to_string()],
        content: "".to_string(),
        scope: None,
    };
    let target = input.parse();
    assert_eq!(target, Ok(reference));
}

#[test]
fn test_parse_identifier() {
    for input in ["hello", "你好", "hello_world", "hello1"] {
        let query: Query = format!("@{}", input).parse().unwrap();
        assert_eq!(query.mention, vec![input.to_string()]);
        assert_eq!(query.content, "");
    }
}

#[test]
fn test_parse_mention() {
    let input = "@mention.hi.you";
    let query: Query = input.parse().unwrap();
    assert_eq!(
        query.mention,
        vec!["mention".to_string(), "hi".to_string(), "you".to_string()]
    );
}

#[test]
fn parse_test_parse_query() {
    let input = "@mention.hello content hi there ";
    let reference = Query {
        mention: vec!["mention".to_string(), "hello".to_string()],
        content: "content hi there".to_string(),
        scope: None,
    };
    let target = est::parse::parse_query(input).unwrap();
    assert_eq!(target, reference);
}

// Parsing is idempotent on its own output: re-parsing the canonical
// serialization of a parsed query gives the query back.
#[test]
fn parse_roundtrip_canonical() {
    let first: Query = "@a.b   hello   world".parse().unwrap();
    assert_eq!(first.mention, vec!["a".to_string(), "b".to_string()]);
    assert_eq!(first.content, "hello   world");
    let canonical = format!("@{} {}", first.mention.join("."), first.content);
    let second: Query = canonical.parse().unwrap();
    assert_eq!(second, first);
}

#[test]
fn parse_roundtrip_no_content() {
    let first: Query = "@a.b.c".parse().unwrap();
    let canonical = format!("@{}", first.mention.join("."));
    let second: Query = canonical.parse().unwrap();
    assert_eq!(second, first);
}

// An input with no sigil parses to an empty mention and the trimmed
// input as content.
#[test]
fn parse_no_sigil_is_trimmed_content() {
    let query: Query = "  hello  world ".parse().unwrap();
    assert!(query.mention.is_empty());
    assert_eq!(query.content, "hello  world");
    assert_eq!(query.scope, None);
}

#[test]
fn parse_mention_path() {
    let query: Query = "@a.b.c".parse().unwrap();
    assert_eq!(
        query.mention,
        vec!["a".to_string(), "b".to_string(), "c".to_string()]
    );
    assert_eq!(query.content, "");
}

#[test]
fn parse_scope() {
    let query: Query = "@s !narrow some text".parse().unwrap();
    assert_eq!(query.mention, vec!["s".to_string()]);
    assert_eq!(query.scope, Some("narrow".to_string()));
    assert_eq!(query.content, "some text");
}

#[test]
fn parse_last_mention_wins() {
    let query: Query = "@first @second text".parse().unwrap();
    assert_eq!(query.mention, vec!["second".to_string()]);
    assert_eq!(query.content, "text");
}

#[test]
fn parse_fullwidth_sigils() {
    let query: Query = "＠a。b ！s text".parse().unwrap();
    assert_eq!(query.mention, vec!["a".to_string(), "b".to_string()]);
    assert_eq!(query.scope, Some("s".to_string()));
    assert_eq!(query.content, "text");
}

#[test]
fn parse_sigil_without_identifier_is_error() {
    assert!("@ foo".parse::<Query>().is_err());
    assert!("@.x".parse::<Query>().is_err());
    assert!("@".parse::<Query>().is_err());
}

#[test]
fn parse_empty_input() {
    let query: Query = "".parse().unwrap();
    assert!(query.mention.is_empty());
    assert_eq!(query.content, "");
    assert_eq!(query.scope, None);
}

#[test]
fn parse_blank_between_mention_and_content_dropped() {
    let query: Query = "content @m more".parse().unwrap();
    assert_eq!(query.mention, vec!["m".to_string()]);
    // The blank after the first content run joins the content; the one
    // after the mention does not.
    assert_eq!(query.content, "content more");
}

#[test]
fn query_accessors() {
    let query: Query = "@a.b some text".parse().unwrap();
    assert_eq!(query.content(), "some text");
    assert_eq!(query.mention_head(), "a");
    assert_eq!(query.mention_tail(), &["b".to_string()][..]);
    let other = query.with_mention(vec!["x".to_string()]);
    assert_eq!(other.mention, vec!["x".to_string()]);
    assert_eq!(other.content, "some text");
    let empty: Query = "plain".parse().unwrap();
    assert_eq!(empty.mention_head(), "");
    assert!(empty.mention_tail().is_empty());
}
