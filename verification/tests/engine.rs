use tag::ast::{construct_query_ast, evaluate_ast};
use tag::query::QueryParser;
use tag::search::{filter_files, matches_query, TaggedFile};
use tag::tagline::{format_tagline, TaglineParser};
use tag::Expected;

fn run_query(query: &str, tags: Vec<&str>) -> bool {
    let tags: Vec<String> = tags.into_iter().map(str::to_string).collect();
    let tree = QueryParser::parse(query).unwrap();
    evaluate_ast(construct_query_ast(&tree, &tags))
}

#[test]
fn scenario_conjunction_empty_tags() {
    assert!(!run_query("#a & #b", vec![]));
}

#[test]
fn scenario_nested_group_matches() {
    assert!(run_query("#a & #b | (#c & #d)", vec!["#c", "#d"]));
}

#[test]
fn scenario_negated_present_tag() {
    assert!(!run_query("!#c", vec!["#c"]));
}

#[test]
fn scenario_malformed_tag_query() {
    assert!(QueryParser::parse("##").is_err());
}

#[test]
fn scenario_tagline_three_tags() {
    let tags = TaglineParser::parse("tags: [#1 #2 #3]").unwrap();
    assert_eq!(tags, vec!["#1".to_string(), "#2".to_string(), "#3".to_string()]);
}

#[test]
fn scenario_tagline_malformed_tag() {
    assert!(TaglineParser::parse("tags:[##]").is_err());
}

#[test]
fn resolution_is_idempotent() {
    let tree = QueryParser::parse("#a & (!#b | #c)").unwrap();
    let tags = vec!["#a".to_string(), "#c".to_string()];
    let first = construct_query_ast(&tree, &tags);
    let second = construct_query_ast(&tree, &tags);
    assert_eq!(first, second);
}

#[test]
fn chained_operators_group_left() {
    let sets: Vec<Vec<&str>> = vec![
        vec![],
        vec!["#a"],
        vec!["#b"],
        vec!["#c"],
        vec!["#a", "#b"],
        vec!["#a", "#c"],
        vec!["#b", "#c"],
        vec!["#a", "#b", "#c"],
    ];
    for tags in sets {
        assert_eq!(
            run_query("#a & #b | #c", tags.clone()),
            run_query("(#a & #b) | #c", tags.clone()),
        );
    }
    // the same chain differs from the right-grouped query: {#c} tells them apart
    assert!(run_query("#a & #b | #c", vec!["#c"]));
    assert!(!run_query("#a & (#b | #c)", vec!["#c"]));
}

#[test]
fn negation_tracks_membership() {
    assert!(!run_query("!#a", vec!["#a"]));
    assert!(run_query("!#a", vec!["#b"]));
    assert!(run_query("!#a", vec![]));
    assert!(run_query("#a", vec!["#a"]));
    assert!(!run_query("#a", vec![]));
}

#[test]
fn mixed_chain_groups_in_order() {
    // #a | #b & #c groups as (#a | #b) & #c
    assert!(!run_query("#a | #b & #c", vec!["#a"]));
    assert!(run_query("#a | #b & #c", vec!["#a", "#c"]));
    assert!(run_query("#a | #b & #c", vec!["#b", "#c"]));
}

#[test]
fn tagline_round_trip() {
    let tags = vec!["#a".to_string(), "#b-2".to_string(), "#3".to_string()];
    let line = format_tagline(&tags);
    assert_eq!(line, "tags: [#a #b-2 #3]");
    assert_eq!(TaglineParser::parse(&line).unwrap(), tags);
}

#[test]
fn tagline_round_trip_empty() {
    let tags: Vec<String> = vec![];
    let line = format_tagline(&tags);
    assert_eq!(line, "tags: []");
    assert_eq!(TaglineParser::parse(&line).unwrap(), tags);
}

#[test]
fn tagline_whitespace_tolerance() {
    let tags = TaglineParser::parse("tags:   [  #a   #b  ]").unwrap();
    assert_eq!(tags, vec!["#a".to_string(), "#b".to_string()]);
    assert!(TaglineParser::parse("tags: [#a] more").is_err());
    assert!(TaglineParser::parse(" tags: [#a]").is_err());
    assert_eq!(TaglineParser::parse("tags:[]").unwrap(), Vec::<String>::new());
}

#[test]
fn tagline_keeps_duplicates_and_order() {
    let tags = TaglineParser::parse("tags: [#b #a #b]").unwrap();
    assert_eq!(tags, vec!["#b".to_string(), "#a".to_string(), "#b".to_string()]);
}

#[test]
fn query_whitespace_and_empty_inputs() {
    assert!(QueryParser::parse("  #a  ").is_ok());
    assert!(QueryParser::parse("").is_err());
    assert!(QueryParser::parse("   ").is_err());
    assert!(QueryParser::parse("()").is_err());
    assert!(QueryParser::parse("#a #b").is_err());
    assert!(QueryParser::parse("& #a").is_err());
    assert!(QueryParser::parse("#a ! #b").is_err());
    assert!(QueryParser::parse("#a-b").is_ok());
}

#[test]
fn parse_errors_carry_context() {
    let e = QueryParser::parse("(#a & #b").unwrap_err();
    assert_eq!(e.expected, Expected::CloseParen);
    let e = QueryParser::parse("##").unwrap_err();
    assert_eq!(e.expected, Expected::Identifier);
    assert_eq!(e.pos, 0);
    let e = QueryParser::parse("#a & #b)").unwrap_err();
    assert_eq!(e.expected, Expected::EndOfInput);
    let e = TaglineParser::parse("tags: #a").unwrap_err();
    assert_eq!(e.expected, Expected::OpenBracket);
    let e = TaglineParser::parse("tags: [#a").unwrap_err();
    assert_eq!(e.expected, Expected::TagOrClose);
}

#[test]
fn filter_keeps_matching_files_in_order() {
    let files = vec![
        TaggedFile { path: "a.md".to_string(), tags: vec!["#work".to_string()] },
        TaggedFile {
            path: "b.md".to_string(),
            tags: vec!["#home".to_string(), "#draft".to_string()],
        },
        TaggedFile {
            path: "c.md".to_string(),
            tags: vec!["#work".to_string(), "#draft".to_string()],
        },
    ];
    let tree = QueryParser::parse("#work | #draft").unwrap();
    let kept = filter_files(&tree, &files);
    let paths: Vec<&str> = kept.iter().map(|f| f.path.as_str()).collect();
    assert_eq!(paths, vec!["a.md", "b.md", "c.md"]);

    let tree = QueryParser::parse("#work & !#draft").unwrap();
    let kept = filter_files(&tree, &files);
    let paths: Vec<&str> = kept.iter().map(|f| f.path.as_str()).collect();
    assert_eq!(paths, vec!["a.md"]);

    assert!(matches_query(&tree, &files[0]));
    assert!(!matches_query(&tree, &files[1]));
    assert!(!matches_query(&tree, &files[2]));
}
