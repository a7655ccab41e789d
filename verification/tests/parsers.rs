use tag::ast::{construct_query_ast, evaluate_ast, Expr, Op};
use tag::query::QueryParser;
use tag::tagline::TaglineParser;

#[test]
fn test_tagline_parser() {
    let cases: Vec<(&str, &str, Vec<&str>, bool)> = vec![
        ("success_with_space", "tags: [#1 #2 #3]", vec!["#1", "#2", "#3"], false),
        (
            "success_without_space",
            "tags:[#1#asdf#something-idk]",
            vec!["#1", "#asdf", "#something-idk"],
            false,
        ),
        ("fail_no_brackets", "tags:#1#2#3", vec![], true),
        ("fail_no_tags", "[#1#2#3]", vec![], true),
        ("fail_wrong_tag", "tags:[##]", vec![], true),
    ];

    for (name, input, expected_tags, expected_error) in cases {
        println!("test_tagline_parser: \n\t{}", name);

        let res = TaglineParser::parse(input);
        if res.is_err() {
            assert!(expected_error);
            continue;
        }

        assert!(!expected_error);

        for (i, tag) in res.unwrap().iter().enumerate() {
            assert_eq!(tag.trim(), expected_tags[i]);
        }
    }
}

#[test]
fn test_query_parser() {
    let cases: Vec<(&str, &str, bool)> = vec![
        ("success_with_space", "#a & !#b", false),
        ("success_without_space", "#a&#b", false),
        ("success_with_newline", "#a\n|\n#b", false),
        ("success_nested", "#a & (#b | #c)", false),
        ("fail_wrong_tag", "##", true),
        ("fail_no_following_tag", "#a &", true),
        ("fail_no_open_parentheses", "#a & #b)", true),
        ("fail_no_closing_parentheses", "(#a & #b", true),
    ];

    for (name, input, expected_error) in cases {
        println!("test_query_parser: \n\t{}", name);

        let res = QueryParser::parse(input);
        assert_eq!(res.is_err(), expected_error);
    }
}

#[test]
fn test_construct_query_ast() {
    let flat_expected = Expr::Operation {
        lhs: Box::new(Expr::Bool(false)),
        op: Op::And,
        rhs: Box::new(Expr::Bool(false)),
    };
    let nested_expected = Expr::Operation {
        lhs: Box::new(Expr::Operation {
            lhs: Box::new(Expr::Bool(false)),
            op: Op::And,
            rhs: Box::new(Expr::Bool(false)),
        }),
        op: Op::Or,
        rhs: Box::new(Expr::Operation {
            lhs: Box::new(Expr::UnaryNot(Box::new(Expr::Bool(true)))),
            op: Op::And,
            rhs: Box::new(Expr::Bool(true)),
        }),
    };
    let cases: Vec<(&str, &str, Vec<String>, Expr)> = vec![
        ("success_flat", "#a & #b", vec![], flat_expected),
        (
            "success_nested",
            "#a & #b | (!#c & #d)",
            vec!["#c".to_string(), "#d".to_string()],
            nested_expected,
        ),
    ];

    for (name, input_query, input_tags, expected_ast) in cases {
        println!("test_construct_query_ast: \n\t{}", name);

        let tree = QueryParser::parse(input_query).unwrap();
        let ast = construct_query_ast(&tree, &input_tags);

        assert_eq!(expected_ast, ast);
    }
}

#[test]
fn test_evaluate_ast() {
    let flat = Expr::Operation {
        lhs: Box::new(Expr::Bool(true)),
        op: Op::And,
        rhs: Box::new(Expr::Bool(true)),
    };
    let nested = Expr::Operation {
        lhs: Box::new(Expr::Operation {
            lhs: Box::new(Expr::Bool(false)),
            op: Op::And,
            rhs: Box::new(Expr::Bool(false)),
        }),
        op: Op::Or,
        rhs: Box::new(Expr::UnaryNot(Box::new(Expr::Operation {
            lhs: Box::new(Expr::Bool(true)),
            op: Op::And,
            rhs: Box::new(Expr::Bool(true)),
        }))),
    };
    let cases: Vec<(&str, Expr, bool)> = vec![
        ("success_flat", flat, true),
        ("success_nested", nested, false),
    ];

    for (name, input_ast, expected_result) in cases {
        println!("test_evaluate_ast: \n\t{}", name);

        assert_eq!(expected_result, evaluate_ast(input_ast.clone()));
    }
}
