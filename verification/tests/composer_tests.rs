use rust_lexical_analyzer::{
    composer::{Composer, Composition},
    langdef::LanguageDefinition,
    tokenizer::{TokenStream, Tokenizer},
};
use rust_lexical_analyzer::tokenizer::TokenType::{Identifier, Keyword, Literal, Operator, Punctuator};

use rust_lexical_analyzer::fragments::Fragment;

fn composer_langdef() -> LanguageDefinition {
    LanguageDefinition::new(vec!["if", "match", "else", "let"])
}

fn check_statement(statement: &Fragment, assertions: Vec<rust_lexical_analyzer::tokenizer::TokenType>) {
    for i in 0..assertions.len() {
        assert_eq!(
            assertions.get(i).unwrap(),
            &statement.get_tokens().get(i).unwrap().token_type,
        );
    }
}

#[test]
fn composer() {
    let langdef: LanguageDefinition = composer_langdef();
    let source = String::from(
        "if x == 30 {\n    if true {\n        print \"Hello world\";\n    }\n    else {\n        print \"nested else\";\n    }\n}\nelse {\n    print \"else\";\n}\n",
    );
    let result: Result<TokenStream, ()> = Tokenizer::tokenize(&langdef, source);

    let composed: Composition = Composer::compose(&langdef, &result.unwrap());
    let block1: Composition = composed.get(1).unwrap().get_fragments().unwrap();

    check_statement(composed.get(0).unwrap(), vec![
        Keyword(String::from("if")),
        Identifier(String::from("x")),
        Operator(String::from("==")),
        Literal(String::from("30")),
    ]);

    check_statement(block1.get(0).unwrap(), vec![
        Keyword(String::from("if")),
        Literal(String::from("true")),
    ]);

    check_statement(block1.get(1).unwrap().get_fragments().unwrap().get(0).unwrap(), vec![
        Identifier(String::from("print")),
        Literal(String::from("Hello world")),
    ]);

    assert_eq!(
        Keyword(String::from("else")),
        block1.get(2).unwrap().get_token().unwrap().token_type,
    );

    check_statement(block1.get(3).unwrap().get_fragments().unwrap().get(0).unwrap(), vec![
        Identifier(String::from("print")),
        Literal(String::from("nested else")),
    ]);

    assert_eq!(
        Keyword(String::from("else")),
        composed.get(2).unwrap().get_token().unwrap().token_type,
    );

    check_statement(composed.get(3).unwrap().get_fragments().unwrap().get(0).unwrap(), vec![
        Identifier(String::from("print")),
        Literal(String::from("else")),
    ]);
}

#[test]
fn composer_brackets() {
    let expressions = vec![
        "1 + (2 + (3 * 3));".to_string(),
        "1 + (2 + [3 * 3]);".to_string(),
        "1 + [2 + [3 * 3]];".to_string(),
    ];

    for expr in expressions {
        let langdef: LanguageDefinition = composer_langdef();
        let result: Result<TokenStream, ()> = Tokenizer::tokenize(&langdef, expr);
        let composed: Composition = Composer::compose(&langdef, &result.unwrap());
        let b1_fragments: Composition = composed.get(1).unwrap().get_fragments().unwrap();

        check_statement(composed.get(0).unwrap(), vec![
            Literal(String::from("1")),
            Operator(String::from("+")),
        ]);

        check_statement(b1_fragments.get(0).unwrap(), vec![
            Literal(String::from("2")),
            Operator(String::from("+")),
        ]);

        check_statement(
            b1_fragments.get(1).unwrap().get_fragments().unwrap().get(0).unwrap(),
            vec![
                Literal(String::from("3")),
                Operator(String::from("*")),
                Literal(String::from("3")),
            ],
        );
    }
}
