use rust_lexical_analyzer::{
    langdef::LanguageDefinition,
    tokenizer::{TokenStream, TokenType, Tokenizer},
};
use rust_lexical_analyzer::tokenizer::TokenType::{Identifier, Keyword, Literal, Operator, Punctuator};

fn integration_langdef() -> LanguageDefinition {
    LanguageDefinition::new(vec!["if", "match", "else", "let"])
}

fn check_stream(stream: &TokenStream, assertions: Vec<TokenType>) {
    for i in 0..assertions.len() {
        assert_eq!(
            assertions.get(i).unwrap().clone(),
            stream.get(i).unwrap().token_type,
        );
    }
}

#[test]
fn basic_syntax() {
    let langdef: LanguageDefinition = integration_langdef();
    let source = String::from(
        "let name = \"John Doe\";\nif variable == 30 + 18 {\n    print \"Hello world\";\n}\n",
    );
    let result: Result<TokenStream, ()> = Tokenizer::tokenize(&langdef, source);

    check_stream(
        result.as_ref().unwrap(),
        vec![
            Keyword(String::from("let")),
            Identifier(String::from("name")),
            Operator(String::from("=")),
            Literal(String::from("John Doe")),
            Punctuator(';'),
            Keyword(String::from("if")),
            Identifier(String::from("variable")),
            Operator(String::from("==")),
            Literal(String::from("30")),
            Operator(String::from("+")),
            Literal(String::from("18")),
            Punctuator('{'),
            Identifier(String::from("print")),
            Literal(String::from("Hello world")),
            Punctuator(';'),
            Punctuator('}'),
        ],
    );
}

#[test]
fn operators() {
    let langdef: LanguageDefinition = integration_langdef();
    let result: Result<TokenStream, ()> = Tokenizer::tokenize(
        &langdef,
        "100 + 100 - 10 * 2 / 2 % 1".to_string(),
    );

    check_stream(
        result.as_ref().unwrap(),
        vec![
            Literal(String::from("100")),
            Operator(String::from("+")),
            Literal(String::from("100")),
            Operator(String::from("-")),
            Literal(String::from("10")),
            Operator(String::from("*")),
            Literal(String::from("2")),
            Operator(String::from("/")),
            Literal(String::from("2")),
            Operator(String::from("%")),
            Literal(String::from("1")),
        ],
    );
}

#[test]
fn comments() {
    let langdef: LanguageDefinition = integration_langdef();
    let source = String::from(
        "/* a docblock\n   spanning lines */\nlet below_docblock = 1;\n// a line comment\nlet x = 2;\n# another comment\nlet x = 3;\n",
    );
    let result: Result<TokenStream, ()> = Tokenizer::tokenize(&langdef, source);

    check_stream(
        result.as_ref().unwrap(),
        vec![
            Keyword(String::from("let")),
            Identifier(String::from("below_docblock")),
            Operator(String::from("=")),
            Literal(String::from("1")),
            Punctuator(';'),
            Keyword(String::from("let")),
            Identifier(String::from("x")),
            Operator(String::from("=")),
            Literal(String::from("2")),
            Punctuator(';'),
            Keyword(String::from("let")),
            Identifier(String::from("x")),
            Operator(String::from("=")),
            Literal(String::from("3")),
            Punctuator(';'),
        ],
    );
}
