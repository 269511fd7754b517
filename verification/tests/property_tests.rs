use rust_lexical_analyzer::{
    composer::{BracketType, Composer, ComposerContext, Composition},
    fragments::Fragment,
    langdef::LanguageDefinition,
    tokenizer::{Token, TokenStream, TokenType, Tokenizer},
};
use rust_lexical_analyzer::tokenizer::TokenType::{Identifier, Keyword, Literal, Operator, Punctuator};

fn property_langdef() -> LanguageDefinition {
    LanguageDefinition::new(vec!["if", "else", "let", "match"])
}

fn tokenize_text(text: &str) -> TokenStream {
    Tokenizer::tokenize(&property_langdef(), text.to_string()).unwrap()
}

/// Collect every token of the composed tree, depth first, in order.
fn tree_tokens(composition: &Composition) -> Vec<TokenType> {
    let mut out: Vec<TokenType> = Vec::new();
    for fragment in composition {
        for token in fragment.get_tokens() {
            out.push(token.token_type.clone());
        }
        if let Some(token) = fragment.get_token() {
            out.push(token.token_type.clone());
        }
        if let Some(body) = fragment.get_fragments() {
            let mut inner = tree_tokens(&body);
            out.append(&mut inner);
        }
    }
    out
}

#[test]
fn balanced_input_accounts_for_every_token() {
    // Fully bracket-balanced, terminator-complete input: every token that
    // is not a structural terminator or a matched bracket appears exactly
    // once across the composed tree, in order.
    let langdef = property_langdef();
    let stream = tokenize_text("let a = (1 + [2 * 3]); if a { b; c d; }");
    let composed = Composer::compose(&langdef, &stream);

    let expected: Vec<TokenType> = stream
        .iter()
        .map(|t: &Token| t.token_type.clone())
        .filter(|t: &TokenType| {
            !matches!(
                t,
                Punctuator(';')
                    | Punctuator('(')
                    | Punctuator(')')
                    | Punctuator('[')
                    | Punctuator(']')
                    | Punctuator('{')
                    | Punctuator('}')
            )
        })
        .collect();

    assert_eq!(expected, tree_tokens(&composed));
}

#[test]
fn retokenizing_emitted_text_keeps_the_classification() {
    // Classification idempotence: re-tokenizing an emitted token's literal
    // text under the same language definition yields the same token type.
    let langdef = property_langdef();
    let stream = tokenize_text("let iffy = 30 + 3.14 % true; x == null");
    for token in &stream {
        let text: String = match &token.token_type {
            Keyword(s) | Identifier(s) | Operator(s) | Literal(s) => s.clone(),
            Punctuator(c) => c.to_string(),
        };
        let again = Tokenizer::tokenize(&langdef, text).unwrap();
        assert_eq!(1, again.len());
        assert_eq!(token.token_type, again.get(0).unwrap().token_type);
    }
}

#[test]
fn parenthetical_nesting_composes_by_depth() {
    // `1 + (2 + (3 * 3));` composes to a top statement `[1, +]`, then a
    // parenthetical encapsulation holding `[2, +]` and a nested
    // parenthetical encapsulation holding `[3, *, 3]`.
    let langdef = property_langdef();
    let stream = tokenize_text("1 + (2 + (3 * 3));");
    let composed = Composer::compose(&langdef, &stream);

    assert_eq!(2, composed.len());
    let top = composed.get(0).unwrap();
    assert_eq!("statement", top.get_type());
    assert_eq!(
        vec![Literal(String::from("1")), Operator(String::from("+"))],
        top.get_tokens().iter().map(|t| t.token_type.clone()).collect::<Vec<_>>(),
    );

    let outer = composed.get(1).unwrap();
    assert_eq!("block", outer.get_type());
    assert_eq!(
        Some(ComposerContext::Closure(BracketType::Parenthetical)),
        outer.get_context(),
    );
    let outer_body = outer.get_fragments().unwrap();
    assert_eq!(2, outer_body.len());
    assert_eq!(
        vec![Literal(String::from("2")), Operator(String::from("+"))],
        outer_body.get(0).unwrap().get_tokens().iter().map(|t| t.token_type.clone()).collect::<Vec<_>>(),
    );

    let inner = outer_body.get(1).unwrap();
    assert_eq!(
        Some(ComposerContext::Closure(BracketType::Parenthetical)),
        inner.get_context(),
    );
    assert_eq!(
        vec![
            Literal(String::from("3")),
            Operator(String::from("*")),
            Literal(String::from("3")),
        ],
        inner.get_fragments().unwrap().get(0).unwrap().get_tokens().iter().map(|t| t.token_type.clone()).collect::<Vec<_>>(),
    );
}

#[test]
fn square_nests_inside_parenthetical_by_depth() {
    // `1 + (2 + [3 * 3]);` nests a square encapsulation inside a
    // parenthetical one, by depth, regardless of shape match.
    let langdef = property_langdef();
    let stream = tokenize_text("1 + (2 + [3 * 3]);");
    let composed = Composer::compose(&langdef, &stream);

    let outer = composed.get(1).unwrap();
    assert_eq!(
        Some(ComposerContext::Closure(BracketType::Parenthetical)),
        outer.get_context(),
    );
    let inner = outer.get_fragments().unwrap().get(1).unwrap().get_context();
    assert_eq!(Some(ComposerContext::Closure(BracketType::Square)), inner);
}

#[test]
fn comment_forms_contribute_no_tokens() {
    // A docblock, a line comment, or a `#` comment preceding a statement
    // contributes zero tokens.
    let plain = tokenize_text("let x = 1;");
    let with_docblock = tokenize_text("/* ignored entirely */let x = 1;");
    let with_line_comment = tokenize_text("// ignored entirely\nlet x = 1;");
    let with_hash_comment = tokenize_text("# ignored entirely\nlet x = 1;");

    assert_eq!(5, plain.len());
    for other in [&with_docblock, &with_line_comment, &with_hash_comment] {
        assert_eq!(plain.len(), other.len());
        for i in 0..plain.len() {
            assert_eq!(plain[i].token_type, other[i].token_type);
        }
    }
}

#[test]
fn keyword_prefix_is_an_identifier() {
    // With keyword set {"if","else","let","match"}, "iffy" tokenizes as
    // Identifier("iffy"), not Keyword.
    let stream = tokenize_text("iffy");
    assert_eq!(1, stream.len());
    assert_eq!(Identifier(String::from("iffy")), stream[0].token_type);
}

#[test]
fn literal_pattern_classification() {
    // "30", "true", "null", "3.14" all classify as Literal.
    for text in ["30", "true", "null", "3.14"] {
        let stream = tokenize_text(text);
        assert_eq!(1, stream.len());
        assert_eq!(Literal(String::from(text)), stream[0].token_type);
    }
}

#[test]
fn else_is_a_single_token_sibling_between_blocks() {
    // For `if (x) { a; } else { b; }`: directly after the block
    // encapsulation comes a SingleToken carrying Keyword("else"), followed
    // by a separate encapsulation sibling; the composer links none of them.
    let langdef = property_langdef();
    let stream = tokenize_text("if (x) { a; } else { b; }");
    let composed = Composer::compose(&langdef, &stream);

    assert_eq!(5, composed.len());
    assert_eq!("single_token", composed.get(0).unwrap().get_type());
    assert_eq!(
        Keyword(String::from("if")),
        composed.get(0).unwrap().get_token().unwrap().token_type,
    );
    assert_eq!(
        Some(ComposerContext::Closure(BracketType::Parenthetical)),
        composed.get(1).unwrap().get_context(),
    );
    assert_eq!(
        Some(ComposerContext::Closure(BracketType::Curly)),
        composed.get(2).unwrap().get_context(),
    );
    assert_eq!("single_token", composed.get(3).unwrap().get_type());
    assert_eq!(
        Keyword(String::from("else")),
        composed.get(3).unwrap().get_token().unwrap().token_type,
    );
    assert_eq!(
        Some(ComposerContext::Closure(BracketType::Curly)),
        composed.get(4).unwrap().get_context(),
    );
}

#[test]
fn empty_input_yields_nothing() {
    let langdef = property_langdef();
    let stream = tokenize_text("");
    assert_eq!(0, stream.len());
    let composed = Composer::compose(&langdef, &stream);
    assert_eq!(0, composed.len());
}

#[test]
fn unterminated_quote_flushes_at_end_of_input() {
    // An unterminated string completes "successfully" with whatever was
    // buffered: the residue is flushed once at the end of the scan.
    let stream = tokenize_text("\"never closed");
    assert_eq!(1, stream.len());
    assert_eq!(
        Identifier(String::from("never closed")),
        stream[0].token_type,
    );
}

#[test]
fn unbalanced_brackets_degrade_to_a_trailing_fragment() {
    // An opener with no matching closer never produces an encapsulation:
    // the buffered tokens are flushed as an ordinary trailing fragment.
    let langdef = property_langdef();
    let stream = tokenize_text("a + (b + c");
    let composed = Composer::compose(&langdef, &stream);

    assert_eq!(2, composed.len());
    assert_eq!("statement", composed.get(0).unwrap().get_type());
    assert_eq!("statement", composed.get(1).unwrap().get_type());
    assert_eq!(
        vec![Identifier(String::from("b")), Operator(String::from("+")), Identifier(String::from("c"))],
        composed.get(1).unwrap().get_tokens().iter().map(|t| t.token_type.clone()).collect::<Vec<_>>(),
    );
}

#[test]
fn quoted_literal_keeps_raw_text() {
    // The quote handler flushes the buffer raw and unescaped; spaces and
    // keyword-looking content stay one literal.
    let stream = tokenize_text("\"if else 1 + 2\"");
    assert_eq!(1, stream.len());
    assert_eq!(
        Literal(String::from("if else 1 + 2")),
        stream[0].token_type,
    );
}

#[test]
fn assignment_and_equality_come_from_the_buffer() {
    // `=` and `==` are recognized only at flush time via buffer
    // accumulation, unlike the character-level arithmetic operators.
    let stream = tokenize_text("a = b == c");
    let types: Vec<TokenType> = stream.iter().map(|t| t.token_type.clone()).collect();
    assert_eq!(
        vec![
            Identifier(String::from("a")),
            Operator(String::from("=")),
            Identifier(String::from("b")),
            Operator(String::from("==")),
            Identifier(String::from("c")),
        ],
        types,
    );
}

#[test]
fn fragment_clone_preserves_the_tree() {
    let langdef = property_langdef();
    let stream = tokenize_text("if (x) { a; }");
    let composed = Composer::compose(&langdef, &stream);
    let copy: Composition = composed.clone();
    assert_eq!(composed.len(), copy.len());
    assert_eq!(tree_tokens(&composed), tree_tokens(&copy));
}

#[test]
fn has_keyword_is_exact_membership() {
    let langdef = property_langdef();
    assert!(langdef.has_keyword(&String::from("if")));
    assert!(langdef.has_keyword(&String::from("match")));
    assert!(!langdef.has_keyword(&String::from("iffy")));
    assert!(!langdef.has_keyword(&String::from("IF")));
    assert!(!langdef.has_keyword(&String::from("")));
}

#[test]
fn debug_renders_each_fragment_shape() {
    let langdef = property_langdef();
    let stream = tokenize_text("if x { a; } else");
    let composed = Composer::compose(&langdef, &stream);

    assert_eq!(3, composed.len());
    assert_eq!("Statement: if Identifierx", composed.get(0).unwrap().debug());
    assert_eq!(
        "Encapsulation: [Identifier(a)]",
        composed.get(1).unwrap().debug(),
    );
    assert_eq!("Keyword(else)", composed.get(2).unwrap().debug());
}

#[test]
fn debug_renders_statement_tokens_inline() {
    let langdef = property_langdef();
    let stream = tokenize_text("1 + \"two\" % x;");
    let composed = Composer::compose(&langdef, &stream);

    assert_eq!(1, composed.len());
    assert_eq!(
        "Statement: Literal(1) + Literal(two) % Identifierx",
        composed.get(0).unwrap().debug(),
    );
}

#[test]
fn unterminated_docblock_discards_the_rest() {
    // An unterminated docblock completes "successfully": everything after
    // `/*` is discarded, and what was buffered before it is kept.
    let stream = tokenize_text("a /* never closed");
    assert_eq!(1, stream.len());
    assert_eq!(Identifier(String::from("a")), stream[0].token_type);
}

#[test]
fn comment_entry_keeps_the_buffer() {
    // Entering a comment does not flush the buffer: the characters before
    // `#` and after the line join into one token.
    let stream = tokenize_text("a#b\nc");
    assert_eq!(1, stream.len());
    assert_eq!(Identifier(String::from("ac")), stream[0].token_type);
}

#[test]
fn quote_entry_keeps_the_buffer() {
    // Entering quotes does not flush the buffer either: the closing quote
    // flushes everything buffered so far as one raw literal.
    let stream = tokenize_text("a\"b\"");
    assert_eq!(1, stream.len());
    assert_eq!(Literal(String::from("ab")), stream[0].token_type);
}

#[test]
fn docblock_closes_on_star_slash_only() {
    let stream = tokenize_text("/* a * b / c */ x");
    assert_eq!(1, stream.len());
    assert_eq!(Identifier(String::from("x")), stream[0].token_type);
}
