//! Single-pass character scanner: turns raw source text into an ordered
//! sequence of classified tokens, skipping comments, docblocks and the
//! quotation marks around string literals.

use vstd::prelude::*;
use crate::langdef::LanguageDefinition;

verus! {

/// A stream of tokens: append-only while scanning, read-only afterwards.
pub type TokenStream = Vec<Token>;

/// The main tokenizer instance, holding the scanning functions that
/// produce a `TokenStream` from a document.
#[derive(Debug, PartialEq, Clone, Copy)]
pub struct Tokenizer;

/// One classified lexical unit.
#[derive(Debug)]
pub struct Token {
    pub token_type: TokenType,
}

/// The classification of a token.
#[derive(Debug)]
pub enum TokenType {
    /// A word configured as a keyword in the `LanguageDefinition`,
    /// found outside quotes, docblocks and comments.
    Keyword(String),
    /// A word that could not be mapped to a keyword: typically the name
    /// of a variable, constant or function.
    Identifier(String),
    /// A structural character: one of `;` `{` `}` `(` `)` `[` `]`.
    Punctuator(char),
    /// An arithmetic operator (`+ - / * %`), or `=` / `==` recognized
    /// when a buffered word is flushed.
    Operator(String),
    /// A quoted string, a number, `true`, `false` or `null`.
    Literal(String),
}

/// The specification-level shape of a token: each textual variant carries
/// its text as a sequence of characters.
pub ghost enum TokenTypeV {
    Keyword(Seq<char>),
    Identifier(Seq<char>),
    Punctuator(char),
    Operator(Seq<char>),
    Literal(Seq<char>),
}

impl View for TokenType {
    type V = TokenTypeV;

    open spec fn view(&self) -> TokenTypeV {
        match self {
            TokenType::Keyword(s) => TokenTypeV::Keyword(s@),
            TokenType::Identifier(s) => TokenTypeV::Identifier(s@),
            TokenType::Punctuator(c) => TokenTypeV::Punctuator(*c),
            TokenType::Operator(s) => TokenTypeV::Operator(s@),
            TokenType::Literal(s) => TokenTypeV::Literal(s@),
        }
    }
}

impl View for Token {
    type V = TokenTypeV;

    open spec fn view(&self) -> TokenTypeV {
        self.token_type@
    }
}

/// The view of a whole token sequence.
pub open spec fn stream_view(s: Seq<Token>) -> Seq<TokenTypeV> {
    s.map_values(|t: Token| t@)
}

pub proof fn lemma_stream_view_push(s: Seq<Token>, t: Token)
    ensures
        stream_view(s.push(t)) == stream_view(s).push(t@),
{
    assert(stream_view(s.push(t)) =~= stream_view(s).push(t@));
}

impl Clone for TokenType {
    fn clone(&self) -> (result: Self)
        ensures
            result == *self,
    {
        match self {
            TokenType::Keyword(s) => TokenType::Keyword(s.clone()),
            TokenType::Identifier(s) => TokenType::Identifier(s.clone()),
            TokenType::Punctuator(c) => TokenType::Punctuator(*c),
            TokenType::Operator(s) => TokenType::Operator(s.clone()),
            TokenType::Literal(s) => TokenType::Literal(s.clone()),
        }
    }
}

impl Clone for Token {
    fn clone(&self) -> (result: Self)
        ensures
            result == *self,
    {
        Token { token_type: self.token_type.clone() }
    }
}

impl PartialEq for TokenType {
    fn eq(&self, other: &Self) -> (result: bool) {
        match (self, other) {
            (TokenType::Keyword(a), TokenType::Keyword(b)) => *a == *b,
            (TokenType::Identifier(a), TokenType::Identifier(b)) => *a == *b,
            (TokenType::Punctuator(a), TokenType::Punctuator(b)) => *a == *b,
            (TokenType::Operator(a), TokenType::Operator(b)) => *a == *b,
            (TokenType::Literal(a), TokenType::Literal(b)) => *a == *b,
            _ => false,
        }
    }
}

impl vstd::std_specs::cmp::PartialEqSpecImpl for TokenType {
    open spec fn obeys_eq_spec() -> bool {
        true
    }

    open spec fn eq_spec(&self, other: &Self) -> bool {
        self@ == other@
    }
}

impl PartialEq for Token {
    fn eq(&self, other: &Self) -> (result: bool) {
        self.token_type == other.token_type
    }
}

impl vstd::std_specs::cmp::PartialEqSpecImpl for Token {
    open spec fn obeys_eq_spec() -> bool {
        true
    }

    open spec fn eq_spec(&self, other: &Self) -> bool {
        self@ == other@
    }
}

/// The scanning context: the kind of region the cursor is inside.
#[derive(Debug, Clone, Copy, PartialEq, Eq, Structural)]
pub enum Context {
    /// Between two quotation marks.
    Quotes,
    /// After `//` or `#`, until the end of the line.
    Comment,
    /// Between `/*` and `*/`.
    DocBlock,
}

// ------------------------------------------------------------------
// Buffer classification
// ------------------------------------------------------------------

/// A decimal digit.
pub open spec fn is_digit(c: char) -> bool {
    '0' <= c && c <= '9'
}

/// Text of one or more digits.
pub open spec fn is_integer_text(s: Seq<char>) -> bool {
    s.len() > 0 && forall|i: int| 0 <= i < s.len() ==> is_digit(#[trigger] s[i])
}

/// Text of one or more digits, one dot, then one or more digits.
pub open spec fn is_decimal_text(s: Seq<char>) -> bool {
    exists|k: int|
        {
            &&& 0 < k < s.len() - 1
            &&& #[trigger] s[k] == '.'
            &&& forall|i: int| 0 <= i < k ==> is_digit(#[trigger] s[i])
            &&& forall|i: int| k < i < s.len() ==> is_digit(#[trigger] s[i])
        }
}

/// Text matching the literal pattern: an integer, a decimal, or exactly
/// `true`, `false` or `null`.
pub open spec fn is_literal_text(s: Seq<char>) -> bool {
    ||| is_integer_text(s)
    ||| is_decimal_text(s)
    ||| s == "true"@
    ||| s == "false"@
    ||| s == "null"@
}

/// How a flushed buffer is classified, in the tokenizer's priority order:
/// literal pattern first, then keyword membership, then `=`/`==`, then
/// nothing for an empty buffer, and an identifier otherwise.
pub open spec fn spec_classify(kws: Seq<Seq<char>>, s: Seq<char>) -> Option<TokenTypeV> {
    if is_literal_text(s) {
        Some(TokenTypeV::Literal(s))
    } else if kws.contains(s) {
        Some(TokenTypeV::Keyword(s))
    } else if s == "="@ || s == "=="@ {
        Some(TokenTypeV::Operator(s))
    } else if s.len() == 0 {
        None
    } else {
        Some(TokenTypeV::Identifier(s))
    }
}

// ------------------------------------------------------------------
// The scanner as a specification-level state machine
// ------------------------------------------------------------------

/// A punctuator character: terminator or bracket.
pub open spec fn is_punctuator_char(c: char) -> bool {
    c == ';' || c == '{' || c == '}' || c == '(' || c == ')' || c == '[' || c == ']'
}

/// A single-character arithmetic operator.
pub open spec fn is_operator_char(c: char) -> bool {
    c == '+' || c == '-' || c == '/' || c == '*' || c == '%'
}

/// An end-of-line character.
pub open spec fn is_eol_char(c: char) -> bool {
    c == '\n' || c == '\r'
}

/// The scanner's state: the active context, the accumulation buffer, and
/// the tokens emitted so far.
pub ghost struct ScanState {
    pub ctx: Option<Context>,
    pub buf: Seq<char>,
    pub out: Seq<TokenTypeV>,
}

/// The state before any character has been read.
pub open spec fn scan_init() -> ScanState {
    ScanState { ctx: None, buf: Seq::empty(), out: Seq::empty() }
}

/// Classify the buffer and append the resulting token, if any, to the
/// emitted sequence.
pub open spec fn flush_buffer(kws: Seq<Seq<char>>, out: Seq<TokenTypeV>, buf: Seq<char>) -> Seq<
    TokenTypeV,
> {
    match spec_classify(kws, buf) {
        Some(t) => out.push(t),
        None => out,
    }
}

/// One step with no context active, after the docblock and comment openers
/// have been ruled out.
pub open spec fn step_bare(kws: Seq<Seq<char>>, st: ScanState, c: char) -> ScanState {
    if is_punctuator_char(c) {
        ScanState {
            ctx: None,
            buf: Seq::empty(),
            out: flush_buffer(kws, st.out, st.buf).push(TokenTypeV::Punctuator(c)),
        }
    } else if is_operator_char(c) {
        ScanState {
            ctx: None,
            buf: Seq::empty(),
            out: flush_buffer(kws, st.out, st.buf).push(TokenTypeV::Operator(seq![c])),
        }
    } else if c == '#' {
        ScanState { ctx: Some(Context::Comment), buf: st.buf, out: st.out }
    } else if c == '"' {
        ScanState { ctx: Some(Context::Quotes), buf: st.buf, out: st.out }
    } else if c == ' ' || is_eol_char(c) {
        ScanState { ctx: None, buf: Seq::empty(), out: flush_buffer(kws, st.out, st.buf) }
    } else {
        ScanState { ctx: None, buf: st.buf.push(c), out: st.out }
    }
}

/// One step inside quotes: a quotation mark flushes the whole buffer as a
/// raw literal (escaping is unsupported); anything else is appended.
pub open spec fn step_quotes(st: ScanState, c: char) -> ScanState {
    if c == '"' {
        ScanState { ctx: None, buf: Seq::empty(), out: st.out.push(TokenTypeV::Literal(st.buf)) }
    } else {
        ScanState { ctx: Some(Context::Quotes), buf: st.buf.push(c), out: st.out }
    }
}

/// One full scanner step, in the scanner's priority order.
pub open spec fn scan_step(
    kws: Seq<Seq<char>>,
    st: ScanState,
    prev: Option<char>,
    c: char,
    peek: char,
) -> ScanState {
    if st.ctx is None && c == '/' && peek == '*' {
        ScanState { ctx: Some(Context::DocBlock), buf: st.buf, out: st.out }
    } else if st.ctx == Some(Context::DocBlock) && prev == Some('*') && c == '/' {
        ScanState { ctx: None, buf: st.buf, out: st.out }
    } else if st.ctx is None && c == '/' && peek == '/' {
        ScanState { ctx: Some(Context::Comment), buf: st.buf, out: st.out }
    } else if st.ctx == Some(Context::Quotes) {
        step_quotes(st, c)
    } else if st.ctx == Some(Context::DocBlock) {
        st
    } else if st.ctx == Some(Context::Comment) && is_eol_char(c) {
        ScanState { ctx: None, buf: st.buf, out: st.out }
    } else if st.ctx is None {
        step_bare(kws, st, c)
    } else {
        st
    }
}

/// The character before position `i`, if any.
pub open spec fn prev_of(text: Seq<char>, i: int) -> Option<char> {
    if i <= 0 {
        None
    } else {
        Some(text[i - 1])
    }
}

/// The character after position `i`, or a space at the end of the text.
pub open spec fn peek_of(text: Seq<char>, i: int) -> char {
    if i + 1 < text.len() {
        text[i + 1]
    } else {
        ' '
    }
}

/// Run the scanner over `text` from position `i` onwards, starting in
/// state `st`.
pub open spec fn scan_from(kws: Seq<Seq<char>>, text: Seq<char>, i: int, st: ScanState) -> ScanState
    decreases text.len() - i,
{
    if i < 0 || i >= text.len() {
        st
    } else {
        scan_from(
            kws,
            text,
            i + 1,
            scan_step(kws, st, prev_of(text, i), text[i], peek_of(text, i)),
        )
    }
}

/// The full token sequence produced for `text`: the scan of every
/// character, then one final flush of any residual buffer.
pub open spec fn spec_tokenize(kws: Seq<Seq<char>>, text: Seq<char>) -> Seq<TokenTypeV> {
    let st = scan_from(kws, text, 0, scan_init());
    if st.buf.len() > 0 {
        flush_buffer(kws, st.out, st.buf)
    } else {
        st.out
    }
}

// ------------------------------------------------------------------
// The executable scanner
// ------------------------------------------------------------------

impl Tokenizer {
    /// Build a `TokenStream` from the passed document and
    /// `LanguageDefinition`, iterating over the document character by
    /// character and slicing the content into tokens.
    ///
    /// Comments and docblocks are ignored. The scan never reports an
    /// error: unterminated strings, comments and docblocks complete with
    /// whatever was buffered or discarded, so the result is always `Ok`.
    pub fn tokenize(langdef: &LanguageDefinition, document: String) -> (result: Result<
        TokenStream,
        (),
    >)
        ensures
            result is Ok,
            stream_view(result->Ok_0@) == spec_tokenize(langdef.keyword_view(), document@),
    {
        let text: &str = document.as_str();
        let n: usize = text.unicode_len();
        let ghost kws = langdef.keyword_view();

        let mut stream: TokenStream = Vec::new();
        let mut context: Option<Context> = None;
        let mut buffer: String = String::new();
        let mut prev: Option<char> = None;
        let mut i: usize = 0;

        proof {
            assert(stream_view(stream@) =~= Seq::<TokenTypeV>::empty());
        }

        while i < n
            invariant
                i <= n,
                n == text@.len(),
                text@ == document@,
                kws == langdef.keyword_view(),
                prev == prev_of(text@, i as int),
                scan_from(
                    kws,
                    text@,
                    i as int,
                    ScanState { ctx: context, buf: buffer@, out: stream_view(stream@) },
                ) == scan_from(kws, text@, 0, scan_init()),
            decreases n - i,
        {
            let c = text.get_char(i);
            let is_eol = c == '\n' || c == '\r';
            let peek = if i + 1 < n {
                text.get_char(i + 1)
            } else {
                ' '
            };
            let ghost st_pre = ScanState { ctx: context, buf: buffer@, out: stream_view(stream@) };

            if context.is_none() && c == '/' && peek == '*' {
                // Entering a docblock.
                context = Some(Context::DocBlock);
            } else if context.is_some() && prev.is_some() && matches!(
                context,
                Some(Context::DocBlock),
            ) && c == '/' && prev.unwrap() == '*' {
                // Leaving a docblock; its content is discarded.
                context = None;
            } else if context.is_none() && c == '/' && peek == '/' {
                // Entering a line comment.
                context = Some(Context::Comment);
            } else if matches!(context, Some(Context::Quotes)) {
                Self::context_quotes(c, &mut stream, &mut buffer, &mut context);
            } else if matches!(context, Some(Context::DocBlock)) {
                // Inside a docblock: the character is ignored.
            } else if matches!(context, Some(Context::Comment)) && is_eol {
                // A comment ends with the line.
                context = None;
            } else if context.is_none() {
                Self::context_none(langdef, c, &mut stream, &mut buffer, &mut context);
            }

            proof {
                let st_post = ScanState {
                    ctx: context,
                    buf: buffer@,
                    out: stream_view(stream@),
                };
                assert(st_post == scan_step(
                    kws,
                    st_pre,
                    prev_of(text@, i as int),
                    text@[i as int],
                    peek_of(text@, i as int),
                ));
            }

            prev = Some(c);
            i = i + 1;
        }

        // Any residue in the buffer is flushed once.
        if !buffer.as_str().is_empty() {
            Self::add_to_stream(langdef, &mut stream, &mut buffer);
        }

        Ok(stream)
    }

    /// With no context active, decide what happens with the stream and the
    /// context based on the character at the cursor.
    fn context_none(
        langdef: &LanguageDefinition,
        e: char,
        stream: &mut TokenStream,
        buffer: &mut String,
        context: &mut Option<Context>,
    )
        requires
            (*old(context)) is None,
        ensures
            ({
                let st = step_bare(
                    langdef.keyword_view(),
                    ScanState { ctx: None, buf: old(buffer)@, out: stream_view(old(stream)@) },
                    e,
                );
                &&& *final(context) == st.ctx
                &&& final(buffer)@ == st.buf
                &&& stream_view(final(stream)@) == st.out
            }),
    {
        match e {
            // Punctuators.
            ';' | '{' | '}' | '(' | ')' | '[' | ']' => {
                Self::add_to_stream(langdef, stream, buffer);
                let ghost pre = stream@;
                stream.push(Token { token_type: TokenType::Punctuator(e) });
                proof {
                    lemma_stream_view_push(pre, Token { token_type: TokenType::Punctuator(e) });
                }
            },
            // Operators.
            '+' | '-' | '/' | '*' | '%' => {
                Self::add_to_stream(langdef, stream, buffer);
                let ghost pre = stream@;
                let tok = Token { token_type: TokenType::Operator(Self::char_text(e)) };
                stream.push(tok);
                proof {
                    lemma_stream_view_push(pre, tok);
                }
            },
            // A comment opened by `#`.
            '#' => {
                *context = Some(Context::Comment);
            },
            // Entering the quote context.
            '"' => {
                *context = Some(Context::Quotes);
            },
            // Space or end of line: the buffer is flushed.
            ' ' | '\n' | '\r' => {
                Self::add_to_stream(langdef, stream, buffer);
            },
            // Anything else accumulates in the buffer.
            _ => {
                Self::push_char(buffer, e);
            },
        }
    }

    /// With the cursor between two quotation marks, append the character
    /// to the buffer, unless it is the closing quote, which flushes the
    /// whole buffer as one raw literal.
    fn context_quotes(
        c: char,
        stream: &mut TokenStream,
        buffer: &mut String,
        context: &mut Option<Context>,
    )
        requires
            *old(context) == Some(Context::Quotes),
        ensures
            ({
                let st = step_quotes(
                    ScanState {
                        ctx: Some(Context::Quotes),
                        buf: old(buffer)@,
                        out: stream_view(old(stream)@),
                    },
                    c,
                );
                &&& *final(context) == st.ctx
                &&& final(buffer)@ == st.buf
                &&& stream_view(final(stream)@) == st.out
            }),
    {
        match c {
            '"' => {
                let ghost pre = stream@;
                let tok = Token { token_type: TokenType::Literal(buffer.clone()) };
                stream.push(tok);
                proof {
                    lemma_stream_view_push(pre, tok);
                }
                *buffer = String::new();
                *context = None;
            },
            _ => {
                Self::push_char(buffer, c);
            },
        }
    }

    /// Classify the buffer, append the resulting token (if any) to the
    /// stream, and clear the buffer.
    fn add_to_stream(langdef: &LanguageDefinition, stream: &mut TokenStream, buffer: &mut String)
        ensures
            stream_view(final(stream)@) == flush_buffer(
                langdef.keyword_view(),
                stream_view(old(stream)@),
                old(buffer)@,
            ),
            final(buffer)@ == Seq::<char>::empty(),
    {
        let output: Option<TokenType> = Self::parse_token_type(langdef, buffer);
        if let Some(t) = output {
            let ghost pre = stream@;
            let tok = Token { token_type: t };
            stream.push(tok);
            proof {
                lemma_stream_view_push(pre, tok);
            }
        }
        *buffer = String::new();
    }

    /// Classify the buffer content as a `TokenType`: the literal pattern
    /// first, then keyword membership, then `=`/`==`, then nothing for an
    /// empty buffer, and an identifier otherwise.
    fn parse_token_type(langdef: &LanguageDefinition, buffer: &String) -> (result: Option<
        TokenType,
    >)
        ensures
            match result {
                Some(t) => spec_classify(langdef.keyword_view(), buffer@) == Some(t@),
                None => spec_classify(langdef.keyword_view(), buffer@) is None,
            },
    {
        if Self::is_literal_buffer(buffer) {
            return Some(TokenType::Literal(buffer.clone()));
        }

        if langdef.has_keyword(buffer) {
            return Some(TokenType::Keyword(buffer.clone()));
        }

        if *buffer == "=".to_owned() || *buffer == "==".to_owned() {
            return Some(TokenType::Operator(buffer.clone()));
        }

        if buffer.as_str().is_empty() {
            return None;
        }

        Some(TokenType::Identifier(buffer.clone()))
    }

    /// Whether the buffer matches the literal pattern: an integer, a
    /// decimal, or exactly `true`, `false` or `null`.
    fn is_literal_buffer(buffer: &String) -> (result: bool)
        ensures
            result == is_literal_text(buffer@),
    {
        if Self::is_numeric_buffer(buffer.as_str()) {
            return true;
        }
        *buffer == "true".to_owned() || *buffer == "false".to_owned() || *buffer
            == "null".to_owned()
    }

    /// Whether the text is an integer (one or more digits) or a decimal
    /// (digits, one dot, digits).
    fn is_numeric_buffer(s: &str) -> (result: bool)
        ensures
            result == (is_integer_text(s@) || is_decimal_text(s@)),
    {
        let n = s.unicode_len();
        if n == 0 {
            return false;
        }

        let mut i: usize = 0;
        while i < n && Self::digit_at(s, i)
            invariant
                i <= n,
                n == s@.len(),
                forall|j: int| 0 <= j < i ==> is_digit(#[trigger] s@[j]),
            decreases n - i,
        {
            i = i + 1;
        }

        if i == n {
            return true;
        }
        // s@[i] is the first character that is not a digit.

        let c = s.get_char(i);
        if c != '.' {
            proof {
                assert(!is_integer_text(s@));
                assert(!is_decimal_text(s@)) by {
                    if is_decimal_text(s@) {
                        let k = choose|k: int|
                            {
                                &&& 0 < k < s@.len() - 1
                                &&& #[trigger] s@[k] == '.'
                                &&& forall|t: int| 0 <= t < k ==> is_digit(#[trigger] s@[t])
                                &&& forall|t: int| k < t < s@.len() ==> is_digit(#[trigger] s@[t])
                            };
                        assert(is_digit(s@[i as int]) || s@[i as int] == '.');
                    }
                }
            }
            return false;
        }

        if i == 0 || i == n - 1 {
            proof {
                assert(!is_integer_text(s@));
                assert(!is_decimal_text(s@)) by {
                    if is_decimal_text(s@) {
                        let k = choose|k: int|
                            {
                                &&& 0 < k < s@.len() - 1
                                &&& #[trigger] s@[k] == '.'
                                &&& forall|t: int| 0 <= t < k ==> is_digit(#[trigger] s@[t])
                                &&& forall|t: int| k < t < s@.len() ==> is_digit(#[trigger] s@[t])
                            };
                        assert(k == i);
                    }
                }
            }
            return false;
        }

        let mut j: usize = i + 1;
        while j < n && Self::digit_at(s, j)
            invariant
                i + 1 <= j <= n,
                n == s@.len(),
                forall|t: int| i < t < j ==> is_digit(#[trigger] s@[t]),
            decreases n - j,
        {
            j = j + 1;
        }

        if j == n {
            proof {
                assert(is_decimal_text(s@)) by {
                    let k = i as int;
                    assert(s@[k] == '.');
                    assert(forall|t: int| 0 <= t < k ==> is_digit(#[trigger] s@[t]));
                    assert(forall|t: int| k < t < s@.len() ==> is_digit(#[trigger] s@[t]));
                }
            }
            return true;
        }
        // s@[j] is neither a digit nor part of a valid decimal tail.

        proof {
            assert(!is_integer_text(s@));
            assert(!is_decimal_text(s@)) by {
                if is_decimal_text(s@) {
                    let k = choose|k: int|
                        {
                            &&& 0 < k < s@.len() - 1
                            &&& #[trigger] s@[k] == '.'
                            &&& forall|t: int| 0 <= t < k ==> is_digit(#[trigger] s@[t])
                            &&& forall|t: int| k < t < s@.len() ==> is_digit(#[trigger] s@[t])
                        };
                    assert(k == i);
                    assert(is_digit(s@[j as int]));
                }
            }
        }
        false
    }

    /// Whether the character at position `i` is a decimal digit.
    fn digit_at(s: &str, i: usize) -> (result: bool)
        requires
            i < s@.len(),
        ensures
            result == is_digit(s@[i as int]),
    {
        let c = s.get_char(i);
        c >= '0' && c <= '9'
    }

    /// The one-character string holding `c`.
    ///
    /// Relies on `char::to_string`: the decimal digits, operators and
    /// punctuators handed to it are single characters, and the result is
    /// that character alone.
    #[verifier::external_body]
    fn char_text(c: char) -> (result: String)
        ensures
            result@ == seq![c],
    {
        c.to_string()
    }

    /// Append one character to the buffer.
    ///
    /// Relies on `String::push`: appends exactly the given character.
    #[verifier::external_body]
    pub(crate) fn push_char(buffer: &mut String, c: char)
        ensures
            final(buffer)@ == old(buffer)@.push(c),
    {
        buffer.push(c);
    }
}

// ------------------------------------------------------------------
// Laws of the scanner
// ------------------------------------------------------------------

/// A character that never triggers a scanner action of its own: with no
/// context active it always accumulates in the buffer.
pub open spec fn is_plain_char(c: char) -> bool {
    &&& !is_punctuator_char(c)
    &&& !is_operator_char(c)
    &&& c != '#'
    &&& c != '"'
    &&& c != ' '
    &&& !is_eol_char(c)
}

/// A word the scanner reads into one buffer: nonempty, of plain
/// characters only.
pub open spec fn plain_word(s: Seq<char>) -> bool {
    s.len() > 0 && forall|i: int| 0 <= i < s.len() ==> is_plain_char(#[trigger] s[i])
}

/// The literal text of a token.
pub open spec fn token_text(t: TokenTypeV) -> Seq<char> {
    match t {
        TokenTypeV::Keyword(s) => s,
        TokenTypeV::Identifier(s) => s,
        TokenTypeV::Punctuator(c) => seq![c],
        TokenTypeV::Operator(s) => s,
        TokenTypeV::Literal(s) => s,
    }
}

/// A token whose literal text scans back as one token: a punctuator, a
/// single-character operator, `=`/`==` classifying as an operator, or a
/// word token of plain characters that classifies as itself. A literal
/// taken from a quoted string keeps its raw text, so one holding spaces or
/// other scanner-significant characters is not among these.
pub open spec fn retokenizable(kws: Seq<Seq<char>>, t: TokenTypeV) -> bool {
    match t {
        TokenTypeV::Punctuator(c) => is_punctuator_char(c),
        TokenTypeV::Operator(s) => (exists|c: char| is_operator_char(c) && s == seq![c]) || ((s
            == "="@ || s == "=="@) && spec_classify(kws, s) == Some(t)),
        TokenTypeV::Keyword(s) => plain_word(s) && spec_classify(kws, s) == Some(t),
        TokenTypeV::Identifier(s) => plain_word(s) && spec_classify(kws, s) == Some(t),
        TokenTypeV::Literal(s) => plain_word(s) && spec_classify(kws, s) == Some(t),
    }
}

proof fn lemma_scan_plain(kws: Seq<Seq<char>>, text: Seq<char>, j: int, buf: Seq<char>, out: Seq<
    TokenTypeV,
>)
    requires
        0 <= j <= text.len(),
        forall|i: int| 0 <= i < text.len() ==> is_plain_char(#[trigger] text[i]),
    ensures
        scan_from(kws, text, j, ScanState { ctx: None, buf, out }) == (ScanState {
            ctx: None,
            buf: buf + text.subrange(j, text.len() as int),
            out,
        }),
    decreases text.len() - j,
{
    if j < text.len() {
        let c = text[j];
        lemma_scan_plain(kws, text, j + 1, buf.push(c), out);
        assert(buf.push(c) + text.subrange(j + 1, text.len() as int) =~= buf + text.subrange(
            j,
            text.len() as int,
        ));
    } else {
        assert(buf + text.subrange(j, text.len() as int) =~= buf);
    }
}

/// The empty buffer classifies as nothing, provided the empty word is not
/// among the keywords.
proof fn lemma_classify_empty(kws: Seq<Seq<char>>)
    requires
        !kws.contains(Seq::<char>::empty()),
    ensures
        spec_classify(kws, Seq::<char>::empty()) is None,
{
    reveal_strlit("true");
    reveal_strlit("false");
    reveal_strlit("null");
    reveal_strlit("=");
    reveal_strlit("==");
}

/// Scanning a plain word yields exactly its classification.
pub proof fn lemma_tokenize_plain_word(kws: Seq<Seq<char>>, s: Seq<char>)
    requires
        plain_word(s),
    ensures
        spec_classify(kws, s) is Some,
        spec_tokenize(kws, s) == seq![spec_classify(kws, s)->Some_0],
{
    lemma_scan_plain(kws, s, 0, Seq::empty(), Seq::empty());
    assert(Seq::<char>::empty() + s.subrange(0, s.len() as int) =~= s);
    let t = spec_classify(kws, s)->Some_0;
    assert(Seq::<TokenTypeV>::empty().push(t) =~= seq![t]);
}

proof fn lemma_tokenize_single_char(kws: Seq<Seq<char>>, c: char)
    requires
        is_punctuator_char(c) || is_operator_char(c),
        !kws.contains(Seq::<char>::empty()),
    ensures
        is_punctuator_char(c) ==> spec_tokenize(kws, seq![c]) == seq![TokenTypeV::Punctuator(c)],
        !is_punctuator_char(c) ==> spec_tokenize(kws, seq![c]) == seq![
            TokenTypeV::Operator(seq![c]),
        ],
{
    let text = seq![c];
    lemma_classify_empty(kws);
    assert(peek_of(text, 0) == ' ');
    let st1 = scan_step(kws, scan_init(), prev_of(text, 0), text[0], peek_of(text, 0));
    assert(scan_from(kws, text, 0, scan_init()) == scan_from(kws, text, 1, st1));
    assert(scan_from(kws, text, 1, st1) == st1);
    if is_punctuator_char(c) {
        assert(st1.out =~= seq![TokenTypeV::Punctuator(c)]);
    } else {
        assert(st1.out =~= seq![TokenTypeV::Operator(seq![c])]);
    }
}

/// Classification idempotence: re-tokenizing an emitted token's literal
/// text under the same keyword set yields that one token again, with the
/// same classification. This holds for every token whose text the scanner
/// reads back as one word or one character; a literal from a quoted
/// string whose raw text holds scanner-significant characters (such as a
/// space) scans differently and is excluded, as is a keyword set holding
/// the empty word.
pub proof fn lemma_classification_idempotent(kws: Seq<Seq<char>>, t: TokenTypeV)
    requires
        retokenizable(kws, t),
        !kws.contains(Seq::<char>::empty()),
    ensures
        spec_tokenize(kws, token_text(t)) == seq![t],
{
    match t {
        TokenTypeV::Punctuator(c) => {
            lemma_tokenize_single_char(kws, c);
        },
        TokenTypeV::Operator(s) => {
            if exists|c: char| is_operator_char(c) && s == seq![c] {
                let c = choose|c: char| is_operator_char(c) && s == seq![c];
                lemma_tokenize_single_char(kws, c);
                assert(!is_punctuator_char(c));
            } else {
                reveal_strlit("=");
                reveal_strlit("==");
                assert(plain_word(s));
                lemma_tokenize_plain_word(kws, s);
            }
        },
        TokenTypeV::Keyword(s) => {
            lemma_tokenize_plain_word(kws, s);
        },
        TokenTypeV::Identifier(s) => {
            lemma_tokenize_plain_word(kws, s);
        },
        TokenTypeV::Literal(s) => {
            lemma_tokenize_plain_word(kws, s);
        },
    }
}

/// What holds of every token the scanner emits: a punctuator is one of
/// the seven punctuator characters; an operator is a single operator
/// character or a buffered `=`/`==` that classified as an operator; a
/// keyword or identifier is exactly what its buffer classified as; a
/// literal carries either a classified buffer or the raw text of a quoted
/// string, which can be anything.
pub open spec fn emitted_token_ok(kws: Seq<Seq<char>>, t: TokenTypeV) -> bool {
    match t {
        TokenTypeV::Punctuator(c) => is_punctuator_char(c),
        TokenTypeV::Operator(s) => (exists|c: char| is_operator_char(c) && s == seq![c]) || ((s
            == "="@ || s == "=="@) && spec_classify(kws, s) == Some(t)),
        TokenTypeV::Keyword(s) => spec_classify(kws, s) == Some(t),
        TokenTypeV::Identifier(s) => spec_classify(kws, s) == Some(t),
        TokenTypeV::Literal(s) => true,
    }
}

/// Every token of an emitted sequence satisfies `emitted_token_ok`.
pub open spec fn out_ok(kws: Seq<Seq<char>>, out: Seq<TokenTypeV>) -> bool {
    forall|i: int| 0 <= i < out.len() ==> emitted_token_ok(kws, #[trigger] out[i])
}

proof fn lemma_flush_ok(kws: Seq<Seq<char>>, out: Seq<TokenTypeV>, buf: Seq<char>)
    requires
        out_ok(kws, out),
    ensures
        out_ok(kws, flush_buffer(kws, out, buf)),
{
    match spec_classify(kws, buf) {
        Some(t) => {
            assert(emitted_token_ok(kws, t));
            assert(forall|i: int|
                0 <= i < out.len() ==> #[trigger] out.push(t)[i] == out[i]);
        },
        None => {},
    }
}

proof fn lemma_step_ok(
    kws: Seq<Seq<char>>,
    st: ScanState,
    prev: Option<char>,
    c: char,
    peek: char,
)
    requires
        out_ok(kws, st.out),
    ensures
        out_ok(kws, scan_step(kws, st, prev, c, peek).out),
{
    lemma_flush_ok(kws, st.out, st.buf);
    let st2 = scan_step(kws, st, prev, c, peek);
    if st.ctx == Some(Context::Quotes) && !(st.ctx is None && c == '/' && (peek == '*' || peek
        == '/')) {
        if c == '"' {
            let t = TokenTypeV::Literal(st.buf);
            assert(forall|i: int|
                0 <= i < st.out.len() ==> #[trigger] st.out.push(t)[i] == st.out[i]);
        }
    } else if st.ctx is None {
        if is_punctuator_char(c) || is_operator_char(c) {
            let flushed = flush_buffer(kws, st.out, st.buf);
            let t = if is_punctuator_char(c) {
                TokenTypeV::Punctuator(c)
            } else {
                TokenTypeV::Operator(seq![c])
            };
            assert(emitted_token_ok(kws, t));
            assert(forall|i: int|
                0 <= i < flushed.len() ==> #[trigger] flushed.push(t)[i] == flushed[i]);
        }
    }
}

proof fn lemma_scan_from_ok(kws: Seq<Seq<char>>, text: Seq<char>, i: int, st: ScanState)
    requires
        out_ok(kws, st.out),
    ensures
        out_ok(kws, scan_from(kws, text, i, st).out),
    decreases text.len() - i,
{
    if 0 <= i < text.len() {
        lemma_step_ok(kws, st, prev_of(text, i), text[i], peek_of(text, i));
        lemma_scan_from_ok(
            kws,
            text,
            i + 1,
            scan_step(kws, st, prev_of(text, i), text[i], peek_of(text, i)),
        );
    }
}

/// Provenance of emitted tokens: every token the scanner produces, for
/// any text and keyword set, satisfies `emitted_token_ok`. Together with
/// `lemma_classification_idempotent` this covers re-tokenizing emitted
/// tokens: any emitted token whose text is a plain word or a single
/// punctuator or operator character scans back as itself.
pub proof fn lemma_tokenize_emits_ok(kws: Seq<Seq<char>>, text: Seq<char>)
    ensures
        out_ok(kws, spec_tokenize(kws, text)),
{
    lemma_scan_from_ok(kws, text, 0, scan_init());
    let st = scan_from(kws, text, 0, scan_init());
    if st.buf.len() > 0 {
        lemma_flush_ok(kws, st.out, st.buf);
    }
}

proof fn lemma_scan_docblock_body(
    kws: Seq<Seq<char>>,
    text: Seq<char>,
    j: int,
    end: int,
    st: ScanState,
)
    requires
        0 <= j <= end <= text.len(),
        st.ctx == Some(Context::DocBlock),
        forall|i: int| j <= i < end ==> !(#[trigger] text[i] == '/' && prev_of(text, i) == Some(
            '*',
        )),
    ensures
        scan_from(kws, text, j, st) == scan_from(kws, text, end, st),
    decreases end - j,
{
    if j < end {
        lemma_scan_docblock_body(kws, text, j + 1, end, st);
    }
}

proof fn lemma_scan_comment_body(
    kws: Seq<Seq<char>>,
    text: Seq<char>,
    j: int,
    end: int,
    st: ScanState,
)
    requires
        0 <= j <= end <= text.len(),
        st.ctx == Some(Context::Comment),
        forall|i: int| j <= i < end ==> !is_eol_char(#[trigger] text[i]),
    ensures
        scan_from(kws, text, j, st) == scan_from(kws, text, end, st),
    decreases end - j,
{
    if j < end {
        lemma_scan_comment_body(kws, text, j + 1, end, st);
    }
}

proof fn lemma_scan_shift(
    kws: Seq<Seq<char>>,
    big: Seq<char>,
    rest: Seq<char>,
    off: int,
    j: int,
    st: ScanState,
)
    requires
        0 <= j <= rest.len(),
        off >= 0,
        big.len() == off + rest.len(),
        forall|i: int| 0 <= i < rest.len() ==> big[off + i] == #[trigger] rest[i],
        j == 0 ==> st.ctx != Some(Context::DocBlock),
    ensures
        scan_from(kws, big, off + j, st) == scan_from(kws, rest, j, st),
    decreases rest.len() - j,
{
    if j < rest.len() {
        assert(big[off + j] == rest[j]);
        assert(peek_of(big, off + j) == peek_of(rest, j)) by {
            if j + 1 < rest.len() {
                assert(big[off + j + 1] == rest[j + 1]);
            }
        }
        let st2 = scan_step(kws, st, prev_of(rest, j), rest[j], peek_of(rest, j));
        if j == 0 {
            assert(scan_step(kws, st, prev_of(big, off + j), big[off + j], peek_of(big, off + j))
                == st2);
        } else {
            assert(prev_of(big, off + j) == prev_of(rest, j)) by {
                assert(big[off + (j - 1)] == rest[j - 1]);
            }
        }
        lemma_scan_shift(kws, big, rest, off, j + 1, st2);
    }
}

/// A docblock `/* ... */` preceding the rest of the input contributes
/// zero tokens: the scan of the whole text equals the scan of the rest
/// alone. The body must not close the docblock early: it does not start
/// with `/` (right after the opening `*`) and holds no adjacent `*/`.
pub proof fn lemma_docblock_contributes_nothing(
    kws: Seq<Seq<char>>,
    body: Seq<char>,
    rest: Seq<char>,
)
    requires
        body.len() > 0 ==> body[0] != '/',
        forall|i: int| 1 <= i < body.len() ==> !(body[i - 1] == '*' && #[trigger] body[i] == '/'),
    ensures
        spec_tokenize(kws, "/*"@ + body + "*/"@ + rest) == spec_tokenize(kws, rest),
{
    reveal_strlit("/*");
    reveal_strlit("*/");
    let text = "/*"@ + body + "*/"@ + rest;
    let b = body.len() as int;
    assert(text.len() == 4 + b + rest.len());
    assert(text[0] == '/' && text[1] == '*');
    assert(forall|i: int| 0 <= i < b ==> #[trigger] text[2 + i] == body[i]);
    assert(text[2 + b] == '*' && text[3 + b] == '/');
    assert(forall|i: int| 0 <= i < rest.len() ==> #[trigger] text[4 + b + i] == rest[i]);

    let st1 = ScanState { ctx: Some(Context::DocBlock), buf: Seq::empty(), out: Seq::empty() };
    // The opener `/*` enters the docblock; its `*` is then ignored.
    assert(scan_from(kws, text, 0, scan_init()) == scan_from(kws, text, 1, st1));
    assert(scan_from(kws, text, 1, st1) == scan_from(kws, text, 2, st1));
    // The body never matches the two-character closer.
    assert forall|i: int| 2 <= i < 2 + b implies !(#[trigger] text[i] == '/' && prev_of(text, i)
        == Some('*')) by {
        if i == 2 {
            assert(text[2] == body[0]);
        } else {
            assert(text[i] == body[i - 2] && text[i - 1] == body[i - 3]);
        }
    }
    lemma_scan_docblock_body(kws, text, 2, 2 + b, st1);
    // The closer's `*` is ignored; its `/` leaves the docblock.
    assert(scan_from(kws, text, 2 + b, st1) == scan_from(kws, text, 3 + b, st1));
    assert(scan_from(kws, text, 3 + b, st1) == scan_from(kws, text, 4 + b, scan_init()));
    lemma_scan_shift(kws, text, rest, 4 + b, 0, scan_init());
}

/// A line comment `// ...` preceding the rest of the input contributes
/// zero tokens; its body holds no end-of-line character, and the comment
/// ends with the line.
pub proof fn lemma_line_comment_contributes_nothing(
    kws: Seq<Seq<char>>,
    body: Seq<char>,
    rest: Seq<char>,
)
    requires
        forall|i: int| 0 <= i < body.len() ==> !is_eol_char(#[trigger] body[i]),
    ensures
        spec_tokenize(kws, "//"@ + body + "\n"@ + rest) == spec_tokenize(kws, rest),
{
    reveal_strlit("//");
    reveal_strlit("\n");
    let text = "//"@ + body + "\n"@ + rest;
    let b = body.len() as int;
    assert(text.len() == 3 + b + rest.len());
    assert(text[0] == '/' && text[1] == '/');
    assert(forall|i: int| 0 <= i < b ==> #[trigger] text[2 + i] == body[i]);
    assert(text[2 + b] == '\n');
    assert(forall|i: int| 0 <= i < rest.len() ==> #[trigger] text[3 + b + i] == rest[i]);

    let st1 = ScanState { ctx: Some(Context::Comment), buf: Seq::empty(), out: Seq::empty() };
    // The opener `//` enters the comment; its second `/` is ignored.
    assert(scan_from(kws, text, 0, scan_init()) == scan_from(kws, text, 1, st1));
    assert(scan_from(kws, text, 1, st1) == scan_from(kws, text, 2, st1));
    lemma_scan_comment_body(kws, text, 2, 2 + b, st1);
    // The end of the line leaves the comment.
    assert(scan_from(kws, text, 2 + b, st1) == scan_from(kws, text, 3 + b, scan_init()));
    lemma_scan_shift(kws, text, rest, 3 + b, 0, scan_init());
}

/// A `# ...` comment preceding the rest of the input contributes zero
/// tokens; its body holds no end-of-line character, and the comment ends
/// with the line.
pub proof fn lemma_hash_comment_contributes_nothing(
    kws: Seq<Seq<char>>,
    body: Seq<char>,
    rest: Seq<char>,
)
    requires
        forall|i: int| 0 <= i < body.len() ==> !is_eol_char(#[trigger] body[i]),
    ensures
        spec_tokenize(kws, "#"@ + body + "\n"@ + rest) == spec_tokenize(kws, rest),
{
    reveal_strlit("#");
    reveal_strlit("\n");
    let text = "#"@ + body + "\n"@ + rest;
    let b = body.len() as int;
    assert(text.len() == 2 + b + rest.len());
    assert(text[0] == '#');
    assert(forall|i: int| 0 <= i < b ==> #[trigger] text[1 + i] == body[i]);
    assert(text[1 + b] == '\n');
    assert(forall|i: int| 0 <= i < rest.len() ==> #[trigger] text[2 + b + i] == rest[i]);

    let st1 = ScanState { ctx: Some(Context::Comment), buf: Seq::empty(), out: Seq::empty() };
    // `#` enters the comment.
    assert(scan_from(kws, text, 0, scan_init()) == scan_from(kws, text, 1, st1));
    lemma_scan_comment_body(kws, text, 1, 1 + b, st1);
    // The end of the line leaves the comment.
    assert(scan_from(kws, text, 1 + b, st1) == scan_from(kws, text, 2 + b, scan_init()));
    lemma_scan_shift(kws, text, rest, 2 + b, 0, scan_init());
}

} // verus!
