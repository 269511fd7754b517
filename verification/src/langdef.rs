//! The language definition: the immutable configuration describing the
//! keyword set of the language to be tokenized, together with the
//! terminator and block delimiter tokens carried as metadata.

use vstd::prelude::*;
use crate::tokenizer::TokenType;

verus! {

/// The rules and looks of the language to be tokenized and interpreted.
/// Immutable after construction; safe to share across concurrent scans.
#[derive(Debug, Clone, PartialEq)]
pub struct LanguageDefinition {
    keywords: Vec<&'static str>,
    statement_terminator: TokenType,
    block_opener: TokenType,
    block_closer: TokenType,
}

impl LanguageDefinition {
    /// The configured keyword set, as a sequence of character sequences.
    pub closed spec fn keyword_view(&self) -> Seq<Seq<char>> {
        self.keywords@.map_values(|s: &'static str| s@)
    }

    /// The terminator, opener and closer tokens carried as metadata.
    pub closed spec fn delimiters(&self) -> (TokenType, TokenType, TokenType) {
        (self.statement_terminator, self.block_opener, self.block_closer)
    }

    /// Create a `LanguageDefinition` with the given keyword set.
    pub fn new(keywords: Vec<&'static str>) -> (result: LanguageDefinition)
        ensures
            result.keyword_view() == keywords@.map_values(|s: &'static str| s@),
            result.delimiters() == (
                TokenType::Punctuator(';'),
                TokenType::Punctuator('{'),
                TokenType::Punctuator('}'),
            ),
    {
        LanguageDefinition {
            keywords,
            statement_terminator: TokenType::Punctuator(';'),
            block_opener: TokenType::Punctuator('{'),
            block_closer: TokenType::Punctuator('}'),
        }
    }

    /// True iff `keyword` exactly matches a configured keyword:
    /// case-sensitive, with no normalization.
    pub fn has_keyword(&self, keyword: &String) -> (result: bool)
        ensures
            result == self.keyword_view().contains(keyword@),
    {
        let n = self.keywords.len();
        let mut i: usize = 0;
        while i < n
            invariant
                i <= n,
                n == self.keywords@.len(),
                forall|j: int| 0 <= j < i ==> self.keyword_view()[j] != keyword@,
            decreases n - i,
        {
            let kw: &'static str = self.keywords[i];
            if kw.to_owned() == *keyword {
                proof {
                    assert(self.keyword_view()[i as int] == keyword@);
                }
                return true;
            }
            i = i + 1;
        }
        proof {
            assert(!self.keyword_view().contains(keyword@));
        }
        false
    }
}

} // verus!
