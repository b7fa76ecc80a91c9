//! The JavaScript parser.
use vstd::prelude::*;
use crate::error::AnalysisResult;
use crate::parser::extract::{extract_classes, extract_functions, extract_imports};
use crate::parser::grammar::{parse_source, Grammar};
use crate::parser::{extracted, ParseResult, SourceParser};
use crate::syntax::SyntaxTree;
use crate::types::Language;

verus! {

/// How long the engine may spend on one JavaScript text.
pub const JAVASCRIPT_TIMEOUT_MICROS: u64 = 5_000_000;

pub struct JavaScriptParser {}

impl JavaScriptParser {
    pub fn new() -> (r: AnalysisResult<Self>)
        ensures
            r is Ok,
    {
        Ok(JavaScriptParser {})
    }

    pub(crate) fn new_parser() -> Self {
        JavaScriptParser {}
    }

    /// Extracts functions, classes and imports from a syntax tree of
    /// `content`.
    pub fn parse_tree(&self, tree: &SyntaxTree, content: &str) -> (r: ParseResult)
        requires
            tree.wf(),
        ensures
            extracted(Language::JavaScript, tree, content@, &r),
    {
        ParseResult {
            language: Language::JavaScript,
            functions: extract_functions(Language::JavaScript, tree, content),
            classes: extract_classes(Language::JavaScript, tree, content),
            imports: extract_imports(Language::JavaScript, tree, content),
        }
    }
}

impl SourceParser for JavaScriptParser {
    open spec fn spec_language(&self) -> Language {
        Language::JavaScript
    }

    fn language(&self) -> (r: Language) {
        Language::JavaScript
    }

    fn parse(&self, content: &str) -> (r: AnalysisResult<ParseResult>) {
        match parse_source(Grammar::JavaScript, content, JAVASCRIPT_TIMEOUT_MICROS) {
            Ok(tree) => {
                let p = self.parse_tree(&tree, content);
                assert(extracted(Language::JavaScript, &tree, content@, &p));
                Ok(p)
            },
            Err(e) => Err(e),
        }
    }
}

} // verus!
