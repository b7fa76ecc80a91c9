//! Parsers: from source text to the functions, classes and imports it declares.
use vstd::prelude::*;
use crate::error::{AnalysisError, AnalysisResult};
use crate::parser::extract::{
    classes_of, functions_of, functions_upto, imports_of, lemma_complexity_at_least_one,
};
use crate::parser::javascript::JavaScriptParser;
use crate::parser::typescript::TypeScriptParser;
use crate::syntax::SyntaxTree;
use crate::types::Language;

pub mod extract;
pub mod grammar;
pub mod javascript;
pub mod typescript;

verus! {

/// A function found in a file.
#[derive(Debug, Clone)]
pub struct FunctionInfo {
    pub name: String,
    /// The 1-based line on which the function starts.
    pub line: u32,
    /// Its cyclomatic complexity, at least 1.
    pub complexity: u32,
}

/// A class (or, for TypeScript, an interface) found in a file.
#[derive(Debug, Clone)]
pub struct ClassInfo {
    pub name: String,
    pub line: u32,
}

/// A module that a file loads.
#[derive(Debug, Clone)]
pub struct ImportInfo {
    /// The module specifier without its quotes.
    pub module: String,
    pub line: u32,
}

impl View for FunctionInfo {
    type V = (Seq<char>, u32, u32);

    open spec fn view(&self) -> (Seq<char>, u32, u32) {
        (self.name@, self.line, self.complexity)
    }
}

impl View for ClassInfo {
    type V = (Seq<char>, u32);

    open spec fn view(&self) -> (Seq<char>, u32) {
        (self.name@, self.line)
    }
}

impl View for ImportInfo {
    type V = (Seq<char>, u32);

    open spec fn view(&self) -> (Seq<char>, u32) {
        (self.module@, self.line)
    }
}

/// What a parser extracts from one file.
#[derive(Debug)]
pub struct ParseResult {
    pub language: Language,
    pub functions: Vec<FunctionInfo>,
    pub classes: Vec<ClassInfo>,
    pub imports: Vec<ImportInfo>,
}

/// Whether `p` is what extraction yields for `lang` from tree `t` of source
/// `src`: the tree's functions, classes and imports, each in document order.
pub open spec fn extracted(lang: Language, t: &SyntaxTree, src: Seq<char>, p: &ParseResult) -> bool {
    &&& p.language == lang
    &&& p.functions@.map_values(|f: FunctionInfo| f@) == functions_of(lang, t, src)
    &&& p.classes@.map_values(|c: ClassInfo| c@) == classes_of(lang, t, src)
    &&& p.imports@.map_values(|m: ImportInfo| m@) == imports_of(lang, t, src)
}

/// The results of parsing that the grammar engine's tree decides.
pub open spec fn parse_outcome(lang: Language, src: Seq<char>, r: AnalysisResult<ParseResult>) -> bool {
    &&& r matches Ok(p) ==> exists|t: SyntaxTree| t.wf() && #[trigger] extracted(lang, &t, src, &p)
    &&& r matches Err(e) ==> (e is ParseError || e is ConfigError)
    &&& r matches Err(AnalysisError::ParseError { line, .. }) ==> line == 1
}

/// Whatever tree the grammar engine produced, every function of a
/// successful parse has complexity at least 1.
pub proof fn lemma_parsed_complexity_at_least_one(lang: Language, src: Seq<char>, r: AnalysisResult<ParseResult>)
    requires
        parse_outcome(lang, src, r),
        r is Ok,
    ensures
        forall|m: int| 0 <= m < r->Ok_0.functions@.len() ==> #[trigger] r->Ok_0.functions@[m].complexity >= 1,
{
    let p = r->Ok_0;
    let t = choose|t: SyntaxTree| t.wf() && #[trigger] extracted(lang, &t, src, &p);
    lemma_complexity_at_least_one(lang, &t, src, t.len() as int);
    assert forall|m: int| 0 <= m < p.functions@.len() implies #[trigger] p.functions@[m].complexity >= 1 by {
        assert(p.functions@.map_values(|f: FunctionInfo| f@)[m] == p.functions@[m]@);
        assert(functions_upto(lang, &t, src, t.len() as int)[m].2 >= 1);
    }
}

/// Whatever the text, even one with unbalanced braces, a parse either
/// succeeds with a best-effort extraction whose functions all have
/// complexity at least 1, or fails with a `ParseError` at line 1 (no tree
/// was produced) or a `ConfigError` (the grammar could not be loaded).
pub proof fn lemma_parse_outcomes(lang: Language, src: Seq<char>, r: AnalysisResult<ParseResult>)
    requires
        parse_outcome(lang, src, r),
    ensures
        r matches Ok(p) ==> forall|m: int| 0 <= m < p.functions@.len() ==> #[trigger] p.functions@[m].complexity >= 1,
        r matches Err(e) ==> (e matches AnalysisError::ParseError { line, .. } && line == 1) || e is ConfigError,
{
    if r is Ok {
        lemma_parsed_complexity_at_least_one(lang, src, r);
    }
}

/// Extraction depends on the tree and the text alone: two extractions from
/// the same tree of the same text list the same functions, classes and
/// imports, with the same names, lines and complexities.
pub proof fn lemma_extraction_deterministic(lang: Language, t: &SyntaxTree, src: Seq<char>, a: &ParseResult, b: &ParseResult)
    requires
        extracted(lang, t, src, a),
        extracted(lang, t, src, b),
    ensures
        a.functions@.map_values(|f: FunctionInfo| f@) == b.functions@.map_values(|f: FunctionInfo| f@),
        a.classes@.map_values(|c: ClassInfo| c@) == b.classes@.map_values(|c: ClassInfo| c@),
        a.imports@.map_values(|m: ImportInfo| m@) == b.imports@.map_values(|m: ImportInfo| m@),
{
}

/// A parser for one language.
pub trait SourceParser {
    spec fn spec_language(&self) -> Language;

    fn language(&self) -> (r: Language)
        ensures
            r == self.spec_language(),
    ;

    /// Parses `content` and extracts what it declares. Malformed content
    /// still yields a best-effort extraction from the partial tree; an error
    /// comes only when no tree is produced.
    fn parse(&self, content: &str) -> (r: AnalysisResult<ParseResult>)
        ensures
            parse_outcome(self.spec_language(), content@, r),
    ;
}

/// A parser held by the registry.
pub enum RegisteredParser {
    JavaScript(JavaScriptParser),
    TypeScript(TypeScriptParser),
}

impl SourceParser for RegisteredParser {
    open spec fn spec_language(&self) -> Language {
        match self {
            RegisteredParser::JavaScript(_) => Language::JavaScript,
            RegisteredParser::TypeScript(_) => Language::TypeScript,
        }
    }

    fn language(&self) -> (r: Language) {
        match self {
            RegisteredParser::JavaScript(p) => p.language(),
            RegisteredParser::TypeScript(p) => p.language(),
        }
    }

    fn parse(&self, content: &str) -> (r: AnalysisResult<ParseResult>) {
        match self {
            RegisteredParser::JavaScript(p) => p.parse(content),
            RegisteredParser::TypeScript(p) => p.parse(content),
        }
    }
}

/// The languages that this library has parsers for.
pub open spec fn registered(l: Language) -> bool {
    l == Language::JavaScript || l == Language::TypeScript
}

/// The mapping from language to parser, built once and then only read.
pub struct ParserRegistry {
    javascript: Option<JavaScriptParser>,
    typescript: Option<TypeScriptParser>,
}

impl View for ParserRegistry {
    /// The languages that the registry holds a parser for.
    type V = Set<Language>;

    closed spec fn view(&self) -> Set<Language> {
        Set::new(
            |l: Language|
                (l == Language::JavaScript && self.javascript is Some) || (l == Language::TypeScript
                    && self.typescript is Some),
        )
    }
}

/// A sequence with `x` appended contains `v` exactly when the sequence does
/// or `x` is `v`.
proof fn lemma_push_contains(seen: Seq<Language>, x: Language, v: Language)
    ensures
        seen.push(x).contains(v) <==> (seen.contains(v) || x == v),
{
    let now = seen.push(x);
    if now.contains(v) {
        let k = choose|k: int| 0 <= k < now.len() && now[k] == v;
        if k < seen.len() {
            assert(seen[k] == v);
        }
    }
    if x == v {
        assert(now[seen.len() as int] == v);
    }
    if seen.contains(v) {
        let k = choose|k: int| 0 <= k < seen.len() && seen[k] == v;
        assert(now[k] == v);
    }
}

impl ParserRegistry {
    /// A registry with a parser for every language that has one.
    pub fn new() -> (r: AnalysisResult<Self>)
        ensures
            r matches Ok(reg) && forall|l: Language| reg@.contains(l) <==> registered(l),
    {
        Self::with_languages(&[Language::JavaScript, Language::TypeScript])
    }

    /// A registry with parsers for those of `languages` that have one.
    pub fn with_languages(languages: &[Language]) -> (r: AnalysisResult<Self>)
        ensures
            r matches Ok(reg) && forall|l: Language| reg@.contains(l) <==> (registered(l) && languages@.contains(l)),
    {
        let mut javascript: Option<JavaScriptParser> = None;
        let mut typescript: Option<TypeScriptParser> = None;
        let mut i: usize = 0;
        while i < languages.len()
            invariant
                i <= languages@.len(),
                javascript is Some <==> languages@.subrange(0, i as int).contains(Language::JavaScript),
                typescript is Some <==> languages@.subrange(0, i as int).contains(Language::TypeScript),
            decreases languages@.len() - i,
        {
            let ghost seen = languages@.subrange(0, i as int);
            assert(languages@.subrange(0, i + 1) =~= seen.push(languages@[i as int]));
            match languages[i] {
                Language::JavaScript => {
                    javascript = match JavaScriptParser::new() {
                        Ok(p) => Some(p),
                        Err(e) => return Err(e),
                    };
                },
                Language::TypeScript => {
                    typescript = match TypeScriptParser::new() {
                        Ok(p) => Some(p),
                        Err(e) => return Err(e),
                    };
                },
                _ => {},
            }
            proof {
                lemma_push_contains(seen, languages@[i as int], Language::JavaScript);
                lemma_push_contains(seen, languages@[i as int], Language::TypeScript);
            }
            i = i + 1;
        }
        assert(languages@.subrange(0, i as int) =~= languages@);
        let reg = ParserRegistry { javascript, typescript };
        assert forall|l: Language| reg@.contains(l) <==> (registered(l) && languages@.contains(l)) by {
        }
        Ok(reg)
    }

    /// The parser of `language`; `None` when the registry holds none for it.
    pub fn get_parser(&self, language: &Language) -> (r: Option<RegisteredParser>)
        ensures
            r is Some <==> self@.contains(*language),
            r matches Some(p) ==> p.spec_language() == *language,
    {
        match language {
            Language::JavaScript => match self.javascript {
                Some(_) => Some(RegisteredParser::JavaScript(JavaScriptParser::new_parser())),
                None => None,
            },
            Language::TypeScript => match self.typescript {
                Some(_) => Some(RegisteredParser::TypeScript(TypeScriptParser::new_parser())),
                None => None,
            },
            _ => None,
        }
    }

    /// The languages that the registry holds a parser for, each once.
    pub fn supported_languages(&self) -> (r: Vec<Language>)
        ensures
            forall|l: Language| r@.contains(l) <==> self@.contains(l),
            r@.no_duplicates(),
    {
        let mut r: Vec<Language> = Vec::new();
        if self.javascript.is_some() {
            r.push(Language::JavaScript);
        }
        if self.typescript.is_some() {
            let ghost before = r@;
            r.push(Language::TypeScript);
            assert(r@ == before.push(Language::TypeScript));
        }
        assert forall|l: Language| r@.contains(l) <==> self@.contains(l) by {
            if self@.contains(l) {
                if l == Language::JavaScript {
                    assert(r@[0] == l);
                } else {
                    assert(r@[r@.len() - 1] == l);
                }
            }
        }
        r
    }
}

} // verus!
