//! The request and response model of an analysis, and language resolution.
use sha2::Digest;
use vstd::prelude::*;

verus! {

/// A source language that a file may be written in.
#[derive(Debug, Clone, Copy, PartialEq, Eq, Hash, Structural)]
pub enum Language {
    JavaScript,
    TypeScript,
    Python,
    Go,
    Rust,
}

/// The index of the last `'.'` in `s`, or -1 when it has none.
pub open spec fn last_dot(s: Seq<char>) -> int
    decreases s.len(),
{
    if s.len() == 0 {
        -1
    } else if s.last() == '.' {
        s.len() - 1
    } else {
        last_dot(s.drop_last())
    }
}

/// What follows the last `'.'` of a file name; the whole name if it has none.
pub open spec fn extension_of(s: Seq<char>) -> Seq<char> {
    s.subrange(last_dot(s) + 1, s.len() as int)
}

/// The language that a file extension names (case-sensitive).
pub open spec fn language_for_extension(e: Seq<char>) -> Option<Language> {
    if e == "js"@ || e == "jsx"@ || e == "mjs"@ {
        Some(Language::JavaScript)
    } else if e == "ts"@ || e == "tsx"@ {
        Some(Language::TypeScript)
    } else if e == "py"@ || e == "pyi"@ {
        Some(Language::Python)
    } else if e == "go"@ {
        Some(Language::Go)
    } else if e == "rs"@ {
        Some(Language::Rust)
    } else {
        None
    }
}

/// The extensions that name each language.
pub open spec fn extensions_of(l: Language) -> Seq<Seq<char>> {
    match l {
        Language::JavaScript => seq!["js"@, "jsx"@, "mjs"@],
        Language::TypeScript => seq!["ts"@, "tsx"@],
        Language::Python => seq!["py"@, "pyi"@],
        Language::Go => seq!["go"@],
        Language::Rust => seq!["rs"@],
    }
}

/// Each extension that a language lists names that language, so that a file
/// named with it resolves back to the language.
pub proof fn lemma_extensions_name_their_language(l: Language, k: int)
    requires
        0 <= k < extensions_of(l).len(),
    ensures
        language_for_extension(extensions_of(l)[k]) == Some(l),
{
    reveal_strlit("js");
    reveal_strlit("jsx");
    reveal_strlit("mjs");
    reveal_strlit("ts");
    reveal_strlit("tsx");
    reveal_strlit("py");
    reveal_strlit("pyi");
    reveal_strlit("go");
    reveal_strlit("rs");
    assert("js"@.len() == 2 && "js"@[0] == 'j');
    assert("jsx"@.len() == 3 && "jsx"@[0] == 'j');
    assert("mjs"@.len() == 3 && "mjs"@[0] == 'm');
    assert("ts"@.len() == 2 && "ts"@[0] == 't');
    assert("tsx"@.len() == 3 && "tsx"@[0] == 't');
    assert("py"@.len() == 2 && "py"@[0] == 'p');
    assert("pyi"@.len() == 3 && "pyi"@[0] == 'p');
    assert("go"@.len() == 2 && "go"@[0] == 'g');
    assert("rs"@.len() == 2 && "rs"@[0] == 'r');
}

proof fn lemma_last_dot_bounds(s: Seq<char>)
    ensures
        -1 <= last_dot(s) < s.len(),
        last_dot(s) >= 0 ==> s[last_dot(s)] == '.',
        forall|k: int| last_dot(s) < k < s.len() ==> s[k] != '.',
    decreases s.len(),
{
    if s.len() > 0 && s.last() != '.' {
        let t = s.drop_last();
        lemma_last_dot_bounds(t);
        assert forall|k: int| last_dot(s) < k < s.len() implies s[k] != '.' by {
            if k < t.len() {
                assert(s[k] == t[k]);
            }
        }
    }
}

/// The position just after the last `'.'` of `name`, in characters.
fn extension_start(name: &str) -> (r: usize)
    ensures
        r == last_dot(name@) + 1,
{
    let n = name.unicode_len();
    let mut i = n;
    proof {
        lemma_last_dot_bounds(name@);
    }
    while i > 0
        invariant
            n == name@.len(),
            i <= n,
            last_dot(name@) < i,
            last_dot(name@) >= 0 ==> name@[last_dot(name@)] == '.',
            forall|k: int| i <= k < n ==> name@[k] != '.',
        decreases i,
    {
        if name.get_char(i - 1) == '.' {
            proof {
                lemma_last_dot_bounds(name@);
            }
            return i;
        }
        i = i - 1;
    }
    proof {
        lemma_last_dot_bounds(name@);
    }
    0
}

/// What follows the last `'.'` of `filename`; all of it when it has none.
pub fn file_extension<'a>(filename: &'a str) -> (r: &'a str)
    ensures
        r@ == extension_of(filename@),
{
    let start = extension_start(filename);
    proof {
        lemma_last_dot_bounds(filename@);
    }
    filename.substring_char(start, filename.unicode_len())
}

impl Language {
    /// The language named by the extension of `filename`: what follows its
    /// last `'.'`, or the whole name when it has none.
    pub fn from_filename(filename: &str) -> (r: Option<Language>)
        ensures
            r == language_for_extension(extension_of(filename@)),
    {
        let ext = file_extension(filename);
        if crate::text::same_text(ext, "js") || crate::text::same_text(ext, "jsx")
            || crate::text::same_text(ext, "mjs") {
            Some(Language::JavaScript)
        } else if crate::text::same_text(ext, "ts") || crate::text::same_text(ext, "tsx") {
            Some(Language::TypeScript)
        } else if crate::text::same_text(ext, "py") || crate::text::same_text(ext, "pyi") {
            Some(Language::Python)
        } else if crate::text::same_text(ext, "go") {
            Some(Language::Go)
        } else if crate::text::same_text(ext, "rs") {
            Some(Language::Rust)
        } else {
            None
        }
    }

    /// The file extensions that name this language.
    pub fn supported_extensions(&self) -> (r: &'static [&'static str])
        ensures
            r@.len() == extensions_of(*self).len(),
            forall|k: int| 0 <= k < r@.len() ==> r@[k]@ == #[trigger] extensions_of(*self)[k],
    {
        match self {
            Language::JavaScript => &["js", "jsx", "mjs"],
            Language::TypeScript => &["ts", "tsx"],
            Language::Python => &["py", "pyi"],
            Language::Go => &["go"],
            Language::Rust => &["rs"],
        }
    }
}

/// A file handed in for analysis.
#[derive(Debug, Clone)]
pub struct SourceFile {
    pub name: String,
    pub content: String,
    /// An explicit language tag; when absent the name's extension decides.
    pub language: Option<Language>,
}

/// A batch of files and the rule options to apply to them.
#[derive(Debug, Clone)]
pub struct AnalysisRequest {
    pub files: Vec<SourceFile>,
    pub rules: Option<RuleConfig>,
}

/// Options of the rule engine.
#[derive(Debug, Clone)]
pub struct RuleConfig {
    pub complexity_threshold: Option<u32>,
    pub max_function_length: Option<u32>,
    pub enable_security_rules: Option<bool>,
    pub enable_dead_code_detection: Option<bool>,
}

impl Default for RuleConfig {
    fn default() -> (r: Self)
        ensures
            r.complexity_threshold == Some(10u32),
            r.max_function_length == Some(50u32),
            r.enable_security_rules == Some(true),
            r.enable_dead_code_detection == Some(true),
    {
        RuleConfig {
            complexity_threshold: Some(10),
            max_function_length: Some(50),
            enable_security_rules: Some(true),
            enable_dead_code_detection: Some(true),
        }
    }
}

/// The outcome of analysing a batch.
#[derive(Debug)]
pub struct AnalysisResponse {
    pub results: Vec<FileAnalysisResult>,
    pub summary: AnalysisSummary,
    pub execution_time_ms: u64,
}

/// The outcome of analysing one file.
#[derive(Debug)]
pub struct FileAnalysisResult {
    pub file_name: String,
    pub language: Language,
    pub findings: Vec<Finding>,
    pub metrics: FileMetrics,
}

/// A reported rule violation.
#[derive(Debug)]
pub struct Finding {
    pub rule_id: String,
    pub severity: Severity,
    pub message: String,
    pub location: Location,
    pub suggestion: Option<String>,
}

#[derive(Debug, Clone, Copy, PartialEq, Eq, Hash, Structural)]
pub enum Severity {
    Low,
    Medium,
    High,
    Critical,
}

/// A position in a source file, 1-based.
#[derive(Debug, Clone, Copy, PartialEq, Eq, Structural)]
pub struct Location {
    pub line: u32,
    pub column: u32,
    pub end_line: Option<u32>,
    pub end_column: Option<u32>,
}

/// Size and structure figures of one file.
#[derive(Debug, Clone, Copy, PartialEq, Eq, Structural)]
pub struct FileMetrics {
    /// The number of newline-delimited lines of the content.
    pub lines_of_code: u32,
    pub functions_count: u32,
    pub classes_count: u32,
    /// A file-level score; a fixed placeholder for now.
    pub complexity_score: u32,
}

/// Totals over a batch.
#[derive(Debug)]
pub struct AnalysisSummary {
    pub total_files: u32,
    pub total_findings: u32,
    /// How many findings carry each severity; each severity appears at most once.
    pub findings_by_severity: Vec<(Severity, u32)>,
    pub total_lines_analyzed: u32,
}

/// The lower-case hexadecimal SHA-256 digest of a text's UTF-8 bytes.
pub uninterp spec fn sha256_hex(content: Seq<char>) -> Seq<char>;

/// Relies on `sha2::Sha256::digest`, printed with `{:x}`: the lower-case hex
/// form of the 32-byte SHA-256 digest of the UTF-8 bytes of `content`.
#[verifier::external_body]
fn sha256_hex_digest(content: &str) -> (r: String)
    ensures
        r@ == sha256_hex(content@),
        r@.len() == 64,
{
    format!("{:x}", sha2::Sha256::digest(content.as_bytes()))
}

/// A digest that identifies a file's content.
#[derive(Debug, Clone, PartialEq, Eq, Hash)]
pub struct ContentHash(pub String);

impl ContentHash {
    pub fn from_content(content: &str) -> (r: ContentHash)
        ensures
            r.0@ == sha256_hex(content@),
    {
        ContentHash(sha256_hex_digest(content))
    }
}

} // verus!
