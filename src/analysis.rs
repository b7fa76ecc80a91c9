//! The analysis engine: checks a batch, parses each file with the parser of
//! its language, and gathers metrics, findings and totals.
use vstd::prelude::*;
use vstd::string::StringSliceAdditionalSpecFns;
use crate::error::{AnalysisError, AnalysisResult};
use crate::parser::{parse_outcome, registered, ParseResult, ParserRegistry, SourceParser};
use crate::parser::extract::saturate;
use crate::text::bytes_of;
use crate::types::{
    extension_of, file_extension, language_for_extension, AnalysisRequest, AnalysisResponse, AnalysisSummary,
    FileAnalysisResult, FileMetrics, Finding, Language, Location, Severity, SourceFile,
};

verus! {

/// The most bytes that one file may hold.
pub const MAX_FILE_SIZE: usize = 1048576;

/// The most files that one batch may hold.
pub const MAX_FILES: usize = 100;

// --------------------------------------------------------------- validation

/// The language of a file: its explicit tag, else the one its extension names.
pub open spec fn resolved_language(f: SourceFile) -> Option<Language> {
    match f.language {
        Some(l) => Some(l),
        None => language_for_extension(extension_of(f.name@)),
    }
}

/// The size of a file's content in bytes.
pub open spec fn content_size(f: SourceFile) -> nat {
    bytes_of(f.content@).len()
}

/// Whether a file passes the batch checks.
pub open spec fn file_acceptable(f: SourceFile) -> bool {
    &&& f.name@.len() > 0
    &&& content_size(f) <= MAX_FILE_SIZE
    &&& resolved_language(f) is Some
}

/// Whether `e` is the error that the batch checks report for file `f`: an
/// empty name first, then an oversized content, then an unknown extension.
pub open spec fn file_error(f: SourceFile, e: AnalysisError) -> bool {
    if f.name@.len() == 0 {
        e matches AnalysisError::ValidationError { message } && message@ == "File name cannot be empty"@
    } else if content_size(f) > MAX_FILE_SIZE {
        e == AnalysisError::FileTooLarge { size_bytes: content_size(f) as usize, limit_bytes: MAX_FILE_SIZE }
    } else {
        e matches AnalysisError::UnsupportedLanguage { language } && language@ == extension_of(f.name@)
    }
}

/// Whether a batch passes the checks.
pub open spec fn batch_acceptable(files: Seq<SourceFile>) -> bool {
    &&& 1 <= files.len() <= MAX_FILES
    &&& forall|i: int| 0 <= i < files.len() ==> file_acceptable(#[trigger] files[i])
}

/// Whether `e` is the error that the batch checks report for `files`.
pub open spec fn batch_error(files: Seq<SourceFile>, e: AnalysisError) -> bool {
    if files.len() == 0 {
        e matches AnalysisError::ValidationError { message } && message@ == "At least one file must be provided"@
    } else if files.len() > MAX_FILES {
        e is ValidationError
    } else {
        exists|i: int|
            0 <= i < files.len() && (forall|j: int| 0 <= j < i ==> file_acceptable(#[trigger] files[j]))
                && !file_acceptable(files[i]) && #[trigger] file_error(files[i], e)
    }
}

fn unsupported(name: &str) -> (r: AnalysisError)
    ensures
        r matches AnalysisError::UnsupportedLanguage { language } && language@ == extension_of(name@),
{
    AnalysisError::UnsupportedLanguage { language: file_extension(name).to_owned() }
}

/// Checks one file: a name, a content of at most `MAX_FILE_SIZE` bytes, and
/// a language that can be resolved.
pub fn validate_file(f: &SourceFile) -> (r: AnalysisResult<()>)
    ensures
        r is Ok <==> file_acceptable(*f),
        r matches Err(e) ==> file_error(*f, e),
{
    if f.name.unicode_len() == 0 {
        return Err(AnalysisError::ValidationError { message: String::from_str("File name cannot be empty") });
    }
    let size = f.content.as_str().as_bytes().len();
    if size > MAX_FILE_SIZE {
        return Err(AnalysisError::FileTooLarge { size_bytes: size, limit_bytes: MAX_FILE_SIZE });
    }
    match f.language {
        Some(_) => Ok(()),
        None => match Language::from_filename(f.name.as_str()) {
            Some(_) => Ok(()),
            None => Err(unsupported(f.name.as_str())),
        },
    }
}

/// Checks a batch before any parsing: between one and `MAX_FILES` files,
/// each acceptable; the first failing check decides the error.
pub fn validate_request(request: &AnalysisRequest) -> (r: AnalysisResult<()>)
    ensures
        r is Ok <==> batch_acceptable(request.files@),
        r matches Err(e) ==> batch_error(request.files@, e),
{
    let n = request.files.len();
    if n == 0 {
        return Err(
            AnalysisError::ValidationError { message: String::from_str("At least one file must be provided") },
        );
    }
    if n > MAX_FILES {
        let mut message = String::from_str("Too many files: ");
        message.append(n.to_string().as_str());
        message.append(" (max: 100)");
        return Err(AnalysisError::ValidationError { message });
    }
    let mut i: usize = 0;
    while i < n
        invariant
            n == request.files@.len(),
            1 <= n <= MAX_FILES,
            i <= n,
            forall|j: int| 0 <= j < i ==> file_acceptable(#[trigger] request.files@[j]),
        decreases n - i,
    {
        match validate_file(&request.files[i]) {
            Ok(()) => {},
            Err(e) => {
                assert(file_error(request.files@[i as int], e));
                return Err(e);
            },
        }
        i = i + 1;
    }
    Ok(())
}

// ------------------------------------------------------------ file metrics

/// The number of `'\n'` bytes in `b`.
pub open spec fn newlines(b: Seq<u8>) -> nat
    decreases b.len(),
{
    if b.len() == 0 {
        0
    } else {
        newlines(b.drop_last()) + if b.last() == 10u8 { 1nat } else { 0nat }
    }
}

/// The number of newline-delimited lines of `b`: each `'\n'` ends one, and
/// a last line without one counts too.
pub open spec fn line_count(b: Seq<u8>) -> nat {
    newlines(b) + if b.len() > 0 && b.last() != 10u8 { 1nat } else { 0nat }
}

/// Whether `p` occurs in `b` at offset `k`.
pub open spec fn occurs_at(b: Seq<u8>, p: Seq<u8>, k: int) -> bool {
    0 <= k && k + p.len() <= b.len() && b.subrange(k, k + p.len()) == p
}

/// Whether `p` occurs anywhere in `b`.
pub open spec fn contains_bytes(b: Seq<u8>, p: Seq<u8>) -> bool {
    exists|k: int| occurs_at(b, p, k)
}

/// The lines of `content`, raw: blank and comment lines count as well.
pub fn count_lines(content: &str) -> (r: u32)
    ensures
        r == saturate(line_count(bytes_of(content@))),
{
    let b = content.as_bytes();
    let n = b.len();
    let mut count: u32 = 0;
    let mut i: usize = 0;
    while i < n
        invariant
            b@ == bytes_of(content@),
            n == b@.len(),
            i <= n,
            count == saturate(newlines(b@.subrange(0, i as int))),
        decreases n - i,
    {
        assert(b@.subrange(0, i + 1).drop_last() =~= b@.subrange(0, i as int));
        if b[i] == 10u8 && count < u32::MAX {
            count = count + 1;
        }
        i = i + 1;
    }
    assert(b@.subrange(0, n as int) =~= b@);
    if n > 0 && b[n - 1] != 10u8 && count < u32::MAX {
        count = count + 1;
    }
    count
}

/// Whether the text `p` occurs in the text `s`.
pub fn contains_text(s: &str, p: &str) -> (r: bool)
    ensures
        r == contains_bytes(bytes_of(s@), bytes_of(p@)),
{
    let b = s.as_bytes();
    let q = p.as_bytes();
    let n = b.len();
    let m = q.len();
    if m > n {
        return false;
    }
    let mut k: usize = 0;
    while k <= n - m
        invariant
            b@ == bytes_of(s@),
            q@ == bytes_of(p@),
            n == b@.len(),
            m == q@.len(),
            m <= n,
            k <= n - m + 1,
            forall|j: int| 0 <= j < k ==> !occurs_at(b@, q@, j),
        decreases n - m + 1 - k,
    {
        let mut t: usize = 0;
        while t < m && b[k + t] == q[t]
            invariant
                b@ == bytes_of(s@),
                q@ == bytes_of(p@),
                n == b@.len(),
                m == q@.len(),
                k + m <= n,
                t <= m,
                forall|u: int| 0 <= u < t ==> b@[k + u] == q@[u],
            decreases m - t,
        {
            t = t + 1;
        }
        if t == m {
            assert(b@.subrange(k as int, k + m) =~= q@);
            assert(occurs_at(b@, q@, k as int));
            return true;
        }
        assert(b@.subrange(k as int, k + m)[t as int] != q@[t as int]);
        k = k + 1;
    }
    assert forall|j: int| !occurs_at(b@, q@, j) by {
        if 0 <= j && j + m <= n {
            assert(j < k);
        }
    }
    false
}

/// Whether the placeholder rule flags `content`: it mentions `function` and
/// has fewer than five lines.
pub open spec fn flags_simple_function(content: Seq<char>) -> bool {
    contains_bytes(bytes_of(content), bytes_of("function"@)) && line_count(bytes_of(content)) < 5
}

/// The finding of the placeholder rule.
pub fn simple_function_finding() -> (r: Finding)
    ensures
        r.rule_id@ == "demo-simple-function"@,
        r.severity == Severity::Low,
        r.location == (Location { line: 1, column: 1, end_line: None, end_column: None }),
{
    Finding {
        rule_id: String::from_str("demo-simple-function"),
        severity: Severity::Low,
        message: String::from_str("Function appears to be very simple"),
        location: Location { line: 1, column: 1, end_line: None, end_column: None },
        suggestion: Some(String::from_str("Consider if this function adds value")),
    }
}

/// The line that a parse failure is reported at.
pub open spec fn error_line(e: AnalysisError) -> u32 {
    match e {
        AnalysisError::ParseError { line, .. } => line,
        _ => 1,
    }
}

/// The finding that reports a file that could not be parsed.
pub fn parse_failure_finding(e: AnalysisError) -> (r: Finding)
    ensures
        r.rule_id@ == "parse-error"@,
        r.severity == Severity::Medium,
        r.location == (Location { line: error_line(e), column: 1, end_line: None, end_column: None }),
{
    let (message, line) = match e {
        AnalysisError::ParseError { message, line } => (message, line),
        AnalysisError::ConfigError { message } => (message, 1),
        _ => (String::from_str("The file could not be parsed"), 1),
    };
    Finding {
        rule_id: String::from_str("parse-error"),
        severity: Severity::Medium,
        message,
        location: Location { line, column: 1, end_line: None, end_column: None },
        suggestion: None,
    }
}

/// Whether `r` is the analysis of a file named `name` with `content`, in
/// `language`, whose parse came out as `outcome`.
pub open spec fn analyzed(
    name: Seq<char>,
    language: Language,
    content: Seq<char>,
    outcome: AnalysisResult<ParseResult>,
    r: FileAnalysisResult,
) -> bool {
    let flagged = flags_simple_function(content);
    let failed = outcome is Err;
    &&& r.file_name@ == name
    &&& r.language == language
    &&& r.metrics.lines_of_code == saturate(line_count(bytes_of(content)))
    &&& r.metrics.complexity_score == 1
    &&& r.metrics.functions_count == match outcome {
        Ok(p) => saturate(p.functions@.len()),
        Err(_) => 0,
    }
    &&& r.metrics.classes_count == match outcome {
        Ok(p) => saturate(p.classes@.len()),
        Err(_) => 0,
    }
    &&& r.findings@.len() == (if failed { 1nat } else { 0nat }) + (if flagged { 1nat } else { 0nat })
    &&& outcome matches Err(e) ==> {
        &&& r.findings@[0].rule_id@ == "parse-error"@
        &&& r.findings@[0].severity == Severity::Medium
        &&& r.findings@[0].location.line == error_line(e)
    }
    &&& flagged ==> {
        let f = r.findings@.last();
        &&& f.rule_id@ == "demo-simple-function"@
        &&& f.severity == Severity::Low
        &&& f.location.line == 1
    }
}

fn saturating_len(n: usize) -> (r: u32)
    ensures
        r == saturate(n as nat),
{
    if n < u32::MAX as usize {
        n as u32
    } else {
        u32::MAX
    }
}

/// Builds the analysis of one file from the outcome of parsing it.
pub fn file_result(name: String, language: Language, content: &str, outcome: AnalysisResult<ParseResult>) -> (r:
    FileAnalysisResult)
    ensures
        analyzed(name@, language, content@, outcome, r),
{
    let lines_of_code = count_lines(content);
    let mut findings: Vec<Finding> = Vec::new();
    let (functions_count, classes_count) = match outcome {
        Ok(p) => (saturating_len(p.functions.len()), saturating_len(p.classes.len())),
        Err(e) => {
            findings.push(parse_failure_finding(e));
            (0, 0)
        },
    };
    if contains_text(content, "function") && lines_of_code < 5 {
        findings.push(simple_function_finding());
    }
    FileAnalysisResult {
        file_name: name,
        language,
        findings,
        metrics: FileMetrics { lines_of_code, functions_count, classes_count, complexity_score: 1 },
    }
}

// ------------------------------------------------------------------ summary

/// The number of findings in `fs` of severity `s`.
pub open spec fn count_severity(fs: Seq<Finding>, s: Severity) -> nat
    decreases fs.len(),
{
    if fs.len() == 0 {
        0
    } else {
        count_severity(fs.drop_last(), s) + if fs.last().severity == s { 1nat } else { 0nat }
    }
}

/// The number of findings of severity `s` over all of `rs`.
pub open spec fn severity_total(rs: Seq<FileAnalysisResult>, s: Severity) -> nat
    decreases rs.len(),
{
    if rs.len() == 0 {
        0
    } else {
        severity_total(rs.drop_last(), s) + count_severity(rs.last().findings@, s)
    }
}

/// The number of findings over all of `rs`.
pub open spec fn findings_total(rs: Seq<FileAnalysisResult>) -> nat
    decreases rs.len(),
{
    if rs.len() == 0 {
        0
    } else {
        findings_total(rs.drop_last()) + rs.last().findings@.len()
    }
}

/// The lines of code over all of `rs`.
pub open spec fn lines_total(rs: Seq<FileAnalysisResult>) -> nat
    decreases rs.len(),
{
    if rs.len() == 0 {
        0
    } else {
        lines_total(rs.drop_last()) + rs.last().metrics.lines_of_code as nat
    }
}

/// Appends `(s, count)` to `h` when `count` is not zero.
pub open spec fn with_count(h: Seq<(Severity, u32)>, s: Severity, count: nat) -> Seq<(Severity, u32)> {
    if count > 0 {
        h.push((s, saturate(count)))
    } else {
        h
    }
}

/// How many findings of `rs` carry each severity, for the severities that
/// occur, from `Low` to `Critical`.
pub open spec fn histogram(rs: Seq<FileAnalysisResult>) -> Seq<(Severity, u32)> {
    let h = with_count(seq![], Severity::Low, severity_total(rs, Severity::Low));
    let h = with_count(h, Severity::Medium, severity_total(rs, Severity::Medium));
    let h = with_count(h, Severity::High, severity_total(rs, Severity::High));
    with_count(h, Severity::Critical, severity_total(rs, Severity::Critical))
}

/// The totals of a batch with results `rs`.
pub open spec fn summarized(rs: Seq<FileAnalysisResult>, r: AnalysisSummary) -> bool {
    &&& r.total_files == saturate(rs.len())
    &&& r.total_findings == saturate(findings_total(rs))
    &&& r.total_lines_analyzed == saturate(lines_total(rs))
    &&& r.findings_by_severity@ == histogram(rs)
}

fn severity_count(results: &Vec<FileAnalysisResult>, s: Severity) -> (r: u32)
    ensures
        r == saturate(severity_total(results@, s)),
{
    let mut count: u32 = 0;
    let mut i: usize = 0;
    while i < results.len()
        invariant
            i <= results@.len(),
            count == saturate(severity_total(results@.subrange(0, i as int), s)),
        decreases results@.len() - i,
    {
        let findings = &results[i].findings;
        let ghost before = severity_total(results@.subrange(0, i as int), s);
        assert(results@.subrange(0, i + 1).drop_last() =~= results@.subrange(0, i as int));
        let mut j: usize = 0;
        assert(findings@.subrange(0, 0) =~= Seq::<Finding>::empty());
        while j < findings.len()
            invariant
                j <= findings@.len(),
                count == saturate(before + count_severity(findings@.subrange(0, j as int), s)),
            decreases findings@.len() - j,
        {
            assert(findings@.subrange(0, j + 1).drop_last() =~= findings@.subrange(0, j as int));
            if findings[j].severity == s && count < u32::MAX {
                count = count + 1;
            }
            j = j + 1;
        }
        assert(findings@.subrange(0, j as int) =~= findings@);
        i = i + 1;
    }
    assert(results@.subrange(0, i as int) =~= results@);
    count
}

/// The totals of a batch: files, findings, lines and findings per severity.
pub fn summarize(results: &Vec<FileAnalysisResult>) -> (r: AnalysisSummary)
    ensures
        summarized(results@, r),
{
    let mut findings: u32 = 0;
    let mut lines: u32 = 0;
    let mut i: usize = 0;
    while i < results.len()
        invariant
            i <= results@.len(),
            findings == saturate(findings_total(results@.subrange(0, i as int))),
            lines == saturate(lines_total(results@.subrange(0, i as int))),
        decreases results@.len() - i,
    {
        assert(results@.subrange(0, i + 1).drop_last() =~= results@.subrange(0, i as int));
        let n = results[i].findings.len();
        findings = if n as u64 >= (u32::MAX - findings) as u64 {
            u32::MAX
        } else {
            findings + n as u32
        };
        let l = results[i].metrics.lines_of_code;
        lines = if l >= u32::MAX - lines {
            u32::MAX
        } else {
            lines + l
        };
        i = i + 1;
    }
    assert(results@.subrange(0, i as int) =~= results@);
    let mut by_severity: Vec<(Severity, u32)> = Vec::new();
    let low = severity_count(results, Severity::Low);
    if low > 0 {
        by_severity.push((Severity::Low, low));
    }
    let medium = severity_count(results, Severity::Medium);
    if medium > 0 {
        by_severity.push((Severity::Medium, medium));
    }
    let high = severity_count(results, Severity::High);
    if high > 0 {
        by_severity.push((Severity::High, high));
    }
    let critical = severity_count(results, Severity::Critical);
    if critical > 0 {
        by_severity.push((Severity::Critical, critical));
    }
    AnalysisSummary {
        total_files: saturating_len(results.len()),
        total_findings: findings,
        findings_by_severity: by_severity,
        total_lines_analyzed: lines,
    }
}

// ------------------------------------------------------------------- engine

#[verifier::external_type_specification]
#[verifier::external_body]
pub struct ExInstant(std::time::Instant);

/// Relies on `std::time::Instant::now`: the current instant.
#[verifier::external_body]
fn start_clock() -> std::time::Instant {
    std::time::Instant::now()
}

/// Relies on `std::time::Instant::elapsed`: the time since `start`, in whole
/// milliseconds.
#[verifier::external_body]
fn elapsed_millis(start: &std::time::Instant) -> u64 {
    start.elapsed().as_millis() as u64
}

/// The name of a language as errors report it.
pub open spec fn language_label(l: Language) -> Seq<char> {
    match l {
        Language::JavaScript => "JavaScript"@,
        Language::TypeScript => "TypeScript"@,
        Language::Python => "Python"@,
        Language::Go => "Go"@,
        Language::Rust => "Rust"@,
    }
}

fn label_of(l: Language) -> (r: String)
    ensures
        r@ == language_label(l),
{
    match l {
        Language::JavaScript => String::from_str("JavaScript"),
        Language::TypeScript => String::from_str("TypeScript"),
        Language::Python => String::from_str("Python"),
        Language::Go => String::from_str("Go"),
        Language::Rust => String::from_str("Rust"),
    }
}

/// Whether file `f` has a language among `langs`.
pub open spec fn has_parser(langs: Set<Language>, f: SourceFile) -> bool {
    resolved_language(f) matches Some(l) && langs.contains(l)
}

/// Whether `r` analyses file `f`: for some outcome that parsing `f` in its
/// language may have, `r` is what that outcome gives.
pub open spec fn file_analyzed(f: SourceFile, r: FileAnalysisResult) -> bool {
    match resolved_language(f) {
        Some(l) => exists|o: AnalysisResult<ParseResult>|
            parse_outcome(l, f.content@, o) && #[trigger] analyzed(f.name@, l, f.content@, o, r),
        None => false,
    }
}

/// The error of a batch that passes the checks but holds a file whose
/// language has no parser: the first such file's language names it.
pub open spec fn missing_parser_error(langs: Set<Language>, files: Seq<SourceFile>, e: AnalysisError) -> bool {
    exists|i: int|
        0 <= i < files.len() && (forall|j: int| 0 <= j < i ==> has_parser(langs, #[trigger] files[j]))
            && !has_parser(langs, files[i]) && (#[trigger] resolved_language(files[i]) matches Some(l)
            && e matches AnalysisError::UnsupportedLanguage { language } && language@ == language_label(l))
}

fn resolve(f: &SourceFile) -> (r: Option<Language>)
    ensures
        r == resolved_language(*f),
{
    match f.language {
        Some(l) => Some(l),
        None => Language::from_filename(f.name.as_str()),
    }
}

/// Analyses batches of files with the parsers of a registry.
pub struct AnalysisEngine {
    parser_registry: ParserRegistry,
}

impl AnalysisEngine {
    /// The languages that the engine has parsers for.
    pub closed spec fn languages(&self) -> Set<Language> {
        self.parser_registry@
    }

    /// An engine with a parser for every language that has one.
    pub fn new() -> (r: AnalysisResult<Self>)
        ensures
            r matches Ok(engine) && forall|l: Language| engine.languages().contains(l) <==> registered(l),
    {
        match ParserRegistry::new() {
            Ok(parser_registry) => Ok(AnalysisEngine { parser_registry }),
            Err(e) => Err(e),
        }
    }

    /// An engine that parses with the parsers of `parser_registry`.
    pub fn with_registry(parser_registry: ParserRegistry) -> (r: Self)
        ensures
            r.languages() == parser_registry@,
    {
        AnalysisEngine { parser_registry }
    }

    /// Analyses a batch. The batch checks and the language of every file are
    /// settled before any parsing, and a failure there fails the whole batch;
    /// a file that cannot be parsed is reported in its own result instead.
    pub fn analyze(&self, request: AnalysisRequest) -> (r: AnalysisResult<AnalysisResponse>)
        ensures
            r is Ok <==> batch_acceptable(request.files@) && forall|i: int|
                0 <= i < request.files@.len() ==> has_parser(self.languages(), #[trigger] request.files@[i]),
            !batch_acceptable(request.files@) ==> (r matches Err(e) && batch_error(request.files@, e)),
            batch_acceptable(request.files@) ==> (r matches Err(e) ==> missing_parser_error(
                self.languages(),
                request.files@,
                e,
            )),
            r matches Ok(resp) ==> {
                &&& resp.results@.len() == request.files@.len()
                &&& forall|i: int|
                    0 <= i < request.files@.len() ==> file_analyzed(
                        #[trigger] request.files@[i],
                        resp.results@[i],
                    )
                &&& summarized(resp.results@, resp.summary)
            },
    {
        let start = start_clock();
        match validate_request(&request) {
            Ok(()) => {},
            Err(e) => return Err(e),
        }
        let files = &request.files;
        let n = files.len();
        let mut languages: Vec<Language> = Vec::new();
        let mut i: usize = 0;
        while i < n
            invariant
                n == files@.len(),
                files@ == request.files@,
                batch_acceptable(files@),
                i <= n,
                languages@.len() == i,
                forall|j: int| 0 <= j < i ==> has_parser(self.languages(), #[trigger] files@[j]),
                forall|j: int| 0 <= j < i ==> resolved_language(files@[j]) == Some(#[trigger] languages@[j]),
            decreases n - i,
        {
            let lang = match resolve(&files[i]) {
                Some(l) => l,
                None => {
                    proof {
                        assert(file_acceptable(files@[i as int]));
                    }
                    return Err(unsupported(files[i].name.as_str()));
                },
            };
            match self.parser_registry.get_parser(&lang) {
                Some(_) => {},
                None => {
                    let e = AnalysisError::UnsupportedLanguage { language: label_of(lang) };
                    assert(missing_parser_error(self.languages(), files@, e)) by {
                        assert(resolved_language(files@[i as int]) matches Some(l));
                    }
                    return Err(e);
                },
            }
            languages.push(lang);
            i = i + 1;
        }
        let mut results: Vec<FileAnalysisResult> = Vec::new();
        let mut k: usize = 0;
        while k < n
            invariant
                n == files@.len(),
                files@ == request.files@,
                k <= n,
                languages@.len() == n,
                results@.len() == k,
                forall|j: int| 0 <= j < n ==> has_parser(self.languages(), #[trigger] files@[j]),
                forall|j: int| 0 <= j < n ==> resolved_language(files@[j]) == Some(#[trigger] languages@[j]),
                forall|j: int| 0 <= j < k ==> file_analyzed(#[trigger] files@[j], results@[j]),
            decreases n - k,
        {
            let file = &files[k];
            let lang = languages[k];
            assert(resolved_language(files@[k as int]) == Some(languages@[k as int]));
            let parser = match self.parser_registry.get_parser(&lang) {
                Some(p) => p,
                None => {
                    let e = AnalysisError::UnsupportedLanguage { language: label_of(lang) };
                    return Err(e);
                },
            };
            let outcome = parser.parse(file.content.as_str());
            let result = file_result(file.name.clone(), lang, file.content.as_str(), outcome);
            assert(analyzed(file.name@, lang, file.content@, outcome, result));
            results.push(result);
            assert(file_analyzed(files@[k as int], results@[k as int]));
            k = k + 1;
        }
        let summary = summarize(&results);
        let execution_time_ms = elapsed_millis(&start);
        Ok(AnalysisResponse { results, summary, execution_time_ms })
    }
}

} // verus!
