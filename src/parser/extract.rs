//! Extraction of functions, classes and imports from a syntax tree, shared by
//! the JavaScript and TypeScript grammars and steered by per-language tables.
use vstd::prelude::*;
use crate::parser::{ClassInfo, FunctionInfo, ImportInfo};
use crate::syntax::SyntaxTree;
use crate::text::{same_text, slice_text, text_between};
use crate::types::Language;

verus! {

// ---------------------------------------------------------------- node text

/// The source text that node `i` covers.
pub open spec fn node_text(t: &SyntaxTree, src: Seq<char>, i: int) -> Option<Seq<char>> {
    slice_text(src, t.nodes@[i].start_byte as int, t.nodes@[i].end_byte as int)
}

/// The source text of the first child of `p` under field `f`.
pub open spec fn field_text(t: &SyntaxTree, src: Seq<char>, p: int, f: Seq<char>) -> Option<Seq<char>> {
    match t.field_child(p, f) {
        Some(j) => node_text(t, src, j),
        None => None,
    }
}

pub fn text_of(t: &SyntaxTree, src: &str, i: usize) -> (r: Option<String>)
    requires
        i < t.nodes@.len(),
    ensures
        r matches Some(s) ==> node_text(t, src@, i as int) == Some(s@),
        r is None ==> node_text(t, src@, i as int) is None,
{
    text_between(src, t.nodes[i].start_byte, t.nodes[i].end_byte)
}

pub fn text_of_field(t: &SyntaxTree, src: &str, p: usize, f: &str) -> (r: Option<String>)
    requires
        t.wf(),
        p < t.nodes@.len(),
    ensures
        r matches Some(s) ==> field_text(t, src@, p as int, f@) == Some(s@),
        r is None ==> field_text(t, src@, p as int, f@) is None,
{
    match t.child_by_field(p, f) {
        Some(j) => text_of(t, src, j),
        None => None,
    }
}

// ---------------------------------------------------------- quote stripping

/// `s` without its leading run of `c`.
pub open spec fn trim_start(s: Seq<char>, c: char) -> Seq<char>
    decreases s.len(),
{
    if s.len() > 0 && s[0] == c {
        trim_start(s.drop_first(), c)
    } else {
        s
    }
}

/// `s` without its trailing run of `c`.
pub open spec fn trim_end(s: Seq<char>, c: char) -> Seq<char>
    decreases s.len(),
{
    if s.len() > 0 && s.last() == c {
        trim_end(s.drop_last(), c)
    } else {
        s
    }
}

/// `s` without the runs of `c` at either end.
pub open spec fn trim_char(s: Seq<char>, c: char) -> Seq<char> {
    trim_end(trim_start(s, c), c)
}

/// A module specifier with its quote characters stripped: first every
/// surrounding `"`, then every surrounding `'`.
pub open spec fn unquote(s: Seq<char>) -> Seq<char> {
    trim_char(trim_char(s, '"'), '\'')
}

fn trim_matching(s: &str, c: char) -> (r: String)
    ensures
        r@ == trim_char(s@, c),
{
    let n = s.unicode_len();
    let mut lo: usize = 0;
    assert(s@.subrange(0, n as int) =~= s@);
    while lo < n && s.get_char(lo) == c
        invariant
            n == s@.len(),
            lo <= n,
            trim_start(s@, c) == trim_start(s@.subrange(lo as int, n as int), c),
        decreases n - lo,
    {
        assert(s@.subrange(lo as int, n as int).drop_first() =~= s@.subrange(lo + 1, n as int));
        lo = lo + 1;
    }
    let ghost mid = s@.subrange(lo as int, n as int);
    assert(trim_start(s@, c) == mid);
    let mut hi: usize = n;
    while hi > lo && s.get_char(hi - 1) == c
        invariant
            n == s@.len(),
            lo <= hi <= n,
            trim_end(mid, c) == trim_end(s@.subrange(lo as int, hi as int), c),
        decreases hi,
    {
        assert(s@.subrange(lo as int, hi as int).drop_last() =~= s@.subrange(lo as int, hi - 1));
        hi = hi - 1;
    }
    s.substring_char(lo, hi).to_owned()
}

/// Strips the quote characters that surround a module specifier.
pub fn unquote_module(s: &str) -> (r: String)
    ensures
        r@ == unquote(s@),
{
    let once = trim_matching(s, '"');
    trim_matching(once.as_str(), '\'')
}

// --------------------------------------------------------------- complexity

/// The node kinds that each open one more decision path.
pub open spec fn is_branch_kind(k: Seq<char>) -> bool {
    ||| k == "if_statement"@
    ||| k == "while_statement"@
    ||| k == "for_statement"@
    ||| k == "for_in_statement"@
    ||| k == "for_of_statement"@
    ||| k == "do_statement"@
    ||| k == "switch_statement"@
    ||| k == "catch_clause"@
    ||| k == "conditional_expression"@
    ||| k == "ternary_expression"@
}

/// Whether node `i` is a binary expression whose operator is `&&` or `||`.
pub open spec fn is_short_circuit(t: &SyntaxTree, i: int) -> bool {
    &&& t.kind(i) == "binary_expression"@
    &&& t.field_child(i, "operator"@) matches Some(o) && (t.kind(o) == "&&"@ || t.kind(o) == "||"@)
}

/// Whether node `i` is a decision point.
pub open spec fn is_decision(t: &SyntaxTree, i: int) -> bool {
    is_branch_kind(t.kind(i)) || is_short_circuit(t, i)
}

/// The number of decision points among the nodes `from .. to`.
pub open spec fn decisions_in(t: &SyntaxTree, from: int, to: int) -> nat
    decreases to - from,
{
    if from >= to {
        0
    } else {
        decisions_in(t, from, to - 1) + if is_decision(t, to - 1) { 1nat } else { 0nat }
    }
}

/// `n` as a `u32`, saturating at its largest value.
pub open spec fn saturate(n: nat) -> u32 {
    if n < u32::MAX { n as u32 } else { u32::MAX }
}

/// The cyclomatic complexity of the function at node `i`: one, plus one for
/// each decision point anywhere in its subtree (nested functions included).
pub open spec fn complexity(t: &SyntaxTree, i: int) -> u32 {
    saturate(1 + decisions_in(t, i, t.nodes@[i].end as int))
}

pub fn is_decision_node(t: &SyntaxTree, i: usize) -> (r: bool)
    requires
        t.wf(),
        i < t.nodes@.len(),
    ensures
        r == is_decision(t, i as int),
{
    if t.is_kind(i, "if_statement") || t.is_kind(i, "while_statement") || t.is_kind(i, "for_statement")
        || t.is_kind(i, "for_in_statement") || t.is_kind(i, "for_of_statement") || t.is_kind(i, "do_statement")
        || t.is_kind(i, "switch_statement") || t.is_kind(i, "catch_clause")
        || t.is_kind(i, "conditional_expression") || t.is_kind(i, "ternary_expression") {
        return true;
    }
    if !t.is_kind(i, "binary_expression") {
        return false;
    }
    match t.child_by_field(i, "operator") {
        Some(o) => t.is_kind(o, "&&") || t.is_kind(o, "||"),
        None => false,
    }
}

/// The cyclomatic complexity of the function at node `i`.
pub fn calculate_complexity(t: &SyntaxTree, i: usize) -> (r: u32)
    requires
        t.wf(),
        i < t.nodes@.len(),
    ensures
        r == complexity(t, i as int),
        r >= 1,
{
    let end = t.nodes[i].end;
    let mut count: u32 = 1;
    let mut j = i;
    while j < end
        invariant
            t.wf(),
            i < t.nodes@.len(),
            end == t.nodes@[i as int].end,
            i <= j <= end,
            count == saturate(1 + decisions_in(t, i as int, j as int)),
        decreases end - j,
    {
        if is_decision_node(t, j) && count < u32::MAX {
            count = count + 1;
        }
        j = j + 1;
    }
    count
}

// ---------------------------------------------------------------- functions

/// How a node kind declares a function.
pub enum FunctionForm {
    /// A named declaration or method; its `name` field names it.
    Named,
    /// An arrow function; its binding context names it.
    Arrow,
    /// A function expression; named by its own `name` field if it has one,
    /// else by its binding context.
    Expression,
    /// A bodiless signature (TypeScript); named by its `name` field, with
    /// complexity 1.
    Signature,
}

/// The table of function-declaring node kinds of each grammar.
pub open spec fn function_form(lang: Language, k: Seq<char>) -> Option<FunctionForm> {
    if k == "function_declaration"@ || k == "method_definition"@ {
        Some(FunctionForm::Named)
    } else if k == "arrow_function"@ {
        Some(FunctionForm::Arrow)
    } else if k == "function_expression"@ {
        Some(FunctionForm::Expression)
    } else if lang == Language::TypeScript && k == "method_signature"@ {
        Some(FunctionForm::Named)
    } else if lang == Language::TypeScript && k == "function_signature"@ {
        Some(FunctionForm::Signature)
    } else {
        None
    }
}

/// The name of an anonymous function at node `i`, from the node it stands
/// in: a variable's name, an assignment's left-hand side or an object key,
/// else `"anonymous"`. `None` for the root or when the naming text cannot
/// be read.
pub open spec fn binding_name(t: &SyntaxTree, src: Seq<char>, i: int) -> Option<Seq<char>> {
    match t.nodes@[i].parent {
        None => None,
        Some(p) => {
            let p = p as int;
            if t.kind(p) == "variable_declarator"@ {
                field_text(t, src, p, "name"@)
            } else if t.kind(p) == "assignment_expression"@ {
                field_text(t, src, p, "left"@)
            } else if t.kind(p) == "pair"@ {
                field_text(t, src, p, "key"@)
            } else {
                Some("anonymous"@)
            }
        },
    }
}

/// The function that node `i` declares, if any: its name, line and
/// complexity.
pub open spec fn function_entry(lang: Language, t: &SyntaxTree, src: Seq<char>, i: int) -> Option<
    (Seq<char>, u32, u32),
> {
    let name = match function_form(lang, t.kind(i)) {
        None => None,
        Some(FunctionForm::Named) => field_text(t, src, i, "name"@),
        Some(FunctionForm::Signature) => field_text(t, src, i, "name"@),
        Some(FunctionForm::Arrow) => binding_name(t, src, i),
        Some(FunctionForm::Expression) => if t.field_child(i, "name"@) is Some {
            field_text(t, src, i, "name"@)
        } else {
            binding_name(t, src, i)
        },
    };
    match name {
        None => None,
        Some(n) => Some(
            (
                n,
                t.line(i),
                if function_form(lang, t.kind(i)) == Some(FunctionForm::Signature) {
                    1u32
                } else {
                    complexity(t, i)
                },
            ),
        ),
    }
}

/// The functions declared by nodes `0 .. k`, in document order.
pub open spec fn functions_upto(lang: Language, t: &SyntaxTree, src: Seq<char>, k: int) -> Seq<
    (Seq<char>, u32, u32),
>
    decreases k,
{
    if k <= 0 {
        seq![]
    } else {
        let prev = functions_upto(lang, t, src, k - 1);
        match function_entry(lang, t, src, k - 1) {
            Some(e) => prev.push(e),
            None => prev,
        }
    }
}

/// All functions of the tree, in document order.
pub open spec fn functions_of(lang: Language, t: &SyntaxTree, src: Seq<char>) -> Seq<
    (Seq<char>, u32, u32),
> {
    functions_upto(lang, t, src, t.len() as int)
}

fn form_of(lang: Language, t: &SyntaxTree, i: usize) -> (r: Option<FunctionForm>)
    requires
        i < t.nodes@.len(),
    ensures
        r == function_form(lang, t.kind(i as int)),
{
    if t.is_kind(i, "function_declaration") || t.is_kind(i, "method_definition") {
        Some(FunctionForm::Named)
    } else if t.is_kind(i, "arrow_function") {
        Some(FunctionForm::Arrow)
    } else if t.is_kind(i, "function_expression") {
        Some(FunctionForm::Expression)
    } else if lang == Language::TypeScript && t.is_kind(i, "method_signature") {
        Some(FunctionForm::Named)
    } else if lang == Language::TypeScript && t.is_kind(i, "function_signature") {
        Some(FunctionForm::Signature)
    } else {
        None
    }
}

/// The name that the binding context of node `i` gives it.
pub fn resolve_binding_name(t: &SyntaxTree, src: &str, i: usize) -> (r: Option<String>)
    requires
        t.wf(),
        i < t.nodes@.len(),
    ensures
        r matches Some(s) ==> binding_name(t, src@, i as int) == Some(s@),
        r is None ==> binding_name(t, src@, i as int) is None,
{
    assert(t.nodes@[i as int].end <= t.nodes@.len());
    match t.nodes[i].parent {
        None => None,
        Some(p) => {
            if t.is_kind(p, "variable_declarator") {
                text_of_field(t, src, p, "name")
            } else if t.is_kind(p, "assignment_expression") {
                text_of_field(t, src, p, "left")
            } else if t.is_kind(p, "pair") {
                text_of_field(t, src, p, "key")
            } else {
                Some("anonymous".to_string())
            }
        },
    }
}

/// The function that node `i` declares, if any.
pub fn function_at(lang: Language, t: &SyntaxTree, src: &str, i: usize) -> (r: Option<FunctionInfo>)
    requires
        t.wf(),
        i < t.nodes@.len(),
    ensures
        r matches Some(f) ==> function_entry(lang, t, src@, i as int) == Some(f@),
        r is None ==> function_entry(lang, t, src@, i as int) is None,
{
    let form = form_of(lang, t, i);
    let name = match form {
        None => None,
        Some(FunctionForm::Named) => text_of_field(t, src, i, "name"),
        Some(FunctionForm::Signature) => text_of_field(t, src, i, "name"),
        Some(FunctionForm::Arrow) => resolve_binding_name(t, src, i),
        Some(FunctionForm::Expression) => if t.child_by_field(i, "name").is_some() {
            text_of_field(t, src, i, "name")
        } else {
            resolve_binding_name(t, src, i)
        },
    };
    match name {
        None => None,
        Some(n) => {
            let complexity = match form {
                Some(FunctionForm::Signature) => 1,
                _ => calculate_complexity(t, i),
            };
            Some(FunctionInfo { name: n, line: t.line_of(i), complexity })
        },
    }
}

/// The functions of the tree, in document (pre-)order.
pub fn extract_functions(lang: Language, t: &SyntaxTree, src: &str) -> (r: Vec<FunctionInfo>)
    requires
        t.wf(),
    ensures
        r@.map_values(|f: FunctionInfo| f@) == functions_of(lang, t, src@),
{
    let mut out: Vec<FunctionInfo> = Vec::new();
    let mut i: usize = 0;
    while i < t.nodes.len()
        invariant
            t.wf(),
            i <= t.nodes@.len(),
            out@.map_values(|f: FunctionInfo| f@) == functions_upto(lang, t, src@, i as int),
        decreases t.nodes@.len() - i,
    {
        match function_at(lang, t, src, i) {
            Some(f) => {
                out.push(f);
                assert(out@.map_values(|f: FunctionInfo| f@) =~= functions_upto(lang, t, src@, i + 1));
            },
            None => {},
        }
        i = i + 1;
    }
    out
}

// ------------------------------------------------------------------ classes

/// The table of class-declaring node kinds: class declarations, and for
/// TypeScript abstract class and interface declarations too.
pub open spec fn is_class_kind(lang: Language, k: Seq<char>) -> bool {
    ||| k == "class_declaration"@
    ||| (lang == Language::TypeScript && k == "abstract_class_declaration"@)
    ||| (lang == Language::TypeScript && k == "interface_declaration"@)
}

/// The class that node `i` declares, if any: its name and line.
pub open spec fn class_entry(lang: Language, t: &SyntaxTree, src: Seq<char>, i: int) -> Option<
    (Seq<char>, u32),
> {
    if is_class_kind(lang, t.kind(i)) {
        match field_text(t, src, i, "name"@) {
            Some(n) => Some((n, t.line(i))),
            None => None,
        }
    } else {
        None
    }
}

/// The classes declared by nodes `0 .. k`, in document order.
pub open spec fn classes_upto(lang: Language, t: &SyntaxTree, src: Seq<char>, k: int) -> Seq<
    (Seq<char>, u32),
>
    decreases k,
{
    if k <= 0 {
        seq![]
    } else {
        let prev = classes_upto(lang, t, src, k - 1);
        match class_entry(lang, t, src, k - 1) {
            Some(e) => prev.push(e),
            None => prev,
        }
    }
}

/// All classes of the tree, in document order.
pub open spec fn classes_of(lang: Language, t: &SyntaxTree, src: Seq<char>) -> Seq<(Seq<char>, u32)> {
    classes_upto(lang, t, src, t.len() as int)
}

/// The class that node `i` declares, if any.
pub fn class_at(lang: Language, t: &SyntaxTree, src: &str, i: usize) -> (r: Option<ClassInfo>)
    requires
        t.wf(),
        i < t.nodes@.len(),
    ensures
        r matches Some(c) ==> class_entry(lang, t, src@, i as int) == Some(c@),
        r is None ==> class_entry(lang, t, src@, i as int) is None,
{
    let typed = lang == Language::TypeScript;
    if t.is_kind(i, "class_declaration") || (typed && t.is_kind(i, "abstract_class_declaration")) || (typed
        && t.is_kind(i, "interface_declaration")) {
        match text_of_field(t, src, i, "name") {
            Some(name) => Some(ClassInfo { name, line: t.line_of(i) }),
            None => None,
        }
    } else {
        None
    }
}

/// The classes of the tree, in document (pre-)order.
pub fn extract_classes(lang: Language, t: &SyntaxTree, src: &str) -> (r: Vec<ClassInfo>)
    requires
        t.wf(),
    ensures
        r@.map_values(|c: ClassInfo| c@) == classes_of(lang, t, src@),
{
    let mut out: Vec<ClassInfo> = Vec::new();
    let mut i: usize = 0;
    while i < t.nodes.len()
        invariant
            t.wf(),
            i <= t.nodes@.len(),
            out@.map_values(|c: ClassInfo| c@) == classes_upto(lang, t, src@, i as int),
        decreases t.nodes@.len() - i,
    {
        match class_at(lang, t, src, i) {
            Some(c) => {
                out.push(c);
                assert(out@.map_values(|c: ClassInfo| c@) =~= classes_upto(lang, t, src@, i + 1));
            },
            None => {},
        }
        i = i + 1;
    }
    out
}

// ------------------------------------------------------------------ imports

/// Whether a callee names a module loader: `require` or `import`.
pub open spec fn is_loader(callee: Seq<char>) -> bool {
    callee == "require"@ || callee == "import"@
}

/// The specifier that a loader call at node `i` names: the first string
/// among its arguments.
pub open spec fn loader_specifier(lang: Language, t: &SyntaxTree, src: Seq<char>, i: int) -> Option<
    Seq<char>,
> {
    match field_text(t, src, i, "function"@) {
        Some(callee) if is_loader(callee) => match t.field_child(i, "arguments"@) {
            Some(a) => match t.kind_child(a, "string"@) {
                Some(s) => node_text(t, src, s),
                None => None,
            },
            None => None,
        },
        _ => None,
    }
}

/// The module that node `i` loads, if any: its unquoted specifier and line.
/// Import statements, export statements that name a source and loader calls
/// load modules.
pub open spec fn import_entry(lang: Language, t: &SyntaxTree, src: Seq<char>, i: int) -> Option<
    (Seq<char>, u32),
> {
    let spec_text = if t.kind(i) == "import_statement"@ || t.kind(i) == "export_statement"@ {
        field_text(t, src, i, "source"@)
    } else if t.kind(i) == "call_expression"@ {
        loader_specifier(lang, t, src, i)
    } else {
        None
    };
    match spec_text {
        Some(m) => Some((unquote(m), t.line(i))),
        None => None,
    }
}

/// The imports of nodes `0 .. k`, in document order.
pub open spec fn imports_upto(lang: Language, t: &SyntaxTree, src: Seq<char>, k: int) -> Seq<
    (Seq<char>, u32),
>
    decreases k,
{
    if k <= 0 {
        seq![]
    } else {
        let prev = imports_upto(lang, t, src, k - 1);
        match import_entry(lang, t, src, k - 1) {
            Some(e) => prev.push(e),
            None => prev,
        }
    }
}

/// All imports of the tree, in document order.
pub open spec fn imports_of(lang: Language, t: &SyntaxTree, src: Seq<char>) -> Seq<(Seq<char>, u32)> {
    imports_upto(lang, t, src, t.len() as int)
}

fn specifier_of_call(lang: Language, t: &SyntaxTree, src: &str, i: usize) -> (r: Option<String>)
    requires
        t.wf(),
        i < t.nodes@.len(),
    ensures
        r matches Some(s) ==> loader_specifier(lang, t, src@, i as int) == Some(s@),
        r is None ==> loader_specifier(lang, t, src@, i as int) is None,
{
    let callee = match text_of_field(t, src, i, "function") {
        Some(c) => c,
        None => return None,
    };
    let loader = same_text(callee.as_str(), "require") || same_text(callee.as_str(), "import");
    if !loader {
        return None;
    }
    let args = match t.child_by_field(i, "arguments") {
        Some(a) => a,
        None => return None,
    };
    match t.child_of_kind(args, "string") {
        Some(s) => text_of(t, src, s),
        None => None,
    }
}

/// The module that node `i` loads, if any.
pub fn import_at(lang: Language, t: &SyntaxTree, src: &str, i: usize) -> (r: Option<ImportInfo>)
    requires
        t.wf(),
        i < t.nodes@.len(),
    ensures
        r matches Some(m) ==> import_entry(lang, t, src@, i as int) == Some(m@),
        r is None ==> import_entry(lang, t, src@, i as int) is None,
{
    let text = if t.is_kind(i, "import_statement") || t.is_kind(i, "export_statement") {
        text_of_field(t, src, i, "source")
    } else if t.is_kind(i, "call_expression") {
        specifier_of_call(lang, t, src, i)
    } else {
        None
    };
    match text {
        Some(m) => Some(ImportInfo { module: unquote_module(m.as_str()), line: t.line_of(i) }),
        None => None,
    }
}

/// The imports of the tree, in document (pre-)order.
pub fn extract_imports(lang: Language, t: &SyntaxTree, src: &str) -> (r: Vec<ImportInfo>)
    requires
        t.wf(),
    ensures
        r@.map_values(|m: ImportInfo| m@) == imports_of(lang, t, src@),
{
    let mut out: Vec<ImportInfo> = Vec::new();
    let mut i: usize = 0;
    while i < t.nodes.len()
        invariant
            t.wf(),
            i <= t.nodes@.len(),
            out@.map_values(|m: ImportInfo| m@) == imports_upto(lang, t, src@, i as int),
        decreases t.nodes@.len() - i,
    {
        match import_at(lang, t, src, i) {
            Some(m) => {
                out.push(m);
                assert(out@.map_values(|m: ImportInfo| m@) =~= imports_upto(lang, t, src@, i + 1));
            },
            None => {},
        }
        i = i + 1;
    }
    out
}

// --------------------------------------------------------------------- laws

/// Every function extracted from any tree has complexity at least 1.
pub proof fn lemma_complexity_at_least_one(lang: Language, t: &SyntaxTree, src: Seq<char>, k: int)
    ensures
        forall|m: int|
            0 <= m < functions_upto(lang, t, src, k).len() ==> #[trigger] functions_upto(lang, t, src, k)[m].2
                >= 1,
    decreases k,
{
    if k > 0 {
        lemma_complexity_at_least_one(lang, t, src, k - 1);
        let prev = functions_upto(lang, t, src, k - 1);
        match function_entry(lang, t, src, k - 1) {
            Some(e) => {
                assert forall|m: int|
                    0 <= m < prev.push(e).len() implies #[trigger] prev.push(e)[m].2 >= 1 by {
                    if m < prev.len() {
                        assert(prev.push(e)[m] == prev[m]);
                    }
                }
            },
            None => {},
        }
    }
}

/// The indices among `0 .. k` of the nodes that declare functions by name
/// (`function_declaration`), in order.
pub open spec fn declaration_nodes(t: &SyntaxTree, k: int) -> Seq<int>
    decreases k,
{
    if k <= 0 {
        seq![]
    } else if t.kind(k - 1) == "function_declaration"@ {
        declaration_nodes(t, k - 1).push(k - 1)
    } else {
        declaration_nodes(t, k - 1)
    }
}

/// When the only function-declaring nodes of a tree are named function
/// declarations whose names can be read, the tree yields exactly one
/// function per declaration, in source order, each named as declared.
pub proof fn lemma_declarations_in_order(lang: Language, t: &SyntaxTree, src: Seq<char>, k: int)
    requires
        forall|j: int|
            0 <= j < t.len() && #[trigger] function_form(lang, t.kind(j)) is Some ==> t.kind(j)
                == "function_declaration"@ && field_text(t, src, j, "name"@) is Some,
        k <= t.len(),
    ensures
        functions_upto(lang, t, src, k).len() == declaration_nodes(t, k).len(),
        forall|m: int|
            0 <= m < declaration_nodes(t, k).len() ==> {
                let j = #[trigger] declaration_nodes(t, k)[m];
                &&& functions_upto(lang, t, src, k)[m].0 == field_text(t, src, j, "name"@)->0
                &&& functions_upto(lang, t, src, k)[m].1 == t.line(j)
            },
    decreases k,
{
    if k > 0 {
        lemma_declarations_in_order(lang, t, src, k - 1);
        let j = k - 1;
        if t.kind(j) == "function_declaration"@ {
            assert(function_form(lang, t.kind(j)) is Some);
        } else {
            if function_form(lang, t.kind(j)) is Some {
                assert(false);
            }
        }
    }
}

/// An anonymous function whose parent is an assignment is named by the
/// assignment's left-hand side, and one whose parent is a variable binding
/// by the variable's name.
pub proof fn lemma_assigned_function_name(lang: Language, t: &SyntaxTree, src: Seq<char>, i: int, x: Seq<char>)
    requires
        t.wf(),
        0 <= i < t.len(),
        t.kind(i) == "arrow_function"@ || (t.kind(i) == "function_expression"@ && t.field_child(i, "name"@) is None),
        t.nodes@[i].parent matches Some(p) && ((t.kind(p as int) == "assignment_expression"@ && field_text(
            t,
            src,
            p as int,
            "left"@,
        ) == Some(x)) || (t.kind(p as int) == "variable_declarator"@ && field_text(t, src, p as int, "name"@)
            == Some(x))),
    ensures
        function_entry(lang, t, src, i) matches Some(e) && e.0 == x,
{
    reveal_strlit("arrow_function");
    reveal_strlit("function_expression");
    reveal_strlit("function_declaration");
    reveal_strlit("method_definition");
    reveal_strlit("method_signature");
    reveal_strlit("function_signature");
    reveal_strlit("assignment_expression");
    reveal_strlit("variable_declarator");
    assert("arrow_function"@.len() == 14);
    assert("function_expression"@.len() == 19);
    assert("function_declaration"@.len() == 20);
    assert("method_definition"@.len() == 17);
    assert("assignment_expression"@.len() == 21);
    assert("variable_declarator"@.len() == 19);
    assert(function_form(lang, t.kind(i)) == Some(FunctionForm::Arrow) || function_form(lang, t.kind(i)) == Some(
        FunctionForm::Expression,
    ));
    assert(binding_name(t, src, i) == Some(x));
}

/// Stripping a character from a text that neither starts nor ends with it
/// leaves the text as it is.
proof fn lemma_trim_untouched(s: Seq<char>, c: char)
    requires
        s.len() > 0,
        s[0] != c,
        s.last() != c,
    ensures
        trim_char(s, c) == s,
{
}

/// Stripping `c` from `c`, `m`, `c`, where `m` neither starts nor ends with
/// `c`, leaves `m`.
proof fn lemma_trim_enclosed(m: Seq<char>, c: char)
    requires
        m.len() > 0,
        m[0] != c,
        m.last() != c,
    ensures
        trim_char(seq![c] + m + seq![c], c) == m,
{
    let s = seq![c] + m + seq![c];
    assert(s.drop_first() =~= m + seq![c]);
    let u = m + seq![c];
    assert(u[0] == m[0]);
    assert(s[0] == c);
    assert(trim_start(s, c) == trim_start(u, c));
    assert(trim_start(u, c) == u);
    assert(u.drop_last() =~= m);
    assert(trim_end(u, c) == trim_end(m, c));
}

/// A module specifier quoted with `"` or `'` is recorded without its
/// quotes, as long as the specifier itself neither starts nor ends with a
/// quote character.
pub proof fn lemma_unquote(m: Seq<char>, q: char)
    requires
        q == '"' || q == '\'',
        m.len() > 0,
        m[0] != '"' && m[0] != '\'',
        m.last() != '"' && m.last() != '\'',
    ensures
        unquote(seq![q] + m + seq![q]) == m,
{
    let s = seq![q] + m + seq![q];
    if q == '"' {
        lemma_trim_enclosed(m, '"');
        lemma_trim_untouched(m, '\'');
    } else {
        assert(s[0] == q && s.last() == q);
        lemma_trim_untouched(s, '"');
        lemma_trim_enclosed(m, '\'');
    }
}

/// An import statement whose source reads `"m"` or `'m'` yields the import of
/// `m`, at the statement's line.
pub proof fn lemma_import_statement_module(lang: Language, t: &SyntaxTree, src: Seq<char>, i: int, m: Seq<char>, q: char)
    requires
        0 <= i < t.len(),
        t.kind(i) == "import_statement"@,
        field_text(t, src, i, "source"@) == Some(seq![q] + m + seq![q]),
        q == '"' || q == '\'',
        m.len() > 0,
        m[0] != '"' && m[0] != '\'',
        m.last() != '"' && m.last() != '\'',
    ensures
        import_entry(lang, t, src, i) == Some((m, t.line(i))),
{
    lemma_unquote(m, q);
}

} // verus!
