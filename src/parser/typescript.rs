//! The TypeScript parser.
use vstd::prelude::*;
use crate::error::AnalysisResult;
use crate::parser::extract::{
    extract_classes, extract_functions, extract_imports, field_text, node_text, text_of, text_of_field,
};
use crate::parser::grammar::{parse_source, Grammar};
use crate::parser::{extracted, ParseResult, SourceParser};
use crate::syntax::SyntaxTree;
use crate::types::Language;

verus! {

/// How long the engine may spend on one TypeScript text; its grammar is richer.
pub const TYPESCRIPT_TIMEOUT_MICROS: u64 = 7_000_000;

pub struct TypeScriptParser {}

/// The kind of a named type declaration.
#[derive(Debug, Clone, Copy, PartialEq, Eq, Structural)]
pub enum TypeKind {
    Interface,
    TypeAlias,
    Enum,
    Generic,
}

/// A named type declared in a file.
#[derive(Debug)]
pub struct TypeInfo {
    pub name: String,
    pub line: u32,
    pub kind: TypeKind,
}

/// An interface declared in a file, with its members and the interfaces it
/// extends.
#[derive(Debug)]
pub struct InterfaceInfo {
    pub name: String,
    pub line: u32,
    pub methods: Vec<String>,
    pub properties: Vec<String>,
    pub extends: Vec<String>,
}

impl View for TypeInfo {
    type V = (Seq<char>, u32, TypeKind);

    open spec fn view(&self) -> (Seq<char>, u32, TypeKind) {
        (self.name@, self.line, self.kind)
    }
}

/// The characters of each string of `v`.
pub open spec fn texts(v: Seq<String>) -> Seq<Seq<char>> {
    v.map_values(|s: String| s@)
}

impl View for InterfaceInfo {
    type V = (Seq<char>, u32, Seq<Seq<char>>, Seq<Seq<char>>, Seq<Seq<char>>);

    open spec fn view(&self) -> (Seq<char>, u32, Seq<Seq<char>>, Seq<Seq<char>>, Seq<Seq<char>>) {
        (self.name@, self.line, texts(self.methods@), texts(self.properties@), texts(self.extends@))
    }
}

/// The names (`name` field texts) of the children of `p` of kind `k` among
/// the nodes `from .. to`, in order; children whose name cannot be read are
/// left out.
pub open spec fn member_names(t: &SyntaxTree, src: Seq<char>, p: int, k: Seq<char>, from: int, to: int) -> Seq<
    Seq<char>,
>
    decreases to - from,
{
    if to <= from {
        seq![]
    } else {
        let prev = member_names(t, src, p, k, from, to - 1);
        let j = to - 1;
        if t.nodes@[j].parent == Some(p as usize) && t.kind(j) == k {
            match field_text(t, src, j, "name"@) {
                Some(n) => prev.push(n),
                None => prev,
            }
        } else {
            prev
        }
    }
}

/// The texts of the children of `p` under field `f` among the nodes
/// `from .. to`, in order; children whose text cannot be read are left out.
pub open spec fn field_texts(t: &SyntaxTree, src: Seq<char>, p: int, f: Seq<char>, from: int, to: int) -> Seq<
    Seq<char>,
>
    decreases to - from,
{
    if to <= from {
        seq![]
    } else {
        let prev = field_texts(t, src, p, f, from, to - 1);
        let j = to - 1;
        if t.is_field_child(p, j, f) {
            match node_text(t, src, j) {
                Some(n) => prev.push(n),
                None => prev,
            }
        } else {
            prev
        }
    }
}

/// The types named by the extends clauses among the children of interface
/// node `i` in `from .. to`: the `type` fields of each clause, in order.
pub open spec fn extends_names(t: &SyntaxTree, src: Seq<char>, i: int, from: int, to: int) -> Seq<Seq<char>>
    decreases to - from,
{
    if to <= from {
        seq![]
    } else {
        let prev = extends_names(t, src, i, from, to - 1);
        let j = to - 1;
        if t.nodes@[j].parent == Some(i as usize) && t.kind(j) == "extends_type_clause"@ {
            prev + field_texts(t, src, j, "type"@, j + 1, t.nodes@[j].end as int)
        } else {
            prev
        }
    }
}

/// The interface that node `i` declares, if any.
pub open spec fn interface_entry(t: &SyntaxTree, src: Seq<char>, i: int) -> Option<
    (Seq<char>, u32, Seq<Seq<char>>, Seq<Seq<char>>, Seq<Seq<char>>),
> {
    if t.kind(i) == "interface_declaration"@ {
        match field_text(t, src, i, "name"@) {
            Some(name) => {
                let extends = extends_names(t, src, i, i + 1, t.nodes@[i].end as int);
                let (methods, properties) = match t.field_child(i, "body"@) {
                    Some(b) => (
                        member_names(t, src, b, "method_signature"@, b + 1, t.nodes@[b].end as int),
                        member_names(t, src, b, "property_signature"@, b + 1, t.nodes@[b].end as int),
                    ),
                    None => (seq![], seq![]),
                };
                Some((name, t.line(i), methods, properties, extends))
            },
            None => None,
        }
    } else {
        None
    }
}

/// The interfaces declared by nodes `0 .. k`, in document order.
pub open spec fn interfaces_upto(t: &SyntaxTree, src: Seq<char>, k: int) -> Seq<
    (Seq<char>, u32, Seq<Seq<char>>, Seq<Seq<char>>, Seq<Seq<char>>),
>
    decreases k,
{
    if k <= 0 {
        seq![]
    } else {
        let prev = interfaces_upto(t, src, k - 1);
        match interface_entry(t, src, k - 1) {
            Some(e) => prev.push(e),
            None => prev,
        }
    }
}

/// The named type that node `i` declares, if any: type aliases and enums.
pub open spec fn type_entry(t: &SyntaxTree, src: Seq<char>, i: int) -> Option<(Seq<char>, u32, TypeKind)> {
    let kind = if t.kind(i) == "type_alias_declaration"@ {
        Some(TypeKind::TypeAlias)
    } else if t.kind(i) == "enum_declaration"@ {
        Some(TypeKind::Enum)
    } else {
        None
    };
    match kind {
        Some(k) => match field_text(t, src, i, "name"@) {
            Some(name) => Some((name, t.line(i), k)),
            None => None,
        },
        None => None,
    }
}

/// The named types declared by nodes `0 .. k`, in document order.
pub open spec fn types_upto(t: &SyntaxTree, src: Seq<char>, k: int) -> Seq<(Seq<char>, u32, TypeKind)>
    decreases k,
{
    if k <= 0 {
        seq![]
    } else {
        let prev = types_upto(t, src, k - 1);
        match type_entry(t, src, k - 1) {
            Some(e) => prev.push(e),
            None => prev,
        }
    }
}

/// The names of the children of `p` of kind `k`.
fn collect_member_names(t: &SyntaxTree, src: &str, p: usize, k: &str) -> (r: Vec<String>)
    requires
        t.wf(),
        p < t.nodes@.len(),
    ensures
        texts(r@) == member_names(t, src@, p as int, k@, p + 1, t.nodes@[p as int].end as int),
{
    let end = t.nodes[p].end;
    let mut out: Vec<String> = Vec::new();
    let mut j = p + 1;
    while j < end
        invariant
            t.wf(),
            p < t.nodes@.len(),
            end == t.nodes@[p as int].end,
            p + 1 <= j <= end,
            texts(out@) == member_names(t, src@, p as int, k@, p + 1, j as int),
        decreases end - j,
    {
        if t.nodes[j].parent == Some(p) && t.is_kind(j, k) {
            match text_of_field(t, src, j, "name") {
                Some(n) => {
                    out.push(n);
                    assert(texts(out@) =~= member_names(t, src@, p as int, k@, p + 1, j + 1));
                },
                None => {},
            }
        }
        j = j + 1;
    }
    out
}

/// Appends to `out` the texts of the children of `p` under field `f`.
fn append_field_texts(t: &SyntaxTree, src: &str, p: usize, f: &str, out: &mut Vec<String>)
    requires
        t.wf(),
        p < t.nodes@.len(),
    ensures
        texts(final(out)@) == texts(old(out)@) + field_texts(t, src@, p as int, f@, p + 1, t.nodes@[p as int].end as int),
{
    let end = t.nodes[p].end;
    let ghost start = texts(out@);
    let mut j = p + 1;
    assert(texts(out@) =~= start + field_texts(t, src@, p as int, f@, p + 1, j as int));
    while j < end
        invariant
            t.wf(),
            p < t.nodes@.len(),
            end == t.nodes@[p as int].end,
            p + 1 <= j <= end,
            texts(out@) == start + field_texts(t, src@, p as int, f@, p + 1, j as int),
        decreases end - j,
    {
        if t.is_child_under(p, j, f) {
            match text_of(t, src, j) {
                Some(n) => {
                    let ghost prev_out = out@;
                    let ghost nv = n@;
                    out.push(n);
                    assert(texts(out@) =~= texts(prev_out).push(nv));
                    assert(texts(out@) =~= start + field_texts(t, src@, p as int, f@, p + 1, j + 1));
                },
                None => {},
            }
        }
        j = j + 1;
    }
}

/// The types named by the extends clauses of interface node `i`.
fn collect_extends(t: &SyntaxTree, src: &str, i: usize) -> (r: Vec<String>)
    requires
        t.wf(),
        i < t.nodes@.len(),
    ensures
        texts(r@) == extends_names(t, src@, i as int, i + 1, t.nodes@[i as int].end as int),
{
    let end = t.nodes[i].end;
    let mut out: Vec<String> = Vec::new();
    let mut j = i + 1;
    assert(texts(out@) =~= extends_names(t, src@, i as int, i + 1, j as int));
    while j < end
        invariant
            t.wf(),
            i < t.nodes@.len(),
            end == t.nodes@[i as int].end,
            i + 1 <= j <= end,
            end <= t.nodes@.len(),
            texts(out@) == extends_names(t, src@, i as int, i + 1, j as int),
        decreases end - j,
    {
        if t.nodes[j].parent == Some(i) && t.is_kind(j, "extends_type_clause") {
            append_field_texts(t, src, j, "type", &mut out);
        }
        j = j + 1;
    }
    out
}

/// The interface that node `i` declares, if any.
fn interface_at(t: &SyntaxTree, src: &str, i: usize) -> (r: Option<InterfaceInfo>)
    requires
        t.wf(),
        i < t.nodes@.len(),
    ensures
        r matches Some(f) ==> interface_entry(t, src@, i as int) == Some(f@),
        r is None ==> interface_entry(t, src@, i as int) is None,
{
    if !t.is_kind(i, "interface_declaration") {
        return None;
    }
    let name = match text_of_field(t, src, i, "name") {
        Some(n) => n,
        None => return None,
    };
    let extends = collect_extends(t, src, i);
    let (methods, properties) = match t.child_by_field(i, "body") {
        Some(b) => (
            collect_member_names(t, src, b, "method_signature"),
            collect_member_names(t, src, b, "property_signature"),
        ),
        None => (Vec::new(), Vec::new()),
    };
    Some(InterfaceInfo { name, line: t.line_of(i), methods, properties, extends })
}

/// The named type that node `i` declares, if any.
fn type_at(t: &SyntaxTree, src: &str, i: usize) -> (r: Option<TypeInfo>)
    requires
        t.wf(),
        i < t.nodes@.len(),
    ensures
        r matches Some(f) ==> type_entry(t, src@, i as int) == Some(f@),
        r is None ==> type_entry(t, src@, i as int) is None,
{
    let kind = if t.is_kind(i, "type_alias_declaration") {
        TypeKind::TypeAlias
    } else if t.is_kind(i, "enum_declaration") {
        TypeKind::Enum
    } else {
        return None;
    };
    match text_of_field(t, src, i, "name") {
        Some(name) => Some(TypeInfo { name, line: t.line_of(i), kind }),
        None => None,
    }
}

impl TypeScriptParser {
    pub fn new() -> (r: AnalysisResult<Self>)
        ensures
            r is Ok,
    {
        Ok(TypeScriptParser {})
    }

    pub(crate) fn new_parser() -> Self {
        TypeScriptParser {}
    }

    /// Extracts functions, classes and imports from a syntax tree of
    /// `content`.
    pub fn parse_tree(&self, tree: &SyntaxTree, content: &str) -> (r: ParseResult)
        requires
            tree.wf(),
        ensures
            extracted(Language::TypeScript, tree, content@, &r),
    {
        ParseResult {
            language: Language::TypeScript,
            functions: extract_functions(Language::TypeScript, tree, content),
            classes: extract_classes(Language::TypeScript, tree, content),
            imports: extract_imports(Language::TypeScript, tree, content),
        }
    }

    /// The interfaces of a syntax tree, with their members and the types
    /// they extend, in document (pre-)order.
    pub fn extract_interfaces(&self, tree: &SyntaxTree, source: &str) -> (r: Vec<InterfaceInfo>)
        requires
            tree.wf(),
        ensures
            r@.map_values(|f: InterfaceInfo| f@) == interfaces_upto(tree, source@, tree.len() as int),
    {
        let mut out: Vec<InterfaceInfo> = Vec::new();
        let mut i: usize = 0;
        while i < tree.nodes.len()
            invariant
                tree.wf(),
                i <= tree.nodes@.len(),
                out@.map_values(|f: InterfaceInfo| f@) == interfaces_upto(tree, source@, i as int),
            decreases tree.nodes@.len() - i,
        {
            match interface_at(tree, source, i) {
                Some(f) => {
                    out.push(f);
                    assert(out@.map_values(|f: InterfaceInfo| f@) =~= interfaces_upto(tree, source@, i + 1));
                },
                None => {},
            }
            i = i + 1;
        }
        out
    }

    /// The type aliases and enums of a syntax tree, in document (pre-)order.
    pub fn extract_types(&self, tree: &SyntaxTree, source: &str) -> (r: Vec<TypeInfo>)
        requires
            tree.wf(),
        ensures
            r@.map_values(|f: TypeInfo| f@) == types_upto(tree, source@, tree.len() as int),
    {
        let mut out: Vec<TypeInfo> = Vec::new();
        let mut i: usize = 0;
        while i < tree.nodes.len()
            invariant
                tree.wf(),
                i <= tree.nodes@.len(),
                out@.map_values(|f: TypeInfo| f@) == types_upto(tree, source@, i as int),
            decreases tree.nodes@.len() - i,
        {
            match type_at(tree, source, i) {
                Some(f) => {
                    out.push(f);
                    assert(out@.map_values(|f: TypeInfo| f@) =~= types_upto(tree, source@, i + 1));
                },
                None => {},
            }
            i = i + 1;
        }
        out
    }
}

impl SourceParser for TypeScriptParser {
    open spec fn spec_language(&self) -> Language {
        Language::TypeScript
    }

    fn language(&self) -> (r: Language) {
        Language::TypeScript
    }

    fn parse(&self, content: &str) -> (r: AnalysisResult<ParseResult>) {
        match parse_source(Grammar::TypeScript, content, TYPESCRIPT_TIMEOUT_MICROS) {
            Ok(tree) => {
                let p = self.parse_tree(&tree, content);
                assert(extracted(Language::TypeScript, &tree, content@, &p));
                Ok(p)
            },
            Err(e) => Err(e),
        }
    }
}

} // verus!
