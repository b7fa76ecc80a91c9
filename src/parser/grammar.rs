//! The grammar engine: tree-sitter turns source text into a syntax tree,
//! which is copied here, node by node, into a `SyntaxTree`.
use vstd::prelude::*;
use crate::error::{AnalysisError, AnalysisResult};
use crate::syntax::{SyntaxNode, SyntaxTree};

verus! {

#[verifier::external_type_specification]
#[verifier::external_body]
pub struct ExTsParser(tree_sitter::Parser);

#[verifier::external_type_specification]
#[verifier::external_body]
pub struct ExTsTree(tree_sitter::Tree);

#[verifier::external_type_specification]
#[verifier::external_body]
pub struct ExTsNode<'a>(tree_sitter::Node<'a>);

#[verifier::external_type_specification]
#[verifier::external_body]
pub struct ExTsCursor<'a>(tree_sitter::TreeCursor<'a>);

/// Relies on `tree_sitter::Parser::new`: a parser with no grammar yet.
#[verifier::external_body]
fn new_engine() -> tree_sitter::Parser {
    tree_sitter::Parser::new()
}

/// Relies on `tree_sitter::Parser::set_language` with
/// `tree_sitter_javascript::language()`; an incompatible grammar version is
/// reported by the error's message.
#[verifier::external_body]
fn load_javascript(p: &mut tree_sitter::Parser) -> Result<(), String> {
    p.set_language(tree_sitter_javascript::language()).map_err(|e| e.to_string())
}

/// Relies on `tree_sitter::Parser::set_language` with
/// `tree_sitter_typescript::language_typescript()` (the grammar without
/// JSX); an incompatible grammar version is reported by the error's message.
#[verifier::external_body]
fn load_typescript(p: &mut tree_sitter::Parser) -> Result<(), String> {
    p.set_language(tree_sitter_typescript::language_typescript()).map_err(|e| e.to_string())
}

/// Relies on `tree_sitter::Parser::set_timeout_micros`: parsing that takes
/// longer halts and yields no tree.
#[verifier::external_body]
fn set_time_limit(p: &mut tree_sitter::Parser, micros: u64) {
    p.set_timeout_micros(micros)
}

/// Relies on `tree_sitter::Parser::parse`: a tree for the whole text, with
/// error nodes where it does not fit the grammar; none on a timeout.
#[verifier::external_body]
fn run_engine(p: &mut tree_sitter::Parser, content: &str) -> Option<tree_sitter::Tree> {
    p.parse(content, None)
}

/// Relies on `tree_sitter::Tree::walk`: a cursor on the root node.
#[verifier::external_body]
fn walk_tree<'a>(t: &'a tree_sitter::Tree) -> tree_sitter::TreeCursor<'a> {
    t.walk()
}

/// Relies on `tree_sitter::TreeCursor::node`: the node under the cursor.
#[verifier::external_body]
fn cursor_node<'a>(c: &tree_sitter::TreeCursor<'a>) -> tree_sitter::Node<'a> {
    c.node()
}

/// Relies on `tree_sitter::TreeCursor::field_name`: the field under which
/// the node under the cursor stands in its parent.
#[verifier::external_body]
fn cursor_field_name(c: &tree_sitter::TreeCursor) -> Option<String> {
    c.field_name().map(|f| f.to_string())
}

/// Relies on `tree_sitter::TreeCursor::goto_first_child`.
#[verifier::external_body]
fn cursor_first_child(c: &mut tree_sitter::TreeCursor) -> bool {
    c.goto_first_child()
}

/// Relies on `tree_sitter::TreeCursor::goto_next_sibling`.
#[verifier::external_body]
fn cursor_next_sibling(c: &mut tree_sitter::TreeCursor) -> bool {
    c.goto_next_sibling()
}

/// Relies on `tree_sitter::TreeCursor::goto_parent`.
#[verifier::external_body]
fn cursor_parent(c: &mut tree_sitter::TreeCursor) -> bool {
    c.goto_parent()
}

/// Relies on `tree_sitter::Node::kind`: the grammar's name for the node.
#[verifier::external_body]
fn node_kind(n: &tree_sitter::Node) -> String {
    n.kind().to_string()
}

/// Relies on `tree_sitter::Node::start_byte`.
#[verifier::external_body]
fn node_start_byte(n: &tree_sitter::Node) -> usize {
    n.start_byte()
}

/// Relies on `tree_sitter::Node::end_byte`.
#[verifier::external_body]
fn node_end_byte(n: &tree_sitter::Node) -> usize {
    n.end_byte()
}

/// Relies on `tree_sitter::Node::start_position`: its 0-based row.
#[verifier::external_body]
fn node_start_row(n: &tree_sitter::Node) -> usize {
    n.start_position().row
}

/// Relies on `tree_sitter::Node::has_error`: whether the node is or holds a
/// syntax error.
#[verifier::external_body]
fn node_has_error(n: &tree_sitter::Node) -> bool {
    n.has_error()
}

/// The grammars that the engine is built with.
#[derive(Debug, Clone, Copy, PartialEq, Eq, Structural)]
pub enum Grammar {
    JavaScript,
    TypeScript,
}

/// Nodes are added to `nodes` with `end` one past themselves, so the whole
/// vector stays well formed as long as parents precede children.
pub open spec fn nodes_wf(nodes: Seq<SyntaxNode>) -> bool {
    forall|i: int|
        0 <= i < nodes.len() ==> {
            &&& i < #[trigger] nodes[i].end <= nodes.len()
            &&& (nodes[i].parent matches Some(p) ==> p < i)
        }
}

/// Copies the engine's tree into a `SyntaxTree`, in pre-order, by walking a
/// cursor over it. `None` if the tree has more nodes than a `usize` counts.
pub fn copy_tree(tree: &tree_sitter::Tree) -> (r: Option<SyntaxTree>)
    ensures
        r matches Some(t) ==> t.wf(),
{
    let mut cursor = walk_tree(tree);
    let has_error = node_has_error(&cursor_node(&cursor));
    let mut nodes: Vec<SyntaxNode> = Vec::new();
    // The indices of the ancestors of the node under the cursor.
    let mut open: Vec<usize> = Vec::new();
    let mut budget: usize = usize::MAX;
    loop
        invariant
            nodes_wf(nodes@),
            forall|k: int| 0 <= k < open@.len() ==> open@[k] < nodes@.len(),
        decreases budget,
    {
        if budget == 0 {
            return None;
        }
        budget = budget - 1;
        let node = cursor_node(&cursor);
        let idx = nodes.len();
        if idx == usize::MAX {
            return None;
        }
        let parent = if open.len() > 0 {
            Some(open[open.len() - 1])
        } else {
            None
        };
        let ghost before = nodes@;
        nodes.push(
            SyntaxNode {
                kind: node_kind(&node),
                field: cursor_field_name(&cursor),
                parent,
                start_byte: node_start_byte(&node),
                end_byte: node_end_byte(&node),
                row: node_start_row(&node),
                end: idx + 1,
            },
        );
        assert(nodes_wf(nodes@)) by {
            assert forall|i: int| 0 <= i < nodes@.len() implies {
                &&& i < #[trigger] nodes@[i].end <= nodes@.len()
                &&& (nodes@[i].parent matches Some(p) ==> p < i)
            } by {
                if i < idx {
                    assert(nodes@[i] == before[i]);
                }
            }
        }
        if cursor_first_child(&mut cursor) {
            open.push(idx);
        } else {
            // Climb until a next sibling is found, closing each subtree left.
            let mut climbing = true;
            while climbing
                invariant
                    nodes_wf(nodes@),
                    forall|k: int| 0 <= k < open@.len() ==> open@[k] < nodes@.len(),
                decreases open@.len() + if climbing { 1int } else { 0int },
            {
                if cursor_next_sibling(&mut cursor) {
                    climbing = false;
                } else if !cursor_parent(&mut cursor) {
                    return Some(SyntaxTree { nodes, has_error });
                } else {
                    let ghost old_open = open;
                    match open.pop() {
                        Some(p) => {
                            assert(old_open@[old_open@.len() - 1] < nodes@.len());
                            let len = nodes.len();
                            let ghost before = nodes@;
                            nodes[p].end = len;
                            assert(nodes_wf(nodes@)) by {
                                assert forall|i: int| 0 <= i < nodes@.len() implies {
                                    &&& i < #[trigger] nodes@[i].end <= nodes@.len()
                                    &&& (nodes@[i].parent matches Some(q) ==> q < i)
                                } by {
                                    if i != p {
                                        assert(nodes@[i] == before[i]);
                                        assert(i < before[i].end <= before.len());
                                    } else {
                                        assert(i < before[i].end);
                                    }
                                }
                            }
                        },
                        None => {
                            return Some(SyntaxTree { nodes, has_error });
                        },
                    }
                }
            }
        }
    }
}

/// Parses `content` with `grammar` into a syntax tree, giving up after
/// `timeout_micros`. A malformed text still yields a tree, with error nodes
/// in it; a `ParseError` comes only when no tree is produced, and a
/// `ConfigError` when the grammar cannot be loaded.
pub fn parse_source(grammar: Grammar, content: &str, timeout_micros: u64) -> (r: AnalysisResult<
    SyntaxTree,
>)
    ensures
        r matches Ok(t) ==> t.wf(),
        r matches Err(e) ==> (e is ConfigError || e is ParseError),
        r matches Err(AnalysisError::ParseError { line, .. }) ==> line == 1,
{
    let mut engine = new_engine();
    let language_name = match grammar {
        Grammar::JavaScript => "JavaScript",
        Grammar::TypeScript => "TypeScript",
    };
    let loaded = match grammar {
        Grammar::JavaScript => load_javascript(&mut engine),
        Grammar::TypeScript => load_typescript(&mut engine),
    };
    match loaded {
        Ok(()) => {},
        Err(msg) => {
            let mut message = String::from_str("Failed to set ");
            message.append(language_name);
            message.append(" language: ");
            message.append(msg.as_str());
            return Err(AnalysisError::ConfigError { message });
        },
    }
    set_time_limit(&mut engine, timeout_micros);
    let tree = match run_engine(&mut engine, content) {
        Some(t) => t,
        None => {
            let mut message = String::from_str("Failed to parse ");
            message.append(language_name);
            message.append(" content");
            return Err(AnalysisError::ParseError { message, line: 1 });
        },
    };
    match copy_tree(&tree) {
        Some(t) => Ok(t),
        None => {
            let mut message = String::from_str("Syntax tree of ");
            message.append(language_name);
            message.append(" content is too large");
            Err(AnalysisError::ParseError { message, line: 1 })
        },
    }
}

} // verus!
