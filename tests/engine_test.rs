use rust_analysis_engine::analysis::{count_lines, validate_request, AnalysisEngine, MAX_FILES, MAX_FILE_SIZE};
use rust_analysis_engine::error::AnalysisError;
use rust_analysis_engine::parser::javascript::JavaScriptParser;
use rust_analysis_engine::parser::typescript::TypeScriptParser;
use rust_analysis_engine::parser::{ParserRegistry, SourceParser};
use rust_analysis_engine::syntax::{SyntaxNode, SyntaxTree};
use rust_analysis_engine::types::{
    AnalysisRequest, ContentHash, Language, RuleConfig, Severity, SourceFile,
};

fn file(name: &str, content: &str) -> SourceFile {
    SourceFile { name: name.to_string(), content: content.to_string(), language: None }
}

fn request(files: Vec<SourceFile>) -> AnalysisRequest {
    AnalysisRequest { files, rules: None }
}

#[test]
fn scenario_hello_function() {
    let parser = JavaScriptParser::new().unwrap();
    let result = parser.parse("function hello() { return 1; }").unwrap();
    assert_eq!(result.functions.len(), 1);
    assert_eq!(result.functions[0].name, "hello");
    assert_eq!(result.functions[0].complexity, 1);
    assert_eq!(result.classes.len(), 0);
    assert_eq!(result.imports.len(), 0);
}

#[test]
fn scenario_if_for_and() {
    let parser = JavaScriptParser::new().unwrap();
    let content = "function f(a, b) {\n  if (a) { g(); }\n  for (let i = 0; i < b; i++) { g(); }\n  return a && b;\n}\n";
    let result = parser.parse(content).unwrap();
    assert_eq!(result.functions.len(), 1);
    assert_eq!(result.functions[0].complexity, 4);
}

#[test]
fn each_decision_kind_counts_once() {
    let parser = JavaScriptParser::new().unwrap();
    let content = "function f(a, b) {\n  while (a) { a--; }\n  do { b--; } while (b);\n  switch (a) { case 1: break; }\n  try { g(); } catch (e) { h(); }\n  for (const k in b) {}\n  for (const v of b) {}\n  return a ? b : a || b;\n}\n";
    let result = parser.parse(content).unwrap();
    // 1 + while + do + switch + catch + for-in + for-of + ternary + ||
    assert_eq!(result.functions[0].complexity, 9);
}

#[test]
fn nested_function_counts_into_outer() {
    let parser = JavaScriptParser::new().unwrap();
    let content = "function outer() {\n  function inner(x) { if (x) { return 1; } return 2; }\n  return inner(1);\n}\n";
    let result = parser.parse(content).unwrap();
    assert_eq!(result.functions.len(), 2);
    assert_eq!(result.functions[0].name, "outer");
    assert_eq!(result.functions[0].complexity, 2);
    assert_eq!(result.functions[1].name, "inner");
    assert_eq!(result.functions[1].complexity, 2);
    assert_eq!(result.functions[1].line, 2);
}

#[test]
fn top_level_declarations_in_source_order() {
    let parser = JavaScriptParser::new().unwrap();
    let content = "function a() {}\nfunction b() {}\nfunction c() {}\n";
    let result = parser.parse(content).unwrap();
    let names: Vec<&str> = result.functions.iter().map(|f| f.name.as_str()).collect();
    assert_eq!(names, vec!["a", "b", "c"]);
    let lines: Vec<u32> = result.functions.iter().map(|f| f.line).collect();
    assert_eq!(lines, vec![1, 2, 3]);
}

#[test]
fn assigned_anonymous_functions_take_the_target_name() {
    let parser = JavaScriptParser::new().unwrap();
    let content = "x = function () { return 1; };\ny = () => 2;\nvar z = function () {};\n";
    let result = parser.parse(content).unwrap();
    let names: Vec<&str> = result.functions.iter().map(|f| f.name.as_str()).collect();
    assert_eq!(names, vec!["x", "y", "z"]);
}

#[test]
fn object_key_and_unbound_functions() {
    let parser = JavaScriptParser::new().unwrap();
    let content = "const o = { run: () => 1 };\n[1].map(function () { return 2; });\n";
    let result = parser.parse(content).unwrap();
    let names: Vec<&str> = result.functions.iter().map(|f| f.name.as_str()).collect();
    assert_eq!(names, vec!["run", "anonymous"]);
}

#[test]
fn import_specifier_loses_its_quotes() {
    let parser = JavaScriptParser::new().unwrap();
    let result = parser.parse("import { a } from \"./utils\";").unwrap();
    assert_eq!(result.imports.len(), 1);
    assert_eq!(result.imports[0].module, "./utils");
    assert_eq!(result.imports[0].line, 1);
}

#[test]
fn dynamic_import_and_export_from_in_both_languages() {
    let js = JavaScriptParser::new().unwrap();
    let ts = TypeScriptParser::new().unwrap();
    let content = "const m = import('./lazy');\nconst n = load('./other');\nexport { a } from './a';\n";
    for imports in [js.parse(content).unwrap().imports, ts.parse(content).unwrap().imports] {
        let found: Vec<(String, u32)> = imports.iter().map(|i| (i.module.clone(), i.line)).collect();
        assert_eq!(found, vec![("./lazy".to_string(), 1), ("./a".to_string(), 3)]);
    }
}

#[test]
fn interface_members_and_extends() {
    let parser = TypeScriptParser::new().unwrap();
    let content = "interface Admin extends User, Auditable {\n  ban(id: string): void;\n  level: number;\n}\n";
    let tree = rust_analysis_engine::parser::grammar::parse_source(
        rust_analysis_engine::parser::grammar::Grammar::TypeScript,
        content,
        7_000_000,
    )
    .unwrap();
    let interfaces = parser.extract_interfaces(&tree, content);
    assert_eq!(interfaces.len(), 1);
    assert_eq!(interfaces[0].name, "Admin");
    assert_eq!(interfaces[0].line, 1);
    assert_eq!(interfaces[0].methods, vec!["ban".to_string()]);
    assert_eq!(interfaces[0].properties, vec!["level".to_string()]);
    assert_eq!(interfaces[0].extends, vec!["User".to_string(), "Auditable".to_string()]);
    let types = parser.extract_types(&rust_analysis_engine::parser::grammar::parse_source(
        rust_analysis_engine::parser::grammar::Grammar::TypeScript,
        "type Id = string;\nenum Color { Red }\n",
        7_000_000,
    )
    .unwrap(), "type Id = string;\nenum Color { Red }\n");
    assert_eq!(types.len(), 2);
    assert_eq!(types[0].name, "Id");
    assert_eq!(types[1].name, "Color");
    assert_eq!(types[1].line, 2);
}

#[test]
fn parsing_twice_gives_the_same_lists() {
    let parser = TypeScriptParser::new().unwrap();
    let content = "import x from 'y';\nclass A { m() { return 1 && 2; } }\nconst f = () => 3;\n";
    let a = parser.parse(content).unwrap();
    let b = parser.parse(content).unwrap();
    let fa: Vec<(String, u32, u32)> = a.functions.iter().map(|f| (f.name.clone(), f.line, f.complexity)).collect();
    let fb: Vec<(String, u32, u32)> = b.functions.iter().map(|f| (f.name.clone(), f.line, f.complexity)).collect();
    assert_eq!(fa, fb);
    let ca: Vec<(String, u32)> = a.classes.iter().map(|c| (c.name.clone(), c.line)).collect();
    let cb: Vec<(String, u32)> = b.classes.iter().map(|c| (c.name.clone(), c.line)).collect();
    assert_eq!(ca, cb);
    let ia: Vec<(String, u32)> = a.imports.iter().map(|i| (i.module.clone(), i.line)).collect();
    let ib: Vec<(String, u32)> = b.imports.iter().map(|i| (i.module.clone(), i.line)).collect();
    assert_eq!(ia, ib);
}

#[test]
fn unbalanced_braces_do_not_panic() {
    let js = JavaScriptParser::new().unwrap();
    let ts = TypeScriptParser::new().unwrap();
    for content in ["function f() { if (a) { ", "}}}} function g() {", "class { { {"] {
        match js.parse(content) {
            Ok(r) => assert!(r.functions.iter().all(|f| f.complexity >= 1)),
            Err(e) => assert!(matches!(e, AnalysisError::ParseError { .. })),
        }
        match ts.parse(content) {
            Ok(r) => assert!(r.functions.iter().all(|f| f.complexity >= 1)),
            Err(e) => assert!(matches!(e, AnalysisError::ParseError { .. })),
        }
    }
}

#[test]
fn typescript_interfaces_and_types() {
    let parser = TypeScriptParser::new().unwrap();
    let content = "interface Shape { area(): number; name: string; }\ntype Id = string;\nenum Color { Red }\n";
    let result = parser.parse(content).unwrap();
    assert_eq!(result.classes.len(), 1);
    assert_eq!(result.classes[0].name, "Shape");
    assert_eq!(result.functions.len(), 1);
    assert_eq!(result.functions[0].name, "area");
}

#[test]
fn typescript_function_signature_has_complexity_one() {
    let parser = TypeScriptParser::new().unwrap();
    let result = parser.parse("declare function load(p: string): void;\n").unwrap();
    assert_eq!(result.functions.len(), 1);
    assert_eq!(result.functions[0].name, "load");
    assert_eq!(result.functions[0].complexity, 1);
}

#[test]
fn language_from_filename() {
    assert_eq!(Language::from_filename("a.js"), Some(Language::JavaScript));
    assert_eq!(Language::from_filename("a.b.mjs"), Some(Language::JavaScript));
    assert_eq!(Language::from_filename("x.tsx"), Some(Language::TypeScript));
    assert_eq!(Language::from_filename("m.pyi"), Some(Language::Python));
    assert_eq!(Language::from_filename("main.go"), Some(Language::Go));
    assert_eq!(Language::from_filename("lib.rs"), Some(Language::Rust));
    assert_eq!(Language::from_filename("x.JS"), None);
    assert_eq!(Language::from_filename("x.xyz"), None);
    assert_eq!(Language::from_filename("js"), Some(Language::JavaScript));
    assert_eq!(Language::from_filename("noext"), None);
    assert_eq!(Language::from_filename(""), None);
}

#[test]
fn extensions_resolve_back_to_their_language() {
    for lang in [Language::JavaScript, Language::TypeScript, Language::Python, Language::Go, Language::Rust] {
        for ext in lang.supported_extensions() {
            assert_eq!(Language::from_filename(&format!("f.{}", ext)), Some(lang));
        }
    }
    assert_eq!(Language::TypeScript.supported_extensions(), vec!["ts", "tsx"]);
}

#[test]
fn registry_covers_javascript_and_typescript() {
    let registry = ParserRegistry::new().unwrap();
    assert_eq!(registry.get_parser(&Language::JavaScript).unwrap().language(), Language::JavaScript);
    assert_eq!(registry.get_parser(&Language::TypeScript).unwrap().language(), Language::TypeScript);
    assert!(registry.get_parser(&Language::Python).is_none());
    let langs = registry.supported_languages();
    assert_eq!(langs.len(), 2);
    assert!(langs.contains(&Language::JavaScript) && langs.contains(&Language::TypeScript));
}

#[test]
fn empty_batch_is_a_validation_error() {
    let engine = AnalysisEngine::new().unwrap();
    match engine.analyze(request(vec![])) {
        Err(AnalysisError::ValidationError { message }) => {
            assert_eq!(message, "At least one file must be provided")
        }
        other => panic!("expected a validation error, got {:?}", other),
    }
}

#[test]
fn unknown_extension_aborts_the_batch() {
    let engine = AnalysisEngine::new().unwrap();
    let files = vec![file("ok.js", "function a() {}"), file("x.xyz", "some content")];
    match engine.analyze(request(files)) {
        Err(AnalysisError::UnsupportedLanguage { language }) => assert_eq!(language, "xyz"),
        other => panic!("expected an unsupported language, got {:?}", other),
    }
}

#[test]
fn language_without_parser_aborts_the_batch() {
    let engine = AnalysisEngine::new().unwrap();
    let files = vec![file("a.js", "let x = 1;"), file("b.py", "def f(): pass")];
    match engine.analyze(request(files)) {
        Err(AnalysisError::UnsupportedLanguage { language }) => assert_eq!(language, "Python"),
        other => panic!("expected an unsupported language, got {:?}", other),
    }
}

#[test]
fn batch_checks() {
    let too_many: Vec<SourceFile> = (0..MAX_FILES + 1).map(|i| file(&format!("f{}.js", i), "")).collect();
    assert!(matches!(validate_request(&request(too_many)), Err(AnalysisError::ValidationError { .. })));
    let exactly: Vec<SourceFile> = (0..MAX_FILES).map(|i| file(&format!("f{}.js", i), "")).collect();
    assert!(validate_request(&request(exactly)).is_ok());
    match validate_request(&request(vec![file("", "x")])) {
        Err(AnalysisError::ValidationError { message }) => assert_eq!(message, "File name cannot be empty"),
        other => panic!("expected a validation error, got {:?}", other),
    }
    let big = "a".repeat(MAX_FILE_SIZE + 1);
    match validate_request(&request(vec![file("big.js", &big)])) {
        Err(AnalysisError::FileTooLarge { size_bytes, limit_bytes }) => {
            assert_eq!(size_bytes, MAX_FILE_SIZE + 1);
            assert_eq!(limit_bytes, MAX_FILE_SIZE);
        }
        other => panic!("expected file too large, got {:?}", other),
    }
    let limit = "a".repeat(MAX_FILE_SIZE);
    assert!(validate_request(&request(vec![file("big.js", &limit)])).is_ok());
    let tagged = SourceFile { name: "notes.txt".to_string(), content: String::new(), language: Some(Language::TypeScript) };
    assert!(validate_request(&request(vec![tagged])).is_ok());
}

#[test]
fn explicit_tag_beats_the_extension() {
    let engine = AnalysisEngine::new().unwrap();
    let tagged = SourceFile {
        name: "notes.txt".to_string(),
        content: "interface A {}\n".to_string(),
        language: Some(Language::TypeScript),
    };
    let response = engine.analyze(request(vec![tagged])).unwrap();
    assert_eq!(response.results[0].language, Language::TypeScript);
    assert_eq!(response.results[0].metrics.classes_count, 1);
}

#[test]
fn batch_metrics_and_summary() {
    let engine = AnalysisEngine::new().unwrap();
    let files = vec![
        file("a.js", "function hello() { return 1; }"),
        file("b.ts", "class A {}\nclass B {}\n\nconst f = () => 1;\nconst g = () => 2;\nlet h = 3;\n"),
    ];
    let response = engine.analyze(request(files)).unwrap();
    assert_eq!(response.results.len(), 2);
    let a = &response.results[0];
    assert_eq!(a.file_name, "a.js");
    assert_eq!(a.language, Language::JavaScript);
    assert_eq!(a.metrics.lines_of_code, 1);
    assert_eq!(a.metrics.functions_count, 1);
    assert_eq!(a.metrics.classes_count, 0);
    assert_eq!(a.metrics.complexity_score, 1);
    assert_eq!(a.findings.len(), 1);
    assert_eq!(a.findings[0].rule_id, "demo-simple-function");
    assert_eq!(a.findings[0].severity, Severity::Low);
    let b = &response.results[1];
    assert_eq!(b.metrics.lines_of_code, 6);
    assert_eq!(b.metrics.functions_count, 2);
    assert_eq!(b.metrics.classes_count, 2);
    assert_eq!(b.findings.len(), 0);
    assert_eq!(response.summary.total_files, 2);
    assert_eq!(response.summary.total_findings, 1);
    assert_eq!(response.summary.total_lines_analyzed, 7);
    assert_eq!(response.summary.findings_by_severity, vec![(Severity::Low, 1)]);
}

#[test]
fn lines_are_counted_raw() {
    assert_eq!(count_lines(""), 0);
    assert_eq!(count_lines("a"), 1);
    assert_eq!(count_lines("a\n"), 1);
    assert_eq!(count_lines("a\nb"), 2);
    assert_eq!(count_lines("\n\n"), 2);
    assert_eq!(count_lines("// c\n\n  \nx\r\n"), 4);
}

#[test]
fn rule_config_defaults() {
    let c = RuleConfig::default();
    assert_eq!(c.complexity_threshold, Some(10));
    assert_eq!(c.max_function_length, Some(50));
    assert_eq!(c.enable_security_rules, Some(true));
    assert_eq!(c.enable_dead_code_detection, Some(true));
}

#[test]
fn content_hash_is_sha256_hex() {
    assert_eq!(
        ContentHash::from_content("").0,
        "e3b0c44298fc1c149afbf4c8996fb92427ae41e4649b934ca495991b7852b855"
    );
    assert_eq!(
        ContentHash::from_content("abc").0,
        "ba7816bf8f01cfea414140de5dae2223b00361a396177a9cb410ff61f20015ad"
    );
    assert_eq!(ContentHash::from_content("abc"), ContentHash::from_content("abc"));
}

fn node(kind: &str, field: Option<&str>, parent: Option<usize>, bytes: (usize, usize), end: usize) -> SyntaxNode {
    SyntaxNode {
        kind: kind.to_string(),
        field: field.map(|f| f.to_string()),
        parent,
        start_byte: bytes.0,
        end_byte: bytes.1,
        row: 0,
        end,
    }
}

#[test]
fn extraction_from_a_given_tree() {
    // x = () => a && b
    let src = "x = () => a && b";
    let nodes = vec![
        node("program", None, None, (0, 16), 10),
        node("expression_statement", None, Some(0), (0, 16), 10),
        node("assignment_expression", None, Some(1), (0, 16), 10),
        node("identifier", Some("left"), Some(2), (0, 1), 4),
        node("=", None, Some(2), (2, 3), 5),
        node("arrow_function", Some("right"), Some(2), (4, 16), 10),
        node("binary_expression", Some("body"), Some(5), (10, 16), 10),
        node("identifier", Some("left"), Some(6), (10, 11), 8),
        node("&&", Some("operator"), Some(6), (12, 14), 9),
        node("identifier", Some("right"), Some(6), (15, 16), 10),
    ];
    let tree = SyntaxTree { nodes, has_error: false };
    let result = JavaScriptParser::new().unwrap().parse_tree(&tree, src);
    assert_eq!(result.language, Language::JavaScript);
    assert_eq!(result.functions.len(), 1);
    assert_eq!(result.functions[0].name, "x");
    assert_eq!(result.functions[0].line, 1);
    assert_eq!(result.functions[0].complexity, 2);
    assert!(result.classes.is_empty());
    assert!(result.imports.is_empty());
}

#[test]
fn require_call_from_a_given_tree() {
    // require('fs')
    let src = "require('fs')";
    let nodes = vec![
        node("program", None, None, (0, 13), 8),
        node("call_expression", None, Some(0), (0, 13), 8),
        node("identifier", Some("function"), Some(1), (0, 7), 3),
        node("arguments", Some("arguments"), Some(1), (7, 13), 8),
        node("(", None, Some(3), (7, 8), 5),
        node("string", None, Some(3), (8, 12), 6),
        node(")", None, Some(3), (12, 13), 7),
        node("comment", None, Some(0), (13, 13), 8),
    ];
    let tree = SyntaxTree { nodes, has_error: false };
    let result = TypeScriptParser::new().unwrap().parse_tree(&tree, src);
    assert_eq!(result.imports.len(), 1);
    assert_eq!(result.imports[0].module, "fs");
}

#[test]
fn isolated_registry_with_a_subset_of_languages() {
    let registry = ParserRegistry::with_languages(&[Language::JavaScript, Language::Go]).unwrap();
    assert_eq!(registry.supported_languages(), vec![Language::JavaScript]);
    assert!(registry.get_parser(&Language::TypeScript).is_none());
    let engine = AnalysisEngine::with_registry(registry);
    assert!(engine.analyze(request(vec![file("a.js", "let a = 1;")])).is_ok());
    match engine.analyze(request(vec![file("a.js", "let a = 1;"), file("b.ts", "let b = 2;")])) {
        Err(AnalysisError::UnsupportedLanguage { language }) => assert_eq!(language, "TypeScript"),
        other => panic!("expected an unsupported language, got {:?}", other),
    }
    let empty = ParserRegistry::with_languages(&[]).unwrap();
    assert!(empty.supported_languages().is_empty());
}
