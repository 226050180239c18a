use lwas_core::audit::{AuditFinding, FindingType, ScannedFile, SovereignAudit};
use lwas_core::text::extract_symbols;

fn file(path: &str, content: &str) -> ScannedFile {
    ScannedFile { path: path.to_string(), content: content.to_string() }
}

#[test]
fn extracts_declarations() {
    let names = extract_symbols("fn main() {}\nstruct Foo {}\nenum Color { Red }");
    let views: Vec<&str> = names.iter().map(|s| s.as_str()).collect();
    assert_eq!(views, vec!["main", "Foo", "Color"]);
}

#[test]
fn extracts_exported_and_ts_declarations() {
    let names = extract_symbols("export class Widget extends Base {}\ninterface IShape {}\nfunction helper(x) {}");
    let views: Vec<&str> = names.iter().map(|s| s.as_str()).collect();
    assert_eq!(views, vec!["Widget", "IShape", "helper"]);
}

#[test]
fn extracts_nothing_from_plain_text() {
    let names = extract_symbols("just words, no declarations here");
    assert!(names.is_empty());
}

#[test]
fn keyword_needs_whitespace_then_identifier() {
    assert!(extract_symbols("struct{}").is_empty());
    assert!(extract_symbols("enum 123").is_empty());
    let names = extract_symbols("struct   _Spaced");
    assert_eq!(names.len(), 1);
    assert_eq!(names[0], "_Spaced");
}

#[test]
fn registry_records_symbol_info() {
    let mut audit = SovereignAudit::new();
    audit.run_full_audit(&vec![file("src/a.rs", "fn alpha() {}")]);
    let info = audit.symbol_registry.get(&"alpha".to_string()).expect("symbol indexed");
    assert_eq!(info.name, "alpha");
    assert_eq!(info.project, "Empire");
    assert_eq!(info.file_path, "src/a.rs");
    assert_eq!(info.line, 0);
    assert_eq!(info.hash, format!("{:x}", md5::compute("alpha".as_bytes())));
    assert_eq!(info.hash.len(), 32);
}

#[test]
fn registry_last_writer_wins() {
    let mut audit = SovereignAudit::new();
    audit.run_full_audit(&vec![
        file("first.rs", "fn shared() {}"),
        file("second.rs", "fn shared() {}"),
    ]);
    assert_eq!(audit.symbol_registry.len(), 1);
    let info = audit.symbol_registry.get(&"shared".to_string()).unwrap();
    assert_eq!(info.file_path, "second.rs");
}

#[test]
fn todo_rule_fires_on_debt_markers() {
    let mut audit = SovereignAudit::new();
    audit.run_full_audit(&vec![file("x.rs", "// TODO: fix this")]);
    let scan: Vec<&AuditFinding> =
        audit.findings.iter().filter(|f| f.id.starts_with("technical-debt::")).collect();
    assert_eq!(scan.len(), 1);
    assert_eq!(scan[0].id, "technical-debt::x.rs");
    assert_eq!(scan[0].title, "Technical Debt Found");
    assert!(matches!(scan[0].f_type, FindingType::LogicGap));
    assert_eq!(scan[0].files, vec!["x.rs".to_string()]);

    let mut audit2 = SovereignAudit::new();
    audit2.run_full_audit(&vec![file("y.rs", "// FIXME: later")]);
    assert!(audit2.findings.iter().any(|f| f.id == "technical-debt::y.rs"));
}

#[test]
fn unwrap_rule_fires_once_per_file() {
    let mut audit = SovereignAudit::new();
    audit.run_full_audit(&vec![file("u.rs", "a.unwrap(); b.unwrap(); c.unwrap()")]);
    let hits: Vec<&AuditFinding> =
        audit.findings.iter().filter(|f| f.id == "unsafe-unwrap::u.rs").collect();
    assert_eq!(hits.len(), 1);
    assert!(matches!(hits[0].f_type, FindingType::LogicGap));
}

#[test]
fn any_rule_respects_word_boundaries() {
    let mut audit = SovereignAudit::new();
    audit.run_full_audit(&vec![
        file("typed.ts", "let x: any = 1"),
        file("clean.ts", "let many = company"),
    ]);
    assert!(audit.findings.iter().any(|f| f.id == "unsafe-any::typed.ts"));
    assert!(!audit.findings.iter().any(|f| f.id == "unsafe-any::clean.ts"));
    let hit = audit.findings.iter().find(|f| f.id == "unsafe-any::typed.ts").unwrap();
    assert_eq!(hit.title, "Unsafe 'any' type detected");
    assert!(matches!(hit.f_type, FindingType::Security));
}

#[test]
fn fixed_findings_are_appended_last() {
    let mut audit = SovereignAudit::new();
    audit.run_full_audit(&vec![file("x.rs", "// TODO: fix")]);
    let n = audit.findings.len();
    assert!(n >= 4);
    assert_eq!(audit.findings[n - 3].id, "Unsafe-Unwrap-0");
    assert_eq!(audit.findings[n - 3].title, "Unsafe Unwrap");
    assert_eq!(audit.findings[n - 3].suggestion, "Replace with SovereignResult.");
    assert_eq!(audit.findings[n - 2].id, "Noetic-Noise-1");
    assert_eq!(audit.findings[n - 2].suggestion, "Use TelemetryHub for structured logging.");
    assert_eq!(audit.findings[n - 1].id, "Incomplete-Logic-2");
    assert_eq!(audit.findings[n - 1].suggestion, "Manifest the missing soul fragment.");
    for f in &audit.findings[n - 3..] {
        assert_eq!(f.files, vec!["lwas_core/src/organism.rs".to_string()]);
    }
}

#[test]
fn audit_over_no_files_yields_empty_registry_and_fixed_findings_only() {
    let mut audit = SovereignAudit::new();
    audit.run_full_audit(&Vec::new());
    assert_eq!(audit.symbol_registry.len(), 0);
    assert_eq!(audit.findings.len(), 3);
    let ids: Vec<&str> = audit.findings.iter().map(|f| f.id.as_str()).collect();
    assert_eq!(ids, vec!["Unsafe-Unwrap-0", "Noetic-Noise-1", "Incomplete-Logic-2"]);
}

#[test]
fn scan_results_do_not_depend_on_file_order() {
    let a = file("a.rs", "fn one() {}\n// TODO: x");
    let b = file("b.ts", "class Two {}\nlet z: any = 0");
    let c = file("c.js", "function three() {} // .unwrap()");

    let mut audit1 = SovereignAudit::new();
    audit1.run_full_audit(&vec![a.clone(), b.clone(), c.clone()]);
    let mut audit2 = SovereignAudit::new();
    audit2.run_full_audit(&vec![c, a, b]);

    let mut names1: Vec<String> = Vec::new();
    for n in ["one", "Two", "three"] {
        if audit1.symbol_registry.get(&n.to_string()).is_some() {
            names1.push(n.to_string());
        }
    }
    assert_eq!(names1, vec!["one", "Two", "three"]);
    for n in &names1 {
        assert!(audit2.symbol_registry.contains(n));
    }
    assert_eq!(audit1.symbol_registry.len(), audit2.symbol_registry.len());

    let mut ids1: Vec<String> = audit1.findings.iter().map(|f| f.id.clone()).collect();
    let mut ids2: Vec<String> = audit2.findings.iter().map(|f| f.id.clone()).collect();
    ids1.sort();
    ids2.sort();
    assert_eq!(ids1, ids2);
}
