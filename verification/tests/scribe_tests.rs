use lwas_core::audit::{AuditFinding, FindingType, ScannedFile, SovereignAudit};
use lwas_core::scribe::{annotate_content, ScribeReport, SovereignScribe};
use lwas_core::store::FileStore;

fn finding(id: &str, target: Option<&str>, suggestion: &str) -> AuditFinding {
    AuditFinding {
        id: id.to_string(),
        f_type: FindingType::LogicGap,
        title: "t".to_string(),
        files: match target {
            Some(p) => vec![p.to_string()],
            None => Vec::new(),
        },
        impact_lines: 1,
        suggestion: suggestion.to_string(),
    }
}

#[test]
fn annotation_is_two_header_lines_then_original() {
    let r = annotate_content(
        &"F-1".to_string(),
        &"Do better.".to_string(),
        &"let x = 1;\n".to_string(),
    );
    assert_eq!(
        r,
        "// [PURIFIED_BY_AETERNA: F-1]\n// Suggestion: Do better.\nlet x = 1;\n"
    );
}

#[test]
fn purge_annotates_existing_target() {
    let scribe = SovereignScribe::new();
    let mut store = FileStore::new();
    store.write("a.rs".to_string(), "body\n".to_string());
    let findings = vec![finding("F-1", Some("a.rs"), "S.")];
    let n = scribe.execute_first_purge(&findings, &mut store);
    assert_eq!(n, 1);
    let content = store.read(&"a.rs".to_string()).unwrap();
    assert_eq!(content.as_str(), "// [PURIFIED_BY_AETERNA: F-1]\n// Suggestion: S.\nbody\n");
}

#[test]
fn purge_skips_missing_target_without_error() {
    let scribe = SovereignScribe::new();
    let mut store = FileStore::new();
    store.write("present.rs".to_string(), "keep\n".to_string());
    let findings = vec![finding("F-1", Some("absent.rs"), "S.")];
    let n = scribe.execute_first_purge(&findings, &mut store);
    assert_eq!(n, 0);
    assert_eq!(store.len(), 1);
    assert_eq!(store.read(&"present.rs".to_string()).unwrap().as_str(), "keep\n");
    assert!(store.contains(&"present.rs".to_string()));
    assert!(!store.contains(&"absent.rs".to_string()));
    assert!(store.read(&"absent.rs".to_string()).is_none());
}

#[test]
fn purge_skips_finding_with_no_files() {
    let scribe = SovereignScribe::new();
    let mut store = FileStore::new();
    store.write("a.rs".to_string(), "body".to_string());
    let findings = vec![finding("F-info", None, "S.")];
    let n = scribe.execute_first_purge(&findings, &mut store);
    assert_eq!(n, 0);
    assert_eq!(store.read(&"a.rs".to_string()).unwrap().as_str(), "body");
}

#[test]
fn purge_uses_first_listed_file_only() {
    let scribe = SovereignScribe::new();
    let mut store = FileStore::new();
    store.write("first.rs".to_string(), "one".to_string());
    store.write("second.rs".to_string(), "two".to_string());
    let mut f = finding("F-1", Some("first.rs"), "S.");
    f.files.push("second.rs".to_string());
    let n = scribe.execute_first_purge(&vec![f], &mut store);
    assert_eq!(n, 1);
    assert_eq!(store.read(&"second.rs".to_string()).unwrap().as_str(), "two");
    assert!(store.read(&"first.rs".to_string()).unwrap().starts_with("// [PURIFIED_BY_AETERNA: F-1]"));
}

#[test]
fn rerunning_purge_prepends_a_second_identical_header() {
    let scribe = SovereignScribe::new();
    let mut store = FileStore::new();
    store.write("a.rs".to_string(), "orig".to_string());
    let findings = vec![finding("F-1", Some("a.rs"), "S.")];
    let n1 = scribe.execute_first_purge(&findings, &mut store);
    let after_one = store.read(&"a.rs".to_string()).unwrap().clone();
    let n2 = scribe.execute_first_purge(&findings, &mut store);
    let after_two = store.read(&"a.rs".to_string()).unwrap().clone();
    assert_eq!(n1, 1);
    assert_eq!(n2, 1);
    let header = "// [PURIFIED_BY_AETERNA: F-1]\n// Suggestion: S.\n";
    assert_eq!(after_one, format!("{}orig", header));
    assert_eq!(after_two, format!("{}{}orig", header, header));
    assert_ne!(after_one, after_two);
}

#[test]
fn report_counts_and_yield_are_consistent() {
    let scribe = SovereignScribe::new();
    let mut store = FileStore::new();
    store.write("a.rs".to_string(), "x".to_string());
    store.write("b.rs".to_string(), "y".to_string());
    let findings = vec![
        finding("F-1", Some("a.rs"), "S."),
        finding("F-2", Some("b.rs"), "S."),
        finding("F-3", Some("missing.rs"), "S."),
    ];
    let report = scribe.perform_surgery(&findings, &mut store, 4);
    assert_eq!(report.files_modified, 2);
    assert_eq!(report.assets_generated, 4);
    assert_eq!(report.actions_performed, report.files_modified + report.assets_generated);
    assert_eq!(report.equity_yield_centi, 2 * 1618 + 4 * 161800);

    let recomputed = scribe.compose_report(report.files_modified, report.assets_generated);
    let same = ScribeReport {
        actions_performed: report.actions_performed,
        files_modified: report.files_modified,
        assets_generated: report.assets_generated,
        equity_yield_centi: report.equity_yield_centi,
    };
    assert_eq!(recomputed, same);
}

#[test]
fn equity_yield_is_proportional_to_actions() {
    let scribe = SovereignScribe::new();
    assert_eq!(scribe.calculate_equity_yield(0), 0);
    assert_eq!(scribe.calculate_equity_yield(1), 1618);
    assert_eq!(scribe.calculate_equity_yield(5), 8090);
}

#[test]
fn end_to_end_detect_then_purge() {
    let mut audit = SovereignAudit::new();
    let path = "proj/main.rs";
    let content = "// TODO: fix\nlet v = thing.unwrap();\n";
    audit.run_full_audit(&vec![ScannedFile {
        path: path.to_string(),
        content: content.to_string(),
    }]);

    let targeting: Vec<&AuditFinding> =
        audit.findings.iter().filter(|f| f.files.first().map(|p| p.as_str()) == Some(path)).collect();
    assert_eq!(targeting.len(), 2);
    assert!(audit.findings.len() >= 3);
    assert_eq!(audit.findings.len(), 5);

    let scribe = SovereignScribe::new();
    let mut store = FileStore::new();
    store.write(path.to_string(), content.to_string());
    let n = scribe.execute_first_purge(&audit.findings, &mut store);
    assert_eq!(n, 2);

    let after = store.read(&path.to_string()).unwrap();
    let expected = format!(
        "// [PURIFIED_BY_AETERNA: unsafe-unwrap::{p}]\n// Suggestion: Review and entrench stable logic.\n// [PURIFIED_BY_AETERNA: technical-debt::{p}]\n// Suggestion: Review and entrench stable logic.\n{c}",
        p = path,
        c = content
    );
    assert_eq!(after, &expected);
}

#[test]
fn purge_of_fixed_findings_over_empty_store_modifies_nothing() {
    let mut audit = SovereignAudit::new();
    audit.run_full_audit(&Vec::new());
    let scribe = SovereignScribe::new();
    let mut store = FileStore::new();
    let report = scribe.perform_surgery(&audit.findings, &mut store, 0);
    assert_eq!(report.files_modified, 0);
    assert_eq!(report.actions_performed, 0);
    assert_eq!(report.assets_generated, 0);
    assert_eq!(report.equity_yield_centi, 0);
    assert_eq!(store.len(), 0);
}

#[test]
fn purge_of_fixed_findings_over_seeded_store_annotates_each() {
    let mut audit = SovereignAudit::new();
    audit.run_full_audit(&Vec::new());
    let scribe = SovereignScribe::new();
    let mut store = FileStore::new();
    store.write("lwas_core/src/organism.rs".to_string(), "body\n".to_string());
    let report = scribe.perform_surgery(&audit.findings, &mut store, 0);
    assert_eq!(report.files_modified, 3);
    let after = store.read(&"lwas_core/src/organism.rs".to_string()).unwrap();
    assert!(after.starts_with("// [PURIFIED_BY_AETERNA: Incomplete-Logic-2]"));
    assert!(after.contains("// [PURIFIED_BY_AETERNA: Noetic-Noise-1]"));
    assert!(after.contains("// [PURIFIED_BY_AETERNA: Unsafe-Unwrap-0]"));
    assert!(after.ends_with("body\n"));
}
