//! The audit engine: a symbol registry built by pattern-matched indexing of
//! scanned files, and a detector producing rule-based findings.
//!
//! File enumeration and decoding happen outside the library; every entry
//! point here takes already-scanned files as plain path/content pairs.

use vstd::prelude::*;

use crate::digest::{md5_hex, md5_hex_of};
use crate::text::{
    contains_pattern, contains_seq, contains_word, contains_word_exec, extract_symbols,
    symbols_spec,
};

verus! {

/// A candidate file handed to the engine by the directory walker: its path
/// and its contents, decoded as text.
#[derive(Clone, Debug)]
pub struct ScannedFile {
    pub path: String,
    pub content: String,
}

#[verifier::ext_equal]
pub ghost struct ScannedFileView {
    pub path: Seq<char>,
    pub content: Seq<char>,
}

impl View for ScannedFile {
    type V = ScannedFileView;

    open spec fn view(&self) -> ScannedFileView {
        ScannedFileView { path: self.path@, content: self.content@ }
    }
}

/// The category of an audit finding.
#[derive(Clone, Debug, PartialEq, Eq, Structural)]
pub enum FindingType {
    Redundancy,
    DeadCode,
    LogicGap,
    Optimization,
    Security,
    Performance,
}

/// One detected issue: the affected files and a proposed remediation.
#[derive(Clone, Debug)]
pub struct AuditFinding {
    pub id: String,
    pub f_type: FindingType,
    pub title: String,
    pub files: Vec<String>,
    pub impact_lines: usize,
    pub suggestion: String,
}

#[verifier::ext_equal]
pub ghost struct AuditFindingView {
    pub id: Seq<char>,
    pub f_type: FindingType,
    pub title: Seq<char>,
    pub files: Seq<Seq<char>>,
    pub impact_lines: nat,
    pub suggestion: Seq<char>,
}

impl View for AuditFinding {
    type V = AuditFindingView;

    open spec fn view(&self) -> AuditFindingView {
        AuditFindingView {
            id: self.id@,
            f_type: self.f_type,
            title: self.title@,
            files: self.files@.map_values(|s: String| s@),
            impact_lines: self.impact_lines as nat,
            suggestion: self.suggestion@,
        }
    }
}

impl AuditFindingView {
    /// The remediation target of a finding: its first listed file, if any.
    pub open spec fn target(self) -> Option<Seq<char>> {
        if self.files.len() > 0 {
            Some(self.files[0])
        } else {
            None
        }
    }
}

/// One indexed symbol: where a declaration of this name was last seen.
#[derive(Clone, Debug)]
pub struct SymbolInfo {
    pub name: String,
    pub project: String,
    pub file_path: String,
    pub line: usize,
    pub hash: String,
}

#[verifier::ext_equal]
pub ghost struct SymbolInfoView {
    pub name: Seq<char>,
    pub project: Seq<char>,
    pub file_path: Seq<char>,
    pub line: nat,
    pub hash: Seq<char>,
}

impl View for SymbolInfo {
    type V = SymbolInfoView;

    open spec fn view(&self) -> SymbolInfoView {
        SymbolInfoView {
            name: self.name@,
            project: self.project@,
            file_path: self.file_path@,
            line: self.line as nat,
            hash: self.hash@,
        }
    }
}

/// The registry entry produced when a declaration of `name` is indexed in the
/// file at `path`.
pub open spec fn indexed_symbol(name: Seq<char>, path: Seq<char>) -> SymbolInfoView {
    SymbolInfoView {
        name: name,
        project: "Empire"@,
        file_path: path,
        line: 0,
        hash: md5_hex_of(vstd::utf8::encode_utf8(name)),
    }
}

/// The shared symbol index: a map from symbol name to its last-seen location,
/// with last-writer-wins semantics on collision.
pub struct SymbolRegistry {
    m: vstd::hash_map::StringHashMap<SymbolInfo>,
}

impl View for SymbolRegistry {
    type V = Map<Seq<char>, SymbolInfoView>;

    closed spec fn view(&self) -> Map<Seq<char>, SymbolInfoView> {
        Map::new(|k: Seq<char>| self.m@.contains_key(k), |k: Seq<char>| self.m@[k]@)
    }
}

impl SymbolRegistry {
    pub fn new() -> (r: Self)
        ensures
            r@ == Map::<Seq<char>, SymbolInfoView>::empty(),
    {
        let r = SymbolRegistry { m: vstd::hash_map::StringHashMap::new() };
        proof {
            assert(r@ =~= Map::<Seq<char>, SymbolInfoView>::empty());
        }
        r
    }

    pub fn insert(&mut self, name: String, info: SymbolInfo)
        ensures
            final(self)@ == old(self)@.insert(name@, info@),
    {
        let ghost nv = name@;
        let ghost iv = info@;
        self.m.insert(name, info);
        proof {
            assert(self@ =~= old(self)@.insert(nv, iv));
        }
    }

    pub fn get(&self, name: &String) -> (r: Option<&SymbolInfo>)
        ensures
            match r {
                Some(info) => self@.contains_key(name@) && info@ == self@[name@],
                None => !self@.contains_key(name@),
            },
    {
        self.m.get(name.as_str())
    }

    pub fn contains(&self, name: &String) -> (r: bool)
        ensures
            r == self@.contains_key(name@),
    {
        self.m.contains_key(name.as_str())
    }

    pub fn len(&self) -> (n: usize)
        ensures
            n == self@.dom().len(),
    {
        proof {
            assert(self@.dom() =~= self.m@.dom());
        }
        self.m.len()
    }
}

/// The registry contents after indexing the given declared names from the
/// file at `path`, in order, over the contents `m`.
pub open spec fn index_fold(
    m: Map<Seq<char>, SymbolInfoView>,
    names: Seq<Seq<char>>,
    path: Seq<char>,
) -> Map<Seq<char>, SymbolInfoView>
    decreases names.len(),
{
    if names.len() == 0 {
        m
    } else {
        index_fold(m.insert(names[0], indexed_symbol(names[0], path)), names.drop_first(), path)
    }
}

proof fn lemma_index_fold_push(
    m: Map<Seq<char>, SymbolInfoView>,
    names: Seq<Seq<char>>,
    x: Seq<char>,
    path: Seq<char>,
)
    ensures
        index_fold(m, names.push(x), path) == index_fold(m, names, path).insert(
            x,
            indexed_symbol(x, path),
        ),
    decreases names.len(),
{
    if names.len() == 0 {
        assert(names.push(x).drop_first() =~= names);
        assert(names.push(x)[0] == x);
        assert(index_fold(m, names.push(x), path) == index_fold(
            m.insert(x, indexed_symbol(x, path)),
            names,
            path,
        ));
    } else {
        assert(names.push(x)[0] == names[0]);
        assert(names.push(x).drop_first() =~= names.drop_first().push(x));
        lemma_index_fold_push(
            m.insert(names[0], indexed_symbol(names[0], path)),
            names.drop_first(),
            x,
            path,
        );
        assert(index_fold(m, names.push(x), path) == index_fold(
            m.insert(names[0], indexed_symbol(names[0], path)),
            names.drop_first().push(x),
            path,
        ));
    }
}

/// The registry contents after indexing a sequence of scanned files, in
/// order, over the contents `m`.
pub open spec fn registry_fold(
    m: Map<Seq<char>, SymbolInfoView>,
    fs: Seq<ScannedFileView>,
) -> Map<Seq<char>, SymbolInfoView>
    decreases fs.len(),
{
    if fs.len() == 0 {
        m
    } else {
        registry_fold(index_fold(m, symbols_spec(fs[0].content), fs[0].path), fs.drop_first())
    }
}

proof fn lemma_registry_fold_push(
    m: Map<Seq<char>, SymbolInfoView>,
    fs: Seq<ScannedFileView>,
    f: ScannedFileView,
)
    ensures
        registry_fold(m, fs.push(f)) == index_fold(
            registry_fold(m, fs),
            symbols_spec(f.content),
            f.path,
        ),
    decreases fs.len(),
{
    if fs.len() == 0 {
        assert(fs.push(f).drop_first() =~= fs);
        assert(fs.push(f)[0] == f);
        assert(registry_fold(m, fs.push(f)) == registry_fold(
            index_fold(m, symbols_spec(f.content), f.path),
            fs,
        ));
    } else {
        assert(fs.push(f)[0] == fs[0]);
        assert(fs.push(f).drop_first() =~= fs.drop_first().push(f));
        lemma_registry_fold_push(
            index_fold(m, symbols_spec(fs[0].content), fs[0].path),
            fs.drop_first(),
            f,
        );
        assert(registry_fold(m, fs.push(f)) == registry_fold(
            index_fold(m, symbols_spec(fs[0].content), fs[0].path),
            fs.drop_first().push(f),
        ));
    }
}

/// The views of a finding list.
pub open spec fn findings_views(s: Seq<AuditFinding>) -> Seq<AuditFindingView> {
    s.map_values(|f: AuditFinding| f@)
}

// ---------------------------------------------------------------------------
// Content rules
// ---------------------------------------------------------------------------

/// The technical-debt rule: the content holds a debt marker.
pub open spec fn todo_rule_fires(content: Seq<char>) -> bool {
    contains_seq(content, "TODO:"@) || contains_seq(content, "FIXME:"@)
}

/// The unwrap rule: the content holds a panicking error-suppression call.
pub open spec fn unwrap_rule_fires(content: Seq<char>) -> bool {
    contains_seq(content, ".unwrap()"@)
}

/// The unsafe-typing rule: the content holds `any` as a whole word.
pub open spec fn any_rule_fires(content: Seq<char>) -> bool {
    contains_word(content, "any"@)
}

/// A pattern-scan finding: its id is the rule's prefix followed by the path
/// of the single file it names, so ids are deterministic per rule and file.
pub open spec fn scan_finding_view(
    prefix: Seq<char>,
    path: Seq<char>,
    t: FindingType,
    title: Seq<char>,
) -> AuditFindingView {
    AuditFindingView {
        id: prefix + path,
        f_type: t,
        title: title,
        files: seq![path],
        impact_lines: 1,
        suggestion: "Review and entrench stable logic."@,
    }
}

pub open spec fn todo_finding(path: Seq<char>) -> AuditFindingView {
    scan_finding_view("technical-debt::"@, path, FindingType::LogicGap, "Technical Debt Found"@)
}

pub open spec fn unwrap_finding(path: Seq<char>) -> AuditFindingView {
    scan_finding_view("unsafe-unwrap::"@, path, FindingType::LogicGap, "Unsafe Unwrap Usage"@)
}

pub open spec fn any_finding(path: Seq<char>) -> AuditFindingView {
    scan_finding_view("unsafe-any::"@, path, FindingType::Security, "Unsafe 'any' type detected"@)
}

/// The findings contributed by the pattern scan of one file: each rule fires
/// at most once per file, in rule order.
pub open spec fn file_scan_findings(f: ScannedFileView) -> Seq<AuditFindingView> {
    (if todo_rule_fires(f.content) {
        seq![todo_finding(f.path)]
    } else {
        Seq::empty()
    }) + (if unwrap_rule_fires(f.content) {
        seq![unwrap_finding(f.path)]
    } else {
        Seq::empty()
    }) + (if any_rule_fires(f.content) {
        seq![any_finding(f.path)]
    } else {
        Seq::empty()
    })
}

/// All pattern-scan findings over a sequence of files, in file order.
pub open spec fn scan_findings_spec(fs: Seq<ScannedFileView>) -> Seq<AuditFindingView>
    decreases fs.len(),
{
    if fs.len() == 0 {
        Seq::empty()
    } else {
        file_scan_findings(fs[0]) + scan_findings_spec(fs.drop_first())
    }
}

proof fn lemma_scan_findings_push(fs: Seq<ScannedFileView>, f: ScannedFileView)
    ensures
        scan_findings_spec(fs.push(f)) == scan_findings_spec(fs) + file_scan_findings(f),
    decreases fs.len(),
{
    if fs.len() == 0 {
        assert(fs.push(f).drop_first() =~= fs);
        assert(fs.push(f)[0] == f);
        assert(scan_findings_spec(fs) =~= Seq::<AuditFindingView>::empty());
        assert(scan_findings_spec(fs.push(f)) =~= file_scan_findings(f) + scan_findings_spec(
            fs.push(f).drop_first(),
        ));
        assert(scan_findings_spec(fs.push(f)) =~= scan_findings_spec(fs) + file_scan_findings(f));
    } else {
        assert(fs.push(f)[0] == fs[0]);
        assert(fs.push(f).drop_first() =~= fs.drop_first().push(f));
        lemma_scan_findings_push(fs.drop_first(), f);
        assert(file_scan_findings(fs[0]) + (scan_findings_spec(fs.drop_first())
            + file_scan_findings(f)) =~= (file_scan_findings(fs[0]) + scan_findings_spec(
            fs.drop_first(),
        )) + file_scan_findings(f));
    }
}

/// The representative file targeted by every fixed heuristic finding.
pub open spec fn fixed_target() -> Seq<char> {
    "lwas_core/src/organism.rs"@
}

/// The static table of fixed heuristic findings, always appended after the
/// pattern scan, in this order.
pub open spec fn fixed_findings() -> Seq<AuditFindingView> {
    seq![
        AuditFindingView {
            id: "Unsafe-Unwrap-0"@,
            f_type: FindingType::LogicGap,
            title: "Unsafe Unwrap"@,
            files: seq![fixed_target()],
            impact_lines: 1,
            suggestion: "Replace with SovereignResult."@,
        },
        AuditFindingView {
            id: "Noetic-Noise-1"@,
            f_type: FindingType::Redundancy,
            title: "Noetic Noise"@,
            files: seq![fixed_target()],
            impact_lines: 1,
            suggestion: "Use TelemetryHub for structured logging."@,
        },
        AuditFindingView {
            id: "Incomplete-Logic-2"@,
            f_type: FindingType::LogicGap,
            title: "Incomplete Logic"@,
            files: seq![fixed_target()],
            impact_lines: 1,
            suggestion: "Manifest the missing soul fragment."@,
        },
    ]
}

/// Build a finding whose id is `prefix` followed by `path`, naming that one
/// file.
fn make_scan_finding(prefix: &str, path: &String, t: FindingType, title: &str) -> (f: AuditFinding)
    ensures
        f@ == scan_finding_view(prefix@, path@, t, title@),
{
    let mut id = String::from_str(prefix);
    id.append(path.as_str());
    let mut files: Vec<String> = Vec::new();
    files.push(path.clone());
    let f = AuditFinding {
        id: id,
        f_type: t,
        title: String::from_str(title),
        files: files,
        impact_lines: 1,
        suggestion: String::from_str("Review and entrench stable logic."),
    };
    proof {
        assert(f@.files =~= seq![path@]);
        assert(f@ =~= scan_finding_view(prefix@, path@, t, title@));
    }
    f
}

/// Build one fixed heuristic finding targeting the representative file.
fn make_fixed_finding(id: &str, t: FindingType, title: &str, suggestion: &str) -> (f: AuditFinding)
    ensures
        f@ == (AuditFindingView {
            id: id@,
            f_type: t,
            title: title@,
            files: seq![fixed_target()],
            impact_lines: 1,
            suggestion: suggestion@,
        }),
{
    let mut files: Vec<String> = Vec::new();
    files.push(String::from_str("lwas_core/src/organism.rs"));
    let f = AuditFinding {
        id: String::from_str(id),
        f_type: t,
        title: String::from_str(title),
        files: files,
        impact_lines: 1,
        suggestion: String::from_str(suggestion),
    };
    proof {
        assert(f@.files =~= seq![fixed_target()]);
        assert(f@ =~= AuditFindingView {
            id: id@,
            f_type: t,
            title: title@,
            files: seq![fixed_target()],
            impact_lines: 1,
            suggestion: suggestion@,
        });
    }
    f
}

// ---------------------------------------------------------------------------
// Order independence of the scan
// ---------------------------------------------------------------------------

/// The set of symbol names declared anywhere in a sequence of scanned files.
pub open spec fn registry_names(fs: Seq<ScannedFileView>) -> Set<Seq<char>> {
    Set::new(
        |n: Seq<char>|
            exists|k: int| 0 <= k < fs.len() && #[trigger] symbols_spec(fs[k].content).contains(n),
    )
}

proof fn lemma_seq_to_set_decompose<A>(s: Seq<A>)
    requires
        s.len() > 0,
    ensures
        s.to_set() =~= s.drop_first().to_set().insert(s[0]),
{
    assert forall|x: A| s.to_set().contains(x) implies s.drop_first().to_set().insert(
        s[0],
    ).contains(x) by {
        let i = choose|i: int| 0 <= i < s.len() && s[i] == x;
        if i > 0 {
            assert(s.drop_first()[i - 1] == x);
            assert(s.drop_first().contains(x));
        }
    };
    assert forall|x: A| s.drop_first().to_set().insert(s[0]).contains(x) implies s.to_set().contains(
        x,
    ) by {
        if x == s[0] {
            assert(s.contains(x));
        } else {
            let j = choose|j: int| 0 <= j < s.drop_first().len() && s.drop_first()[j] == x;
            assert(s[j + 1] == x);
            assert(s.contains(x));
        }
    };
}

proof fn lemma_index_fold_dom(m: Map<Seq<char>, SymbolInfoView>, names: Seq<Seq<char>>, path: Seq<char>)
    ensures
        index_fold(m, names, path).dom() =~= m.dom() + names.to_set(),
    decreases names.len(),
{
    if names.len() == 0 {
        assert(names.to_set() =~= Set::<Seq<char>>::empty());
        assert(m.dom() + Set::<Seq<char>>::empty() =~= m.dom());
    } else {
        lemma_index_fold_dom(m.insert(names[0], indexed_symbol(names[0], path)), names.drop_first(), path);
        lemma_seq_to_set_decompose(names);
        assert(m.insert(names[0], indexed_symbol(names[0], path)).dom() =~= m.dom().insert(
            names[0],
        ));
        assert(m.dom().insert(names[0]) + names.drop_first().to_set() =~= m.dom()
            + names.to_set());
    }
}

proof fn lemma_registry_names_decompose(fs: Seq<ScannedFileView>)
    requires
        fs.len() > 0,
    ensures
        registry_names(fs) =~= symbols_spec(fs[0].content).to_set() + registry_names(
            fs.drop_first(),
        ),
{
    assert forall|n: Seq<char>| registry_names(fs).contains(n) implies (symbols_spec(
        fs[0].content,
    ).to_set() + registry_names(fs.drop_first())).contains(n) by {
        let k = choose|k: int|
            0 <= k < fs.len() && #[trigger] symbols_spec(fs[k].content).contains(n);
        if k == 0 {
            assert(symbols_spec(fs[0].content).to_set().contains(n));
        } else {
            assert(fs.drop_first()[k - 1] == fs[k]);
            assert(symbols_spec(fs.drop_first()[k - 1].content).contains(n));
            assert(registry_names(fs.drop_first()).contains(n));
        }
    };
    assert forall|n: Seq<char>| (symbols_spec(fs[0].content).to_set() + registry_names(
        fs.drop_first(),
    )).contains(n) implies registry_names(fs).contains(n) by {
        if symbols_spec(fs[0].content).to_set().contains(n) {
            assert(symbols_spec(fs[0].content).contains(n));
        } else {
            let k = choose|k: int|
                0 <= k < fs.drop_first().len() && #[trigger] symbols_spec(
                    fs.drop_first()[k].content,
                ).contains(n);
            assert(fs[k + 1] == fs.drop_first()[k]);
            assert(symbols_spec(fs[k + 1].content).contains(n));
        }
    };
}

/// The domain of the registry after a scan is the set of names declared in
/// the scanned files together with whatever was already registered; in
/// particular it does not depend on the order in which files are indexed.
pub proof fn lemma_registry_fold_dom(m: Map<Seq<char>, SymbolInfoView>, fs: Seq<ScannedFileView>)
    ensures
        registry_fold(m, fs).dom() =~= m.dom() + registry_names(fs),
    decreases fs.len(),
{
    if fs.len() == 0 {
        assert(registry_names(fs) =~= Set::<Seq<char>>::empty());
        assert(m.dom() + Set::<Seq<char>>::empty() =~= m.dom());
    } else {
        lemma_index_fold_dom(m, symbols_spec(fs[0].content), fs[0].path);
        lemma_registry_fold_dom(index_fold(m, symbols_spec(fs[0].content), fs[0].path), fs.drop_first());
        lemma_registry_names_decompose(fs);
        assert((m.dom() + symbols_spec(fs[0].content).to_set()) + registry_names(fs.drop_first())
            =~= m.dom() + registry_names(fs));
    }
}

proof fn lemma_registry_names_permuted(fs1: Seq<ScannedFileView>, fs2: Seq<ScannedFileView>)
    requires
        fs1.to_multiset() == fs2.to_multiset(),
    ensures
        registry_names(fs1) =~= registry_names(fs2),
{
    fs1.to_multiset_ensures();
    fs2.to_multiset_ensures();
    assert forall|n: Seq<char>| registry_names(fs1).contains(n) implies registry_names(
        fs2,
    ).contains(n) by {
        let k = choose|k: int|
            0 <= k < fs1.len() && #[trigger] symbols_spec(fs1[k].content).contains(n);
        assert(fs1.contains(fs1[k]));
        assert(fs1.to_multiset().count(fs1[k]) > 0);
        assert(fs2.to_multiset().count(fs1[k]) > 0);
        assert(fs2.contains(fs1[k]));
        let j = choose|j: int| 0 <= j < fs2.len() && fs2[j] == fs1[k];
        assert(symbols_spec(fs2[j].content).contains(n));
    };
    assert forall|n: Seq<char>| registry_names(fs2).contains(n) implies registry_names(
        fs1,
    ).contains(n) by {
        let k = choose|k: int|
            0 <= k < fs2.len() && #[trigger] symbols_spec(fs2[k].content).contains(n);
        assert(fs2.contains(fs2[k]));
        assert(fs2.to_multiset().count(fs2[k]) > 0);
        assert(fs1.to_multiset().count(fs2[k]) > 0);
        assert(fs1.contains(fs2[k]));
        let j = choose|j: int| 0 <= j < fs1.len() && fs1[j] == fs2[k];
        assert(symbols_spec(fs1[j].content).contains(n));
    };
}

/// Indexing the same files in any two orders registers the same set of
/// symbol names: the registry's domain depends only on the multiset of
/// scanned files, not on the order workers completed them.
pub proof fn lemma_registry_order_independent(
    m: Map<Seq<char>, SymbolInfoView>,
    fs1: Seq<ScannedFileView>,
    fs2: Seq<ScannedFileView>,
)
    requires
        fs1.to_multiset() == fs2.to_multiset(),
    ensures
        registry_fold(m, fs1).dom() =~= registry_fold(m, fs2).dom(),
{
    lemma_registry_fold_dom(m, fs1);
    lemma_registry_fold_dom(m, fs2);
    lemma_registry_names_permuted(fs1, fs2);
}

proof fn lemma_scan_findings_membership(fs: Seq<ScannedFileView>, v: AuditFindingView)
    ensures
        scan_findings_spec(fs).contains(v) <==> exists|k: int|
            0 <= k < fs.len() && #[trigger] file_scan_findings(fs[k]).contains(v),
    decreases fs.len(),
{
    if fs.len() == 0 {
    } else {
        lemma_scan_findings_membership(fs.drop_first(), v);
        let head = file_scan_findings(fs[0]);
        let tail = scan_findings_spec(fs.drop_first());
        if scan_findings_spec(fs).contains(v) {
            let i = choose|i: int|
                0 <= i < (head + tail).len() && (head + tail)[i] == v;
            if i < head.len() {
                assert(head[i] == v);
                assert(file_scan_findings(fs[0]).contains(v));
            } else {
                assert(tail[i - head.len()] == v);
                assert(tail.contains(v));
                let k = choose|k: int|
                    0 <= k < fs.drop_first().len() && #[trigger] file_scan_findings(
                        fs.drop_first()[k],
                    ).contains(v);
                assert(fs[k + 1] == fs.drop_first()[k]);
                assert(file_scan_findings(fs[k + 1]).contains(v));
            }
        }
        if exists|k: int| 0 <= k < fs.len() && #[trigger] file_scan_findings(fs[k]).contains(v) {
            let k = choose|k: int|
                0 <= k < fs.len() && #[trigger] file_scan_findings(fs[k]).contains(v);
            if k == 0 {
                let i = choose|i: int| 0 <= i < head.len() && head[i] == v;
                assert((head + tail)[i] == v);
                assert(scan_findings_spec(fs).contains(v));
            } else {
                assert(fs.drop_first()[k - 1] == fs[k]);
                assert(file_scan_findings(fs.drop_first()[k - 1]).contains(v));
                assert(tail.contains(v));
                let i = choose|i: int| 0 <= i < tail.len() && tail[i] == v;
                assert((head + tail)[head.len() + i] == v);
                assert(scan_findings_spec(fs).contains(v));
            }
        }
    }
}

/// Scanning the same files in any two orders detects the same set of
/// pattern-scan findings: the set depends only on the multiset of scanned
/// files, not on the order workers completed them.
pub proof fn lemma_scan_order_independent(fs1: Seq<ScannedFileView>, fs2: Seq<ScannedFileView>)
    requires
        fs1.to_multiset() == fs2.to_multiset(),
    ensures
        scan_findings_spec(fs1).to_set() =~= scan_findings_spec(fs2).to_set(),
{
    fs1.to_multiset_ensures();
    fs2.to_multiset_ensures();
    assert forall|v: AuditFindingView| scan_findings_spec(fs1).to_set().contains(v)
        implies scan_findings_spec(fs2).to_set().contains(v) by {
        lemma_scan_findings_membership(fs1, v);
        lemma_scan_findings_membership(fs2, v);
        let k = choose|k: int|
            0 <= k < fs1.len() && #[trigger] file_scan_findings(fs1[k]).contains(v);
        assert(fs1.contains(fs1[k]));
        assert(fs1.to_multiset().count(fs1[k]) > 0);
        assert(fs2.to_multiset().count(fs1[k]) > 0);
        assert(fs2.contains(fs1[k]));
        let j = choose|j: int| 0 <= j < fs2.len() && fs2[j] == fs1[k];
        assert(file_scan_findings(fs2[j]).contains(v));
        assert(scan_findings_spec(fs2).contains(v));
    };
    assert forall|v: AuditFindingView| scan_findings_spec(fs2).to_set().contains(v)
        implies scan_findings_spec(fs1).to_set().contains(v) by {
        lemma_scan_findings_membership(fs1, v);
        lemma_scan_findings_membership(fs2, v);
        let k = choose|k: int|
            0 <= k < fs2.len() && #[trigger] file_scan_findings(fs2[k]).contains(v);
        assert(fs2.contains(fs2[k]));
        assert(fs2.to_multiset().count(fs2[k]) > 0);
        assert(fs1.to_multiset().count(fs2[k]) > 0);
        assert(fs1.contains(fs2[k]));
        let j = choose|j: int| 0 <= j < fs1.len() && fs1[j] == fs2[k];
        assert(file_scan_findings(fs1[j]).contains(v));
        assert(scan_findings_spec(fs1).contains(v));
    };
}

/// The audit engine's state for one run: the symbol registry and the ordered
/// finding list.
pub struct SovereignAudit {
    pub symbol_registry: SymbolRegistry,
    pub findings: Vec<AuditFinding>,
}

impl SovereignAudit {
    pub fn new() -> (r: Self)
        ensures
            r.symbol_registry@ == Map::<Seq<char>, SymbolInfoView>::empty(),
            r.findings@.len() == 0,
    {
        SovereignAudit { symbol_registry: SymbolRegistry::new(), findings: Vec::new() }
    }

    /// Index every symbol declared in one scanned file into the registry,
    /// keyed by name; a later declaration of the same name overwrites the
    /// earlier entry.
    pub fn index_file(&mut self, file: &ScannedFile)
        ensures
            final(self).symbol_registry@ == index_fold(
                old(self).symbol_registry@,
                symbols_spec(file.content@),
                file.path@,
            ),
            final(self).findings == old(self).findings,
    {
        let names = extract_symbols(file.content.as_str());
        let ghost nv = names@.map_values(|s: String| s@);
        let n = names.len();
        let mut k: usize = 0;
        while k < n
            invariant
                k <= n,
                n == names@.len(),
                nv == names@.map_values(|s: String| s@),
                nv == symbols_spec(file.content@),
                self.symbol_registry@ == index_fold(
                    old(self).symbol_registry@,
                    nv.take(k as int),
                    file.path@,
                ),
                self.findings == old(self).findings,
            decreases n - k,
        {
            let name = names[k].clone();
            let hash = md5_hex(name.as_str().as_bytes());
            let info = SymbolInfo {
                name: name.clone(),
                project: String::from_str("Empire"),
                file_path: file.path.clone(),
                line: 0,
                hash: hash,
            };
            proof {
                assert(info@ =~= indexed_symbol(nv[k as int], file.path@));
            }
            self.symbol_registry.insert(name, info);
            proof {
                lemma_index_fold_push(
                    old(self).symbol_registry@,
                    nv.take(k as int),
                    nv[k as int],
                    file.path@,
                );
                assert(nv.take(k as int).push(nv[k as int]) =~= nv.take(k + 1));
            }
            k += 1;
        }
        proof {
            assert(nv.take(n as int) =~= nv);
        }
    }

    /// Phase 1: index every scanned file into the symbol registry, in order.
    pub fn build_registry(&mut self, files: &Vec<ScannedFile>)
        ensures
            final(self).symbol_registry@ == registry_fold(
                old(self).symbol_registry@,
                files@.map_values(|f: ScannedFile| f@),
            ),
            final(self).findings == old(self).findings,
    {
        let ghost fv = files@.map_values(|f: ScannedFile| f@);
        let n = files.len();
        let mut i: usize = 0;
        while i < n
            invariant
                i <= n,
                n == files@.len(),
                fv == files@.map_values(|f: ScannedFile| f@),
                self.symbol_registry@ == registry_fold(
                    old(self).symbol_registry@,
                    fv.take(i as int),
                ),
                self.findings == old(self).findings,
            decreases n - i,
        {
            self.index_file(&files[i]);
            proof {
                lemma_registry_fold_push(
                    old(self).symbol_registry@,
                    fv.take(i as int),
                    fv[i as int],
                );
                assert(fv.take(i as int).push(fv[i as int]) =~= fv.take(i + 1));
            }
            i += 1;
        }
        proof {
            assert(fv.take(n as int) =~= fv);
        }
    }

    /// Phase 2 (fixed heuristics): append the static table of heuristic
    /// findings, each targeting the fixed representative file, in order.
    pub fn detect_redundancy(&mut self)
        ensures
            findings_views(final(self).findings@) == findings_views(old(self).findings@)
                + fixed_findings(),
            final(self).symbol_registry == old(self).symbol_registry,
    {
        let f0 = make_fixed_finding(
            "Unsafe-Unwrap-0",
            FindingType::LogicGap,
            "Unsafe Unwrap",
            "Replace with SovereignResult.",
        );
        let f1 = make_fixed_finding(
            "Noetic-Noise-1",
            FindingType::Redundancy,
            "Noetic Noise",
            "Use TelemetryHub for structured logging.",
        );
        let f2 = make_fixed_finding(
            "Incomplete-Logic-2",
            FindingType::LogicGap,
            "Incomplete Logic",
            "Manifest the missing soul fragment.",
        );
        let ghost before = self.findings@;
        self.findings.push(f0);
        self.findings.push(f1);
        self.findings.push(f2);
        proof {
            assert(findings_views(self.findings@) =~= findings_views(before) + fixed_findings());
        }
    }

    /// Phase 3: dead-code analysis is not implemented; the engine's state is
    /// left untouched.
    pub fn detect_dead_code(&mut self)
        ensures
            *final(self) == *old(self),
    {
    }

    /// Phase 4: run the pattern-scan rules over every scanned file, in file
    /// order, appending one finding per rule that fires.
    pub fn detect_logic_gaps(&mut self, files: &Vec<ScannedFile>)
        ensures
            findings_views(final(self).findings@) == findings_views(old(self).findings@)
                + scan_findings_spec(files@.map_values(|f: ScannedFile| f@)),
            final(self).symbol_registry == old(self).symbol_registry,
    {
        let ghost fv = files@.map_values(|f: ScannedFile| f@);
        let n = files.len();
        let mut i: usize = 0;
        while i < n
            invariant
                i <= n,
                n == files@.len(),
                fv == files@.map_values(|f: ScannedFile| f@),
                findings_views(self.findings@) == findings_views(old(self).findings@)
                    + scan_findings_spec(fv.take(i as int)),
                self.symbol_registry == old(self).symbol_registry,
            decreases n - i,
        {
            let ghost at_entry = self.findings@;
            let file = &files[i];
            let content = file.content.as_str();
            if contains_pattern(content, "TODO:") || contains_pattern(content, "FIXME:") {
                let f = make_scan_finding(
                    "technical-debt::",
                    &file.path,
                    FindingType::LogicGap,
                    "Technical Debt Found",
                );
                self.findings.push(f);
            }
            if contains_pattern(content, ".unwrap()") {
                let f = make_scan_finding(
                    "unsafe-unwrap::",
                    &file.path,
                    FindingType::LogicGap,
                    "Unsafe Unwrap Usage",
                );
                self.findings.push(f);
            }
            proof {
                reveal_strlit("any");
            }
            if contains_word_exec(content, "any") {
                let f = make_scan_finding(
                    "unsafe-any::",
                    &file.path,
                    FindingType::Security,
                    "Unsafe 'any' type detected",
                );
                self.findings.push(f);
            }
            proof {
                assert(findings_views(self.findings@) =~= findings_views(at_entry)
                    + file_scan_findings(fv[i as int]));
                lemma_scan_findings_push(fv.take(i as int), fv[i as int]);
                assert(fv.take(i as int).push(fv[i as int]) =~= fv.take(i + 1));
                assert(findings_views(at_entry) + file_scan_findings(fv[i as int])
                    =~= findings_views(old(self).findings@) + scan_findings_spec(fv.take(i + 1)));
            }
            i += 1;
        }
        proof {
            assert(fv.take(n as int) =~= fv);
        }
    }

    /// Execute the full audit over a set of scanned files: build the symbol
    /// registry, then collect the pattern-scan findings in file order, then
    /// append the fixed heuristic findings, deterministically, at the end.
    pub fn run_full_audit(&mut self, files: &Vec<ScannedFile>)
        ensures
            final(self).symbol_registry@ == registry_fold(
                old(self).symbol_registry@,
                files@.map_values(|f: ScannedFile| f@),
            ),
            findings_views(final(self).findings@) == findings_views(old(self).findings@)
                + scan_findings_spec(files@.map_values(|f: ScannedFile| f@)) + fixed_findings(),
    {
        self.build_registry(files);
        self.detect_logic_gaps(files);
        self.detect_redundancy();
        self.detect_dead_code();
    }
}

} // verus!
