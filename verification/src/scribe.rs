//! The remediation engine ("Scribe"): consumes audit findings and, for each
//! finding whose target file exists, performs an annotate-and-replace
//! rewrite; a yield score is derived from the remediation counts.
//!
//! The engine mutates a [`FileStore`]; the runner outside the library mirrors
//! each replacement on disk with a write-temp-then-rename, so a target file
//! is either left untouched or fully replaced, never half-written.  Findings
//! that target the same path must be applied in one sequence, as they are
//! here; the runner must not race two rewrites of one path.

use vstd::prelude::*;

use crate::audit::{findings_views, AuditFinding, AuditFindingView};
use crate::store::FileStore;

verus! {

/// Centi-units of equity yield credited per modified file.
pub const YIELD_PER_FILE_CENTI: u128 = 1618;

/// Centi-units of equity yield credited per generated asset.
pub const YIELD_PER_ASSET_CENTI: u128 = 161800;

/// The two-line annotation header recorded for a purge of finding `id` with
/// the given suggestion text.
pub open spec fn annotation_spec(id: Seq<char>, suggestion: Seq<char>) -> Seq<char> {
    "// [PURIFIED_BY_AETERNA: "@ + id + "]\n// Suggestion: "@ + suggestion + "\n"@
}

/// Build the annotated contents for one purge: the two-line header followed
/// by the original contents, preserved unchanged.
pub fn annotate_content(id: &String, suggestion: &String, original: &String) -> (r: String)
    ensures
        r@ == annotation_spec(id@, suggestion@) + original@,
{
    let mut r = String::from_str("// [PURIFIED_BY_AETERNA: ");
    r.append(id.as_str());
    r.append("]\n// Suggestion: ");
    r.append(suggestion.as_str());
    r.append("\n");
    r.append(original.as_str());
    proof {
        assert(r@ =~= annotation_spec(id@, suggestion@) + original@);
    }
    r
}

/// Whether a purge of finding `f` acts on the store `m`: the finding lists a
/// target file and that file exists.
pub open spec fn purge_applies(m: Map<Seq<char>, Seq<char>>, f: AuditFindingView) -> bool {
    f.files.len() > 0 && m.contains_key(f.files[0])
}

/// The store after remediating one finding: the target file, where present,
/// is fully replaced by its annotated contents; everything else is unchanged.
pub open spec fn purge_step(
    m: Map<Seq<char>, Seq<char>>,
    f: AuditFindingView,
) -> Map<Seq<char>, Seq<char>> {
    if purge_applies(m, f) {
        m.insert(f.files[0], annotation_spec(f.id, f.suggestion) + m[f.files[0]])
    } else {
        m
    }
}

/// The store after remediating a sequence of findings, in order.
pub open spec fn purge_fold(
    m: Map<Seq<char>, Seq<char>>,
    fs: Seq<AuditFindingView>,
) -> Map<Seq<char>, Seq<char>>
    decreases fs.len(),
{
    if fs.len() == 0 {
        m
    } else {
        purge_fold(purge_step(m, fs[0]), fs.drop_first())
    }
}

/// How many of the findings act on the store `m`: those listing a target
/// file that exists in `m`.
pub open spec fn purge_count(m: Map<Seq<char>, Seq<char>>, fs: Seq<AuditFindingView>) -> nat
    decreases fs.len(),
{
    if fs.len() == 0 {
        0
    } else {
        (if purge_applies(m, fs[0]) {
            1nat
        } else {
            0nat
        }) + purge_count(m, fs.drop_first())
    }
}

/// A purge never creates or deletes files: it only replaces contents.
pub proof fn lemma_purge_fold_dom(m: Map<Seq<char>, Seq<char>>, fs: Seq<AuditFindingView>)
    ensures
        purge_fold(m, fs).dom() =~= m.dom(),
    decreases fs.len(),
{
    if fs.len() > 0 {
        assert(purge_step(m, fs[0]).dom() =~= m.dom());
        lemma_purge_fold_dom(purge_step(m, fs[0]), fs.drop_first());
    }
}

proof fn lemma_purge_fold_push(
    m: Map<Seq<char>, Seq<char>>,
    fs: Seq<AuditFindingView>,
    f: AuditFindingView,
)
    ensures
        purge_fold(m, fs.push(f)) == purge_step(purge_fold(m, fs), f),
    decreases fs.len(),
{
    if fs.len() == 0 {
        assert(fs.push(f).drop_first() =~= fs);
        assert(fs.push(f)[0] == f);
        assert(purge_fold(m, fs.push(f)) == purge_fold(purge_step(m, f), fs));
    } else {
        assert(fs.push(f)[0] == fs[0]);
        assert(fs.push(f).drop_first() =~= fs.drop_first().push(f));
        lemma_purge_fold_push(purge_step(m, fs[0]), fs.drop_first(), f);
        assert(purge_fold(m, fs.push(f)) == purge_fold(
            purge_step(m, fs[0]),
            fs.drop_first().push(f),
        ));
    }
}

proof fn lemma_purge_count_push(
    m: Map<Seq<char>, Seq<char>>,
    fs: Seq<AuditFindingView>,
    f: AuditFindingView,
)
    ensures
        purge_count(m, fs.push(f)) == purge_count(m, fs) + (if purge_applies(m, f) {
            1nat
        } else {
            0nat
        }),
    decreases fs.len(),
{
    if fs.len() == 0 {
        assert(fs.push(f).drop_first() =~= fs);
        assert(fs.push(f)[0] == f);
    } else {
        assert(fs.push(f)[0] == fs[0]);
        assert(fs.push(f).drop_first() =~= fs.drop_first().push(f));
        lemma_purge_count_push(m, fs.drop_first(), f);
    }
}

/// A run over findings none of which target an existing file modifies
/// nothing and counts nothing; in particular a missing or unreadable target
/// never raises an error and never increments the modified-file count.
pub proof fn lemma_purge_missing_targets(m: Map<Seq<char>, Seq<char>>, fs: Seq<AuditFindingView>)
    requires
        forall|k: int| 0 <= k < fs.len() ==> !purge_applies(m, #[trigger] fs[k]),
    ensures
        purge_fold(m, fs) == m,
        purge_count(m, fs) == 0,
    decreases fs.len(),
{
    if fs.len() > 0 {
        assert(purge_step(m, fs[0]) == m);
        assert(forall|k: int|
            0 <= k < fs.drop_first().len() ==> !purge_applies(m, #[trigger] fs.drop_first()[k]));
        lemma_purge_missing_targets(m, fs.drop_first());
    }
}

/// A path that no finding targets keeps its contents through a purge run.
pub proof fn lemma_purge_untargeted(
    m: Map<Seq<char>, Seq<char>>,
    fs: Seq<AuditFindingView>,
    p: Seq<char>,
)
    requires
        m.contains_key(p),
        forall|k: int|
            0 <= k < fs.len() ==> !((#[trigger] fs[k]).files.len() > 0 && fs[k].files[0] == p),
    ensures
        purge_fold(m, fs).contains_key(p),
        purge_fold(m, fs)[p] == m[p],
    decreases fs.len(),
{
    if fs.len() > 0 {
        assert(purge_step(m, fs[0]).contains_key(p));
        assert(purge_step(m, fs[0])[p] == m[p]);
        assert(forall|k: int|
            0 <= k < fs.drop_first().len() ==> !((#[trigger] fs.drop_first()[k]).files.len() > 0
                && fs.drop_first()[k].files[0] == p));
        lemma_purge_untargeted(purge_step(m, fs[0]), fs.drop_first(), p);
    }
}

/// After a purge over findings of which exactly one, at index `t`, targets
/// the existing file `p`, that file's contents are exactly the two header
/// lines carrying the finding's id and suggestion, followed by the original
/// contents unchanged.
pub proof fn lemma_purge_single_target(
    m: Map<Seq<char>, Seq<char>>,
    fs: Seq<AuditFindingView>,
    p: Seq<char>,
    t: int,
)
    requires
        m.contains_key(p),
        0 <= t < fs.len(),
        fs[t].files.len() > 0 && fs[t].files[0] == p,
        forall|k: int|
            0 <= k < fs.len() && k != t ==> !((#[trigger] fs[k]).files.len() > 0 && fs[k].files[0]
                == p),
    ensures
        purge_fold(m, fs).contains_key(p),
        purge_fold(m, fs)[p] == annotation_spec(fs[t].id, fs[t].suggestion) + m[p],
    decreases fs.len(),
{
    if t == 0 {
        let m1 = purge_step(m, fs[0]);
        assert(m1.contains_key(p));
        assert(m1[p] == annotation_spec(fs[0].id, fs[0].suggestion) + m[p]);
        assert(forall|k: int|
            0 <= k < fs.drop_first().len() ==> !((#[trigger] fs.drop_first()[k]).files.len() > 0
                && fs.drop_first()[k].files[0] == p));
        lemma_purge_untargeted(m1, fs.drop_first(), p);
    } else {
        let m1 = purge_step(m, fs[0]);
        assert(m1.contains_key(p));
        assert(m1[p] == m[p]);
        assert(fs.drop_first()[t - 1] == fs[t]);
        assert(forall|k: int|
            0 <= k < fs.drop_first().len() && k != t - 1 ==> !((#[trigger] fs.drop_first()[k]).files.len()
                > 0 && fs.drop_first()[k].files[0] == p));
        lemma_purge_single_target(m1, fs.drop_first(), p, t - 1);
    }
}

/// Purging is deliberately not idempotent: running the purge again with the
/// same finding prepends a second identical header above the first, so the
/// file's contents change again.
pub proof fn lemma_purge_not_idempotent(
    m: Map<Seq<char>, Seq<char>>,
    f: AuditFindingView,
    p: Seq<char>,
)
    requires
        f.files.len() > 0,
        f.files[0] == p,
        m.contains_key(p),
    ensures
        purge_fold(purge_fold(m, seq![f]), seq![f])[p] == annotation_spec(f.id, f.suggestion) + (
        annotation_spec(f.id, f.suggestion) + m[p]),
        purge_fold(purge_fold(m, seq![f]), seq![f])[p] != purge_fold(m, seq![f])[p],
{
    reveal_strlit("// [PURIFIED_BY_AETERNA: ");
    let a = annotation_spec(f.id, f.suggestion);
    assert(a.len() > 0);
    let s = seq![f];
    assert(Seq::<AuditFindingView>::empty().push(f) =~= s);
    lemma_purge_fold_push(m, Seq::<AuditFindingView>::empty(), f);
    let m1 = purge_fold(m, s);
    assert(m1 == purge_step(m, f));
    assert(m1[p] == a + m[p]);
    assert(m1.contains_key(p));
    lemma_purge_fold_push(m1, Seq::<AuditFindingView>::empty(), f);
    let m2 = purge_fold(m1, s);
    assert(m2 == purge_step(m1, f));
    assert(m2[p] == a + (a + m[p]));
    assert(m2[p].len() == a.len() + a.len() + m[p].len());
    assert(m1[p].len() == a.len() + m[p].len());
    assert(m2[p] != m1[p]);
}

/// A remediation report for one purge run.
#[derive(Clone, Debug, PartialEq, Eq, Structural)]
pub struct ScribeReport {
    pub actions_performed: usize,
    pub files_modified: usize,
    pub assets_generated: usize,
    pub equity_yield_centi: u128,
}

/// The equity yield, in centi-units, earned by a run that modified
/// `files_modified` files while `assets` generated assets were counted.
pub open spec fn equity_yield_spec(files_modified: nat, assets: nat) -> nat {
    files_modified * 1618 + assets * 161800
}

/// The remediation engine.
pub struct SovereignScribe {}

impl SovereignScribe {
    pub fn new() -> (r: Self) {
        SovereignScribe {  }
    }

    /// Remediate every finding in order: a finding with no listed file is
    /// informational and skipped; one whose target file is absent is skipped
    /// without error; otherwise the target is fully replaced by its annotated
    /// contents.  Returns how many findings were applied.
    pub fn execute_first_purge(&self, findings: &Vec<AuditFinding>, store: &mut FileStore) -> (n:
        usize)
        ensures
            final(store)@ == purge_fold(old(store)@, findings_views(findings@)),
            n == purge_count(old(store)@, findings_views(findings@)),
            n <= findings@.len(),
    {
        let ghost fvs = findings_views(findings@);
        let nf = findings.len();
        let mut n: usize = 0;
        let mut i: usize = 0;
        while i < nf
            invariant
                i <= nf,
                n <= i,
                nf == findings@.len(),
                fvs == findings_views(findings@),
                store@ == purge_fold(old(store)@, fvs.take(i as int)),
                n == purge_count(old(store)@, fvs.take(i as int)),
            decreases nf - i,
        {
            let ghost store_before = store@;
            let f = &findings[i];
            proof {
                assert(f@ == fvs[i as int]);
                lemma_purge_fold_dom(old(store)@, fvs.take(i as int));
            }
            let mut applied = false;
            if f.files.len() > 0 {
                let target = &f.files[0];
                proof {
                    assert(f@.files[0] == target@);
                }
                let found = match store.read(target) {
                    Some(content) => Some(annotate_content(&f.id, &f.suggestion, content)),
                    None => None,
                };
                match found {
                    Some(annotated) => {
                        store.write(target.clone(), annotated);
                        applied = true;
                        proof {
                            assert(purge_applies(store_before, fvs[i as int]));
                            assert(store@ =~= purge_step(store_before, fvs[i as int]));
                        }
                    },
                    None => {
                        proof {
                            assert(!purge_applies(store_before, fvs[i as int]));
                            assert(store@ =~= purge_step(store_before, fvs[i as int]));
                        }
                    },
                }
            } else {
                proof {
                    assert(!purge_applies(store_before, fvs[i as int]));
                    assert(store@ =~= purge_step(store_before, fvs[i as int]));
                }
            }
            if applied {
                n += 1;
            }
            proof {
                lemma_purge_fold_push(old(store)@, fvs.take(i as int), fvs[i as int]);
                lemma_purge_count_push(old(store)@, fvs.take(i as int), fvs[i as int]);
                assert(fvs.take(i as int).push(fvs[i as int]) =~= fvs.take(i + 1));
                assert(purge_applies(store_before, fvs[i as int]) == purge_applies(
                    old(store)@,
                    fvs[i as int],
                ));
            }
            i += 1;
        }
        proof {
            assert(fvs.take(nf as int) =~= fvs);
        }
        n
    }

    /// The yield credited for `actions` applied remediations, in centi-units.
    pub fn calculate_equity_yield(&self, actions: usize) -> (y: u128)
        ensures
            y == actions * 1618,
    {
        (actions as u128) * YIELD_PER_FILE_CENTI
    }

    /// Assemble the report for a run: the action count is exactly the
    /// modified-file count plus the generated-asset count, and the yield is a
    /// pure function of those two counts.
    pub fn compose_report(&self, files_modified: usize, assets_generated: usize) -> (r:
        ScribeReport)
        requires
            files_modified + assets_generated <= usize::MAX,
        ensures
            r.files_modified == files_modified,
            r.assets_generated == assets_generated,
            r.actions_performed == files_modified + assets_generated,
            r.equity_yield_centi == equity_yield_spec(
                files_modified as nat,
                assets_generated as nat,
            ),
    {
        let yield_centi = self.calculate_equity_yield(files_modified) + (assets_generated as u128)
            * YIELD_PER_ASSET_CENTI;
        ScribeReport {
            actions_performed: files_modified + assets_generated,
            files_modified: files_modified,
            assets_generated: assets_generated,
            equity_yield_centi: yield_centi,
        }
    }

    /// The full surgery cycle over an in-memory store: purge every finding,
    /// then fold the externally counted generated assets into the report.
    pub fn perform_surgery(
        &self,
        findings: &Vec<AuditFinding>,
        store: &mut FileStore,
        assets_generated: usize,
    ) -> (r: ScribeReport)
        requires
            findings@.len() + assets_generated <= usize::MAX,
        ensures
            final(store)@ == purge_fold(old(store)@, findings_views(findings@)),
            r.files_modified == purge_count(old(store)@, findings_views(findings@)),
            r.assets_generated == assets_generated,
            r.actions_performed == r.files_modified + r.assets_generated,
            r.equity_yield_centi == equity_yield_spec(
                r.files_modified as nat,
                r.assets_generated as nat,
            ),
    {
        let n = self.execute_first_purge(findings, store);
        self.compose_report(n, assets_generated)
    }
}

} // verus!
