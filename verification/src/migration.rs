//! One-time, idempotent migration of the legacy cache layout.
//!
//! The current layout keeps the two artifact subtrees directly under the
//! cache root; the legacy layout nested the same two subtrees one level
//! deeper, under a legacy-suffixed directory. The engine decides, for each
//! subtree, whether to move it, skip it, or report a conflict, then whether
//! the emptied legacy root can be removed — and it decides identically in
//! both modes: `DryRun` merely records the decisions, `ForReal` also has
//! them performed.
//!
//! The engine itself never touches a filesystem. The caller observes the
//! relevant state into a [`CacheLayout`], calls [`migrate`], and (in
//! `ForReal` mode) performs the returned actions in order, stopping at the
//! first failure with the log accumulated so far; completed moves are never
//! rolled back, and a later call simply re-plans from the fresh state.
//! Subtree contents are abstracted as content tokens: a move carries its
//! subtree's token unchanged, and equal tokens mean byte-identical contents.

use vstd::prelude::*;
use vstd::string::StringExecFns;

use crate::paths::{join_path, joined, legacy_root_of, legacy_root_spec, script_cache_name,
    binary_cache_name};

verus! {

/// Whether mutating filesystem operations actually execute. Both modes run
/// the same decision logic and record the same log.
#[derive(Clone, Copy, Debug, PartialEq, Eq, Structural)]
pub enum MigrationMode {
    DryRun,
    ForReal,
}

/// One artifact subtree's presence on both sides of the migration:
/// `legacy` is its content token under the legacy root, `current` its
/// content token under the cache root, `None` meaning the subtree does not
/// exist there. Equal tokens stand for byte-identical contents.
#[derive(Clone, Copy, Debug, PartialEq, Eq)]
pub struct SubtreePair {
    pub legacy: Option<u64>,
    pub current: Option<u64>,
}

/// The migration-relevant filesystem state: whether the legacy root
/// exists, both artifact subtrees on both sides, and how many entries the
/// legacy root holds besides the two subtrees.
#[derive(Clone, Copy, Debug, PartialEq, Eq)]
pub struct CacheLayout {
    pub legacy_root_exists: bool,
    pub script: SubtreePair,
    pub binary: SubtreePair,
    pub legacy_extra_entries: u64,
}

/// A layout an observer of a real filesystem can report: nothing lives
/// under a legacy root that does not exist.
pub open spec fn wf(l: CacheLayout) -> bool {
    !l.legacy_root_exists ==> l.script.legacy is None && l.binary.legacy is None
        && l.legacy_extra_entries == 0
}

/// One decision of the engine, in the order decisions are made.
#[derive(Clone, Copy, Debug, PartialEq, Eq, Structural)]
pub enum StepKind {
    MoveScript,
    MoveBinary,
    ConflictScript,
    ConflictBinary,
    RemoveLegacyRoot,
    KeepLegacyRoot,
}

/// Steps that mutate the filesystem when performed; the others only log.
pub open spec fn actionable(k: StepKind) -> bool {
    k is MoveScript || k is MoveBinary || k is RemoveLegacyRoot
}

/// Both sides of a subtree exist: the engine must not touch either.
pub open spec fn conflicted(p: SubtreePair) -> bool {
    p.legacy is Some && p.current is Some
}

/// The steps one subtree contributes to the plan: a move when only the
/// legacy side exists, a conflict report when both sides exist, nothing
/// when the legacy side is absent.
pub open spec fn pair_steps(p: SubtreePair, mv: StepKind, cf: StepKind) -> Seq<StepKind> {
    if p.legacy is Some {
        if p.current is None {
            seq![mv]
        } else {
            seq![cf]
        }
    } else {
        Seq::empty()
    }
}

/// Whether the legacy root ends up empty once every planned move has been
/// performed: no extra entries, and no subtree left behind by a conflict.
pub open spec fn legacy_root_empty_after(l: CacheLayout) -> bool {
    l.legacy_extra_entries == 0 && !conflicted(l.script) && !conflicted(l.binary)
}

/// The engine's decisions for a layout, in order: nothing at all when the
/// legacy root does not exist; otherwise one optional step per subtree
/// (script first), then the removal of the emptied legacy root or the
/// reason it was kept.
pub open spec fn plan_spec(l: CacheLayout) -> Seq<StepKind> {
    if !l.legacy_root_exists {
        Seq::empty()
    } else {
        pair_steps(l.script, StepKind::MoveScript, StepKind::ConflictScript) + pair_steps(
            l.binary,
            StepKind::MoveBinary,
            StepKind::ConflictBinary,
        ) + if legacy_root_empty_after(l) {
            seq![StepKind::RemoveLegacyRoot]
        } else {
            seq![StepKind::KeepLegacyRoot]
        }
    }
}

/// A subtree after its planned step is performed: a move carries the
/// legacy content token to the current side; a conflict or an absent
/// legacy side leaves the pair untouched.
pub open spec fn pair_after(p: SubtreePair) -> SubtreePair {
    if p.legacy is Some && p.current is None {
        SubtreePair { legacy: None, current: p.legacy }
    } else {
        p
    }
}

/// The layout after a migration run: unchanged in `DryRun` mode or when
/// the legacy root does not exist; otherwise each subtree after its step,
/// with the legacy root removed exactly when the run empties it.
pub open spec fn layout_after(l: CacheLayout, mode: MigrationMode) -> CacheLayout {
    if mode is DryRun || !l.legacy_root_exists {
        l
    } else {
        CacheLayout {
            legacy_root_exists: !legacy_root_empty_after(l),
            script: pair_after(l.script),
            binary: pair_after(l.binary),
            legacy_extra_entries: l.legacy_extra_entries,
        }
    }
}

/// Where a subtree named `name` lives under the legacy root of `root`.
pub open spec fn legacy_subtree_path(root: Seq<char>, name: Seq<char>) -> Seq<char> {
    joined(legacy_root_spec(root), name)
}

/// Where a subtree named `name` lives in the current layout under `root`.
pub open spec fn current_subtree_path(root: Seq<char>, name: Seq<char>) -> Seq<char> {
    joined(root, name)
}

/// Log line recorded for a move (identical in both modes).
pub open spec fn move_line(from: Seq<char>, to: Seq<char>) -> Seq<char> {
    "migrate: "@ + from + " -> "@ + to
}

/// Log line recorded for a conflict left for the user to reconcile.
pub open spec fn conflict_line(legacy: Seq<char>, current: Seq<char>) -> Seq<char> {
    "conflict: both "@ + legacy + " and "@ + current + " exist; leaving both in place"@
}

/// Log line recorded when the emptied legacy root is removed.
pub open spec fn remove_line(legacy_root: Seq<char>) -> Seq<char> {
    "removed empty legacy cache root "@ + legacy_root
}

/// Log line recorded when the legacy root is kept because it is not empty.
pub open spec fn keep_line(legacy_root: Seq<char>) -> Seq<char> {
    "kept non-empty legacy cache root "@ + legacy_root
}

/// The log line a step records, for a cache root `root`.
pub open spec fn line_spec(k: StepKind, root: Seq<char>) -> Seq<char> {
    match k {
        StepKind::MoveScript => move_line(
            legacy_subtree_path(root, "script-cache"@),
            current_subtree_path(root, "script-cache"@),
        ),
        StepKind::MoveBinary => move_line(
            legacy_subtree_path(root, "binary-cache"@),
            current_subtree_path(root, "binary-cache"@),
        ),
        StepKind::ConflictScript => conflict_line(
            legacy_subtree_path(root, "script-cache"@),
            current_subtree_path(root, "script-cache"@),
        ),
        StepKind::ConflictBinary => conflict_line(
            legacy_subtree_path(root, "binary-cache"@),
            current_subtree_path(root, "binary-cache"@),
        ),
        StepKind::RemoveLegacyRoot => remove_line(legacy_root_spec(root)),
        StepKind::KeepLegacyRoot => keep_line(legacy_root_spec(root)),
    }
}

/// A mutating filesystem operation the caller performs on the engine's
/// behalf in `ForReal` mode.
#[derive(Debug, PartialEq, Eq)]
pub enum FsAction {
    /// Atomically rename the directory at `from` to `to`.
    Rename { from: String, to: String },
    /// Remove the (empty) directory at `path`.
    RemoveDir { path: String },
}

/// One planned step: the operation to perform, if the step mutates
/// anything, and the log line to record once it has succeeded.
#[derive(Debug)]
pub struct PlannedOp {
    pub action: Option<FsAction>,
    pub line: String,
}

/// The relation between a planned operation and the step it implements:
/// the right log line, and exactly the mutating operation the step calls
/// for — none at all for conflict and keep steps.
pub open spec fn op_matches(op: PlannedOp, k: StepKind, root: Seq<char>) -> bool {
    &&& op.line@ == line_spec(k, root)
    &&& match k {
        StepKind::MoveScript => op.action matches Some(FsAction::Rename { from, to })
            && from@ == legacy_subtree_path(root, "script-cache"@) && to@ == current_subtree_path(
            root,
            "script-cache"@,
        ),
        StepKind::MoveBinary => op.action matches Some(FsAction::Rename { from, to })
            && from@ == legacy_subtree_path(root, "binary-cache"@) && to@ == current_subtree_path(
            root,
            "binary-cache"@,
        ),
        StepKind::ConflictScript => op.action is None,
        StepKind::ConflictBinary => op.action is None,
        StepKind::RemoveLegacyRoot => op.action matches Some(FsAction::RemoveDir { path })
            && path@ == legacy_root_spec(root),
        StepKind::KeepLegacyRoot => op.action is None,
    }
}

/// Everything a migration run returns to its caller: the layout the run
/// leaves behind (predicted, in `DryRun`), the ordered operations for the
/// caller to perform, and the full log, one line per decision, in decision
/// order.
#[derive(Debug)]
pub struct MigrationOutcome {
    pub layout: CacheLayout,
    pub ops: Vec<PlannedOp>,
    pub log: Vec<String>,
}

fn pair_clean(p: &SubtreePair) -> (b: bool)
    ensures
        b == !conflicted(*p),
{
    p.legacy.is_none() || p.current.is_none()
}

fn root_would_be_empty(l: &CacheLayout) -> (b: bool)
    ensures
        b == legacy_root_empty_after(*l),
{
    l.legacy_extra_entries == 0 && pair_clean(&l.script) && pair_clean(&l.binary)
}

/// The engine's decisions for a layout, as executable data.
pub fn plan(l: &CacheLayout) -> (v: Vec<StepKind>)
    ensures
        v@ == plan_spec(*l),
{
    let mut v: Vec<StepKind> = Vec::new();
    if !l.legacy_root_exists {
        proof {
            assert(v@ =~= plan_spec(*l));
        }
        return v;
    }
    if l.script.legacy.is_some() {
        if l.script.current.is_none() {
            v.push(StepKind::MoveScript);
        } else {
            v.push(StepKind::ConflictScript);
        }
    }
    if l.binary.legacy.is_some() {
        if l.binary.current.is_none() {
            v.push(StepKind::MoveBinary);
        } else {
            v.push(StepKind::ConflictBinary);
        }
    }
    if root_would_be_empty(l) {
        v.push(StepKind::RemoveLegacyRoot);
    } else {
        v.push(StepKind::KeepLegacyRoot);
    }
    proof {
        assert(v@ =~= plan_spec(*l));
    }
    v
}

fn apply_for_real(l: &CacheLayout) -> (r: CacheLayout)
    ensures
        r == layout_after(*l, MigrationMode::ForReal),
{
    if !l.legacy_root_exists {
        return *l;
    }
    let script = if l.script.legacy.is_some() && l.script.current.is_none() {
        SubtreePair { legacy: None, current: l.script.legacy }
    } else {
        l.script
    };
    let binary = if l.binary.legacy.is_some() && l.binary.current.is_none() {
        SubtreePair { legacy: None, current: l.binary.legacy }
    } else {
        l.binary
    };
    CacheLayout {
        legacy_root_exists: !root_would_be_empty(l),
        script,
        binary,
        legacy_extra_entries: l.legacy_extra_entries,
    }
}

fn move_line_exec(from: &str, to: &str) -> (s: String)
    ensures
        s@ == move_line(from@, to@),
{
    String::from_str("migrate: ").concat(from).concat(" -> ").concat(to)
}

fn conflict_line_exec(legacy: &str, current: &str) -> (s: String)
    ensures
        s@ == conflict_line(legacy@, current@),
{
    String::from_str("conflict: both ").concat(legacy).concat(" and ").concat(current).concat(
        " exist; leaving both in place",
    )
}

fn render_line(k: StepKind, root: &str) -> (s: String)
    ensures
        s@ == line_spec(k, root@),
{
    let legacy_root = legacy_root_of(root);
    match k {
        StepKind::MoveScript => {
            let from = join_path(legacy_root.as_str(), script_cache_name());
            let to = join_path(root, script_cache_name());
            move_line_exec(from.as_str(), to.as_str())
        },
        StepKind::MoveBinary => {
            let from = join_path(legacy_root.as_str(), binary_cache_name());
            let to = join_path(root, binary_cache_name());
            move_line_exec(from.as_str(), to.as_str())
        },
        StepKind::ConflictScript => {
            let legacy = join_path(legacy_root.as_str(), script_cache_name());
            let current = join_path(root, script_cache_name());
            conflict_line_exec(legacy.as_str(), current.as_str())
        },
        StepKind::ConflictBinary => {
            let legacy = join_path(legacy_root.as_str(), binary_cache_name());
            let current = join_path(root, binary_cache_name());
            conflict_line_exec(legacy.as_str(), current.as_str())
        },
        StepKind::RemoveLegacyRoot => String::from_str("removed empty legacy cache root ").concat(
            legacy_root.as_str(),
        ),
        StepKind::KeepLegacyRoot => String::from_str("kept non-empty legacy cache root ").concat(
            legacy_root.as_str(),
        ),
    }
}

fn op_for(k: StepKind, root: &str) -> (op: PlannedOp)
    ensures
        op_matches(op, k, root@),
{
    let line = render_line(k, root);
    let legacy_root = legacy_root_of(root);
    let action: Option<FsAction> = match k {
        StepKind::MoveScript => Some(
            FsAction::Rename {
                from: join_path(legacy_root.as_str(), script_cache_name()),
                to: join_path(root, script_cache_name()),
            },
        ),
        StepKind::MoveBinary => Some(
            FsAction::Rename {
                from: join_path(legacy_root.as_str(), binary_cache_name()),
                to: join_path(root, binary_cache_name()),
            },
        ),
        StepKind::ConflictScript => None,
        StepKind::ConflictBinary => None,
        StepKind::RemoveLegacyRoot => Some(FsAction::RemoveDir { path: legacy_root }),
        StepKind::KeepLegacyRoot => None,
    };
    PlannedOp { action, line }
}

/// Run the migration's decision logic over an observed layout.
///
/// Works in both modes from the same decisions: the returned log is one
/// line per decision, in decision order, whatever the mode; the returned
/// operations are the mutating steps for the caller to perform, in order,
/// in `ForReal` mode (the caller stops at the first failing operation and
/// keeps the lines of the steps completed before it); and the returned
/// layout is what the filesystem looks like once every operation has
/// succeeded — the unchanged starting layout in `DryRun` mode.
pub fn migrate(layout: &CacheLayout, mode: MigrationMode, root: &str) -> (out: MigrationOutcome)
    ensures
        out.layout == layout_after(*layout, mode),
        wf(*layout) ==> wf(out.layout),
        out.ops@.len() == plan_spec(*layout).len(),
        forall|i: int|
            0 <= i < out.ops@.len() ==> op_matches(out.ops@[i], plan_spec(*layout)[i], root@),
        out.log@.len() == plan_spec(*layout).len(),
        forall|i: int|
            0 <= i < out.log@.len() ==> out.log@[i]@ == line_spec(plan_spec(*layout)[i], root@),
{
    let steps = plan(layout);
    let mut ops: Vec<PlannedOp> = Vec::new();
    let mut log: Vec<String> = Vec::new();
    let mut i: usize = 0;
    while i < steps.len()
        invariant
            steps@ == plan_spec(*layout),
            i <= steps@.len(),
            ops@.len() == i,
            log@.len() == i,
            forall|j: int| 0 <= j < i ==> op_matches(ops@[j], steps@[j], root@),
            forall|j: int| 0 <= j < i ==> log@[j]@ == line_spec(steps@[j], root@),
        decreases steps@.len() - i,
    {
        let op = op_for(steps[i], root);
        let line = render_line(steps[i], root);
        ops.push(op);
        log.push(line);
        i = i + 1;
    }
    let new_layout = match mode {
        MigrationMode::DryRun => *layout,
        MigrationMode::ForReal => apply_for_real(layout),
    };
    MigrationOutcome { layout: new_layout, ops, log }
}

/// Idempotence of the migration: a second `ForReal` run over the layout a
/// first `ForReal` run leaves behind changes nothing — the layout is a
/// fixed point, the second plan holds no mutating step, and if the first
/// run could empty the legacy root — no conflict and no extra entry —
/// the second plan (hence its log) is empty.
pub proof fn lemma_migration_idempotent(l: CacheLayout)
    ensures
        layout_after(layout_after(l, MigrationMode::ForReal), MigrationMode::ForReal)
            == layout_after(l, MigrationMode::ForReal),
        forall|i: int|
            0 <= i < plan_spec(layout_after(l, MigrationMode::ForReal)).len() ==> !actionable(
                plan_spec(layout_after(l, MigrationMode::ForReal))[i],
            ),
        legacy_root_empty_after(l) ==> plan_spec(layout_after(l, MigrationMode::ForReal))
            == Seq::<StepKind>::empty(),
{
    let l1 = layout_after(l, MigrationMode::ForReal);
    assert(layout_after(l1, MigrationMode::ForReal) == l1);
    if legacy_root_empty_after(l) {
        assert(plan_spec(l1) =~= Seq::<StepKind>::empty());
    }
}

/// Dry-run/for-real equivalence: from identical starting layouts, the log
/// a `DryRun` call is specified to return and the log a `ForReal` call is
/// specified to return are equal, line for line — the mode changes only
/// whether the operations are performed, never what is decided or logged.
pub proof fn lemma_dry_run_matches_for_real(
    l: CacheLayout,
    root: Seq<char>,
    dry_log: Seq<Seq<char>>,
    real_log: Seq<Seq<char>>,
)
    requires
        dry_log.len() == plan_spec(l).len(),
        forall|i: int| 0 <= i < dry_log.len() ==> dry_log[i] == line_spec(plan_spec(l)[i], root),
        real_log.len() == plan_spec(l).len(),
        forall|i: int| 0 <= i < real_log.len() ==> real_log[i] == line_spec(plan_spec(l)[i], root),
    ensures
        dry_log == real_log,
{
    assert(dry_log =~= real_log);
}

/// `m` is `l` part-way through a `ForReal` run: each subtree is either
/// untouched or already moved (and only a planned move is ever performed),
/// the legacy root still stands, and nothing else changed. These are the
/// states a run that stopped at a filesystem error leaves behind, short of
/// the legacy-root removal, which always comes last and completes the run.
pub open spec fn partially_migrated(l: CacheLayout, m: CacheLayout) -> bool {
    &&& m.legacy_root_exists == l.legacy_root_exists
    &&& m.legacy_extra_entries == l.legacy_extra_entries
    &&& (m.script == l.script || (l.script.legacy is Some && !conflicted(l.script) && m.script
        == pair_after(l.script)))
    &&& (m.binary == l.binary || (l.binary.legacy is Some && !conflicted(l.binary) && m.binary
        == pair_after(l.binary)))
}

/// Recovery after a partial run: moves already completed are preserved and
/// never repeated, and a retry from any part-way state reaches exactly the
/// layout a completed run would have reached.
pub proof fn lemma_partial_run_converges(l: CacheLayout, m: CacheLayout)
    requires
        wf(l),
        partially_migrated(l, m),
    ensures
        layout_after(m, MigrationMode::ForReal) == layout_after(l, MigrationMode::ForReal),
        m.script != l.script ==> !plan_spec(m).contains(StepKind::MoveScript),
        m.binary != l.binary ==> !plan_spec(m).contains(StepKind::MoveBinary),
{
    if m.script != l.script && plan_spec(m).contains(StepKind::MoveScript) {
        let i = choose|i: int|
            0 <= i < plan_spec(m).len() && plan_spec(m)[i] == StepKind::MoveScript;
        assert(false);
    }
    if m.binary != l.binary && plan_spec(m).contains(StepKind::MoveBinary) {
        let i = choose|i: int|
            0 <= i < plan_spec(m).len() && plan_spec(m)[i] == StepKind::MoveBinary;
        assert(false);
    }
}

/// Non-destructiveness: a subtree that exists on both sides before the
/// migration still exists on both sides afterwards, with both content
/// tokens (hence both contents) unchanged, and no move step for it is ever
/// planned.
pub proof fn lemma_conflict_non_destructive(l: CacheLayout, mode: MigrationMode)
    ensures
        conflicted(l.script) ==> layout_after(l, mode).script == l.script,
        conflicted(l.binary) ==> layout_after(l, mode).binary == l.binary,
        conflicted(l.script) ==> !plan_spec(l).contains(StepKind::MoveScript),
        conflicted(l.binary) ==> !plan_spec(l).contains(StepKind::MoveBinary),
{
    if conflicted(l.script) {
        assert(!plan_spec(l).contains(StepKind::MoveScript)) by {
            if plan_spec(l).contains(StepKind::MoveScript) {
                let i = choose|i: int|
                    0 <= i < plan_spec(l).len() && plan_spec(l)[i] == StepKind::MoveScript;
                assert(false);
            }
        }
    }
    if conflicted(l.binary) {
        assert(!plan_spec(l).contains(StepKind::MoveBinary)) by {
            if plan_spec(l).contains(StepKind::MoveBinary) {
                let i = choose|i: int|
                    0 <= i < plan_spec(l).len() && plan_spec(l)[i] == StepKind::MoveBinary;
                assert(false);
            }
        }
    }
}

} // verus!
