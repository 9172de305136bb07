use vstd::prelude::*;
use crate::error::InstallerError;
use crate::jobs::{DownloadJob, ExecutionStep, ExtractJob, ScriptSpec};
use crate::relocate::RelocateJob;

verus! {

/// What the caller supplies for one installation run.
pub struct BuildOptions {
    /// The installation directory.
    pub target: String,
    /// Whether an existing installation directory is removed first.
    pub overwrite: bool,
    pub downloads: Vec<DownloadJob>,
    pub extracts: Vec<ExtractJob>,
    pub relocations: Vec<RelocateJob>,
    pub scripts: Vec<ScriptSpec>,
    /// The execution chain, in the order the steps run.
    pub steps: Vec<ExecutionStep>,
}

/// One stage of work for the caller to perform. A download or extraction
/// stage carries a whole job set: its jobs may run concurrently and the stage
/// ends when all of them have joined.
pub enum Action {
    RemoveTarget(String),
    CreateTarget(String),
    Download(Vec<DownloadJob>),
    Extract(Vec<ExtractJob>),
    Relocate(RelocateJob),
    Create(ScriptSpec),
    Execute(ExecutionStep),
}

/// The stage of the installation an action belongs to, as reported to the
/// user.
#[derive(Clone, Copy, Debug, PartialEq, Eq, Structural)]
pub enum Stage {
    Checking,
    Downloading,
    Extracting,
    Moving,
    Creating,
    Building,
}

pub open spec fn stage_of(a: Action) -> Stage {
    match a {
        Action::RemoveTarget(_) | Action::CreateTarget(_) => Stage::Checking,
        Action::Download(_) => Stage::Downloading,
        Action::Extract(_) => Stage::Extracting,
        Action::Relocate(_) => Stage::Moving,
        Action::Create(_) => Stage::Creating,
        Action::Execute(_) => Stage::Building,
    }
}

impl Action {
    pub fn stage(&self) -> (r: Stage)
        ensures
            r == stage_of(*self),
    {
        match self {
            Action::RemoveTarget(_) | Action::CreateTarget(_) => Stage::Checking,
            Action::Download(_) => Stage::Downloading,
            Action::Extract(_) => Stage::Extracting,
            Action::Relocate(_) => Stage::Moving,
            Action::Create(_) => Stage::Creating,
            Action::Execute(_) => Stage::Building,
        }
    }
}

/// The run may not start: the target exists and overwriting was not asked for.
pub open spec fn refused(o: BuildOptions, target_exists: bool) -> bool {
    target_exists && !o.overwrite
}

/// The stages of a run, in the order they are performed.
pub open spec fn planned(o: BuildOptions, target_exists: bool) -> Seq<Action> {
    let wipe = if target_exists {
        seq![Action::RemoveTarget(o.target)]
    } else {
        Seq::empty()
    };
    wipe + seq![
        Action::CreateTarget(o.target),
        Action::Download(o.downloads),
        Action::Extract(o.extracts),
    ] + o.relocations@.map_values(|j: RelocateJob| Action::Relocate(j))
        + o.scripts@.map_values(|s: ScriptSpec| Action::Create(s))
        + o.steps@.map_values(|s: ExecutionStep| Action::Execute(s))
}

/// The target is cleared before any work: a run that is not refused removes
/// an existing target as its very first action and never anywhere else, and
/// removes nothing when the target does not exist.
pub proof fn lemma_target_cleared_first(o: BuildOptions, target_exists: bool)
    requires
        !refused(o, target_exists),
    ensures
        target_exists ==> planned(o, target_exists)[0] == Action::RemoveTarget(o.target),
        forall|i: int|
            0 <= i < planned(o, target_exists).len() && (#[trigger] planned(
                o,
                target_exists,
            )[i]) is RemoveTarget ==> target_exists && i == 0,
{
    let p = planned(o, target_exists);
    let w: int = if target_exists { 1 } else { 0 };
    let a = o.relocations@.map_values(|j: RelocateJob| Action::Relocate(j));
    let b = o.scripts@.map_values(|s: ScriptSpec| Action::Create(s));
    let c = o.steps@.map_values(|s: ExecutionStep| Action::Execute(s));
    assert forall|i: int| 0 <= i < p.len() && (#[trigger] p[i]) is RemoveTarget implies target_exists
        && i == 0 by {
        if i >= w + 3 {
            let k = i - w - 3;
            if k < a.len() {
                assert(p[i] == a[k]);
            } else if k < a.len() + b.len() {
                assert(p[i] == b[k - a.len()]);
            } else {
                assert(p[i] == c[k - a.len() - b.len()]);
            }
        }
    }
}

/// Entry point of an installation run.
pub struct Builder;

impl Builder {
    pub fn new() -> (r: Self)
        ensures
            r == Builder,
    {
        Builder
    }

    /// Lays out a run once the caller has checked whether the target exists.
    /// An existing target without overwrite refuses the run before any
    /// action; otherwise the stages come in their fixed order, starting with
    /// the removal of an existing target.
    pub fn plan(&self, options: BuildOptions, target_exists: bool) -> (r: Result<
        Vec<Action>,
        InstallerError,
    >)
        ensures
            refused(options, target_exists) ==> (r matches Err(
                InstallerError::WorkspaceAlreadyExists(p),
            ) && p@ == options.target@),
            !refused(options, target_exists) ==> (r matches Ok(v) && v@ == planned(
                options,
                target_exists,
            )),
    {
        if target_exists && !options.overwrite {
            return Err(InstallerError::WorkspaceAlreadyExists(options.target));
        }
        let ghost o = options;
        let BuildOptions { target, overwrite, downloads, extracts, relocations, scripts, steps } =
            options;
        let mut out: Vec<Action> = Vec::new();
        if target_exists {
            out.push(Action::RemoveTarget(target.clone()));
        }
        out.push(Action::CreateTarget(target));
        out.push(Action::Download(downloads));
        out.push(Action::Extract(extracts));
        let ghost base = out@;
        let mut rest = relocations;
        let n: usize = rest.len();
        let mut i: usize = 0;
        while i < n
            invariant
                n == o.relocations@.len(),
                i <= n,
                rest@ == o.relocations@.subrange(i as int, n as int),
                out@ == base + o.relocations@.subrange(0, i as int).map_values(
                    |j: RelocateJob| Action::Relocate(j),
                ),
            decreases n - i,
        {
            let j = rest.remove(0);
            out.push(Action::Relocate(j));
            assert(o.relocations@.subrange(0, i + 1) == o.relocations@.subrange(0, i as int).push(j));
            i = i + 1;
        }
        assert(o.relocations@.subrange(0, n as int) == o.relocations@);
        let ghost base = out@;
        let mut rest = scripts;
        let n: usize = rest.len();
        let mut i: usize = 0;
        while i < n
            invariant
                n == o.scripts@.len(),
                i <= n,
                rest@ == o.scripts@.subrange(i as int, n as int),
                out@ == base + o.scripts@.subrange(0, i as int).map_values(
                    |s: ScriptSpec| Action::Create(s),
                ),
            decreases n - i,
        {
            let s = rest.remove(0);
            out.push(Action::Create(s));
            assert(o.scripts@.subrange(0, i + 1) == o.scripts@.subrange(0, i as int).push(s));
            i = i + 1;
        }
        assert(o.scripts@.subrange(0, n as int) == o.scripts@);
        let ghost base = out@;
        let mut rest = steps;
        let n: usize = rest.len();
        let mut i: usize = 0;
        while i < n
            invariant
                n == o.steps@.len(),
                i <= n,
                rest@ == o.steps@.subrange(i as int, n as int),
                out@ == base + o.steps@.subrange(0, i as int).map_values(
                    |s: ExecutionStep| Action::Execute(s),
                ),
            decreases n - i,
        {
            let s = rest.remove(0);
            out.push(Action::Execute(s));
            assert(o.steps@.subrange(0, i + 1) == o.steps@.subrange(0, i as int).push(s));
            i = i + 1;
        }
        assert(o.steps@.subrange(0, n as int) == o.steps@);
        assert(out@ =~= planned(o, target_exists));
        Ok(out)
    }
}

} // verus!
