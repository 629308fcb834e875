//! Bringing the clones of a repository forward after its mirror was
//! synchronised.

use crate::error::RepomanError;
use crate::fleet::RepoState;
use crate::operations::sync::{get_syncable_repos, with_mirror};
use crate::text::{concat5, views};
use crate::vault::Vault;
use vstd::prelude::*;
use vstd::string::StringExecFns;

verus! {

/// Begins the update of `repo_name`, which may be an alias: the canonical
/// name of the repository to synchronise and to bring forward. It fails
/// where the registry does not hold the repository, and then where its
/// mirror does not exist; `pristine_exists` says so of the mirror of the
/// canonical name.
pub fn update_repo(repo_name: &str, vault: &Vault, pristine_exists: bool) -> (r: Result<
    String,
    RepomanError,
>)
    ensures
        !vault.holds(vault.resolved(repo_name@)) ==> (r matches Err(
            RepomanError::RepoNotInVault(n),
        ) && n@ == vault.resolved(repo_name@)),
        vault.holds(vault.resolved(repo_name@)) && !pristine_exists ==> (r matches Err(
            RepomanError::PristineNotFound(n),
        ) && n@ == vault.resolved(repo_name@)),
        vault.holds(vault.resolved(repo_name@)) && pristine_exists ==> (r matches Ok(n) && n@
            == vault.resolved(repo_name@)),
{
    let resolved = vault.resolve_name(repo_name).to_owned();
    if !vault.contains(resolved.as_str()) {
        return Err(RepomanError::RepoNotInVault(resolved));
    }
    if !pristine_exists {
        return Err(RepomanError::PristineNotFound(resolved));
    }
    Ok(resolved)
}

/// What was found when a clone was looked at, as far as the looking got.
#[derive(Clone, Debug, PartialEq, Eq)]
pub enum Inspection {
    /// The directory of the clone is gone.
    Missing,
    /// The directory holds no repository that can be opened.
    Unopenable(String),
    /// The clone has no remote `origin`.
    NoOrigin(String),
    /// The fetch from the mirror failed.
    FetchFailed(String),
    /// The clone has no head.
    NoHead,
    /// The head of the clone names no branch.
    Unnamed,
    /// The branch of the clone is not tracked.
    Untracked { branch: String },
    /// The reference that tracks the branch points at no commit.
    NoRemoteTip { branch: String },
    /// The head points at no commit.
    NoLocalTip { branch: String },
    /// The tips of the branch in the clone and in the mirror.
    Tips { branch: String, local: String, remote: String },
}

/// Why a clone was passed over.
#[derive(Clone, Copy, Debug, PartialEq, Eq, Structural)]
pub enum SkipReason {
    Missing,
    Unopenable,
    NoOrigin,
    FetchFailed,
    NoHead,
    Unnamed,
    Untracked,
    NoRemoteTip,
    NoLocalTip,
    AnalysisFailed,
}

/// What the backend says of merging the tip of the mirror into a clone.
#[derive(Clone, Copy, Debug, PartialEq, Eq, Structural)]
pub struct MergeAnalysis {
    pub fast_forward: bool,
    pub unborn: bool,
    pub up_to_date: bool,
}

/// What became of a clone in an update.
#[derive(Clone, Copy, Debug, PartialEq, Eq, Structural)]
pub enum CloneOutcome {
    /// The clone was passed over; nothing was changed.
    Skipped(SkipReason),
    /// The clone is at the tip of the mirror; nothing was changed.
    UpToDate,
    /// The branch of the clone is to be moved to the tip of the mirror, and
    /// the working tree checked out.
    FastForward,
    /// The clone and the mirror have diverged; nothing was changed.
    Diverged,
}

/// What to do with a clone after it was looked at.
#[derive(Clone, Copy, Debug, PartialEq, Eq, Structural)]
pub enum Reconciliation {
    /// The outcome is settled.
    Settled(CloneOutcome),
    /// The tips differ: the backend is to be asked for its analysis.
    Analyse,
}

/// What to do with a clone after it was looked at: a clone that lacks a
/// repository, an origin, a branch or a tracked tip is passed over; one at
/// the tip of the mirror is up to date; for any other the backend is asked.
pub open spec fn reconciliation_of(found: Inspection) -> Reconciliation {
    match found {
        Inspection::Missing => Reconciliation::Settled(CloneOutcome::Skipped(SkipReason::Missing)),
        Inspection::Unopenable(_) => Reconciliation::Settled(
            CloneOutcome::Skipped(SkipReason::Unopenable),
        ),
        Inspection::NoOrigin(_) => Reconciliation::Settled(
            CloneOutcome::Skipped(SkipReason::NoOrigin),
        ),
        Inspection::FetchFailed(_) => Reconciliation::Settled(
            CloneOutcome::Skipped(SkipReason::FetchFailed),
        ),
        Inspection::NoHead => Reconciliation::Settled(CloneOutcome::Skipped(SkipReason::NoHead)),
        Inspection::Unnamed => Reconciliation::Settled(CloneOutcome::Skipped(SkipReason::Unnamed)),
        Inspection::Untracked { .. } => Reconciliation::Settled(
            CloneOutcome::Skipped(SkipReason::Untracked),
        ),
        Inspection::NoRemoteTip { .. } => Reconciliation::Settled(
            CloneOutcome::Skipped(SkipReason::NoRemoteTip),
        ),
        Inspection::NoLocalTip { .. } => Reconciliation::Settled(
            CloneOutcome::Skipped(SkipReason::NoLocalTip),
        ),
        Inspection::Tips { branch, local, remote } => if local@ == remote@ {
            Reconciliation::Settled(CloneOutcome::UpToDate)
        } else {
            Reconciliation::Analyse
        },
    }
}

/// What to do with a clone after it was looked at.
pub fn reconcile(found: &Inspection) -> (r: Reconciliation)
    ensures
        r == reconciliation_of(*found),
{
    match found {
        Inspection::Missing => Reconciliation::Settled(CloneOutcome::Skipped(SkipReason::Missing)),
        Inspection::Unopenable(_) => Reconciliation::Settled(
            CloneOutcome::Skipped(SkipReason::Unopenable),
        ),
        Inspection::NoOrigin(_) => Reconciliation::Settled(
            CloneOutcome::Skipped(SkipReason::NoOrigin),
        ),
        Inspection::FetchFailed(_) => Reconciliation::Settled(
            CloneOutcome::Skipped(SkipReason::FetchFailed),
        ),
        Inspection::NoHead => Reconciliation::Settled(CloneOutcome::Skipped(SkipReason::NoHead)),
        Inspection::Unnamed => Reconciliation::Settled(CloneOutcome::Skipped(SkipReason::Unnamed)),
        Inspection::Untracked { .. } => Reconciliation::Settled(
            CloneOutcome::Skipped(SkipReason::Untracked),
        ),
        Inspection::NoRemoteTip { .. } => Reconciliation::Settled(
            CloneOutcome::Skipped(SkipReason::NoRemoteTip),
        ),
        Inspection::NoLocalTip { .. } => Reconciliation::Settled(
            CloneOutcome::Skipped(SkipReason::NoLocalTip),
        ),
        Inspection::Tips { branch, local, remote } => {
            if local.as_str().eq(remote.as_str()) {
                Reconciliation::Settled(CloneOutcome::UpToDate)
            } else {
                Reconciliation::Analyse
            }
        },
    }
}

/// The outcome for a clone whose tip differs from that of the mirror,
/// given the analysis of the backend, or `None` where the analysis failed:
/// the branch is moved where the backend allows a fast-forward or the
/// branch is unborn; nothing is done where it calls the clone up to date;
/// in any other case the two have diverged and the clone is left as it is.
pub open spec fn verdict_of(analysis: Option<MergeAnalysis>) -> CloneOutcome {
    match analysis {
        None => CloneOutcome::Skipped(SkipReason::AnalysisFailed),
        Some(a) => if a.fast_forward || a.unborn {
            CloneOutcome::FastForward
        } else if a.up_to_date {
            CloneOutcome::UpToDate
        } else {
            CloneOutcome::Diverged
        },
    }
}

/// The outcome for a clone whose tip differs from that of the mirror, given
/// the analysis of the backend.
pub fn verdict(analysis: Option<MergeAnalysis>) -> (r: CloneOutcome)
    ensures
        r == verdict_of(analysis),
{
    match analysis {
        None => CloneOutcome::Skipped(SkipReason::AnalysisFailed),
        Some(a) => if a.fast_forward || a.unborn {
            CloneOutcome::FastForward
        } else if a.up_to_date {
            CloneOutcome::UpToDate
        } else {
            CloneOutcome::Diverged
        },
    }
}

/// Whether an outcome changes the clone: only a fast-forward does.
pub open spec fn changes_clone(outcome: CloneOutcome) -> bool {
    outcome == CloneOutcome::FastForward
}

/// A clone is changed only where its tip differs from that of the mirror
/// and the backend allows a fast-forward or finds the branch unborn: never
/// where the tips agree, where something is lacking, or where the two have
/// diverged.
pub proof fn lemma_only_fast_forward_changes(found: Inspection, analysis: Option<MergeAnalysis>)
    ensures
        reconciliation_of(found) matches Reconciliation::Settled(o) ==> !changes_clone(o),
        changes_clone(verdict_of(analysis)) <==> (analysis matches Some(a) && (a.fast_forward
            || a.unborn)),
{
}

/// The message recorded with the move of a branch.
pub fn fast_forward_note() -> (r: &'static str)
    ensures
        r@ == "repoman update: fast-forward"@,
{
    "repoman update: fast-forward"
}

/// The error for a fast-forward of the clone `clone_name` that the backend
/// refused with `reason`.
pub fn fast_forward_failed(clone_name: &str, reason: &str) -> (r: RepomanError)
    ensures
        r matches RepomanError::FastForwardFailed(c, e) && c@ == clone_name@ && e@ == reason@,
{
    RepomanError::FastForwardFailed(clone_name.to_owned(), reason.to_owned())
}

/// What is said of a clone on a branch after an update, where anything is
/// said: that it is up to date, was brought forward, or has diverged.
pub open spec fn outcome_text(clone_name: Seq<char>, branch: Seq<char>, outcome: CloneOutcome) -> Option<
    Seq<char>,
> {
    match outcome {
        CloneOutcome::Skipped(_) => None,
        CloneOutcome::UpToDate => Some(
            "  Clone "@ + clone_name + " ("@ + branch + ") already up-to-date"@,
        ),
        CloneOutcome::FastForward => Some(
            "  Clone "@ + clone_name + " ("@ + branch + ") fast-forwarded"@,
        ),
        CloneOutcome::Diverged => Some(
            "  Clone "@ + clone_name + " ("@ + branch
                + ") has diverged \u{2014} manual merge required"@,
        ),
    }
}

/// What is said of a clone on a branch after an update, where anything is
/// said.
pub fn outcome_line(clone_name: &str, branch: &str, outcome: CloneOutcome) -> (r: Option<String>)
    ensures
        crate::operations::tags::opt_view(r) == outcome_text(clone_name@, branch@, outcome),
{
    match outcome {
        CloneOutcome::Skipped(_) => None,
        CloneOutcome::UpToDate => Some(
            concat5("  Clone ", clone_name, " (", branch, ") already up-to-date"),
        ),
        CloneOutcome::FastForward => Some(
            concat5("  Clone ", clone_name, " (", branch, ") fast-forwarded"),
        ),
        CloneOutcome::Diverged => Some(
            concat5(
                "  Clone ",
                clone_name,
                " (",
                branch,
                ") has diverged \u{2014} manual merge required",
            ),
        ),
    }
}

/// What is said of a clone that was passed over, where anything is said:
/// that it could not be opened, or that it could not be fetched, each with
/// what the backend gave as the reason.
pub open spec fn skip_text(clone_name: Seq<char>, found: Inspection) -> Option<Seq<char>> {
    match found {
        Inspection::Unopenable(e) => Some("  Failed to open clone "@ + clone_name + ": "@ + e@),
        Inspection::FetchFailed(e) => Some("  Failed to fetch clone "@ + clone_name + ": "@ + e@),
        _ => None,
    }
}

/// What is said of a clone that was passed over, where anything is said.
pub fn skip_line(clone_name: &str, found: &Inspection) -> (r: Option<String>)
    ensures
        crate::operations::tags::opt_view(r) == skip_text(clone_name@, *found),
{
    match found {
        Inspection::Unopenable(e) => {
            let mut s = crate::text::concat3("  Failed to open clone ", clone_name, ": ");
            s.append(e.as_str());
            Some(s)
        },
        Inspection::FetchFailed(e) => {
            let mut s = crate::text::concat3("  Failed to fetch clone ", clone_name, ": ");
            s.append(e.as_str());
            Some(s)
        },
        _ => None,
    }
}

/// The names of the repositories that can be updated: those with a mirror,
/// in the order of the registry.
pub fn get_updatable_repos(repos: &Vec<RepoState>) -> (r: Vec<String>)
    ensures
        views(r@) == with_mirror(repos@, repos@.len() as int),
{
    get_syncable_repos(repos)
}

} // verus!
