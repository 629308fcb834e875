//! Operations on all repositories at once: each repository is worked on by
//! itself, a failure stops none of the others, and the outcomes are
//! tallied.

use crate::operations::sync::Tally;
use crate::text::{decimal, push_decimal};
use vstd::prelude::*;
use vstd::string::StringExecFns;

verus! {

/// The operations that can be run on all repositories.
#[derive(Clone, Copy, Debug, PartialEq, Eq, Structural)]
pub enum Batch {
    Init,
    Sync,
    Update,
}

/// What an operation is to do, given the one repository asked for, if any,
/// and the repositories it applies to.
#[derive(Clone, Debug, PartialEq, Eq)]
pub enum BatchPlan {
    /// One repository was asked for; its failure is that of the operation.
    Single(String),
    /// None was asked for and the operation applies to none: only this is
    /// said.
    Nothing(String),
    /// None was asked for: the operation is announced and run on each of
    /// the repositories, independently of the others.
    Many { announcement: String, names: Vec<String> },
}

impl Batch {
    /// The word for the operation in its messages.
    pub open spec fn verb(self) -> Seq<char> {
        match self {
            Batch::Init => "init"@,
            Batch::Sync => "sync"@,
            Batch::Update => "update"@,
        }
    }

    /// What is said where the operation applies to no repository.
    pub open spec fn idle_text(self) -> Seq<char> {
        match self {
            Batch::Init => "All vaulted repositories already have pristines"@,
            Batch::Sync => "No pristines to sync. Run 'repoman init' first."@,
            Batch::Update => "No pristines to update. Run 'repoman init' first."@,
        }
    }

    /// What is said before the operation is run on `count` repositories.
    pub open spec fn announcement_text(self, count: nat) -> Seq<char> {
        (match self {
            Batch::Init => "Initializing "@,
            Batch::Sync => "Syncing "@,
            Batch::Update => "Updating "@,
        }) + decimal(count) + " repositories in parallel..."@
    }

    /// What is said of a repository on which the operation failed.
    pub open spec fn failure_text(self, name: Seq<char>, message: Seq<char>) -> Seq<char> {
        "Failed to "@ + self.verb() + " "@ + name + ": "@ + message
    }

    /// What is said at the end: how many succeeded and how many failed.
    pub open spec fn summary_text(self, tally: Tally) -> Seq<char> {
        (match self {
            Batch::Init => "\nInit complete: "@,
            Batch::Sync => "\nSync complete: "@,
            Batch::Update => "\nUpdate complete: "@,
        }) + decimal(tally.successes as nat) + " succeeded, "@ + decimal(tally.failures as nat)
            + " failed"@
    }

    /// What the operation is to do: work on the one repository asked for;
    /// else say that it applies to none; else announce itself and work on
    /// every repository it applies to.
    pub fn plan(&self, asked: Option<String>, names: Vec<String>) -> (r: BatchPlan)
        ensures
            asked matches Some(name) ==> r == BatchPlan::Single(name),
            asked is None && names@.len() == 0 ==> (r matches BatchPlan::Nothing(said) && said@
                == self.idle_text()),
            asked is None && names@.len() > 0 ==> (r matches BatchPlan::Many {
                announcement,
                names: all,
            } && announcement@ == self.announcement_text(names@.len()) && all == names),
    {
        match asked {
            Some(name) => BatchPlan::Single(name),
            None => {
                if names.len() == 0 {
                    let said = match self {
                        Batch::Init => "All vaulted repositories already have pristines",
                        Batch::Sync => "No pristines to sync. Run 'repoman init' first.",
                        Batch::Update => "No pristines to update. Run 'repoman init' first.",
                    };
                    BatchPlan::Nothing(said.to_owned())
                } else {
                    let mut announcement = match self {
                        Batch::Init => "Initializing ".to_owned(),
                        Batch::Sync => "Syncing ".to_owned(),
                        Batch::Update => "Updating ".to_owned(),
                    };
                    push_decimal(&mut announcement, names.len() as u64);
                    announcement.append(" repositories in parallel...");
                    BatchPlan::Many { announcement, names }
                }
            },
        }
    }

    /// What is said of the repository `name` on which the operation failed
    /// with `message`.
    pub fn failure_line(&self, name: &str, message: &str) -> (r: String)
        ensures
            r@ == self.failure_text(name@, message@),
    {
        let mut s = "Failed to ".to_owned();
        match self {
            Batch::Init => {
                s.append("init");
            },
            Batch::Sync => {
                s.append("sync");
            },
            Batch::Update => {
                s.append("update");
            },
        }
        s.append(" ");
        s.append(name);
        s.append(": ");
        s.append(message);
        s
    }

    /// What is said at the end: how many succeeded and how many failed.
    pub fn summary(&self, tally: &Tally) -> (r: String)
        ensures
            r@ == self.summary_text(*tally),
    {
        let mut s = match self {
            Batch::Init => "\nInit complete: ".to_owned(),
            Batch::Sync => "\nSync complete: ".to_owned(),
            Batch::Update => "\nUpdate complete: ".to_owned(),
        };
        push_decimal(&mut s, tally.successes as u64);
        s.append(" succeeded, ");
        push_decimal(&mut s, tally.failures as u64);
        s.append(" failed");
        s
    }
}

/// What the creation of mirrors is to do, given the repository asked for,
/// if any, and the repositories without a mirror.
pub fn handle_init(vault_name: Option<String>, uninitialized: Vec<String>) -> (r: BatchPlan)
    ensures
        vault_name matches Some(name) ==> r == BatchPlan::Single(name),
        vault_name is None && uninitialized@.len() == 0 ==> (r matches BatchPlan::Nothing(said)
            && said@ == Batch::Init.idle_text()),
        vault_name is None && uninitialized@.len() > 0 ==> (r matches BatchPlan::Many {
            announcement,
            names,
        } && announcement@ == Batch::Init.announcement_text(uninitialized@.len()) && names
            == uninitialized),
{
    Batch::Init.plan(vault_name, uninitialized)
}

/// What the synchronisation is to do, given the repository asked for, if
/// any, and the repositories with a mirror.
pub fn handle_sync(pristine: Option<String>, syncable: Vec<String>) -> (r: BatchPlan)
    ensures
        pristine matches Some(name) ==> r == BatchPlan::Single(name),
        pristine is None && syncable@.len() == 0 ==> (r matches BatchPlan::Nothing(said) && said@
            == Batch::Sync.idle_text()),
        pristine is None && syncable@.len() > 0 ==> (r matches BatchPlan::Many {
            announcement,
            names,
        } && announcement@ == Batch::Sync.announcement_text(syncable@.len()) && names == syncable),
{
    Batch::Sync.plan(pristine, syncable)
}

/// What the update is to do, given the repository asked for, if any, and
/// the repositories with a mirror.
pub fn handle_update(name: Option<String>, updatable: Vec<String>) -> (r: BatchPlan)
    ensures
        name matches Some(n) ==> r == BatchPlan::Single(n),
        name is None && updatable@.len() == 0 ==> (r matches BatchPlan::Nothing(said) && said@
            == Batch::Update.idle_text()),
        name is None && updatable@.len() > 0 ==> (r matches BatchPlan::Many {
            announcement,
            names,
        } && announcement@ == Batch::Update.announcement_text(updatable@.len()) && names
            == updatable),
{
    Batch::Update.plan(name, updatable)
}

} // verus!
