//! The creation of clones from a mirror.

use crate::clock::Timestamp;
use crate::config::{join_path, joined_path, Config};
use crate::error::{GitFailure, RepomanError};
use crate::metadata::Metadata;
use crate::text::{chars_of, concat2, concat3, starts_with, strip_prefix, text_of_range};
use crate::vault::Vault;
use rand::Rng;
use vstd::prelude::*;

verus! {

/// The number of characters of a generated suffix.
pub const SUFFIX_LEN: usize = 6;

/// The number of characters that a generated suffix is drawn from: the
/// lowercase letters and the digits.
pub const CHARSET_LEN: usize = 36;

/// `rand::thread_rng` and `Rng::gen_range`: a number drawn at random below
/// `bound`, which is not zero. Nothing else is known of it.
#[verifier::external_body]
fn random_below(bound: usize) -> (r: usize)
    requires
        bound > 0,
    ensures
        r < bound,
{
    rand::thread_rng().gen_range(0..bound)
}

/// The character of a suffix at the position `index` of the characters it
/// is drawn from: the lowercase letters, then the digits.
pub open spec fn suffix_char_at(index: int) -> char {
    "abcdefghijklmnopqrstuvwxyz0123456789"@[index]
}

/// Whether a character may stand in a generated suffix: it is a lowercase
/// letter or a digit.
pub open spec fn is_suffix_char(c: char) -> bool {
    ('a' <= c && c <= 'z') || ('0' <= c && c <= '9')
}

/// The character of a suffix at the position `index` of the characters it
/// is drawn from.
pub fn suffix_char(index: usize) -> (c: char)
    requires
        index < CHARSET_LEN,
    ensures
        c == suffix_char_at(index as int),
        is_suffix_char(c),
{
    proof {
        reveal_strlit("abcdefghijklmnopqrstuvwxyz0123456789");
    }
    let charset = "abcdefghijklmnopqrstuvwxyz0123456789";
    charset.get_char(index)
}

/// Whether a text is a suffix as they are generated: six characters, each
/// a lowercase letter or a digit.
pub open spec fn is_generated_suffix(s: Seq<char>) -> bool {
    s.len() == SUFFIX_LEN && forall|i: int| 0 <= i < s.len() ==> is_suffix_char(#[trigger] s[i])
}

/// A suffix for a clone, drawn at random: six characters, each a lowercase
/// letter or a digit.
pub fn generate_clone_suffix() -> (s: String)
    ensures
        is_generated_suffix(s@),
{
    let mut s = String::new();
    let mut i: usize = 0;
    while i < SUFFIX_LEN
        invariant
            i <= SUFFIX_LEN,
            s@.len() == i,
            forall|k: int| 0 <= k < s@.len() ==> is_suffix_char(#[trigger] s@[k]),
        decreases SUFFIX_LEN - i,
    {
        let index = random_below(CHARSET_LEN);
        s.push(suffix_char(index));
        i += 1;
    }
    s
}

/// The name of the directory of the clone `suffix` of `pristine_name`.
pub open spec fn clone_dir_name(pristine_name: Seq<char>, suffix: Seq<char>) -> Seq<char> {
    pristine_name + "-"@ + suffix
}

/// Where a clone goes: its suffix, the name of its directory, and its
/// path.
#[derive(Clone, Debug)]
pub struct CloneTarget {
    pub suffix: String,
    pub dir_name: String,
    pub path: String,
}

/// Whether `target` is where the clone `suffix` of `pristine_name` goes.
pub open spec fn is_target_of(
    target: CloneTarget,
    pristine_name: Seq<char>,
    suffix: Seq<char>,
    config: Config,
) -> bool {
    &&& target.suffix@ == suffix
    &&& target.dir_name@ == clone_dir_name(pristine_name, suffix)
    &&& target.path@ == config.clone_path_of(target.dir_name@)
}

/// Where the clone `suffix` of `pristine_name` goes: the directory
/// `<pristine_name>-<suffix>` under the root of the clones.
pub fn clone_target(pristine_name: &str, suffix: String, config: &Config) -> (r: CloneTarget)
    ensures
        r.suffix == suffix,
        is_target_of(r, pristine_name@, suffix@, *config),
{
    let dir_name = concat3(pristine_name, "-", suffix.as_str());
    let path = config.clone_path(dir_name.as_str());
    CloneTarget { suffix, dir_name, path }
}

/// Begins the creation of a clone of `pristine_name`. It fails where the
/// registry does not hold the repository, and then where the mirror does
/// not exist. Else the clone goes by the name given, or, where none is
/// given, by a suffix drawn at random.
pub fn clone_from_pristine(
    pristine_name: &str,
    clone_name: Option<String>,
    vault: &Vault,
    pristine_exists: bool,
    config: &Config,
) -> (r: Result<CloneTarget, RepomanError>)
    ensures
        !vault.holds(pristine_name@) ==> (r matches Err(RepomanError::RepoNotInVault(n)) && n@
            == pristine_name@),
        vault.holds(pristine_name@) && !pristine_exists ==> (r matches Err(
            RepomanError::PristineNotFound(n),
        ) && n@ == pristine_name@),
        vault.holds(pristine_name@) && pristine_exists ==> (r matches Ok(target) && is_target_of(
            target,
            pristine_name@,
            target.suffix@,
            *config,
        ) && match clone_name {
            Some(given) => target.suffix == given,
            None => is_generated_suffix(target.suffix@),
        }),
{
    if !vault.contains(pristine_name) {
        return Err(RepomanError::RepoNotInVault(pristine_name.to_owned()));
    }
    if !pristine_exists {
        return Err(RepomanError::PristineNotFound(pristine_name.to_owned()));
    }
    let suffix = match clone_name {
        Some(given) => given,
        None => generate_clone_suffix(),
    };
    Ok(clone_target(pristine_name, suffix, config))
}

/// The reference of the branch `branch`.
pub open spec fn branch_ref_of(branch: Seq<char>) -> Seq<char> {
    "refs/heads/"@ + branch
}

/// The reference under which a clone tracks the branch `branch` of its
/// mirror.
pub open spec fn tracking_ref_of(branch: Seq<char>) -> Seq<char> {
    "refs/remotes/origin/"@ + branch
}

/// The reference of the branch `branch`.
pub fn branch_ref(branch: &str) -> (r: String)
    ensures
        r@ == branch_ref_of(branch@),
{
    concat2("refs/heads/", branch)
}

/// The reference under which a clone tracks the branch `branch` of its
/// mirror.
pub fn tracking_ref(branch: &str) -> (r: String)
    ensures
        r@ == tracking_ref_of(branch@),
{
    concat2("refs/remotes/origin/", branch)
}

/// What a clone fetches from its mirror: all branches, each under the
/// reference that tracks it.
pub fn clone_refspec() -> (r: &'static str)
    ensures
        r@ == "refs/heads/*:refs/remotes/origin/*"@,
{
    "refs/heads/*:refs/remotes/origin/*"
}

/// What the creation of a clone takes.
#[derive(Clone, Debug)]
pub struct ClonePlan {
    /// Where the clone goes.
    pub target: CloneTarget,
    /// The directory that holds the file of alternates.
    pub alternates_dir: String,
    /// The file of alternates: the back-reference to the objects of the
    /// mirror.
    pub alternates_file: String,
    /// What the file of alternates holds: the directory of the objects of
    /// the mirror.
    pub alternates_target: String,
    /// The URL of the remote `origin` of the clone: the path of the mirror.
    pub origin_url: String,
    /// The metadata of the repository.
    pub metadata: Metadata,
}

/// The directory that holds the file of alternates of the clone at `path`.
pub open spec fn alternates_dir_of(path: Seq<char>) -> Seq<char> {
    joined_path(joined_path(joined_path(path, ".git"@), "objects"@), "info"@)
}

/// Whether `plan` is the plan of the clone that goes to `target`, from the
/// mirror at `pristine_path`.
pub open spec fn is_plan_of(
    plan: ClonePlan,
    target: CloneTarget,
    pristine_path: Seq<char>,
    metadata: Metadata,
) -> bool {
    &&& plan.target == target
    &&& plan.metadata == metadata
    &&& plan.alternates_dir@ == alternates_dir_of(target.path@)
    &&& plan.alternates_file@ == joined_path(alternates_dir_of(target.path@), "alternates"@)
    &&& plan.alternates_target@ == joined_path(pristine_path, "objects"@)
    &&& plan.origin_url@ == pristine_path
}

/// Admits the creation of the clone that goes to `target`, on what was
/// found for it. It fails, in this order: where the directory of the clone
/// exists already; where the metadata could not be read, with the error of
/// the reading; where the mirror could not be opened, with the failure of
/// the backend; where a branch is asked for that the mirror does not have.
pub fn admit_clone(
    pristine_name: &str,
    target: CloneTarget,
    dir_exists: bool,
    metadata: Result<Metadata, RepomanError>,
    opened: Result<(), GitFailure>,
    branch: Option<&str>,
    branch_exists: bool,
    config: &Config,
) -> (r: Result<ClonePlan, RepomanError>)
    ensures
        dir_exists ==> (r matches Err(RepomanError::CloneAlreadyExists(n)) && n
            == target.dir_name),
        !dir_exists ==> match metadata {
            Err(e) => r == Err::<ClonePlan, RepomanError>(e),
            Ok(m) => match opened {
                Err(f) => r == Err::<ClonePlan, RepomanError>(RepomanError::GitError(f)),
                Ok(_) => if branch is Some && !branch_exists {
                    r matches Err(RepomanError::BranchNotFound(b, p)) && b@ == branch->0@ && p@
                        == pristine_name@
                } else {
                    r matches Ok(plan) && is_plan_of(
                        plan,
                        target,
                        config.pristine_path_of(pristine_name@),
                        m,
                    )
                },
            },
        },
{
    if dir_exists {
        return Err(RepomanError::CloneAlreadyExists(target.dir_name));
    }
    let metadata = match metadata {
        Ok(m) => m,
        Err(e) => {
            return Err(e);
        },
    };
    match opened {
        Ok(_) => {},
        Err(f) => {
            return Err(RepomanError::GitError(f));
        },
    }
    match branch {
        Some(b) => {
            if !branch_exists {
                return Err(RepomanError::BranchNotFound(b.to_owned(), pristine_name.to_owned()));
            }
        },
        None => {},
    }
    let pristine_path = config.pristine_path(pristine_name);
    let git_dir = join_path(target.path.as_str(), ".git");
    let objects_dir = join_path(git_dir.as_str(), "objects");
    let alternates_dir = join_path(objects_dir.as_str(), "info");
    let alternates_file = join_path(alternates_dir.as_str(), "alternates");
    let alternates_target = join_path(pristine_path.as_str(), "objects");
    Ok(
        ClonePlan {
            target,
            alternates_dir,
            alternates_file,
            alternates_target,
            origin_url: pristine_path,
            metadata,
        },
    )
}

/// The branch that a clone checks out: the one asked for, else the branch
/// that the head of the mirror names, without `refs/heads/` before it,
/// else `main`.
pub open spec fn checkout_branch_of(requested: Option<Seq<char>>, head: Option<Seq<char>>) -> Seq<
    char,
> {
    match requested {
        Some(b) => b,
        None => match head {
            Some(h) => strip_prefix(h, "refs/heads/"@),
            None => "main"@,
        },
    }
}

/// The branch that a clone checks out: the one asked for, else the branch
/// that the head of the mirror names, else `main`.
pub fn checkout_branch(requested: Option<&str>, head_shorthand: Option<&str>) -> (r: String)
    ensures
        r@ == checkout_branch_of(
            match requested {
                Some(b) => Some(b@),
                None => None,
            },
            match head_shorthand {
                Some(h) => Some(h@),
                None => None,
            },
        ),
{
    match requested {
        Some(b) => b.to_owned(),
        None => match head_shorthand {
            None => "main".to_owned(),
            Some(h) => {
                let v = chars_of(h);
                let prefix = chars_of("refs/heads/");
                proof {
                    reveal_strlit("refs/heads/");
                }
                if starts_with(&v, &prefix) {
                    let r = text_of_range(&v, 11, v.len());
                    assert(v@.subrange(11, v.len() as int) == v@.skip(11));
                    r
                } else {
                    h.to_owned()
                }
            },
        },
    }
}

/// How a clone is checked out.
#[derive(Clone, Copy, Debug, PartialEq, Eq, Structural)]
pub enum CheckoutMode {
    /// On a local branch that tracks the branch of the mirror.
    TrackingBranch,
    /// On the head commit of the mirror, without a branch.
    DetachedHead,
}

/// How a clone is checked out: on a local branch where the reference that
/// tracks the branch was fetched, else on the head commit of the mirror.
pub fn checkout_mode(tracking_ref_found: bool) -> (r: CheckoutMode)
    ensures
        r == (if tracking_ref_found {
            CheckoutMode::TrackingBranch
        } else {
            CheckoutMode::DetachedHead
        }),
{
    if tracking_ref_found {
        CheckoutMode::TrackingBranch
    } else {
        CheckoutMode::DetachedHead
    }
}

/// Concludes the creation of a clone at `now`: the metadata lists it, under
/// its suffix and with its path.
pub fn conclude_clone(plan: ClonePlan, now: Timestamp) -> (r: (Metadata, String))
    ensures
        r.1 == plan.target.path,
        r.0.clones@.len() == plan.metadata.clones@.len() + 1,
        r.0.clones@.drop_last() == plan.metadata.clones@,
        r.0.clones@.last().name == plan.target.suffix,
        r.0.clones@.last().path@ == plan.target.path@,
        r.0.clones@.last().created == now,
        r.0 == (Metadata { clones: r.0.clones, last_updated: now, ..plan.metadata }),
{
    let mut metadata = plan.metadata;
    let ghost before = metadata.clones@;
    let path = plan.target.path.clone();
    metadata.add_clone_at(plan.target.suffix, path, now);
    assert(metadata.clones@.drop_last() == before);
    (metadata, plan.target.path)
}

/// The suffixes of the clones of a repository, in the order of its
/// metadata.
pub fn list_clones(metadata: &Metadata) -> (r: Vec<String>)
    ensures
        r@.len() == metadata.clones@.len(),
        forall|i: int| 0 <= i < r@.len() ==> (#[trigger] r@[i])@ == metadata.clones@[i].name@,
{
    let mut r: Vec<String> = Vec::new();
    let mut i: usize = 0;
    while i < metadata.clones.len()
        invariant
            i <= metadata.clones.len(),
            r@.len() == i,
            forall|k: int| 0 <= k < i ==> (#[trigger] r@[k])@ == metadata.clones@[k].name@,
        decreases metadata.clones.len() - i,
    {
        r.push(metadata.clones[i].name.clone());
        i += 1;
    }
    r
}

} // verus!
