use vstd::prelude::*;

use crate::error::{result_of, InitError, InitResult};
use crate::templates::{file_name_of, Template};
use crate::text::{ends_with, has_suffix};

verus! {

/// The last component of a path, as std's path parser splits it.
pub uninterp spec fn last_component_of(path: Seq<char>) -> Seq<char>;

/// The path `part` joined onto `base`, as std's path joining builds it.
pub uninterp spec fn joined_path_of(base: Seq<char>, part: Seq<char>) -> Seq<char>;

/// Relies on std::path::Path::iter: the text of the path's last component,
/// or an empty string where the path has none. The result depends on the text
/// of the path alone.
#[verifier::external_body]
fn last_component(path: &str) -> (r: String)
    ensures
        r@ == last_component_of(path@),
{
    std::path::Path::new(path).iter().last().map(|c| c.to_string_lossy().into_owned()).unwrap_or_default()
}

/// Relies on std::path::Path::join: `part` appended to `base` after a
/// separator. Both are UTF-8, so the joined path converts back unchanged.
#[verifier::external_body]
fn join_path(base: &str, part: &str) -> (r: String)
    ensures
        r@ == joined_path_of(base@, part@),
{
    std::path::Path::new(base).join(part).to_string_lossy().into_owned()
}

/// A directory name that marks an existing font bundle.
pub open spec fn is_bundle_dir_name(name: Seq<char>) -> bool {
    has_suffix(name, "ufo"@) || has_suffix(name, "ufo3"@)
}

/// Whether a bundle already at `path` is cleared away before a new one is made.
pub open spec fn clears_existing(path: Seq<char>, is_dir: bool) -> bool {
    is_dir && is_bundle_dir_name(last_component_of(path))
}

/// One filesystem step of creating a bundle.
#[derive(Debug, Clone, PartialEq, Eq)]
pub enum FsAction {
    /// Delete the directory and all it holds.
    RemoveDirAll(String),
    /// Rename the directory to a fresh backup name next to it.
    MoveAside(String),
    CreateDir(String),
    /// Create or truncate the file and write the template's text into it.
    WriteFile(String, Template),
}

/// The mathematical form of a filesystem step.
pub enum FsStep {
    RemoveDirAll(Seq<char>),
    MoveAside(Seq<char>),
    CreateDir(Seq<char>),
    WriteFile(Seq<char>, Template),
}

impl View for FsAction {
    type V = FsStep;

    open spec fn view(&self) -> FsStep {
        match self {
            FsAction::RemoveDirAll(p) => FsStep::RemoveDirAll(p@),
            FsAction::MoveAside(p) => FsStep::MoveAside(p@),
            FsAction::CreateDir(p) => FsStep::CreateDir(p@),
            FsAction::WriteFile(p, t) => FsStep::WriteFile(p@, *t),
        }
    }
}

/// The steps that create a fresh bundle at `path`: the directory, its
/// `glyphs` subdirectory, then the template files, those of `glyphs` first.
pub open spec fn fresh_bundle_steps(path: Seq<char>) -> Seq<FsStep> {
    let glyphs = joined_path_of(path, "glyphs"@);
    seq![
        FsStep::CreateDir(path),
        FsStep::CreateDir(glyphs),
        FsStep::WriteFile(joined_path_of(glyphs, file_name_of(Template::Contents)), Template::Contents),
        FsStep::WriteFile(joined_path_of(path, file_name_of(Template::Metainfo)), Template::Metainfo),
        FsStep::WriteFile(joined_path_of(path, file_name_of(Template::LayerContents)), Template::LayerContents),
    ]
}

/// The steps that create a bundle at `path`: an existing bundle directory
/// there is first deleted, where asked, or else moved aside.
pub open spec fn bundle_steps(path: Seq<char>, is_dir: bool, delete_if_exists: bool) -> Seq<FsStep> {
    if clears_existing(path, is_dir) {
        seq![if delete_if_exists { FsStep::RemoveDirAll(path) } else { FsStep::MoveAside(path) }]
            + fresh_bundle_steps(path)
    } else {
        fresh_bundle_steps(path)
    }
}

/// The view of each action of a plan.
pub open spec fn plan_view(plan: Seq<FsAction>) -> Seq<FsStep> {
    plan.map_values(|a: FsAction| a@)
}

fn write_step(dir: &str, t: Template) -> (r: FsAction)
    ensures
        r@ == FsStep::WriteFile(joined_path_of(dir@, file_name_of(t)), t),
{
    FsAction::WriteFile(join_path(dir, t.file_name()), t)
}

/// Plans the creation of a bundle at `path`, given whether a directory is
/// there already.
pub fn bundle_plan(path: &str, is_dir: bool, delete_if_exists: bool) -> (r: Vec<FsAction>)
    ensures
        plan_view(r@) == bundle_steps(path@, is_dir, delete_if_exists),
{
    let mut plan: Vec<FsAction> = Vec::new();
    let last = last_component(path);
    if is_dir && (ends_with(last.as_str(), "ufo") || ends_with(last.as_str(), "ufo3")) {
        if delete_if_exists {
            plan.push(FsAction::RemoveDirAll(path.to_owned()));
        } else {
            plan.push(FsAction::MoveAside(path.to_owned()));
        }
    }
    let glyphs = join_path(path, "glyphs");
    let contents = write_step(glyphs.as_str(), Template::Contents);
    plan.push(FsAction::CreateDir(path.to_owned()));
    plan.push(FsAction::CreateDir(glyphs));
    plan.push(contents);
    plan.push(write_step(path, Template::Metainfo));
    plan.push(write_step(path, Template::LayerContents));
    assert(plan_view(plan@) =~= bundle_steps(path@, is_dir, delete_if_exists));
    plan
}

/// The outcome of creating a bundle at `path`: `FailedUFO` where a step of
/// the plan failed, else success at `path`.
pub open spec fn is_bundle_outcome(r: InitResult, path: Seq<char>, failed: bool) -> bool {
    if failed {
        r == InitResult::InitErr(InitError::FailedUFO)
    } else {
        r matches InitResult::UfoOk(p) && p@ == path
    }
}

/// Decides the outcome of running a bundle plan for `path`, given whether one
/// of its steps failed. The steps are run in order and the first failure ends
/// the run.
pub fn bundle_outcome(path: &str, failed: bool) -> (r: InitResult)
    ensures
        is_bundle_outcome(r, path@, failed),
{
    if failed {
        InitResult::InitErr(InitError::FailedUFO)
    } else {
        InitResult::UfoOk(path.to_owned())
    }
}

/// What a run of a bundle plan does next.
#[derive(Debug, Clone, PartialEq, Eq)]
pub enum BundleProgress {
    /// Perform the step of the plan at this index.
    Perform(usize),
    /// The run is over, with this outcome.
    Done(InitResult),
}

/// Decides the next move of a run of a plan of `plan_len` steps for `path`,
/// of which the first `done` have been performed, the last of them
/// succeeding exactly when `last_ok`. The steps run in order; the first
/// failure ends the run with `FailedUFO`, and a run whose steps all succeed
/// ends with success at `path`.
pub fn bundle_next(path: &str, plan_len: usize, done: usize, last_ok: bool) -> (r: BundleProgress)
    requires
        done <= plan_len,
    ensures
        !last_ok ==> r == BundleProgress::Done(InitResult::InitErr(InitError::FailedUFO)),
        last_ok && done < plan_len ==> r == BundleProgress::Perform(done),
        last_ok && done == plan_len ==> (r matches BundleProgress::Done(o) && is_bundle_outcome(o, path@, false)),
{
    if !last_ok {
        BundleProgress::Done(bundle_outcome(path, true))
    } else if done < plan_len {
        BundleProgress::Perform(done)
    } else {
        BundleProgress::Done(bundle_outcome(path, false))
    }
}

/// On a path where no directory stands, the plan creates the bundle
/// directory, its `glyphs` subdirectory and the three template files, and
/// a run in which no step failed reports success.
pub proof fn lemma_fresh_bundle(path: Seq<char>, delete_if_exists: bool, r: InitResult)
    requires
        is_bundle_outcome(r, path, false),
    ensures
        bundle_steps(path, false, delete_if_exists) == fresh_bundle_steps(path),
        result_of(r) == Ok::<(), InitError>(()),
{
}

/// An existing bundle directory is moved aside, not deleted, when deletion
/// was not asked for; a fresh bundle is then created at the same path.
pub proof fn lemma_existing_bundle_moved_aside(path: Seq<char>)
    requires
        is_bundle_dir_name(last_component_of(path)),
    ensures
        bundle_steps(path, true, false) == seq![FsStep::MoveAside(path)] + fresh_bundle_steps(path),
{
}

/// An existing bundle directory is deleted when deletion was asked for; a
/// fresh bundle is then created at the same path.
pub proof fn lemma_existing_bundle_deleted(path: Seq<char>)
    requires
        is_bundle_dir_name(last_component_of(path)),
    ensures
        bundle_steps(path, true, true) == seq![FsStep::RemoveDirAll(path)] + fresh_bundle_steps(path),
{
}

/// A directory whose name does not mark a bundle is left alone: the plan only
/// tries to create the bundle there, which then fails on the occupied path.
pub proof fn lemma_other_directory_kept(path: Seq<char>, delete_if_exists: bool)
    requires
        !is_bundle_dir_name(last_component_of(path)),
    ensures
        bundle_steps(path, true, delete_if_exists) == fresh_bundle_steps(path),
{
}

} // verus!
