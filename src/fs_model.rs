use crate::error::ExtensionError;
use crate::location::{ActionView, LocView};
use crate::manager::{extension_names, installed_location, is_extension_name};
use crate::session::{
    install_action, install_next, uninstall_action, uninstall_next, InstallStage, UninstallStage,
};
use vstd::prelude::*;

verus! {

/// Whether location `l` is `dir` or lies below it.
pub open spec fn under(l: LocView, dir: LocView) -> bool {
    l.0 == dir.0 && dir.1.is_prefix_of(l.1)
}

/// The locations that exist after an action whose answer was `ok`: a copy
/// adds its target, removing a file takes it away, removing a directory takes
/// away all below it; a failed step, a probe, a fetch or a build changes none
/// of the locations an install or uninstall reasons about.
pub open spec fn apply(fs: Set<LocView>, a: ActionView, ok: bool) -> Set<LocView> {
    if !ok {
        fs
    } else {
        match a {
            ActionView::Copy(_, to) => fs.insert(to),
            ActionView::RemoveFile(l) => fs.remove(l),
            ActionView::RemoveDir(d) => fs.filter(|l: LocView| !under(l, d)),
            _ => fs,
        }
    }
}

/// The answer to an action when every step works: a probe reports whether
/// the location exists.
pub open spec fn answer(fs: Set<LocView>, a: ActionView) -> bool {
    match a {
        ActionView::Probe(l) => fs.contains(l),
        _ => true,
    }
}

/// Whether extension `name` counts as installed: its binary exists.
pub open spec fn installed_in(fs: Set<LocView>, name: Seq<char>, suffix: Seq<char>) -> bool {
    fs.contains(installed_location(name, suffix))
}

/// The locations and stage after `steps` steps of an install in which every
/// step works.
pub open spec fn install_run(
    fs: Set<LocView>,
    stage: InstallStage,
    url: Seq<char>,
    repo: Seq<char>,
    suffix: Seq<char>,
    steps: nat,
) -> (Set<LocView>, InstallStage)
    decreases steps,
{
    if steps == 0 {
        (fs, stage)
    } else {
        let a = install_action(stage, url, repo, suffix);
        let ok = answer(fs, a);
        install_run(apply(fs, a, ok), install_next(stage, ok), url, repo, suffix, (steps - 1) as nat)
    }
}

/// The locations and stage after `steps` steps of an uninstall in which every
/// step works.
pub open spec fn uninstall_run(
    fs: Set<LocView>,
    stage: UninstallStage,
    name: Seq<char>,
    suffix: Seq<char>,
    steps: nat,
) -> (Set<LocView>, UninstallStage)
    decreases steps,
{
    if steps == 0 {
        (fs, stage)
    } else {
        let a = uninstall_action(stage, name, suffix);
        let ok = answer(fs, a);
        uninstall_run(apply(fs, a, ok), uninstall_next(stage, ok), name, suffix, (steps - 1) as nat)
    }
}

/// An install of repository `repo` in which every step works ends in success
/// with the binary at the location that marks `repo` installed, whether or
/// not a stale working copy was there; a later uninstall in which every step
/// works ends in success with the binary gone. A binary that was not there
/// before is not reported installed before the install.
pub proof fn lemma_install_then_uninstall(
    fs: Set<LocView>,
    url: Seq<char>,
    repo: Seq<char>,
    suffix: Seq<char>,
)
    ensures
        !fs.contains(installed_location(repo, suffix)) ==> !installed_in(fs, repo, suffix),
        install_run(fs, InstallStage::ProbingWorkDir, url, repo, suffix, 6).1
            == InstallStage::Finished(Ok::<(), ExtensionError>(())),
        installed_in(install_run(fs, InstallStage::ProbingWorkDir, url, repo, suffix, 6).0, repo, suffix),
        uninstall_run(
            install_run(fs, InstallStage::ProbingWorkDir, url, repo, suffix, 6).0,
            UninstallStage::Probing,
            repo,
            suffix,
            2,
        ).1 == UninstallStage::Finished(Ok::<(), ExtensionError>(())),
        !installed_in(
            uninstall_run(
                install_run(fs, InstallStage::ProbingWorkDir, url, repo, suffix, 6).0,
                UninstallStage::Probing,
                repo,
                suffix,
                2,
            ).0,
            repo,
            suffix,
        ),
{
    reveal_with_fuel(install_run, 7);
    reveal_with_fuel(uninstall_run, 3);
    let done = install_run(fs, InstallStage::ProbingWorkDir, url, repo, suffix, 6);
    assert(done.0.contains(installed_location(repo, suffix)));
}

/// Uninstalling an extension whose binary is not there succeeds at once and
/// changes nothing.
pub proof fn lemma_uninstall_absent(fs: Set<LocView>, name: Seq<char>, suffix: Seq<char>)
    requires
        !installed_in(fs, name, suffix),
    ensures
        uninstall_run(fs, UninstallStage::Probing, name, suffix, 1) == (
            fs,
            UninstallStage::Finished(Ok::<(), ExtensionError>(())),
        ),
        uninstall_action(uninstall_next(UninstallStage::Probing, false), name, suffix)
            == ActionView::Finish(Ok::<(), ExtensionError>(())),
{
    reveal_with_fuel(uninstall_run, 2);
}

/// A listing holds exactly the found names that start with the prefix and end
/// with the executable suffix: no name lacking either is listed.
pub proof fn lemma_listing_exact(names: Seq<Seq<char>>, suffix: Seq<char>, f: Seq<char>)
    ensures
        extension_names(names, suffix).contains(f) <==> (names.contains(f) && is_extension_name(f, suffix)),
{
    let pred = |g: Seq<char>| is_extension_name(g, suffix);
    if names.filter(pred).contains(f) {
        names.lemma_filter_contains_rev(pred, f);
        let i = choose|i: int| 0 <= i < names.filter(pred).len() && names.filter(pred)[i] == f;
        names.lemma_filter_pred(pred, i);
    }
    if names.contains(f) && is_extension_name(f, suffix) {
        let i = choose|i: int| 0 <= i < names.len() && names[i] == f;
        names.lemma_filter_contains(pred, i);
    }
}

} // verus!
