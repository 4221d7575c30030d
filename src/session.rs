use crate::error::ExtensionError;
use crate::location::{in_working_dir, Action, ActionView, Location};
use crate::manager::{
    built_location, installed_location, manifest_location, work_dir, Extension,
};
use crate::repository::{get_repository_name, repository_name_of, url_parts_of};
use vstd::prelude::*;

verus! {

/// Where an install stands.
#[derive(Debug, Clone, Copy)]
pub enum InstallStage {
    /// Asking whether a working copy is left from an earlier attempt.
    ProbingWorkDir,
    /// Removing that stale working copy.
    RemovingStale,
    /// Fetching the repository into the working copy.
    Fetching,
    /// Building the working copy in release mode.
    Building,
    /// Copying the built binary to its installed location.
    Copying,
    /// Removing the working copy after the copy.
    Cleaning,
    /// Done, with this result.
    Finished(Result<(), ExtensionError>),
}

/// The stage an install moves to from `stage` on the answer `ok`: a probe's
/// answer says whether the working copy exists, any other answer whether the
/// step worked. Each failure ends the install with its error.
pub open spec fn install_next(stage: InstallStage, ok: bool) -> InstallStage {
    match stage {
        InstallStage::ProbingWorkDir => if ok {
            InstallStage::RemovingStale
        } else {
            InstallStage::Fetching
        },
        InstallStage::RemovingStale => if ok {
            InstallStage::Fetching
        } else {
            InstallStage::Finished(Err(ExtensionError::IoError))
        },
        InstallStage::Fetching => if ok {
            InstallStage::Building
        } else {
            InstallStage::Finished(Err(ExtensionError::FetchFailed))
        },
        InstallStage::Building => if ok {
            InstallStage::Copying
        } else {
            InstallStage::Finished(Err(ExtensionError::BuildFailed))
        },
        InstallStage::Copying => if ok {
            InstallStage::Cleaning
        } else {
            InstallStage::Finished(Err(ExtensionError::IoError))
        },
        InstallStage::Cleaning => if ok {
            InstallStage::Finished(Ok(()))
        } else {
            InstallStage::Finished(Err(ExtensionError::IoError))
        },
        InstallStage::Finished(r) => InstallStage::Finished(r),
    }
}

/// The outside work that an install of repository `repo` from `url` asks for
/// at `stage`.
pub open spec fn install_action(
    stage: InstallStage,
    url: Seq<char>,
    repo: Seq<char>,
    suffix: Seq<char>,
) -> ActionView {
    match stage {
        InstallStage::ProbingWorkDir => ActionView::Probe(work_dir(repo)),
        InstallStage::RemovingStale => ActionView::RemoveDir(work_dir(repo)),
        InstallStage::Fetching => ActionView::Fetch(url, work_dir(repo)),
        InstallStage::Building => ActionView::Build(manifest_location(repo)),
        InstallStage::Copying => ActionView::Copy(
            built_location(repo, suffix),
            installed_location(repo, suffix),
        ),
        InstallStage::Cleaning => ActionView::RemoveDir(work_dir(repo)),
        InstallStage::Finished(r) => ActionView::Finish(r),
    }
}

/// An install in progress: the caller performs `action()` and hands its
/// answer to `advance` until the action is `Finish`.
pub struct InstallSession {
    url: String,
    repo: String,
    exe_suffix: String,
    stage: InstallStage,
}

impl InstallSession {
    pub closed spec fn url(&self) -> Seq<char> {
        self.url@
    }

    pub closed spec fn repo(&self) -> Seq<char> {
        self.repo@
    }

    pub closed spec fn suffix(&self) -> Seq<char> {
        self.exe_suffix@
    }

    pub closed spec fn stage(&self) -> InstallStage {
        self.stage
    }

    /// The outside work to do now.
    pub fn action(&self) -> (r: Action)
        ensures
            r@ == install_action(self.stage(), self.url(), self.repo(), self.suffix()),
    {
        proof {
            reveal_strlit("Cargo.toml");
            reveal_strlit("target");
            reveal_strlit("release");
        }
        match self.stage {
            InstallStage::ProbingWorkDir => Action::Probe(self.work_dir()),
            InstallStage::RemovingStale => Action::RemoveDir(self.work_dir()),
            InstallStage::Fetching => Action::Fetch { url: self.url.clone(), dest: self.work_dir() },
            InstallStage::Building => {
                let parts = vec![self.repo.clone(), String::from_str("Cargo.toml")];
                assert(parts.deep_view() =~= manifest_location(self.repo@).1);
                Action::Build { manifest: in_working_dir(parts) }
            },
            InstallStage::Copying => {
                let mut exe = self.repo.clone();
                exe.append(self.exe_suffix.as_str());
                let parts = vec![
                    self.repo.clone(),
                    String::from_str("target"),
                    String::from_str("release"),
                    exe,
                ];
                assert(parts.deep_view() =~= built_location(self.repo@, self.exe_suffix@).1);
                let ext = Extension::new(self.exe_suffix.as_str());
                Action::Copy { from: in_working_dir(parts), to: ext.assemble_path(self.repo.as_str()) }
            },
            InstallStage::Cleaning => Action::RemoveDir(self.work_dir()),
            InstallStage::Finished(r) => Action::Finish(r),
        }
    }

    fn work_dir(&self) -> (r: Location)
        ensures
            r@ == work_dir(self.repo()),
    {
        let parts = vec![self.repo.clone()];
        assert(parts.deep_view() =~= seq![self.repo@]);
        in_working_dir(parts)
    }

    /// Moves on by the answer to the current action.
    pub fn advance(&mut self, ok: bool)
        ensures
            final(self).stage() == install_next(old(self).stage(), ok),
            final(self).url() == old(self).url(),
            final(self).repo() == old(self).repo(),
            final(self).suffix() == old(self).suffix(),
    {
        self.stage = match self.stage {
            InstallStage::ProbingWorkDir => if ok {
                InstallStage::RemovingStale
            } else {
                InstallStage::Fetching
            },
            InstallStage::RemovingStale => if ok {
                InstallStage::Fetching
            } else {
                InstallStage::Finished(Err(ExtensionError::IoError))
            },
            InstallStage::Fetching => if ok {
                InstallStage::Building
            } else {
                InstallStage::Finished(Err(ExtensionError::FetchFailed))
            },
            InstallStage::Building => if ok {
                InstallStage::Copying
            } else {
                InstallStage::Finished(Err(ExtensionError::BuildFailed))
            },
            InstallStage::Copying => if ok {
                InstallStage::Cleaning
            } else {
                InstallStage::Finished(Err(ExtensionError::IoError))
            },
            InstallStage::Cleaning => if ok {
                InstallStage::Finished(Ok(()))
            } else {
                InstallStage::Finished(Err(ExtensionError::IoError))
            },
            InstallStage::Finished(r) => InstallStage::Finished(r),
        };
    }

    /// The result once the install has ended, `None` while it runs.
    pub fn result(&self) -> (r: Option<Result<(), ExtensionError>>)
        ensures
            r == (match self.stage() {
                InstallStage::Finished(res) => Some(res),
                _ => None,
            }),
    {
        match self.stage {
            InstallStage::Finished(res) => Some(res),
            _ => None,
        }
    }
}

/// Where an uninstall stands.
#[derive(Debug, Clone, Copy)]
pub enum UninstallStage {
    /// Asking whether the extension's binary exists.
    Probing,
    /// Removing that binary.
    Removing,
    /// Done, with this result.
    Finished(Result<(), ExtensionError>),
}

/// The stage an uninstall moves to from `stage` on the answer `ok`. A binary
/// that is not there is no error: there is nothing to remove.
pub open spec fn uninstall_next(stage: UninstallStage, ok: bool) -> UninstallStage {
    match stage {
        UninstallStage::Probing => if ok {
            UninstallStage::Removing
        } else {
            UninstallStage::Finished(Ok(()))
        },
        UninstallStage::Removing => if ok {
            UninstallStage::Finished(Ok(()))
        } else {
            UninstallStage::Finished(Err(ExtensionError::IoError))
        },
        UninstallStage::Finished(r) => UninstallStage::Finished(r),
    }
}

/// The outside work that an uninstall of extension `name` asks for at `stage`.
pub open spec fn uninstall_action(stage: UninstallStage, name: Seq<char>, suffix: Seq<char>) -> ActionView {
    match stage {
        UninstallStage::Probing => ActionView::Probe(installed_location(name, suffix)),
        UninstallStage::Removing => ActionView::RemoveFile(installed_location(name, suffix)),
        UninstallStage::Finished(r) => ActionView::Finish(r),
    }
}

/// An uninstall in progress, driven as an install is.
pub struct UninstallSession {
    name: String,
    rules: Extension,
    stage: UninstallStage,
}

impl UninstallSession {
    pub closed spec fn name(&self) -> Seq<char> {
        self.name@
    }

    pub closed spec fn suffix(&self) -> Seq<char> {
        self.rules.suffix()
    }

    pub closed spec fn stage(&self) -> UninstallStage {
        self.stage
    }

    /// The outside work to do now.
    pub fn action(&self) -> (r: Action)
        ensures
            r@ == uninstall_action(self.stage(), self.name(), self.suffix()),
    {
        match self.stage {
            UninstallStage::Probing => Action::Probe(self.rules.assemble_path(self.name.as_str())),
            UninstallStage::Removing => Action::RemoveFile(
                self.rules.assemble_path(self.name.as_str()),
            ),
            UninstallStage::Finished(r) => Action::Finish(r),
        }
    }

    /// Moves on by the answer to the current action.
    pub fn advance(&mut self, ok: bool)
        ensures
            final(self).stage() == uninstall_next(old(self).stage(), ok),
            final(self).name() == old(self).name(),
            final(self).suffix() == old(self).suffix(),
    {
        self.stage = match self.stage {
            UninstallStage::Probing => if ok {
                UninstallStage::Removing
            } else {
                UninstallStage::Finished(Ok(()))
            },
            UninstallStage::Removing => if ok {
                UninstallStage::Finished(Ok(()))
            } else {
                UninstallStage::Finished(Err(ExtensionError::IoError))
            },
            UninstallStage::Finished(r) => UninstallStage::Finished(r),
        };
    }

    /// The result once the uninstall has ended, `None` while it runs.
    pub fn result(&self) -> (r: Option<Result<(), ExtensionError>>)
        ensures
            r == (match self.stage() {
                UninstallStage::Finished(res) => Some(res),
                _ => None,
            }),
    {
        match self.stage {
            UninstallStage::Finished(res) => Some(res),
            _ => None,
        }
    }
}

impl Extension {
    /// Starts installing from `url`. The repository name is resolved first;
    /// when that fails the install is finished at once with its error,
    /// otherwise it starts by probing for a stale working copy.
    pub fn start_install(&self, url: &str) -> (r: InstallSession)
        ensures
            r.url() == url@,
            r.suffix() == self.suffix(),
            match repository_name_of(url_parts_of(url@)) {
                Ok(repo) => r.repo() == repo && r.stage() == InstallStage::ProbingWorkDir,
                Err(e) => r.stage() == InstallStage::Finished(Err(e)),
            },
    {
        let suffix = self.exe_suffix();
        match get_repository_name(url) {
            Ok(repo) => InstallSession {
                url: url.to_owned(),
                repo,
                exe_suffix: suffix,
                stage: InstallStage::ProbingWorkDir,
            },
            Err(e) => InstallSession {
                url: url.to_owned(),
                repo: String::new(),
                exe_suffix: suffix,
                stage: InstallStage::Finished(Err(e)),
            },
        }
    }

    /// Starts uninstalling extension `name`: it begins by probing for its binary.
    pub fn start_uninstall(&self, name: &str) -> (r: UninstallSession)
        ensures
            r.name() == name@,
            r.suffix() == self.suffix(),
            r.stage() == UninstallStage::Probing,
    {
        UninstallSession {
            name: name.to_owned(),
            rules: Extension::new(self.exe_suffix().as_str()),
            stage: UninstallStage::Probing,
        }
    }
}

} // verus!
