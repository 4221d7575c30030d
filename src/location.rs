use crate::error::ExtensionError;
use vstd::prelude::*;

verus! {

/// The directory a location is relative to.
#[derive(Debug, Clone, Copy, PartialEq, Eq, Structural)]
pub enum Base {
    /// The process's current working directory, where sources are fetched.
    WorkingDir,
    /// The directory that holds the installed extension binaries.
    BinDir,
}

/// A filesystem location: path components below a base directory.
#[derive(Debug)]
pub struct Location {
    pub base: Base,
    pub parts: Vec<String>,
}

/// A location as its base and the characters of each component.
pub type LocView = (Base, Seq<Seq<char>>);

impl View for Location {
    type V = LocView;

    open spec fn view(&self) -> LocView {
        (self.base, self.parts.deep_view())
    }
}

/// One step of outside work that a caller performs and answers with a `bool`.
#[derive(Debug)]
pub enum Action {
    /// Answer whether the location exists.
    Probe(Location),
    /// Remove the directory tree at the location; answer whether that worked.
    RemoveDir(Location),
    /// Remove the file at the location; answer whether that worked.
    RemoveFile(Location),
    /// Fetch the repository at `url` into `dest`; answer whether that worked.
    Fetch { url: String, dest: Location },
    /// Build the project of the manifest in release mode; answer whether that worked.
    Build { manifest: Location },
    /// Copy the file `from` to `to`; answer whether that worked.
    Copy { from: Location, to: Location },
    /// Nothing more to do: the operation ended with this result.
    Finish(Result<(), ExtensionError>),
}

/// An action over the views of its locations and strings.
pub enum ActionView {
    Probe(LocView),
    RemoveDir(LocView),
    RemoveFile(LocView),
    Fetch(Seq<char>, LocView),
    Build(LocView),
    Copy(LocView, LocView),
    Finish(Result<(), ExtensionError>),
}

impl View for Action {
    type V = ActionView;

    open spec fn view(&self) -> ActionView {
        match self {
            Action::Probe(l) => ActionView::Probe(l@),
            Action::RemoveDir(l) => ActionView::RemoveDir(l@),
            Action::RemoveFile(l) => ActionView::RemoveFile(l@),
            Action::Fetch { url, dest } => ActionView::Fetch(url@, dest@),
            Action::Build { manifest } => ActionView::Build(manifest@),
            Action::Copy { from, to } => ActionView::Copy(from@, to@),
            Action::Finish(r) => ActionView::Finish(*r),
        }
    }
}

/// A location below the working directory, given by its components.
pub fn in_working_dir(parts: Vec<String>) -> (r: Location)
    ensures
        r@ == (Base::WorkingDir, parts.deep_view()),
{
    Location { base: Base::WorkingDir, parts }
}

/// A location below the binary directory, given by its components.
pub fn in_bin_dir(parts: Vec<String>) -> (r: Location)
    ensures
        r@ == (Base::BinDir, parts.deep_view()),
{
    Location { base: Base::BinDir, parts }
}

} // verus!
