use crate::location::{in_bin_dir, Base, LocView, Location};
use crate::naming::{canonical, ends_with, has_prefix, has_suffix, just_prefix, prepend_just_prefix, JUST_PREFIX};
use vstd::prelude::*;

verus! {

/// The installed file name of an extension: its canonical name followed by
/// the platform's executable suffix.
pub open spec fn binary_file_name(name: Seq<char>, suffix: Seq<char>) -> Seq<char> {
    canonical(name) + suffix
}

/// Where the binary of an extension is installed.
pub open spec fn installed_location(name: Seq<char>, suffix: Seq<char>) -> LocView {
    (Base::BinDir, seq![binary_file_name(name, suffix)])
}

/// The working copy of a repository, below the working directory.
pub open spec fn work_dir(repo: Seq<char>) -> LocView {
    (Base::WorkingDir, seq![repo])
}

/// The build manifest of the working copy.
pub open spec fn manifest_location(repo: Seq<char>) -> LocView {
    (Base::WorkingDir, seq![repo, "Cargo.toml"@])
}

/// Where the release build leaves the repository's binary.
pub open spec fn built_location(repo: Seq<char>, suffix: Seq<char>) -> LocView {
    (Base::WorkingDir, seq![repo, "target"@, "release"@, repo + suffix])
}

/// Whether a file name names an extension binary: it starts with the prefix
/// and ends with the executable suffix.
pub open spec fn is_extension_name(file_name: Seq<char>, suffix: Seq<char>) -> bool {
    just_prefix().is_prefix_of(file_name) && ends_with(file_name, suffix)
}

/// The names among `names` that name extension binaries, in their order.
pub open spec fn extension_names(names: Seq<Seq<char>>, suffix: Seq<char>) -> Seq<Seq<char>> {
    names.filter(|f: Seq<char>| is_extension_name(f, suffix))
}

/// Naming rules for extension binaries on one platform.
pub struct Extension {
    exe_suffix: String,
}

impl Extension {
    /// The platform's executable suffix (empty where executables have none).
    pub closed spec fn suffix(&self) -> Seq<char> {
        self.exe_suffix@
    }

    /// Rules for a platform whose executables end with `exe_suffix`.
    pub fn new(exe_suffix: &str) -> (r: Extension)
        ensures
            r.suffix() == exe_suffix@,
    {
        Extension { exe_suffix: exe_suffix.to_owned() }
    }

    /// A copy of the executable suffix.
    pub fn exe_suffix(&self) -> (r: String)
        ensures
            r@ == self.suffix(),
    {
        self.exe_suffix.clone()
    }

    /// The file name that the binary of extension `name` is installed under.
    pub fn binary_name(&self, name: &str) -> (r: String)
        ensures
            r@ == binary_file_name(name@, self.suffix()),
    {
        let mut s = prepend_just_prefix(name);
        s.append(self.exe_suffix.as_str());
        s
    }

    /// Where the binary of extension `name` is installed, below the binary
    /// directory; nothing is read from disk.
    pub fn assemble_path(&self, name: &str) -> (r: Location)
        ensures
            r@ == installed_location(name@, self.suffix()),
    {
        let file = self.binary_name(name);
        let parts = vec![file];
        assert(parts.deep_view() =~= seq![binary_file_name(name@, self.suffix())]);
        in_bin_dir(parts)
    }

    /// Whether `file_name` names an extension binary on this platform.
    pub fn is_extension_file_name(&self, file_name: &str) -> (r: bool)
        ensures
            r == is_extension_name(file_name@, self.suffix()),
    {
        proof {
            reveal_strlit("just-");
        }
        assert(JUST_PREFIX@ =~= just_prefix());
        has_suffix(file_name, self.exe_suffix.as_str()) && has_prefix(file_name, JUST_PREFIX)
    }

    /// The extension binaries among the file names found in the binary
    /// directory tree, in the order found.
    pub fn select_extensions(&self, file_names: &Vec<String>) -> (r: Vec<String>)
        ensures
            r.deep_view() == extension_names(file_names.deep_view(), self.suffix()),
    {
        let ghost pred = |f: Seq<char>| is_extension_name(f, self.suffix());
        let mut out: Vec<String> = Vec::new();
        let mut i: usize = 0;
        while i < file_names.len()
            invariant
                i <= file_names.len(),
                pred == (|f: Seq<char>| is_extension_name(f, self.suffix())),
                out.deep_view() == file_names.deep_view().subrange(0, i as int).filter(pred),
            decreases file_names.len() - i,
        {
            let ghost before = file_names.deep_view().subrange(0, i as int);
            proof {
                assert(file_names.deep_view().subrange(0, i + 1) =~= before.push(
                    file_names@[i as int]@,
                ));
                reveal(Seq::filter);
                assert(before.push(file_names@[i as int]@).drop_last() =~= before);
            }
            if self.is_extension_file_name(file_names[i].as_str()) {
                let ghost old_out = out.deep_view();
                out.push(file_names[i].clone());
                assert(out.deep_view() =~= old_out.push(file_names@[i as int]@));
            }
            i = i + 1;
        }
        assert(file_names.deep_view().subrange(0, file_names.len() as int)
            =~= file_names.deep_view());
        out
    }
}

} // verus!
