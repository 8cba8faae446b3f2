//! A revision of TVM and the places on disk that belong to it.

use vstd::prelude::*;
use vstd::string::*;
use crate::config::BuildConfig;
use crate::config::TVM_REPO;
use crate::targets::Target;
use crate::targets::TargetView;
use crate::text::copy_text;
use crate::text::join;
use crate::text::join_keeps_base;
use crate::text::spec_join;
use crate::text::text_of;
use crate::text::text_pairs;
use crate::text::text_pairs_concat;

verus! {

/// One unit that can be built: a branch or tag, the repository that it is
/// fetched from, and the directory that holds it where the user keeps one.
#[derive(Debug, PartialEq, Eq)]
pub struct Revision {
    /// The branch, tag or other ref.
    pub revision: String,
    /// The repository to fetch from; the upstream repository where `None`.
    pub repository_url: Option<String>,
    /// A directory of the user's own that holds the revision. It is never
    /// removed.
    pub repository_path: Option<String>,
}

/// A [`Revision`] as plain values.
pub struct RevisionView {
    pub revision: Seq<char>,
    pub repository_url: Option<Seq<char>>,
    pub repository_path: Option<Seq<char>>,
}

impl RevisionView {
    /// The repository that the revision is fetched from.
    pub open spec fn repository(self) -> Seq<char> {
        match self.repository_url {
            Some(url) => url,
            None => TVM_REPO@,
        }
    }

    /// The directory of the revision: the user's own where there is one, else
    /// the one named after the ref under the installation root.
    pub open spec fn path(self, installation_root: Seq<char>) -> Seq<char> {
        match self.repository_path {
            Some(p) => p,
            None => spec_join(installation_root, self.revision),
        }
    }

    /// The directory of the checkout.
    pub open spec fn source_path(self, installation_root: Seq<char>) -> Seq<char> {
        spec_join(self.path(installation_root), "source"@)
    }

    /// The directory that the build tool writes to.
    pub open spec fn build_path(self, installation_root: Seq<char>) -> Seq<char> {
        spec_join(self.path(installation_root), "build"@)
    }

    /// The run of CMake that builds the revision for `target` with the
    /// definitions `options`: a debug build with Unix makefiles, from the
    /// checkout into the build directory, with the platform's definitions
    /// before the others.
    pub open spec fn invocation(
        self,
        installation_root: Seq<char>,
        target: TargetView,
        options: Seq<(Seq<char>, Seq<char>)>,
        verbose: bool,
    ) -> CMakeInvocationView {
        CMakeInvocationView {
            source_path: self.source_path(installation_root),
            build_path: self.build_path(installation_root),
            generator: "Unix Makefiles"@,
            target: target.target_str,
            host: target.host,
            profile: "Debug"@,
            defines: target.cmake_defines + options,
            very_verbose: verbose,
        }
    }
}

impl View for Revision {
    type V = RevisionView;

    open spec fn view(&self) -> RevisionView {
        RevisionView {
            revision: self.revision@,
            repository_url: text_of(self.repository_url),
            repository_path: text_of(self.repository_path),
        }
    }
}

/// One run of CMake, as the values that it is started with.
#[derive(Debug, PartialEq, Eq)]
pub struct CMakeInvocation {
    /// The directory of the sources.
    pub source_path: String,
    /// The directory that the build is written to.
    pub build_path: String,
    /// The generator.
    pub generator: String,
    /// The target triple.
    pub target: String,
    /// The name of the host system.
    pub host: String,
    /// The build profile.
    pub profile: String,
    /// The definitions, in the order in which they are handed over.
    pub defines: Vec<(String, String)>,
    /// Whether the tool reports all that it does.
    pub very_verbose: bool,
}

/// A [`CMakeInvocation`] as plain values.
pub struct CMakeInvocationView {
    pub source_path: Seq<char>,
    pub build_path: Seq<char>,
    pub generator: Seq<char>,
    pub target: Seq<char>,
    pub host: Seq<char>,
    pub profile: Seq<char>,
    pub defines: Seq<(Seq<char>, Seq<char>)>,
    pub very_verbose: bool,
}

impl View for CMakeInvocation {
    type V = CMakeInvocationView;

    open spec fn view(&self) -> CMakeInvocationView {
        CMakeInvocationView {
            source_path: self.source_path@,
            build_path: self.build_path@,
            generator: self.generator@,
            target: self.target@,
            host: self.host@,
            profile: self.profile@,
            defines: text_pairs(self.defines@),
            very_verbose: self.very_verbose,
        }
    }
}

impl Revision {
    /// The revision `revision` of the upstream repository, kept under the
    /// installation root.
    pub fn new(revision: String) -> (r: Revision)
        ensures
            r@ == (RevisionView {
                revision: revision@,
                repository_url: None,
                repository_path: None,
            }),
    {
        Revision { revision, repository_url: None, repository_path: None }
    }

    /// The repository that the revision is fetched from.
    pub fn repository(&self) -> (r: String)
        ensures
            r@ == self@.repository(),
    {
        match &self.repository_url {
            Some(url) => url.clone(),
            None => TVM_REPO.to_owned(),
        }
    }

    /// The directory of the revision.
    pub fn path(&self, installation_root: &str) -> (r: String)
        ensures
            r@ == self@.path(installation_root@),
    {
        match &self.repository_path {
            Some(p) => p.clone(),
            None => join(installation_root, self.revision.as_str()),
        }
    }

    /// The directory of the checkout.
    pub fn source_path(&self, installation_root: &str) -> (r: String)
        ensures
            r@ == self@.source_path(installation_root@),
    {
        let root = self.path(installation_root);
        join(root.as_str(), "source")
    }

    /// The directory that the build tool writes to.
    pub fn build_path(&self, installation_root: &str) -> (r: String)
        ensures
            r@ == self@.build_path(installation_root@),
    {
        let root = self.path(installation_root);
        join(root.as_str(), "build")
    }

    /// Composes the run of CMake that builds this revision as `build_config`
    /// asks, for `target`: the definitions of the platform come first, then
    /// those of the options that are set, in the catalog's order.
    pub fn build_for(&self, build_config: &BuildConfig, target: Target, installation_root: &str) -> (r:
        CMakeInvocation)
        ensures
            r@ == self@.invocation(
                installation_root@,
                target@,
                build_config.settings.defines(),
                build_config.verbose,
            ),
    {
        let Target { host, target_str, cmake_defines } = target;
        let mut defines = cmake_defines;
        let mut options = build_config.as_cmake_define_key_values();
        proof {
            text_pairs_concat(defines@, options@);
        }
        defines.append(&mut options);
        CMakeInvocation {
            source_path: self.source_path(installation_root),
            build_path: self.build_path(installation_root),
            generator: "Unix Makefiles".to_owned(),
            target: target_str,
            host,
            profile: "Debug".to_owned(),
            defines,
            very_verbose: build_config.verbose,
        }
    }
}

impl Clone for Revision {
    fn clone(&self) -> (r: Revision)
        ensures
            r@ == self@,
    {
        Revision {
            revision: self.revision.clone(),
            repository_url: copy_text(&self.repository_url),
            repository_path: copy_text(&self.repository_path),
        }
    }
}

/// What a build hands back.
#[derive(Debug, PartialEq, Eq)]
pub struct BuildResult {
    /// The revision that was built.
    pub revision: Revision,
}

/// The places of a revision are derived from its values and the installation
/// root alone: two revisions with the same values have the same places.
pub proof fn places_are_derived(a: Revision, b: Revision, installation_root: Seq<char>)
    requires
        a@ == b@,
    ensures
        a@.path(installation_root) == b@.path(installation_root),
        a@.source_path(installation_root) == b@.source_path(installation_root),
        a@.build_path(installation_root) == b@.build_path(installation_root),
{
}

/// The repository does not enter into the places of a revision: two revisions
/// of one ref, neither kept in a directory of the user's own, share their
/// places whatever they are fetched from.
pub proof fn places_ignore_repository(a: RevisionView, b: RevisionView, installation_root: Seq<char>)
    requires
        a.revision == b.revision,
        a.repository_path is None,
        b.repository_path is None,
    ensures
        a.path(installation_root) == b.path(installation_root),
        a.source_path(installation_root) == b.source_path(installation_root),
        a.build_path(installation_root) == b.build_path(installation_root),
{
}

/// A revision that is kept under the installation root has its places in it:
/// where the ref does not begin with a separator, the installation root begins
/// the path of the directory of the revision, which begins those of the
/// checkout and of the build directory.
pub proof fn places_lie_under_the_root(revision: RevisionView, installation_root: Seq<char>)
    requires
        revision.repository_path is None,
        revision.revision.len() == 0 || revision.revision[0] != '/',
    ensures
        installation_root.is_prefix_of(revision.path(installation_root)),
        revision.path(installation_root).is_prefix_of(revision.source_path(installation_root)),
        revision.path(installation_root).is_prefix_of(revision.build_path(installation_root)),
{
    reveal_strlit("source");
    reveal_strlit("build");
    join_keeps_base(installation_root, revision.revision);
    join_keeps_base(revision.path(installation_root), "source"@);
    join_keeps_base(revision.path(installation_root), "build"@);
}

} // verus!
