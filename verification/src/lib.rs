//! Management of local installations of TVM: where a revision's source and
//! build live on disk, which steps bring them there, and how a set of build
//! options is projected into CMake definitions.
//!
//! The library decides; the program around it touches the disk, the network
//! and the build tool, and reports back what happened.

pub mod text;
pub mod error;
pub mod settings;
pub mod targets;
pub mod config;
pub mod revision;
pub mod lifecycle;

pub use crate::config::BuildConfig;
pub use crate::error::Error;
pub use crate::lifecycle::Action;
pub use crate::lifecycle::Reply;
pub use crate::lifecycle::Session;
pub use crate::lifecycle::Stage;
pub use crate::revision::BuildResult;
pub use crate::revision::CMakeInvocation;
pub use crate::revision::Revision;
pub use crate::settings::CMakeSetting;
pub use crate::settings::OptionId;
pub use crate::settings::OptionKind;
pub use crate::settings::UserSettings;
pub use crate::targets::local_target;
pub use crate::targets::Target;

use vstd::prelude::*;
use vstd::string::*;
use crate::error::ErrorView;
use crate::lifecycle::ActionView;
use crate::lifecycle::ReplyView;
use crate::lifecycle::SessionView;
use crate::text::join;
use crate::text::spec_join;
use crate::text::text_of;

verus! {

/// Where the Python package of a revision is found.
#[derive(Debug, PartialEq, Eq)]
pub struct VersionConfig {
    /// The directory of the `tvm` package in the checkout.
    pub tvm_python_path: String,
}

/// The home directory of the user, as `dirs::home_dir` finds it, written as
/// text. Nothing is claimed of it: it depends on the environment and on the
/// user database, and there may be none.
#[verifier::external_body]
fn home_directory() -> (r: Option<String>) {
    match dirs::home_dir() {
        Some(path) => Some(path.to_string_lossy().into_owned()),
        None => None,
    }
}

/// The installation root of a user whose home directory is `home`.
pub open spec fn spec_installation_root(home: Seq<char>) -> Seq<char> {
    spec_join(home, ".tvm_build"@)
}

/// The installation root of a user whose home directory is `home`: the
/// directory `.tvm_build` in it.
pub fn installation_root(home: &str) -> (r: String)
    ensures
        r@ == spec_installation_root(home@),
{
    join(home, ".tvm_build")
}

/// The installation root of the user who runs the program, where the user has
/// a home directory.
pub fn tvm_build_directory() -> (r: Option<String>)
    ensures
        r matches Some(root) ==> exists|home: Seq<char>| root@ == spec_installation_root(home),
{
    installation_root_of(home_directory())
}

/// The installation root that goes with what was found of a home directory:
/// the directory `.tvm_build` in it, and none where there is no home
/// directory.
pub open spec fn spec_installation_root_of(home: Option<Seq<char>>) -> Option<Seq<char>> {
    match home {
        Some(h) => Some(spec_installation_root(h)),
        None => None,
    }
}

/// The installation root that goes with what was found of a home directory.
/// A user without a home directory has no installation root.
pub fn installation_root_of(home: Option<String>) -> (r: Option<String>)
    ensures
        text_of(r) == spec_installation_root_of(text_of(home)),
{
    match home {
        Some(h) => Some(installation_root(h.as_str())),
        None => None,
    }
}

/// Starts a build of TVM as `build_config` asks, with revisions kept under
/// `installation_root`. A configuration with an output path is refused. The
/// session that comes back names each step to be taken; see
/// [`Session::action`] and [`Session::advance`].
pub fn build(build_config: BuildConfig, installation_root: &str) -> (r: Result<Session, Error>)
    ensures
        match build_config.output_path {
            Some(p) => (r matches Err(e) && e@ == ErrorView::OutputPathNotSupported(p@)),
            None => (r matches Ok(s) && s@.well_formed() && s@ == SessionView::start(
                build_config.spec_revision(),
                installation_root@,
                build_config.clean,
                build_config.verbose,
                build_config.settings.defines(),
            )),
        },
{
    match &build_config.output_path {
        Some(p) => Err(Error::OutputPathNotSupported(p.clone())),
        None => Ok(Session::start(build_config, installation_root)),
    }
}

/// The directory that an uninstall of `revision` removes.
pub open spec fn spec_uninstall_path(revision: Seq<char>, installation_root: Seq<char>) -> Seq<
    char,
> {
    spec_join(installation_root, revision)
}

/// Names what removes the revision `revision` from under `installation_root`:
/// the removal of its directory, which must be empty. An output path is
/// refused.
pub fn uninstall(revision: String, output_path: Option<String>, installation_root: &str) -> (r:
    Result<Action, Error>)
    ensures
        match output_path {
            Some(p) => (r matches Err(e) && e@ == ErrorView::OutputPathNotSupported(p@)),
            None => (r matches Ok(a) && a@ == ActionView::RemoveDir(
                spec_uninstall_path(revision@, installation_root@),
            )),
        },
{
    match output_path {
        Some(p) => Err(Error::OutputPathNotSupported(p)),
        None => {
            let revision = Revision::new(revision);
            Ok(Action::RemoveDir(revision.path(installation_root)))
        },
    }
}

/// What the report on the removal of `directory` comes to: nothing where it was
/// removed, else the failure.
pub open spec fn spec_uninstall_outcome(directory: Seq<char>, reply: ReplyView) -> Option<
    ErrorView,
> {
    match reply {
        ReplyView::Completed => None,
        ReplyView::NotFound(_) => Some(ErrorView::DirectoryNotFound(directory)),
        ReplyView::Failed(m) => Some(ErrorView::IoError(m)),
        _ => Some(ErrorView::UnexpectedReply),
    }
}

/// Ends an uninstall on the report of the removal of `directory`. A directory
/// that was not there is an error, and so is one that could not be removed.
pub fn uninstall_outcome(directory: String, reply: Reply) -> (r: Result<(), Error>)
    ensures
        match spec_uninstall_outcome(directory@, reply@) {
            None => r is Ok,
            Some(failure) => (r matches Err(e) && e@ == failure),
        },
{
    match reply {
        Reply::Completed => Ok(()),
        Reply::NotFound(_) => Err(Error::DirectoryNotFound(directory)),
        Reply::Failed(m) => Err(Error::IoError(m)),
        _ => Err(Error::UnexpectedReply),
    }
}

/// Where the Python package of the revision `revision` is found.
pub open spec fn spec_python_path(revision: Seq<char>, installation_root: Seq<char>) -> Seq<char> {
    spec_join(
        spec_join(spec_join(spec_join(installation_root, revision), "source"@), "python"@),
        "tvm"@,
    )
}

/// Says where the Python package of the revision `revision` is to be found
/// under `installation_root`. Nothing is looked up: the checkout need not
/// exist.
pub fn version_config(revision: String, installation_root: &str) -> (r: Result<
    VersionConfig,
    Error,
>)
    ensures
        r matches Ok(v) && v.tvm_python_path@ == spec_python_path(revision@, installation_root@),
{
    let rev = Revision::new(revision);
    let source = rev.source_path(installation_root);
    let python = join(source.as_str(), "python");
    Ok(VersionConfig { tvm_python_path: join(python.as_str(), "tvm") })
}

} // verus!
