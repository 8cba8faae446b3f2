//! The life of a revision on disk, as a state machine.
//!
//! A [`Session`] is one build under way. It names the next thing to be done
//! outside, an [`Action`]; the program does it and reports what happened, a
//! [`Reply`]; the session then moves on. The session never touches the disk,
//! the network or the build tool itself.

use vstd::pervasive::unreached;
use vstd::prelude::*;
use vstd::string::*;
use crate::config::BuildConfig;
use crate::error::Error;
use crate::error::ErrorView;
use crate::revision::BuildResult;
use crate::revision::CMakeInvocation;
use crate::revision::CMakeInvocationView;
use crate::revision::Revision;
use crate::revision::RevisionView;
use crate::targets::is_supported;
use crate::targets::local_target;
use crate::targets::spec_is_supported;
use crate::targets::spec_local_target;
use crate::targets::Target;
use crate::targets::TargetView;

verus! {

/// Where a build stands: the request that is pending, or how it ended.
#[derive(Debug, Clone, Copy, PartialEq, Eq, Structural)]
pub enum Stage {
    /// Asking whether the directory of the revision exists, before a clean.
    ProbeRoot,
    /// Removing the directory of the revision with all that is in it.
    RemoveRoot,
    /// Asking whether the checkout exists.
    ProbeSource,
    /// Cloning the repository.
    CloneSource,
    /// Bringing in the submodules of the fresh clone.
    UpdateSubmodules,
    /// Asking what machine this is.
    ResolveTarget,
    /// Asking whether the build directory exists.
    ProbeBuild,
    /// Creating the build directory.
    CreateBuild,
    /// Running the build tool.
    RunBuild,
    /// The build is done.
    Done,
    /// The build has failed.
    Failed,
}

/// What a report says, without its texts.
#[derive(Debug, Clone, Copy, PartialEq, Eq, Structural)]
pub enum ReplyKind {
    Present,
    Absent,
    Completed,
    NotFound,
    Failed,
    /// The machine runs a supported operating system.
    Supported,
    /// The machine runs an operating system that is not supported.
    Unsupported,
}

/// The report of what an action came to.
#[derive(Debug, PartialEq, Eq)]
pub enum Reply {
    /// The path that was asked about exists.
    Present,
    /// The path that was asked about does not exist.
    Absent,
    /// The action was carried out.
    Completed,
    /// What the action was to work on was not found; the message says so.
    NotFound(String),
    /// The action failed for another reason; the message says why.
    Failed(String),
    /// The machine: its operating system, its processor and the triple of
    /// its tool chain.
    Platform { os: String, arch: String, target: String },
}

/// A [`Reply`] as plain values.
pub enum ReplyView {
    Present,
    Absent,
    Completed,
    NotFound(Seq<char>),
    Failed(Seq<char>),
    Platform { os: Seq<char>, arch: Seq<char>, target: Seq<char> },
}

impl ReplyView {
    /// What the report says, without its texts.
    pub open spec fn kind(self) -> ReplyKind {
        match self {
            ReplyView::Present => ReplyKind::Present,
            ReplyView::Absent => ReplyKind::Absent,
            ReplyView::Completed => ReplyKind::Completed,
            ReplyView::NotFound(_) => ReplyKind::NotFound,
            ReplyView::Failed(_) => ReplyKind::Failed,
            ReplyView::Platform { os, arch, target } => if spec_is_supported(os) {
                ReplyKind::Supported
            } else {
                ReplyKind::Unsupported
            },
        }
    }
}

impl View for Reply {
    type V = ReplyView;

    open spec fn view(&self) -> ReplyView {
        match self {
            Reply::Present => ReplyView::Present,
            Reply::Absent => ReplyView::Absent,
            Reply::Completed => ReplyView::Completed,
            Reply::NotFound(m) => ReplyView::NotFound(m@),
            Reply::Failed(m) => ReplyView::Failed(m@),
            Reply::Platform { os, arch, target } => ReplyView::Platform {
                os: os@,
                arch: arch@,
                target: target@,
            },
        }
    }
}

impl Reply {
    /// What the report says, without its texts.
    pub fn kind(&self) -> (r: ReplyKind)
        ensures
            r == self@.kind(),
    {
        match self {
            Reply::Present => ReplyKind::Present,
            Reply::Absent => ReplyKind::Absent,
            Reply::Completed => ReplyKind::Completed,
            Reply::NotFound(_) => ReplyKind::NotFound,
            Reply::Failed(_) => ReplyKind::Failed,
            Reply::Platform { os, arch, target } => if is_supported(os.as_str()) {
                ReplyKind::Supported
            } else {
                ReplyKind::Unsupported
            },
        }
    }
}

/// The stage that a build starts in. Only a clean of a revision that is kept
/// under the installation root looks at the directory of the revision; every
/// other build starts at the checkout.
pub open spec fn spec_first_stage(clean: bool, pinned: bool) -> Stage {
    if clean && !pinned {
        Stage::ProbeRoot
    } else {
        Stage::ProbeSource
    }
}

/// The stage that follows `stage` on a report of kind `kind`, in a build that
/// was asked to clean (`clean`) a revision that is kept in a directory of
/// the user's own (`pinned`) or under the installation root.
///
/// A report that does not answer the pending request fails the build. Once
/// done or failed, a build stays so.
pub open spec fn spec_next_stage(clean: bool, pinned: bool, stage: Stage, kind: ReplyKind) -> Stage {
    match stage {
        Stage::ProbeRoot => match kind {
            ReplyKind::Present => if clean && !pinned {
                Stage::RemoveRoot
            } else {
                Stage::ProbeSource
            },
            ReplyKind::Absent => Stage::ProbeSource,
            _ => Stage::Failed,
        },
        Stage::RemoveRoot => match kind {
            ReplyKind::Completed => Stage::ProbeSource,
            _ => Stage::Failed,
        },
        Stage::ProbeSource => match kind {
            ReplyKind::Present => Stage::ResolveTarget,
            ReplyKind::Absent => Stage::CloneSource,
            _ => Stage::Failed,
        },
        Stage::CloneSource => match kind {
            ReplyKind::Completed => Stage::UpdateSubmodules,
            _ => Stage::Failed,
        },
        Stage::UpdateSubmodules => match kind {
            ReplyKind::Completed => Stage::ResolveTarget,
            _ => Stage::Failed,
        },
        Stage::ResolveTarget => match kind {
            ReplyKind::Supported => Stage::ProbeBuild,
            _ => Stage::Failed,
        },
        Stage::ProbeBuild => match kind {
            ReplyKind::Present => Stage::RunBuild,
            ReplyKind::Absent => Stage::CreateBuild,
            _ => Stage::Failed,
        },
        Stage::CreateBuild => match kind {
            ReplyKind::Completed => Stage::RunBuild,
            _ => Stage::Failed,
        },
        Stage::RunBuild => match kind {
            ReplyKind::Completed => Stage::Done,
            _ => Stage::Failed,
        },
        Stage::Done => Stage::Done,
        Stage::Failed => Stage::Failed,
    }
}

/// The stage that a build starts in.
pub fn first_stage(clean: bool, pinned: bool) -> (r: Stage)
    ensures
        r == spec_first_stage(clean, pinned),
{
    if clean && !pinned {
        Stage::ProbeRoot
    } else {
        Stage::ProbeSource
    }
}

/// The stage that follows `stage` on a report of kind `kind`.
pub fn next_stage(clean: bool, pinned: bool, stage: Stage, kind: ReplyKind) -> (r: Stage)
    ensures
        r == spec_next_stage(clean, pinned, stage, kind),
{
    match stage {
        Stage::ProbeRoot => match kind {
            ReplyKind::Present => if clean && !pinned {
                Stage::RemoveRoot
            } else {
                Stage::ProbeSource
            },
            ReplyKind::Absent => Stage::ProbeSource,
            _ => Stage::Failed,
        },
        Stage::RemoveRoot => match kind {
            ReplyKind::Completed => Stage::ProbeSource,
            _ => Stage::Failed,
        },
        Stage::ProbeSource => match kind {
            ReplyKind::Present => Stage::ResolveTarget,
            ReplyKind::Absent => Stage::CloneSource,
            _ => Stage::Failed,
        },
        Stage::CloneSource => match kind {
            ReplyKind::Completed => Stage::UpdateSubmodules,
            _ => Stage::Failed,
        },
        Stage::UpdateSubmodules => match kind {
            ReplyKind::Completed => Stage::ResolveTarget,
            _ => Stage::Failed,
        },
        Stage::ResolveTarget => match kind {
            ReplyKind::Supported => Stage::ProbeBuild,
            _ => Stage::Failed,
        },
        Stage::ProbeBuild => match kind {
            ReplyKind::Present => Stage::RunBuild,
            ReplyKind::Absent => Stage::CreateBuild,
            _ => Stage::Failed,
        },
        Stage::CreateBuild => match kind {
            ReplyKind::Completed => Stage::RunBuild,
            _ => Stage::Failed,
        },
        Stage::RunBuild => match kind {
            ReplyKind::Completed => Stage::Done,
            _ => Stage::Failed,
        },
        Stage::Done => Stage::Done,
        Stage::Failed => Stage::Failed,
    }
}

/// The failure that a report brings to a build at `stage`, for a report that
/// fails it. A clone that finds nothing names the revision and the repository;
/// the version-control client's other failures and those of the filesystem
/// and the build tool keep their message; an unsupported machine is named by
/// its operating system.
pub open spec fn spec_failure(stage: Stage, reply: ReplyView, revision: RevisionView) -> ErrorView {
    match reply {
        ReplyView::NotFound(m) => match stage {
            Stage::CloneSource => ErrorView::RevisionNotFound {
                revision: revision.revision,
                repository: revision.repository(),
            },
            Stage::UpdateSubmodules => ErrorView::Git2(m),
            Stage::RemoveRoot | Stage::CreateBuild | Stage::RunBuild => ErrorView::IoError(m),
            _ => ErrorView::UnexpectedReply,
        },
        ReplyView::Failed(m) => match stage {
            Stage::CloneSource | Stage::UpdateSubmodules => ErrorView::Git2(m),
            Stage::RemoveRoot | Stage::CreateBuild | Stage::RunBuild => ErrorView::IoError(m),
            _ => ErrorView::UnexpectedReply,
        },
        ReplyView::Platform { os, arch, target } => match stage {
            Stage::ResolveTarget => ErrorView::UnsupportedPlatform(os),
            _ => ErrorView::UnexpectedReply,
        },
        _ => ErrorView::UnexpectedReply,
    }
}

fn failure_of(stage: Stage, reply: Reply, revision: &Revision) -> (r: Error)
    ensures
        r@ == spec_failure(stage, reply@, revision@),
{
    match reply {
        Reply::NotFound(m) => match stage {
            Stage::CloneSource => Error::RevisionNotFound {
                revision: revision.revision.clone(),
                repository: revision.repository(),
            },
            Stage::UpdateSubmodules => Error::Git2(m),
            Stage::RemoveRoot | Stage::CreateBuild | Stage::RunBuild => Error::IoError(m),
            _ => Error::UnexpectedReply,
        },
        Reply::Failed(m) => match stage {
            Stage::CloneSource | Stage::UpdateSubmodules => Error::Git2(m),
            Stage::RemoveRoot | Stage::CreateBuild | Stage::RunBuild => Error::IoError(m),
            _ => Error::UnexpectedReply,
        },
        Reply::Platform { os, arch, target } => match stage {
            Stage::ResolveTarget => Error::UnsupportedPlatform(os),
            _ => Error::UnexpectedReply,
        },
        _ => Error::UnexpectedReply,
    }
}

/// What the program is to do next.
#[derive(Debug, PartialEq, Eq)]
pub enum Action {
    /// Find out whether the path exists; report `Present` or `Absent`.
    PathExists(String),
    /// Remove the directory and all that is in it.
    RemoveDirAll(String),
    /// Remove the directory, which must be empty.
    RemoveDir(String),
    /// Clone the branch of the repository into the directory.
    CloneRepository { url: String, branch: String, into: String },
    /// Bring in every submodule of the checkout, and theirs in turn.
    UpdateSubmodules { repository: String },
    /// Find out what machine this is; report `Platform`.
    DetectPlatform,
    /// Create the directory, with the directories above it that are missing.
    CreateDirAll(String),
    /// Run CMake.
    RunCMake(CMakeInvocation),
    /// Nothing more: the build is done.
    Finish(BuildResult),
    /// Nothing more: the build has failed.
    Fail(Error),
}

/// An [`Action`] as plain values.
pub enum ActionView {
    PathExists(Seq<char>),
    RemoveDirAll(Seq<char>),
    RemoveDir(Seq<char>),
    CloneRepository { url: Seq<char>, branch: Seq<char>, into: Seq<char> },
    UpdateSubmodules { repository: Seq<char> },
    DetectPlatform,
    CreateDirAll(Seq<char>),
    RunCMake(CMakeInvocationView),
    Finish(RevisionView),
    Fail(ErrorView),
}

impl View for Action {
    type V = ActionView;

    open spec fn view(&self) -> ActionView {
        match self {
            Action::PathExists(p) => ActionView::PathExists(p@),
            Action::RemoveDirAll(p) => ActionView::RemoveDirAll(p@),
            Action::RemoveDir(p) => ActionView::RemoveDir(p@),
            Action::CloneRepository { url, branch, into } => ActionView::CloneRepository {
                url: url@,
                branch: branch@,
                into: into@,
            },
            Action::UpdateSubmodules { repository } => ActionView::UpdateSubmodules {
                repository: repository@,
            },
            Action::DetectPlatform => ActionView::DetectPlatform,
            Action::CreateDirAll(p) => ActionView::CreateDirAll(p@),
            Action::RunCMake(invocation) => ActionView::RunCMake(invocation@),
            Action::Finish(result) => ActionView::Finish(result.revision@),
            Action::Fail(e) => ActionView::Fail(e@),
        }
    }
}

/// A [`Session`] as plain values.
pub struct SessionView {
    /// The revision that is built.
    pub revision: RevisionView,
    /// The directory under which revisions are kept.
    pub installation_root: Seq<char>,
    /// Whether a clean was asked for.
    pub clean: bool,
    /// Whether the build tool reports all that it does.
    pub verbose: bool,
    /// The definitions of the options that are set.
    pub options: Seq<(Seq<char>, Seq<char>)>,
    /// Where the build stands.
    pub stage: Stage,
    /// The target, once the machine is known.
    pub target: Option<TargetView>,
    /// Why the build failed, once it has.
    pub failure: Option<ErrorView>,
}

impl SessionView {
    /// Whether the revision is kept in a directory of the user's own.
    pub open spec fn pinned(self) -> bool {
        self.revision.repository_path is Some
    }

    /// What holds of every session: the directory of the revision is looked at
    /// and removed only in a clean of a revision that is kept under the
    /// installation root; the target is known from the stage on that needs it;
    /// a failed build has its failure.
    pub open spec fn well_formed(self) -> bool {
        &&& (self.stage == Stage::ProbeRoot || self.stage == Stage::RemoveRoot) ==> self.clean
            && !self.pinned()
        &&& (self.stage == Stage::ProbeBuild || self.stage == Stage::CreateBuild || self.stage
            == Stage::RunBuild) ==> self.target is Some
        &&& self.stage == Stage::Failed ==> self.failure is Some
    }

    /// The session of a build that starts.
    pub open spec fn start(
        revision: RevisionView,
        installation_root: Seq<char>,
        clean: bool,
        verbose: bool,
        options: Seq<(Seq<char>, Seq<char>)>,
    ) -> SessionView {
        SessionView {
            revision,
            installation_root,
            clean,
            verbose,
            options,
            stage: spec_first_stage(clean, revision.repository_path is Some),
            target: None,
            failure: None,
        }
    }

    /// What is to be done next.
    pub open spec fn action(self) -> ActionView {
        match self.stage {
            Stage::ProbeRoot => ActionView::PathExists(self.revision.path(self.installation_root)),
            Stage::RemoveRoot => ActionView::RemoveDirAll(
                self.revision.path(self.installation_root),
            ),
            Stage::ProbeSource => ActionView::PathExists(
                self.revision.source_path(self.installation_root),
            ),
            Stage::CloneSource => ActionView::CloneRepository {
                url: self.revision.repository(),
                branch: self.revision.revision,
                into: self.revision.source_path(self.installation_root),
            },
            Stage::UpdateSubmodules => ActionView::UpdateSubmodules {
                repository: self.revision.source_path(self.installation_root),
            },
            Stage::ResolveTarget => ActionView::DetectPlatform,
            Stage::ProbeBuild => ActionView::PathExists(
                self.revision.build_path(self.installation_root),
            ),
            Stage::CreateBuild => ActionView::CreateDirAll(
                self.revision.build_path(self.installation_root),
            ),
            Stage::RunBuild => ActionView::RunCMake(
                self.revision.invocation(
                    self.installation_root,
                    self.target->Some_0,
                    self.options,
                    self.verbose,
                ),
            ),
            Stage::Done => ActionView::Finish(self.revision),
            Stage::Failed => ActionView::Fail(self.failure->Some_0),
        }
    }

    /// The session after the report `reply` on its pending action.
    pub open spec fn after(self, reply: ReplyView) -> SessionView {
        let next = spec_next_stage(self.clean, self.pinned(), self.stage, reply.kind());
        SessionView {
            stage: next,
            target: if self.stage == Stage::ResolveTarget && next == Stage::ProbeBuild {
                match reply {
                    ReplyView::Platform { os, arch, target } => spec_local_target(os, arch, target),
                    _ => self.target,
                }
            } else {
                self.target
            },
            failure: if self.stage != Stage::Failed && next == Stage::Failed {
                Some(spec_failure(self.stage, reply, self.revision))
            } else {
                self.failure
            },
            ..self
        }
    }
}

/// One build under way.
#[derive(Debug)]
pub struct Session {
    config: BuildConfig,
    installation_root: String,
    revision: Revision,
    stage: Stage,
    target: Option<Target>,
    failure: Option<Error>,
}

impl View for Session {
    type V = SessionView;

    closed spec fn view(&self) -> SessionView {
        SessionView {
            revision: self.revision@,
            installation_root: self.installation_root@,
            clean: self.config.clean,
            verbose: self.config.verbose,
            options: self.config.settings.defines(),
            stage: self.stage,
            target: match self.target {
                Some(t) => Some(t@),
                None => None,
            },
            failure: match self.failure {
                Some(e) => Some(e@),
                None => None,
            },
        }
    }
}

impl Session {
    #[verifier::type_invariant]
    closed spec fn inv(&self) -> bool {
        self@.well_formed()
    }

    /// Starts the build that `config` asks for, with revisions kept under
    /// `installation_root`.
    pub(crate) fn start(config: BuildConfig, installation_root: &str) -> (r: Session)
        ensures
            r@ == SessionView::start(
                config.spec_revision(),
                installation_root@,
                config.clean,
                config.verbose,
                config.settings.defines(),
            ),
            r@.well_formed(),
    {
        let revision = config.get_revision();
        let stage = first_stage(config.clean, config.repository_path.is_some());
        Session {
            config,
            installation_root: installation_root.to_owned(),
            revision,
            stage,
            target: None,
            failure: None,
        }
    }

    /// Where the build stands.
    pub fn stage(&self) -> (r: Stage)
        ensures
            r == self@.stage,
            self@.well_formed(),
    {
        proof {
            use_type_invariant(self);
        }
        self.stage
    }

    /// What is to be done next.
    pub fn action(&self) -> (r: Action)
        ensures
            r@ == self@.action(),
            self@.well_formed(),
    {
        proof {
            use_type_invariant(self);
        }
        let root = self.installation_root.as_str();
        match self.stage {
            Stage::ProbeRoot => Action::PathExists(self.revision.path(root)),
            Stage::RemoveRoot => Action::RemoveDirAll(self.revision.path(root)),
            Stage::ProbeSource => Action::PathExists(self.revision.source_path(root)),
            Stage::CloneSource => Action::CloneRepository {
                url: self.revision.repository(),
                branch: self.revision.revision.clone(),
                into: self.revision.source_path(root),
            },
            Stage::UpdateSubmodules => Action::UpdateSubmodules {
                repository: self.revision.source_path(root),
            },
            Stage::ResolveTarget => Action::DetectPlatform,
            Stage::ProbeBuild => Action::PathExists(self.revision.build_path(root)),
            Stage::CreateBuild => Action::CreateDirAll(self.revision.build_path(root)),
            Stage::RunBuild => match &self.target {
                Some(target) => Action::RunCMake(
                    self.revision.build_for(&self.config, target.clone(), root),
                ),
                None => unreached(),
            },
            Stage::Done => Action::Finish(BuildResult { revision: self.revision.clone() }),
            Stage::Failed => match &self.failure {
                Some(e) => Action::Fail(e.clone()),
                None => unreached(),
            },
        }
    }

    /// Takes the report on the pending action and moves on.
    pub fn advance(self, reply: Reply) -> (r: Session)
        ensures
            r@ == self@.after(reply@),
            r@.well_formed(),
    {
        proof {
            use_type_invariant(&self);
        }
        let Session { config, installation_root, revision, stage, target, failure } = self;
        let pinned = revision.repository_path.is_some();
        let next = next_stage(config.clean, pinned, stage, reply.kind());
        if stage == Stage::ResolveTarget && next == Stage::ProbeBuild {
            match reply {
                Reply::Platform { os, arch, target: triple } => {
                    match local_target(os.as_str(), arch.as_str(), triple.as_str()) {
                        Ok(t) => Session {
                            config,
                            installation_root,
                            revision,
                            stage: next,
                            target: Some(t),
                            failure,
                        },
                        Err(_) => unreached(),
                    }
                },
                _ => unreached(),
            }
        } else if stage != Stage::Failed && next == Stage::Failed {
            let e = failure_of(stage, reply, &revision);
            Session { config, installation_root, revision, stage: next, target, failure: Some(e) }
        } else {
            Session { config, installation_root, revision, stage: next, target, failure }
        }
    }
}

/// The session after each report of `replies` in turn.
pub open spec fn after_all(s: SessionView, replies: Seq<ReplyView>) -> SessionView
    decreases replies.len(),
{
    if replies.len() == 0 {
        s
    } else {
        after_all(s, replies.drop_last()).after(replies.last())
    }
}

/// A build starts well formed.
pub proof fn start_is_well_formed(
    revision: RevisionView,
    installation_root: Seq<char>,
    clean: bool,
    verbose: bool,
    options: Seq<(Seq<char>, Seq<char>)>,
)
    ensures
        SessionView::start(revision, installation_root, clean, verbose, options).well_formed(),
{
}

/// A report moves a session on without changing what is built, nor where; the
/// session stays well formed.
pub proof fn report_keeps_session(s: SessionView, reply: ReplyView)
    requires
        s.well_formed(),
    ensures
        s.after(reply).well_formed(),
        s.after(reply).revision == s.revision,
        s.after(reply).installation_root == s.installation_root,
        s.after(reply).clean == s.clean,
        s.after(reply).verbose == s.verbose,
        s.after(reply).options == s.options,
{
}

/// Nothing but the directory of a revision under the installation root is ever
/// to be removed, and that only in a clean.
pub proof fn removal_is_of_the_revision(s: SessionView)
    requires
        s.well_formed(),
    ensures
        !(s.action() is RemoveDir),
        s.action() matches ActionView::RemoveDirAll(p) ==> s.clean && !s.pinned() && p
            == crate::text::spec_join(s.installation_root, s.revision.revision),
{
}

/// A revision that is kept in a directory of the user's own is never removed:
/// whatever the reports, and whether or not a clean was asked for, no session
/// of its build asks for the removal of anything.
pub proof fn clean_spares_pinned_revision(
    revision: RevisionView,
    installation_root: Seq<char>,
    clean: bool,
    verbose: bool,
    options: Seq<(Seq<char>, Seq<char>)>,
    replies: Seq<ReplyView>,
)
    requires
        revision.repository_path is Some,
    ensures
        ({
            let s = after_all(
                SessionView::start(revision, installation_root, clean, verbose, options),
                replies,
            );
            &&& s.well_formed()
            &&& s.pinned()
            &&& !(s.action() is RemoveDirAll)
            &&& !(s.action() is RemoveDir)
        }),
    decreases replies.len(),
{
    if replies.len() > 0 {
        clean_spares_pinned_revision(
            revision,
            installation_root,
            clean,
            verbose,
            options,
            replies.drop_last(),
        );
    }
}

/// The place of a stage in the order of a build.
pub open spec fn stage_rank(stage: Stage) -> nat {
    match stage {
        Stage::ProbeRoot => 0,
        Stage::RemoveRoot => 1,
        Stage::ProbeSource => 2,
        Stage::CloneSource => 3,
        Stage::UpdateSubmodules => 4,
        Stage::ResolveTarget => 5,
        Stage::ProbeBuild => 6,
        Stage::CreateBuild => 7,
        Stage::RunBuild => 8,
        Stage::Done => 9,
        Stage::Failed => 10,
    }
}

/// A build only moves forward: every report brings it to a later stage, until
/// it is done or has failed, and there it stays. So no step is taken twice, and
/// a build ends after at most nine reports.
pub proof fn stages_only_advance(clean: bool, pinned: bool, stage: Stage, kind: ReplyKind)
    ensures
        stage == Stage::Done || stage == Stage::Failed ==> spec_next_stage(
            clean,
            pinned,
            stage,
            kind,
        ) == stage,
        stage != Stage::Done && stage != Stage::Failed ==> stage_rank(
            spec_next_stage(clean, pinned, stage, kind),
        ) > stage_rank(stage),
{
}

/// The machine is looked at only once the source is there: a build comes to ask
/// for the platform from a checkout that was found, or from one whose
/// submodules were brought in, and from nowhere else.
pub proof fn target_waits_for_source(clean: bool, pinned: bool, stage: Stage, kind: ReplyKind)
    requires
        stage != Stage::ResolveTarget,
        spec_next_stage(clean, pinned, stage, kind) == Stage::ResolveTarget,
    ensures
        (stage == Stage::ProbeSource && kind == ReplyKind::Present) || (stage
            == Stage::UpdateSubmodules && kind == ReplyKind::Completed),
{
}

/// What is on disk of one revision.
pub struct Disk {
    /// Whether the directory of the revision exists.
    pub root: bool,
    /// Whether the checkout exists.
    pub source: bool,
    /// Whether the build directory exists.
    pub build: bool,
}

/// The report on the action of `stage` by a machine that does as it is asked,
/// and the disk thereafter: a removal leaves nothing of the revision, a clone
/// leaves the checkout, a creation leaves the build directory; the operating
/// system is a supported one.
pub open spec fn faultless(stage: Stage, disk: Disk) -> (ReplyKind, Disk) {
    match stage {
        Stage::ProbeRoot => (
            if disk.root {
                ReplyKind::Present
            } else {
                ReplyKind::Absent
            },
            disk,
        ),
        Stage::RemoveRoot => (
            ReplyKind::Completed,
            Disk { root: false, source: false, build: false },
        ),
        Stage::ProbeSource => (
            if disk.source {
                ReplyKind::Present
            } else {
                ReplyKind::Absent
            },
            disk,
        ),
        Stage::CloneSource => (ReplyKind::Completed, Disk { root: true, source: true, ..disk }),
        Stage::ResolveTarget => (ReplyKind::Supported, disk),
        Stage::ProbeBuild => (
            if disk.build {
                ReplyKind::Present
            } else {
                ReplyKind::Absent
            },
            disk,
        ),
        Stage::CreateBuild => (ReplyKind::Completed, Disk { root: true, build: true, ..disk }),
        _ => (ReplyKind::Completed, disk),
    }
}

/// How a build went.
pub struct Run {
    /// The stage that it came to.
    pub stage: Stage,
    /// What is on disk after it.
    pub disk: Disk,
    /// How many times the repository was cloned.
    pub clones: nat,
    /// How many times the directory of the revision was removed.
    pub removals: nat,
    /// How many times the build directory was created.
    pub creations: nat,
    /// How many times the build tool was run.
    pub builds: nat,
}

/// One more if the stages are the same.
pub open spec fn counted(stage: Stage, counts: Stage) -> nat {
    if stage == counts {
        1
    } else {
        0
    }
}

/// The build from `stage` on, on a machine that does as it is asked, for at
/// most `steps` actions.
pub open spec fn carry_out(clean: bool, pinned: bool, stage: Stage, disk: Disk, steps: nat) -> Run
    decreases steps,
{
    if steps == 0 || stage == Stage::Done || stage == Stage::Failed {
        Run { stage, disk, clones: 0, removals: 0, creations: 0, builds: 0 }
    } else {
        let (kind, then) = faultless(stage, disk);
        let rest = carry_out(
            clean,
            pinned,
            spec_next_stage(clean, pinned, stage, kind),
            then,
            (steps - 1) as nat,
        );
        Run {
            clones: rest.clones + counted(stage, Stage::CloneSource),
            removals: rest.removals + counted(stage, Stage::RemoveRoot),
            creations: rest.creations + counted(stage, Stage::CreateBuild),
            builds: rest.builds + counted(stage, Stage::RunBuild),
            ..rest
        }
    }
}

/// The number of actions that a build can take.
pub open spec fn build_steps() -> nat {
    9
}

/// The disk after a build on a machine that does as it is asked, where the
/// revision is not removed first: all that was there, and the checkout and
/// the build directory.
pub open spec fn built(disk: Disk) -> Disk {
    Disk { root: disk.root || !disk.source || !disk.build, source: true, build: true }
}

proof fn build_from_target(clean: bool, pinned: bool, disk: Disk, steps: nat)
    requires
        steps >= 4,
    ensures
        ({
            let run = carry_out(clean, pinned, Stage::ResolveTarget, disk, steps);
            &&& run.stage == Stage::Done
            &&& run.clones == 0
            &&& run.removals == 0
            &&& run.creations == (if disk.build {
                0nat
            } else {
                1nat
            })
            &&& run.builds == 1
            &&& run.disk == (if disk.build {
                disk
            } else {
                Disk { root: true, build: true, ..disk }
            })
        }),
{
    reveal_with_fuel(carry_out, 5);
}

proof fn build_from_source(clean: bool, pinned: bool, disk: Disk, steps: nat)
    requires
        steps >= 7,
    ensures
        ({
            let run = carry_out(clean, pinned, Stage::ProbeSource, disk, steps);
            &&& run.stage == Stage::Done
            &&& run.clones == (if disk.source {
                0nat
            } else {
                1nat
            })
            &&& run.removals == 0
            &&& run.creations == (if disk.build {
                0nat
            } else {
                1nat
            })
            &&& run.builds == 1
            &&& run.disk == built(disk)
        }),
{
    reveal_with_fuel(carry_out, 4);
    if disk.source {
        build_from_target(clean, pinned, disk, (steps - 1) as nat);
    } else {
        build_from_target(
            clean,
            pinned,
            Disk { root: true, source: true, ..disk },
            (steps - 3) as nat,
        );
    }
}

/// To make sure of the source twice is to make sure of it once, and so for
/// the build directory. Of two builds in a row that do not clean a revision
/// under the installation root, the first clones where there is no checkout
/// and not otherwise, creates the build directory where there is none and
/// not otherwise, and removes nothing; the second neither clones, creates
/// nor removes, and leaves the disk as it found it. Each runs the build tool
/// once.
pub proof fn second_build_changes_nothing(clean: bool, pinned: bool, disk: Disk)
    requires
        !(clean && !pinned),
    ensures
        ({
            let first = carry_out(
                clean,
                pinned,
                spec_first_stage(clean, pinned),
                disk,
                build_steps(),
            );
            let second = carry_out(
                clean,
                pinned,
                spec_first_stage(clean, pinned),
                first.disk,
                build_steps(),
            );
            &&& first.stage == Stage::Done
            &&& first.disk == built(disk)
            &&& first.clones == (if disk.source {
                0nat
            } else {
                1nat
            })
            &&& first.creations == (if disk.build {
                0nat
            } else {
                1nat
            })
            &&& first.removals == 0
            &&& first.builds == 1
            &&& second.stage == Stage::Done
            &&& second.clones == 0
            &&& second.creations == 0
            &&& second.removals == 0
            &&& second.builds == 1
            &&& second.disk == first.disk
        }),
{
    build_from_source(clean, pinned, disk, build_steps());
    build_from_source(clean, pinned, built(disk), build_steps());
}

/// A clean of a revision under the installation root fetches anew: where the
/// directory of the revision exists, it is removed once, the repository is
/// cloned once and the build directory is created once, whatever was there.
pub proof fn clean_fetches_anew(disk: Disk)
    requires
        disk.root,
    ensures
        ({
            let run = carry_out(true, false, spec_first_stage(true, false), disk, build_steps());
            &&& run.stage == Stage::Done
            &&& run.removals == 1
            &&& run.clones == 1
            &&& run.creations == 1
            &&& run.builds == 1
            &&& run.disk == (Disk { root: true, source: true, build: true })
        }),
{
    reveal_with_fuel(carry_out, 3);
    build_from_source(
        true,
        false,
        Disk { root: false, source: false, build: false },
        (build_steps() - 2) as nat,
    );
}

} // verus!
