//! The operations on a target, as a machine that a host drives.
//!
//! Downloading, building and installing reach outside the process. Each of
//! them is therefore a sequence of steps: a step either names an action for
//! the host to carry out, together with the stage in which the operation
//! waits for the host's reply, or finishes the operation with its result.
//! The host carries out the action and hands the stage and its reply to
//! `Buildable::resume`, until the operation finishes.

use std::path::PathBuf;
use vstd::prelude::*;
use vstd::string::*;
use crate::error::MakeError;
use crate::mirror::{
    archive_directory, directory_name_spec, format_mirror, is_brace, law_resolve_substitutes,
    placeholder, resolve,
};
use crate::target::{Target, TargetView};
use crate::text::last_segment;
use crate::version::{reported_version, version_in_output};

verus! {

/// `std::path::PathBuf`, which the machine carries from the host's reply to
/// a later action and never looks into.
#[verifier::external_type_specification]
#[verifier::external_body]
pub struct ExPathBuf(PathBuf);

/// The file under which a fetched archive is stored.
pub const ARCHIVE_NAME: &'static str = "archive.tar.gz";

/// The directory in which the unpacked sources end up, whatever the archive
/// calls them.
pub const ARCHIVE_DIRECTORY: &'static str = "archive";

/// The directory into which an archive is unpacked.
pub const UNPACK_ROOT: &'static str = ".";

/// The command of the configure step.
pub const CONFIGURE_COMMAND: &'static str = "./configure";

/// What came of running a target's executable with its version argument.
#[derive(Debug, PartialEq, Eq)]
pub enum Probe {
    /// The executable could not be started.
    NotRunnable,
    /// The executable ran and wrote `output` to its standard output.
    Ran { output: Vec<u8> },
}

/// The program and the argument that probe a target.
#[derive(Debug, PartialEq, Eq)]
pub struct Invocation {
    pub program: String,
    pub argument: String,
}

/// Something for the host to do.
#[derive(Debug, PartialEq, Eq)]
pub enum Action {
    /// Tell the user `message`.
    Announce { message: String },
    /// Fetch what is at `url` and store it in `file`.
    Fetch { url: String, file: String },
    /// Decompress `file` as gzip and unpack the tar stream in it into the
    /// directory `into`.
    Unpack { file: String, into: String },
    /// Rename the directory `from` to `to`.
    Rename { from: String, to: String },
    /// Report the working directory.
    CurrentDirectory,
    /// Change the working directory to `name` below the present one.
    EnterDirectory { name: String },
    /// Run `command` without arguments and wait for it.
    Run { command: String },
    /// Change the working directory to `path`.
    ChangeDirectory { path: PathBuf },
}

/// What the host reports of an action.
#[derive(Debug, PartialEq, Eq)]
pub enum Reply {
    /// The action succeeded.
    Done,
    /// The action failed.
    Failed,
    /// The working directory, in answer to `Action::CurrentDirectory`.
    Directory(PathBuf),
}

/// Where an operation waits for the host.
#[derive(Debug, PartialEq, Eq)]
pub enum Stage {
    /// Downloading: the archive at `url` is being fetched.
    Fetching { url: String },
    /// Downloading: the archive fetched from `url` is being unpacked.
    Unpacking { url: String },
    /// Downloading: the unpacked directory is being renamed.
    Renaming,
    /// Building: the build is being announced.
    AnnouncingBuild,
    /// Building: the working directory is being determined.
    Locating,
    /// Building: the archive directory is being entered from `origin`.
    Entering { origin: PathBuf },
    /// Building: the configure step runs inside the archive directory.
    Configuring { origin: PathBuf },
    /// Building: the working directory is being changed back; `outcome` is
    /// what the build comes to if that succeeds.
    Restoring { outcome: Result<(), MakeError> },
    /// Installing: the installation is being announced.
    AnnouncingInstall,
}

/// One step of an operation.
#[derive(Debug, PartialEq, Eq)]
pub enum Step {
    /// The host carries out `action` and resumes the operation at `stage`.
    Perform { action: Action, stage: Stage },
    /// The operation is over.
    Finish { result: Result<(), MakeError> },
}

/// An `Invocation`, as mathematical values.
pub struct InvocationView {
    pub program: Seq<char>,
    pub argument: Seq<char>,
}

/// An `Action`, as mathematical values.
pub enum ActionView {
    Announce { message: Seq<char> },
    Fetch { url: Seq<char>, file: Seq<char> },
    Unpack { file: Seq<char>, into: Seq<char> },
    Rename { from: Seq<char>, to: Seq<char> },
    CurrentDirectory,
    EnterDirectory { name: Seq<char> },
    Run { command: Seq<char> },
    ChangeDirectory { path: PathBuf },
}

/// A `Stage`, as mathematical values.
pub enum StageView {
    Fetching { url: Seq<char> },
    Unpacking { url: Seq<char> },
    Renaming,
    AnnouncingBuild,
    Locating,
    Entering { origin: PathBuf },
    Configuring { origin: PathBuf },
    Restoring { outcome: Result<(), MakeError> },
    AnnouncingInstall,
}

/// A `Step`, as mathematical values.
pub enum StepView {
    Perform { action: ActionView, stage: StageView },
    Finish { result: Result<(), MakeError> },
}

impl View for Invocation {
    type V = InvocationView;

    open spec fn view(&self) -> InvocationView {
        InvocationView { program: self.program@, argument: self.argument@ }
    }
}

impl View for Action {
    type V = ActionView;

    open spec fn view(&self) -> ActionView {
        match *self {
            Action::Announce { message } => ActionView::Announce { message: message@ },
            Action::Fetch { url, file } => ActionView::Fetch { url: url@, file: file@ },
            Action::Unpack { file, into } => ActionView::Unpack { file: file@, into: into@ },
            Action::Rename { from, to } => ActionView::Rename { from: from@, to: to@ },
            Action::CurrentDirectory => ActionView::CurrentDirectory,
            Action::EnterDirectory { name } => ActionView::EnterDirectory { name: name@ },
            Action::Run { command } => ActionView::Run { command: command@ },
            Action::ChangeDirectory { path } => ActionView::ChangeDirectory { path },
        }
    }
}

impl View for Stage {
    type V = StageView;

    open spec fn view(&self) -> StageView {
        match *self {
            Stage::Fetching { url } => StageView::Fetching { url: url@ },
            Stage::Unpacking { url } => StageView::Unpacking { url: url@ },
            Stage::Renaming => StageView::Renaming,
            Stage::AnnouncingBuild => StageView::AnnouncingBuild,
            Stage::Locating => StageView::Locating,
            Stage::Entering { origin } => StageView::Entering { origin },
            Stage::Configuring { origin } => StageView::Configuring { origin },
            Stage::Restoring { outcome } => StageView::Restoring { outcome },
            Stage::AnnouncingInstall => StageView::AnnouncingInstall,
        }
    }
}

impl View for Step {
    type V = StepView;

    open spec fn view(&self) -> StepView {
        match *self {
            Step::Perform { action, stage } => StepView::Perform {
                action: action@,
                stage: stage@,
            },
            Step::Finish { result } => StepView::Finish { result },
        }
    }
}

/// The invocation that probes `target`: its name, with its version command.
pub open spec fn probe_of(target: TargetView) -> InvocationView {
    InvocationView { program: target.name, argument: target.version_command }
}

/// Whether `target` is present at its required version, given what came of
/// probing it. An executable that could not be started is absent, which is
/// no error.
pub open spec fn presence(target: TargetView, probe: Probe) -> Result<bool, MakeError> {
    match probe {
        Probe::NotRunnable => Ok(false),
        Probe::Ran { output } => reported_version(target.version, output@),
    }
}

/// The first step of acquiring the archive that the template `mirror` gives
/// for `version`: the archive is fetched from the resolved location and
/// stored under the fixed archive name. A malformed template ends the
/// acquisition before anything is fetched.
pub open spec fn mirror_start(mirror: Seq<char>, version: Seq<char>) -> StepView {
    match resolve(mirror, version) {
        Some(url) => StepView::Perform {
            action: ActionView::Fetch { url, file: ARCHIVE_NAME@ },
            stage: StageView::Fetching { url },
        },
        None => StepView::Finish { result: Err(MakeError::MalformedMirror) },
    }
}

/// The first step of downloading `target`. A target must name exactly one
/// source. Sources at a mirror are acquired as an archive. For sources in a
/// repository nothing is done, and the download is over with success.
pub open spec fn download_start(target: TargetView) -> StepView {
    match (target.mirror, target.repo) {
        (Some(_), Some(_)) => StepView::Finish { result: Err(MakeError::BothSources) },
        (None, None) => StepView::Finish { result: Err(MakeError::NoSource) },
        (Some(mirror), None) => mirror_start(mirror, target.version),
        (None, Some(_)) => StepView::Finish { result: Ok(()) },
    }
}

/// The first step of building `target`.
pub open spec fn build_start(target: TargetView) -> StepView {
    StepView::Perform {
        action: ActionView::Announce { message: "Building "@ + target.name },
        stage: StageView::AnnouncingBuild,
    }
}

/// The first step of installing `target`.
pub open spec fn install_start(target: TargetView) -> StepView {
    StepView::Perform {
        action: ActionView::Announce { message: "Installing "@ + target.name },
        stage: StageView::AnnouncingInstall,
    }
}

/// The step that follows when the host answers `reply` at `stage`.
///
/// A download fetches, unpacks and renames, in this order, and the directory
/// to rename is taken from the location only once the archive is unpacked. A
/// build announces itself, asks for the working directory, enters the archive
/// directory, runs the configure step where the target asks for one, and
/// changes back to the directory it came from. An installation announces
/// itself and is over.
///
/// Every reply but `Reply::Failed` counts as success; only the stage that
/// asks for the working directory needs `Reply::Directory`, and fails on any
/// other reply. The reply to an announcement is not read.
pub open spec fn next_step(target: TargetView, stage: StageView, reply: Reply) -> StepView {
    match stage {
        StageView::Fetching { url } => if reply is Failed {
            StepView::Finish { result: Err(MakeError::FetchFailed) }
        } else {
            StepView::Perform {
                action: ActionView::Unpack { file: ARCHIVE_NAME@, into: UNPACK_ROOT@ },
                stage: StageView::Unpacking { url },
            }
        },
        StageView::Unpacking { url } => if reply is Failed {
            StepView::Finish { result: Err(MakeError::UnpackFailed) }
        } else {
            match directory_name_spec(last_segment(url)) {
                Some(directory) => StepView::Perform {
                    action: ActionView::Rename { from: directory, to: ARCHIVE_DIRECTORY@ },
                    stage: StageView::Renaming,
                },
                None => StepView::Finish { result: Err(MakeError::NoDirectoryName) },
            }
        },
        StageView::Renaming => StepView::Finish {
            result: if reply is Failed {
                Err(MakeError::RenameFailed)
            } else {
                Ok(())
            },
        },
        StageView::AnnouncingBuild => StepView::Perform {
            action: ActionView::CurrentDirectory,
            stage: StageView::Locating,
        },
        StageView::Locating => match reply {
            Reply::Directory(origin) => StepView::Perform {
                action: ActionView::EnterDirectory { name: ARCHIVE_DIRECTORY@ },
                stage: StageView::Entering { origin },
            },
            _ => StepView::Finish { result: Err(MakeError::NoWorkingDirectory) },
        },
        StageView::Entering { origin } => if reply is Failed {
            StepView::Finish { result: Err(MakeError::EnterFailed) }
        } else if target.configure {
            StepView::Perform {
                action: ActionView::Run { command: CONFIGURE_COMMAND@ },
                stage: StageView::Configuring { origin },
            }
        } else {
            StepView::Perform {
                action: ActionView::ChangeDirectory { path: origin },
                stage: StageView::Restoring { outcome: Ok(()) },
            }
        },
        StageView::Configuring { origin } => StepView::Perform {
            action: ActionView::ChangeDirectory { path: origin },
            stage: StageView::Restoring {
                outcome: if reply is Failed {
                    Err(MakeError::ConfigureFailed)
                } else {
                    Ok(())
                },
            },
        },
        StageView::Restoring { outcome } => StepView::Finish {
            result: if reply is Failed {
                Err(MakeError::RestoreFailed)
            } else {
                outcome
            },
        },
        StageView::AnnouncingInstall => StepView::Finish { result: Ok(()) },
    }
}

/// The step that an operation has reached from `start` once the host has
/// answered `replies`, one after the other. Replies to an operation that is
/// over change nothing.
pub open spec fn step_after(target: TargetView, start: StepView, replies: Seq<Reply>) -> StepView
    decreases replies.len(),
{
    if replies.len() == 0 {
        start
    } else {
        match step_after(target, start, replies.drop_last()) {
            StepView::Perform { action, stage } => next_step(target, stage, replies.last()),
            StepView::Finish { result } => StepView::Finish { result },
        }
    }
}

/// What is taken for granted of a host that stood in the directory `before`,
/// was asked for `action`, reported `reply` and then stood in `after`. It
/// reports the directory it stands in. A change of directory that it reports
/// as failed leaves it where it was, and one that it does not report as
/// failed takes it to the path asked for. An announcement does not move it.
/// Nothing is taken for granted of where a command that it runs leaves it.
pub open spec fn host_moves(
    action: ActionView,
    reply: Reply,
    before: PathBuf,
    after: PathBuf,
) -> bool {
    match action {
        ActionView::Announce { .. } => after == before,
        ActionView::CurrentDirectory => after == before && (reply matches Reply::Directory(
            reported,
        ) ==> reported == before),
        ActionView::EnterDirectory { .. } => reply is Failed ==> after == before,
        ActionView::ChangeDirectory { path } => if reply is Failed {
            after == before
        } else {
            after == path
        },
        _ => true,
    }
}

/// Whether `directories` are the working directories of a host that drives
/// the operation beginning with `start` and answers `replies`: the host
/// stands in `directories[i]` before it gives its reply `i` and in
/// `directories[i + 1]` after it, and it stays where it is once the
/// operation is over.
pub open spec fn host_follows(
    target: TargetView,
    start: StepView,
    replies: Seq<Reply>,
    directories: Seq<PathBuf>,
) -> bool {
    &&& directories.len() == replies.len() + 1
    &&& forall|i: int|
        0 <= i < replies.len() ==> match #[trigger] step_after(target, start, replies.take(i)) {
            StepView::Perform { action, .. } => host_moves(
                action,
                replies[i],
                directories[i],
                directories[i + 1],
            ),
            StepView::Finish { .. } => directories[i + 1] == directories[i],
        }
}

/// What holds of a build that began in the directory `initial`, has reached
/// `step`, and whose host stands in `current`.
pub open spec fn build_on_course(initial: PathBuf, step: StepView, current: PathBuf) -> bool {
    match step {
        StepView::Perform {
            action: ActionView::Announce { .. },
            stage: StageView::AnnouncingBuild,
        } => current == initial,
        StepView::Perform {
            action: ActionView::CurrentDirectory,
            stage: StageView::Locating,
        } => current == initial,
        StepView::Perform {
            action: ActionView::EnterDirectory { .. },
            stage: StageView::Entering { origin },
        } => current == initial && origin == initial,
        StepView::Perform {
            action: ActionView::Run { .. },
            stage: StageView::Configuring { origin },
        } => origin == initial,
        StepView::Perform {
            action: ActionView::ChangeDirectory { path },
            stage: StageView::Restoring { .. },
        } => path == initial,
        StepView::Finish { result } => result != Err::<(), MakeError>(MakeError::RestoreFailed)
            ==> current == initial,
        _ => false,
    }
}

/// A build stays on course with every reply of its host.
proof fn lemma_build_stays_on_course(
    target: TargetView,
    replies: Seq<Reply>,
    directories: Seq<PathBuf>,
    count: int,
)
    requires
        host_follows(target, build_start(target), replies, directories),
        0 <= count <= replies.len(),
    ensures
        build_on_course(
            directories[0],
            step_after(target, build_start(target), replies.take(count)),
            directories[count],
        ),
    decreases count,
{
    if count > 0 {
        let before = replies.take(count - 1);
        lemma_build_stays_on_course(target, replies, directories, count - 1);
        assert(replies.take(count).drop_last() =~= before);
        assert(replies.take(count).last() == replies[count - 1]);
        let reached = step_after(target, build_start(target), before);
        match reached {
            StepView::Perform { action, stage } => {
                assert(host_moves(
                    action,
                    replies[count - 1],
                    directories[count - 1],
                    directories[count],
                ));
            },
            StepView::Finish { .. } => {
                assert(directories[count] == directories[count - 1]);
            },
        }
    }
}

/// A build ends where it began. Whatever the host reports, of the configure
/// step as of any other, a build that is over and whose result is not
/// `RestoreFailed` has left the host in the working directory in which the
/// build started.
pub proof fn law_build_restores_directory(
    target: TargetView,
    replies: Seq<Reply>,
    directories: Seq<PathBuf>,
)
    requires
        host_follows(target, build_start(target), replies, directories),
    ensures
        step_after(target, build_start(target), replies) matches StepView::Finish { result }
            ==> result != Err::<(), MakeError>(MakeError::RestoreFailed) ==> directories.last()
            == directories[0],
{
    lemma_build_stays_on_course(target, replies, directories, replies.len() as int);
    assert(replies.take(replies.len() as int) =~= replies);
}

/// Once the configure step has been started, its reply, success or failure,
/// is answered by the change back to the directory in which the build
/// started, and the build is over only with the reply to that change: it
/// finishes with `RestoreFailed` where the change failed, and else with
/// `ConfigureFailed` exactly where the configure step had failed.
pub proof fn law_configure_is_followed_by_restore(
    target: TargetView,
    origin: PathBuf,
    configured: Reply,
    restored: Reply,
)
    ensures
        next_step(target, StageView::Configuring { origin }, configured) matches StepView::Perform {
            action,
            stage,
        } && action == (ActionView::ChangeDirectory { path: origin }) && next_step(
            target,
            stage,
            restored,
        ) == (StepView::Finish {
            result: if restored is Failed {
                Err(MakeError::RestoreFailed)
            } else if configured is Failed {
                Err(MakeError::ConfigureFailed)
            } else {
                Ok(())
            },
        }),
{
}

/// A failure halts the operation: where the host reports that fetching,
/// unpacking, renaming, finding the working directory, entering the archive
/// directory or changing back failed, the operation finishes at once, with
/// the error of that stage.
pub proof fn law_failure_halts(target: TargetView, stage: StageView)
    requires
        !(stage is AnnouncingBuild),
        !(stage is AnnouncingInstall),
        !(stage is Configuring),
    ensures
        next_step(target, stage, Reply::Failed) == (StepView::Finish {
            result: Err(
                match stage {
                    StageView::Fetching { .. } => MakeError::FetchFailed,
                    StageView::Unpacking { .. } => MakeError::UnpackFailed,
                    StageView::Renaming => MakeError::RenameFailed,
                    StageView::Locating => MakeError::NoWorkingDirectory,
                    StageView::Entering { .. } => MakeError::EnterFailed,
                    _ => MakeError::RestoreFailed,
                },
            ),
        }),
{
}

/// A download fails with a configuration error exactly where the target
/// does not name one source: with `BothSources` where it names a mirror and a
/// repository, with `NoSource` where it names neither, and with neither of
/// the two where it names one.
pub proof fn law_one_source(target: TargetView)
    ensures
        download_start(target) == (StepView::Finish { result: Err(MakeError::BothSources) })
            <==> target.mirror is Some && target.repo is Some,
        download_start(target) == (StepView::Finish { result: Err(MakeError::NoSource) })
            <==> target.mirror is None && target.repo is None,
{
}

/// A target with both sources and a target with none fail to download at
/// once, and with errors that differ.
pub proof fn law_sources_exclude_each_other(both: TargetView, neither: TargetView)
    requires
        both.mirror is Some && both.repo is Some,
        neither.mirror is None && neither.repo is None,
    ensures
        download_start(both) == (StepView::Finish { result: Err(MakeError::BothSources) }),
        download_start(neither) == (StepView::Finish { result: Err(MakeError::NoSource) }),
        download_start(both) != download_start(neither),
{
}

/// An operation that is over stays over: replies that follow do not change
/// its result.
pub proof fn lemma_finished_stays(
    target: TargetView,
    start: StepView,
    replies: Seq<Reply>,
    count: int,
)
    requires
        0 <= count <= replies.len(),
        step_after(target, start, replies.take(count)) is Finish,
    ensures
        step_after(target, start, replies) == step_after(target, start, replies.take(count)),
    decreases replies.len() - count,
{
    if count < replies.len() {
        assert(replies.take(count + 1).drop_last() =~= replies.take(count));
        lemma_finished_stays(target, start, replies, count + 1);
    } else {
        assert(replies.take(count) =~= replies);
    }
}

/// A download from a mirror that is over with success has put the sources
/// into the fixed archive directory. Its host was asked for three actions and
/// reported no failure: to fetch the resolved location into the fixed archive
/// file, to unpack that file into the working directory, and to rename the
/// directory named by the location's last segment to the fixed archive
/// directory.
pub proof fn law_download_ends_in_archive_directory(target: TargetView, replies: Seq<Reply>)
    requires
        target.mirror is Some,
        target.repo is None,
        step_after(target, download_start(target), replies) == (StepView::Finish {
            result: Ok(()),
        }),
    ensures
        replies.len() >= 3,
        !(replies[0] is Failed) && !(replies[1] is Failed) && !(replies[2] is Failed),
        resolve(target.mirror->0, target.version) matches Some(url) && directory_name_spec(
            last_segment(url),
        ) matches Some(directory) && download_start(target) == (StepView::Perform {
            action: ActionView::Fetch { url, file: ARCHIVE_NAME@ },
            stage: StageView::Fetching { url },
        }) && step_after(target, download_start(target), replies.take(1)) == (StepView::Perform {
            action: ActionView::Unpack { file: ARCHIVE_NAME@, into: UNPACK_ROOT@ },
            stage: StageView::Unpacking { url },
        }) && step_after(target, download_start(target), replies.take(2)) == (StepView::Perform {
            action: ActionView::Rename { from: directory, to: ARCHIVE_DIRECTORY@ },
            stage: StageView::Renaming,
        }),
{
    let start = download_start(target);
    assert(replies.take(0) =~= Seq::<Reply>::empty());
    assert(step_after(target, start, replies.take(0)) == start);
    if start is Finish {
        lemma_finished_stays(target, start, replies, 0);
    }
    if replies.len() == 0 {
        assert(replies =~= replies.take(0));
    } else {
        let first = step_after(target, start, replies.take(1));
        assert(replies.take(1).drop_last() =~= replies.take(0));
        assert(replies.take(1).last() == replies[0]);
        if first is Finish {
            lemma_finished_stays(target, start, replies, 1);
        }
        if replies.len() == 1 {
            assert(replies =~= replies.take(1));
        } else {
            let second = step_after(target, start, replies.take(2));
            assert(replies.take(2).drop_last() =~= replies.take(1));
            assert(replies.take(2).last() == replies[1]);
            if second is Finish {
                lemma_finished_stays(target, start, replies, 2);
            }
            if replies.len() == 2 {
                assert(replies =~= replies.take(2));
            } else {
                let third = step_after(target, start, replies.take(3));
                assert(replies.take(3).drop_last() =~= replies.take(2));
                assert(replies.take(3).last() == replies[2]);
                assert(third is Finish);
                lemma_finished_stays(target, start, replies, 3);
            }
        }
    }
}

/// A mirror whose template holds one placeholder between two texts without
/// braces is fetched from the first text, the version and the second text,
/// and stored under the fixed archive name.
pub proof fn law_download_fetches_resolved_location(
    target: TargetView,
    prefix: Seq<char>,
    suffix: Seq<char>,
)
    requires
        target.mirror == Some(prefix + placeholder() + suffix),
        target.repo is None,
        forall|k: int| 0 <= k < prefix.len() ==> !is_brace(prefix[k]),
        forall|k: int| 0 <= k < suffix.len() ==> !is_brace(suffix[k]),
    ensures
        download_start(target) == (StepView::Perform {
            action: ActionView::Fetch {
                url: prefix + target.version + suffix,
                file: ARCHIVE_NAME@,
            },
            stage: StageView::Fetching { url: prefix + target.version + suffix },
        }),
{
    law_resolve_substitutes(prefix, suffix, target.version);
}

/// What every way of acquiring a target offers: its name, the judgement of
/// a probe, and the three operations, each as a first step and the steps
/// that follow the host's replies. Each decision is a function of the target
/// and of what the host reported, named by the specification function beside
/// it.
pub trait Buildable {
    /// The text that `name` returns.
    spec fn name_spec(&self) -> Seq<char>;

    /// The invocation that `probe` returns.
    spec fn probe_spec(&self) -> InvocationView;

    /// The judgement that `is_present` returns.
    spec fn is_present_spec(&self, probe: Probe) -> Result<bool, MakeError>;

    /// The step that `download` returns.
    spec fn download_spec(&self) -> StepView;

    /// The step that `build` returns.
    spec fn build_spec(&self) -> StepView;

    /// The step that `install` returns.
    spec fn install_spec(&self) -> StepView;

    /// The step that `resume` returns.
    spec fn resume_spec(&self, stage: StageView, reply: Reply) -> StepView;

    /// The name of the target.
    fn name(&self) -> (name: &str)
        ensures
            name@ == self.name_spec(),
    ;

    /// The invocation whose outcome `is_present` judges.
    fn probe(&self) -> (invocation: Invocation)
        ensures
            invocation@ == self.probe_spec(),
    ;

    /// Whether the target is present at its required version, given what
    /// came of probing it. A target whose executable could not be started is
    /// absent, which is no error.
    fn is_present(&self, probe: &Probe) -> (present: Result<bool, MakeError>)
        ensures
            present == self.is_present_spec(*probe),
            *probe is NotRunnable ==> present == Ok::<bool, MakeError>(false),
    ;

    /// Begins to download the sources of the target.
    fn download(&self) -> (step: Step)
        ensures
            step@ == self.download_spec(),
    ;

    /// Begins to build the target.
    fn build(&self) -> (step: Step)
        ensures
            step@ == self.build_spec(),
    ;

    /// Begins to install the target.
    fn install(&self) -> (step: Step)
        ensures
            step@ == self.install_spec(),
    ;

    /// Continues the operation that waits at `stage`, now that the host has
    /// answered `reply`. Whatever is reported of a configure step, the next
    /// step changes back to the directory that the build came from.
    fn resume(&self, stage: Stage, reply: Reply) -> (step: Step)
        ensures
            step@ == self.resume_spec(stage@, reply),
            stage@ matches StageView::Configuring { origin } ==> step@ matches StepView::Perform {
                action,
                ..
            } && action == (ActionView::ChangeDirectory { path: origin }),
    ;
}

impl Target {
    /// Begins to acquire the archive that the template `mirror` gives for
    /// the required version of the target.
    pub fn download_from_mirror(&self, mirror: &str) -> (step: Step)
        ensures
            step@ == mirror_start(mirror@, self@.version),
    {
        match format_mirror(mirror, self.version.as_str()) {
            Ok(url) => Step::Perform {
                action: Action::Fetch { url: url.clone(), file: String::from_str(ARCHIVE_NAME) },
                stage: Stage::Fetching { url },
            },
            Err(e) => Step::Finish { result: Err(e) },
        }
    }
}

impl Buildable for Target {
    open spec fn name_spec(&self) -> Seq<char> {
        self@.name
    }

    open spec fn probe_spec(&self) -> InvocationView {
        probe_of(self@)
    }

    open spec fn is_present_spec(&self, probe: Probe) -> Result<bool, MakeError> {
        presence(self@, probe)
    }

    open spec fn download_spec(&self) -> StepView {
        download_start(self@)
    }

    open spec fn build_spec(&self) -> StepView {
        build_start(self@)
    }

    open spec fn install_spec(&self) -> StepView {
        install_start(self@)
    }

    open spec fn resume_spec(&self, stage: StageView, reply: Reply) -> StepView {
        next_step(self@, stage, reply)
    }

    /// The name of the target.
    fn name(&self) -> (name: &str)
        ensures
            name@ == self@.name,
    {
        self.name.as_str()
    }

    /// The invocation whose outcome `is_present` judges.
    fn probe(&self) -> (invocation: Invocation)
        ensures
            invocation@ == probe_of(self@),
    {
        Invocation { program: self.name.clone(), argument: self.version_command.clone() }
    }

    /// Whether the target is present at its required version, given what
    /// came of probing it.
    fn is_present(&self, probe: &Probe) -> (present: Result<bool, MakeError>)
        ensures
            present == presence(self@, *probe),
    {
        match probe {
            Probe::NotRunnable => Ok(false),
            Probe::Ran { output } => version_in_output(self.version.as_str(), output.as_slice()),
        }
    }

    /// Begins to download the sources of the target.
    fn download(&self) -> (step: Step)
        ensures
            step@ == download_start(self@),
            self.mirror is Some && self.repo is Some <==> step@ == (StepView::Finish {
                result: Err(MakeError::BothSources),
            }),
            self.mirror is None && self.repo is None <==> step@ == (StepView::Finish {
                result: Err(MakeError::NoSource),
            }),
    {
        match (&self.mirror, &self.repo) {
            (Some(_), Some(_)) => Step::Finish { result: Err(MakeError::BothSources) },
            (None, None) => Step::Finish { result: Err(MakeError::NoSource) },
            (Some(mirror), None) => self.download_from_mirror(mirror.as_str()),
            (None, Some(_)) => Step::Finish { result: Ok(()) },
        }
    }

    /// Begins to build the target.
    fn build(&self) -> (step: Step)
        ensures
            step@ == build_start(self@),
    {
        let mut message = String::from_str("Building ");
        message.append(self.name.as_str());
        Step::Perform { action: Action::Announce { message }, stage: Stage::AnnouncingBuild }
    }

    /// Begins to install the target.
    fn install(&self) -> (step: Step)
        ensures
            step@ == install_start(self@),
    {
        let mut message = String::from_str("Installing ");
        message.append(self.name.as_str());
        Step::Perform { action: Action::Announce { message }, stage: Stage::AnnouncingInstall }
    }

    /// Continues the operation that waits at `stage`, now that the host has
    /// answered `reply`.
    fn resume(&self, stage: Stage, reply: Reply) -> (step: Step)
        ensures
            step@ == next_step(self@, stage@, reply),
    {
        let failed = match &reply {
            Reply::Failed => true,
            _ => false,
        };
        match stage {
            Stage::Fetching { url } => {
                if failed {
                    Step::Finish { result: Err(MakeError::FetchFailed) }
                } else {
                    Step::Perform {
                        action: Action::Unpack {
                            file: String::from_str(ARCHIVE_NAME),
                            into: String::from_str(UNPACK_ROOT),
                        },
                        stage: Stage::Unpacking { url },
                    }
                }
            },
            Stage::Unpacking { url } => {
                if failed {
                    Step::Finish { result: Err(MakeError::UnpackFailed) }
                } else {
                    match archive_directory(url.as_str()) {
                        Some(directory) => Step::Perform {
                            action: Action::Rename {
                                from: directory,
                                to: String::from_str(ARCHIVE_DIRECTORY),
                            },
                            stage: Stage::Renaming,
                        },
                        None => Step::Finish { result: Err(MakeError::NoDirectoryName) },
                    }
                }
            },
            Stage::Renaming => {
                if failed {
                    Step::Finish { result: Err(MakeError::RenameFailed) }
                } else {
                    Step::Finish { result: Ok(()) }
                }
            },
            Stage::AnnouncingBuild => Step::Perform {
                action: Action::CurrentDirectory,
                stage: Stage::Locating,
            },
            Stage::Locating => match reply {
                Reply::Directory(origin) => Step::Perform {
                    action: Action::EnterDirectory { name: String::from_str(ARCHIVE_DIRECTORY) },
                    stage: Stage::Entering { origin },
                },
                _ => Step::Finish { result: Err(MakeError::NoWorkingDirectory) },
            },
            Stage::Entering { origin } => {
                if failed {
                    Step::Finish { result: Err(MakeError::EnterFailed) }
                } else if self.configure {
                    Step::Perform {
                        action: Action::Run { command: String::from_str(CONFIGURE_COMMAND) },
                        stage: Stage::Configuring { origin },
                    }
                } else {
                    Step::Perform {
                        action: Action::ChangeDirectory { path: origin },
                        stage: Stage::Restoring { outcome: Ok(()) },
                    }
                }
            },
            Stage::Configuring { origin } => Step::Perform {
                action: Action::ChangeDirectory { path: origin },
                stage: Stage::Restoring {
                    outcome: if failed {
                        Err(MakeError::ConfigureFailed)
                    } else {
                        Ok(())
                    },
                },
            },
            Stage::Restoring { outcome } => {
                if failed {
                    Step::Finish { result: Err(MakeError::RestoreFailed) }
                } else {
                    Step::Finish { result: outcome }
                }
            },
            Stage::AnnouncingInstall => Step::Finish { result: Ok(()) },
        }
    }
}

} // verus!
