use std::path::PathBuf;

use memnite::lifecycle::{ARCHIVE_DIRECTORY, ARCHIVE_NAME, CONFIGURE_COMMAND, UNPACK_ROOT};
use memnite::{
    Action, Buildable, Config, Invocation, MakeError, Probe, Reply, Stage, Step, Target,
};

fn foo() -> Target {
    Target {
        name: "foo".to_string(),
        version_command: "--version".to_string(),
        version: "2.0".to_string(),
        mirror: Some("https://example.com/foo-{version}.tar.gz".to_string()),
        repo: None,
        make_env_vars: Vec::new(),
        configure: false,
        sudo_install: false,
    }
}

fn configured() -> Target {
    let mut target = foo();
    target.configure = true;
    target
}

fn stage_of(step: Step) -> Stage {
    match step {
        Step::Perform { stage, .. } => stage,
        Step::Finish { result } => panic!("the operation is over: {:?}", result),
    }
}

#[test]
fn missing_tool_is_fetched_unpacked_and_renamed() {
    let target = foo();
    assert_eq!(target.is_present(&Probe::NotRunnable), Ok(false));

    let step = target.download();
    assert_eq!(
        step,
        Step::Perform {
            action: Action::Fetch {
                url: "https://example.com/foo-2.0.tar.gz".to_string(),
                file: "archive.tar.gz".to_string(),
            },
            stage: Stage::Fetching { url: "https://example.com/foo-2.0.tar.gz".to_string() },
        }
    );
    let step = target.resume(stage_of(step), Reply::Done);
    assert_eq!(
        step,
        Step::Perform {
            action: Action::Unpack { file: "archive.tar.gz".to_string(), into: ".".to_string() },
            stage: Stage::Unpacking { url: "https://example.com/foo-2.0.tar.gz".to_string() },
        }
    );
    let step = target.resume(stage_of(step), Reply::Done);
    assert_eq!(
        step,
        Step::Perform {
            action: Action::Rename { from: "foo-2.0".to_string(), to: "archive".to_string() },
            stage: Stage::Renaming,
        }
    );
    let step = target.resume(stage_of(step), Reply::Done);
    assert_eq!(step, Step::Finish { result: Ok(()) });
}

#[test]
fn fixed_names_are_as_documented() {
    assert_eq!(ARCHIVE_NAME, "archive.tar.gz");
    assert_eq!(ARCHIVE_DIRECTORY, "archive");
    assert_eq!(UNPACK_ROOT, ".");
    assert_eq!(CONFIGURE_COMMAND, "./configure");
}

#[test]
fn name_is_the_configured_name() {
    assert_eq!(foo().name(), "foo");
}

#[test]
fn probe_runs_the_name_with_the_version_command() {
    assert_eq!(
        foo().probe(),
        Invocation { program: "foo".to_string(), argument: "--version".to_string() }
    );
}

#[test]
fn tool_that_cannot_be_started_is_absent() {
    assert_eq!(foo().is_present(&Probe::NotRunnable), Ok(false));
}

#[test]
fn tool_that_reports_the_version_is_present() {
    let probe = Probe::Ran { output: b"foo (GNU foo) 2.0\nCopyright\n".to_vec() };
    assert_eq!(foo().is_present(&probe), Ok(true));
}

#[test]
fn tool_that_reports_another_version_is_absent() {
    let probe = Probe::Ran { output: b"foo 1.9\n2.0 is out\n".to_vec() };
    assert_eq!(foo().is_present(&probe), Ok(false));
}

#[test]
fn tool_that_prints_nothing_is_absent() {
    assert_eq!(foo().is_present(&Probe::Ran { output: Vec::new() }), Ok(false));
}

#[test]
fn tool_that_prints_garbage_is_an_error() {
    let probe = Probe::Ran { output: vec![0xff, 0xfe, 0x32, 0x2e, 0x30] };
    assert_eq!(foo().is_present(&probe), Err(MakeError::InvalidOutput));
}

#[test]
fn both_sources_fail_the_download() {
    let mut target = foo();
    target.repo = Some("https://example.com/foo.git".to_string());
    assert_eq!(target.download(), Step::Finish { result: Err(MakeError::BothSources) });
}

#[test]
fn no_source_fails_the_download() {
    let mut target = foo();
    target.mirror = None;
    assert_eq!(target.download(), Step::Finish { result: Err(MakeError::NoSource) });
}

#[test]
fn source_errors_can_be_told_apart() {
    assert_ne!(MakeError::BothSources, MakeError::NoSource);
    assert_ne!(MakeError::BothSources.message(), MakeError::NoSource.message());
    assert_eq!(MakeError::BothSources.message(), "Found both repo and mirror, use only one.");
    assert_eq!(MakeError::NoSource.message(), "Missing repo and mirror, use at least one");
}

#[test]
fn every_error_has_its_own_message() {
    let all = [
        MakeError::BothSources,
        MakeError::NoSource,
        MakeError::MalformedMirror,
        MakeError::InvalidOutput,
        MakeError::FetchFailed,
        MakeError::UnpackFailed,
        MakeError::NoDirectoryName,
        MakeError::RenameFailed,
        MakeError::NoWorkingDirectory,
        MakeError::EnterFailed,
        MakeError::ConfigureFailed,
        MakeError::RestoreFailed,
    ];
    for (i, first) in all.iter().enumerate() {
        assert!(!first.message().is_empty());
        for second in all.iter().skip(i + 1) {
            assert_ne!(first.message(), second.message());
        }
    }
    assert_eq!(MakeError::RenameFailed.message(), "Failed to rename directory");
}

#[test]
fn both_sources_are_refused_before_the_template_is_read() {
    let mut target = foo();
    target.mirror = Some("{broken".to_string());
    target.repo = Some("https://example.com/foo.git".to_string());
    assert_eq!(target.download(), Step::Finish { result: Err(MakeError::BothSources) });
}

#[test]
fn malformed_mirror_fails_the_download() {
    let mut target = foo();
    target.mirror = Some("https://example.com/foo-{ver}.tar.gz".to_string());
    assert_eq!(target.download(), Step::Finish { result: Err(MakeError::MalformedMirror) });
}

#[test]
fn download_from_mirror_resolves_the_given_template() {
    let target = foo();
    assert_eq!(
        target.download_from_mirror("https://mirror.example.org/{version}/foo.tar.xz"),
        Step::Perform {
            action: Action::Fetch {
                url: "https://mirror.example.org/2.0/foo.tar.xz".to_string(),
                file: "archive.tar.gz".to_string(),
            },
            stage: Stage::Fetching { url: "https://mirror.example.org/2.0/foo.tar.xz".to_string() },
        }
    );
    assert_eq!(
        target.download_from_mirror("https://mirror.example.org/{}/foo.tar.xz"),
        Step::Finish { result: Err(MakeError::MalformedMirror) }
    );
}

#[test]
fn repository_is_not_checked_out() {
    let mut target = foo();
    target.mirror = None;
    target.repo = Some("https://example.com/foo.git".to_string());
    assert_eq!(target.download(), Step::Finish { result: Ok(()) });
}

#[test]
fn failed_fetch_halts_the_download() {
    let target = foo();
    let step = target.resume(stage_of(target.download()), Reply::Failed);
    assert_eq!(step, Step::Finish { result: Err(MakeError::FetchFailed) });
}

#[test]
fn failed_unpack_halts_the_download() {
    let target = foo();
    let stage = Stage::Unpacking { url: "https://example.com/foo-2.0.tar.gz".to_string() };
    assert_eq!(
        target.resume(stage, Reply::Failed),
        Step::Finish { result: Err(MakeError::UnpackFailed) }
    );
}

#[test]
fn failed_rename_halts_the_download() {
    assert_eq!(
        foo().resume(Stage::Renaming, Reply::Failed),
        Step::Finish { result: Err(MakeError::RenameFailed) }
    );
}

#[test]
fn archive_with_one_extension_is_renamed_from_the_wrong_directory() {
    let mut target = foo();
    target.mirror = Some("https://example.com/foo-{version}.zip".to_string());
    let step = target.resume(stage_of(target.download()), Reply::Done);
    let step = target.resume(stage_of(step), Reply::Done);
    assert_eq!(
        step,
        Step::Perform {
            action: Action::Rename { from: "foo-2".to_string(), to: "archive".to_string() },
            stage: Stage::Renaming,
        }
    );
}

#[test]
fn archive_without_two_dots_fails_after_unpacking() {
    let mut target = foo();
    target.version = "2".to_string();
    target.mirror = Some("https://example.com/foo-{version}.tgz".to_string());
    let step = target.download();
    assert_eq!(
        step,
        Step::Perform {
            action: Action::Fetch {
                url: "https://example.com/foo-2.tgz".to_string(),
                file: "archive.tar.gz".to_string(),
            },
            stage: Stage::Fetching { url: "https://example.com/foo-2.tgz".to_string() },
        }
    );
    let step = target.resume(stage_of(step), Reply::Done);
    let step = target.resume(stage_of(step), Reply::Done);
    assert_eq!(step, Step::Finish { result: Err(MakeError::NoDirectoryName) });
}

#[test]
fn build_without_configure_enters_and_returns() {
    let target = foo();
    let home = PathBuf::from("/work");

    let step = target.build();
    assert_eq!(
        step,
        Step::Perform {
            action: Action::Announce { message: "Building foo".to_string() },
            stage: Stage::AnnouncingBuild,
        }
    );
    let step = target.resume(stage_of(step), Reply::Done);
    assert_eq!(step, Step::Perform { action: Action::CurrentDirectory, stage: Stage::Locating });
    let step = target.resume(stage_of(step), Reply::Directory(home.clone()));
    assert_eq!(
        step,
        Step::Perform {
            action: Action::EnterDirectory { name: "archive".to_string() },
            stage: Stage::Entering { origin: home.clone() },
        }
    );
    let step = target.resume(stage_of(step), Reply::Done);
    assert_eq!(
        step,
        Step::Perform {
            action: Action::ChangeDirectory { path: home.clone() },
            stage: Stage::Restoring { outcome: Ok(()) },
        }
    );
    let step = target.resume(stage_of(step), Reply::Done);
    assert_eq!(step, Step::Finish { result: Ok(()) });
}

#[test]
fn build_with_configure_runs_it_inside_the_archive() {
    let target = configured();
    let home = PathBuf::from("/work");
    let step = target.resume(Stage::Entering { origin: home.clone() }, Reply::Done);
    assert_eq!(
        step,
        Step::Perform {
            action: Action::Run { command: "./configure".to_string() },
            stage: Stage::Configuring { origin: home.clone() },
        }
    );
    let step = target.resume(stage_of(step), Reply::Done);
    assert_eq!(
        step,
        Step::Perform {
            action: Action::ChangeDirectory { path: home },
            stage: Stage::Restoring { outcome: Ok(()) },
        }
    );
    let step = target.resume(stage_of(step), Reply::Done);
    assert_eq!(step, Step::Finish { result: Ok(()) });
}

#[test]
fn failed_configure_still_restores_the_directory() {
    let target = configured();
    let home = PathBuf::from("/work");
    let step = target.resume(Stage::Configuring { origin: home.clone() }, Reply::Failed);
    assert_eq!(
        step,
        Step::Perform {
            action: Action::ChangeDirectory { path: home },
            stage: Stage::Restoring { outcome: Err(MakeError::ConfigureFailed) },
        }
    );
    let step = target.resume(stage_of(step), Reply::Done);
    assert_eq!(step, Step::Finish { result: Err(MakeError::ConfigureFailed) });
}

#[test]
fn whole_build_with_failing_configure_returns_to_where_it_began() {
    let target = configured();
    let home = PathBuf::from("/somewhere/else");
    let replies = vec![
        Reply::Done,
        Reply::Directory(home.clone()),
        Reply::Done,
        Reply::Failed,
        Reply::Done,
    ];
    let mut asked = Vec::new();
    let mut step = target.build();
    for reply in replies {
        match step {
            Step::Perform { action, stage } => {
                asked.push(action);
                step = target.resume(stage, reply);
            }
            Step::Finish { .. } => panic!("the build ended early"),
        }
    }
    assert_eq!(step, Step::Finish { result: Err(MakeError::ConfigureFailed) });
    assert_eq!(
        asked,
        vec![
            Action::Announce { message: "Building foo".to_string() },
            Action::CurrentDirectory,
            Action::EnterDirectory { name: "archive".to_string() },
            Action::Run { command: "./configure".to_string() },
            Action::ChangeDirectory { path: home },
        ]
    );
}

#[test]
fn failed_restore_is_reported_before_anything_else() {
    let target = configured();
    assert_eq!(
        target.resume(Stage::Restoring { outcome: Ok(()) }, Reply::Failed),
        Step::Finish { result: Err(MakeError::RestoreFailed) }
    );
    assert_eq!(
        target.resume(Stage::Restoring { outcome: Err(MakeError::ConfigureFailed) }, Reply::Failed),
        Step::Finish { result: Err(MakeError::RestoreFailed) }
    );
}

#[test]
fn unknown_working_directory_halts_the_build() {
    let target = foo();
    assert_eq!(
        target.resume(Stage::Locating, Reply::Failed),
        Step::Finish { result: Err(MakeError::NoWorkingDirectory) }
    );
    assert_eq!(
        target.resume(Stage::Locating, Reply::Done),
        Step::Finish { result: Err(MakeError::NoWorkingDirectory) }
    );
}

#[test]
fn missing_archive_directory_halts_the_build_without_a_change_back() {
    let target = configured();
    assert_eq!(
        target.resume(Stage::Entering { origin: PathBuf::from("/work") }, Reply::Failed),
        Step::Finish { result: Err(MakeError::EnterFailed) }
    );
}

#[test]
fn reply_to_an_announcement_is_not_read() {
    let target = foo();
    assert_eq!(
        target.resume(Stage::AnnouncingBuild, Reply::Failed),
        Step::Perform { action: Action::CurrentDirectory, stage: Stage::Locating }
    );
    assert_eq!(
        target.resume(Stage::AnnouncingInstall, Reply::Failed),
        Step::Finish { result: Ok(()) }
    );
}

#[test]
fn install_announces_and_succeeds() {
    let target = foo();
    let step = target.install();
    assert_eq!(
        step,
        Step::Perform {
            action: Action::Announce { message: "Installing foo".to_string() },
            stage: Stage::AnnouncingInstall,
        }
    );
    assert_eq!(target.resume(stage_of(step), Reply::Done), Step::Finish { result: Ok(()) });
}

#[test]
fn default_target_is_empty() {
    let target = Target::default();
    assert_eq!(target.name, "");
    assert_eq!(target.version_command, "");
    assert_eq!(target.version, "");
    assert_eq!(target.mirror, None);
    assert_eq!(target.repo, None);
    assert!(target.make_env_vars.is_empty());
    assert!(!target.configure);
    assert!(!target.sudo_install);
    assert_eq!(target.download(), Step::Finish { result: Err(MakeError::NoSource) });
}

#[test]
fn default_config_has_no_targets() {
    assert!(Config::default().targets.is_empty());
}

#[test]
fn carried_fields_do_not_change_the_operations() {
    let mut target = foo();
    target.make_env_vars = vec![("CC".to_string(), "clang".to_string())];
    target.sudo_install = true;
    assert_eq!(target.download(), foo().download());
    assert_eq!(target.build(), foo().build());
    assert_eq!(target.install(), foo().install());
}
