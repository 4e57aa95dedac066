use amethyst_cli::error::InstallError;
use amethyst_cli::install::{Directive, InstallRequest, Installer, Outcome, Phase};
use amethyst_cli::protocol::{graver, Action, Event, Residue, TargetProbe};
use amethyst_cli::record::InstallRecord;
use amethyst_cli::release::{Integrity, Received, Release};
use amethyst_cli::uninstall::{UninstallDirective, Uninstaller};
use amethyst_cli::version::Version;

/// A directory that holds an installation.
#[derive(Debug, Clone, PartialEq, Eq)]
struct Tree {
    payload: Vec<u8>,
    record: Option<Vec<u8>>,
}

/// The places on disk, and the provider, in memory.
#[derive(Debug, Clone, PartialEq, Eq)]
struct Disk {
    target: Option<Tree>,
    staging: Option<Tree>,
    backup: Option<Tree>,
    download: Option<Vec<u8>>,
}

/// A platform that works on a `Disk` and fails where it is told to.
struct Platform {
    disk: Disk,
    published: Vec<(String, Vec<u8>)>,
    announce_size: Option<u64>,
    provider_down: bool,
    fails: Vec<&'static str>,
    log: Vec<&'static str>,
}

fn version(text: &str) -> Version {
    Version::parse_exact(text.as_bytes()).unwrap()
}

fn name_of(action: &Action) -> &'static str {
    match action {
        Action::ListReleases => "list",
        Action::LocateRelease(_) => "locate",
        Action::ProbeTarget => "probe",
        Action::Fetch(_) => "fetch",
        Action::Stage => "stage",
        Action::MoveAside => "move-aside",
        Action::Swap => "swap",
        Action::WriteRecord(_) => "write-record",
        Action::DropBackup => "drop-backup",
        Action::RemoveTarget => "remove-target",
        Action::Restore => "restore",
        Action::RemoveStaging => "remove-staging",
        Action::Discard => "discard",
    }
}

impl Platform {
    fn new(published: &[(&str, &[u8])]) -> Platform {
        Platform {
            disk: Disk { target: None, staging: None, backup: None, download: None },
            published: published.iter().map(|(v, a)| (v.to_string(), a.to_vec())).collect(),
            announce_size: None,
            provider_down: false,
            fails: Vec::new(),
            log: Vec::new(),
        }
    }

    fn release(&self, text: &str, artifact: &[u8]) -> Release {
        Release {
            version: version(text),
            location: text.as_bytes().to_vec(),
            integrity: Integrity {
                size: match self.announce_size {
                    Some(n) => Some(n),
                    None => Some(artifact.len() as u64),
                },
                checksum: Some(vec![artifact.len() as u8]),
            },
        }
    }

    fn perform(&mut self, action: &Action) -> Event {
        let name = name_of(action);
        self.log.push(name);
        let fail = self.fails.contains(&name);
        match action {
            Action::ListReleases => {
                if self.provider_down {
                    return Event::Failed;
                }
                Event::Releases(self.published.iter().map(|(v, a)| self.release(v, a)).collect())
            }
            Action::LocateRelease(wanted) => {
                if self.provider_down {
                    return Event::Failed;
                }
                for (v, a) in &self.published {
                    if version(v).same(wanted) {
                        return Event::Located(self.release(v, a));
                    }
                }
                Event::Failed
            }
            Action::ProbeTarget => {
                if fail {
                    return Event::Failed;
                }
                match &self.disk.target {
                    None => Event::Probed(TargetProbe::Absent),
                    Some(tree) => match &tree.record {
                        None => Event::Probed(TargetProbe::Unrecorded),
                        Some(bytes) => Event::Probed(TargetProbe::Recorded(bytes.clone())),
                    },
                }
            }
            Action::Fetch(location) => {
                let artifact = self
                    .published
                    .iter()
                    .find(|(v, _)| v.as_bytes() == &location[..])
                    .map(|(_, a)| a.clone())
                    .unwrap();
                if fail {
                    self.disk.download = Some(artifact[..artifact.len() / 2].to_vec());
                    return Event::Failed;
                }
                let received =
                    Received { size: artifact.len() as u64, checksum: vec![artifact.len() as u8] };
                self.disk.download = Some(artifact);
                Event::Fetched(received)
            }
            Action::Stage => {
                let artifact = self.disk.download.clone().unwrap();
                if fail {
                    let half = artifact[..artifact.len() / 2].to_vec();
                    self.disk.staging = Some(Tree { payload: half, record: None });
                    return Event::Failed;
                }
                self.disk.staging = Some(Tree { payload: artifact, record: None });
                Event::Done
            }
            Action::MoveAside => {
                if fail || self.disk.target.is_none() || self.disk.backup.is_some() {
                    return Event::Failed;
                }
                self.disk.backup = self.disk.target.take();
                Event::Done
            }
            Action::Swap => {
                if fail || self.disk.staging.is_none() || self.disk.target.is_some() {
                    return Event::Failed;
                }
                self.disk.target = self.disk.staging.take();
                Event::Done
            }
            Action::WriteRecord(bytes) => match &mut self.disk.target {
                None => Event::Failed,
                Some(tree) => {
                    if fail {
                        tree.record = Some(bytes[..bytes.len() / 2].to_vec());
                        return Event::Failed;
                    }
                    tree.record = Some(bytes.clone());
                    Event::Done
                }
            },
            Action::DropBackup => {
                if fail {
                    return Event::Failed;
                }
                self.disk.backup = None;
                Event::Done
            }
            Action::RemoveTarget => {
                if fail {
                    if let Some(tree) = &mut self.disk.target {
                        tree.record = None;
                    }
                    return Event::Failed;
                }
                self.disk.target = None;
                Event::Done
            }
            Action::Restore => {
                if fail || self.disk.backup.is_none() || self.disk.target.is_some() {
                    return Event::Failed;
                }
                self.disk.target = self.disk.backup.take();
                Event::Done
            }
            Action::RemoveStaging => {
                if fail {
                    return Event::Failed;
                }
                self.disk.staging = None;
                Event::Done
            }
            Action::Discard => {
                if fail {
                    return Event::Failed;
                }
                self.disk.download = None;
                Event::Done
            }
        }
    }

    fn install(&mut self, hint: Option<&str>, reinstall: bool) -> Outcome {
        let request = InstallRequest {
            target: b"/home/alice/.amethyst".to_vec(),
            version_hint: hint.map(|text| text.as_bytes().to_vec()),
            tool_version: version("0.1.0"),
            reinstall,
        };
        let (mut installer, mut directive) = Installer::begin(request);
        loop {
            match directive {
                Directive::Finish(outcome) => {
                    assert!(installer.is_finished());
                    assert_eq!(installer.pending(), Directive::Finish(outcome.result_copy()));
                    return outcome;
                }
                Directive::Perform(action) => {
                    assert!(!installer.is_finished());
                    let event = self.perform(&action);
                    let (next, then) = installer.advance(event);
                    installer = next;
                    directive = then;
                }
            }
        }
    }

    fn uninstall(&mut self) -> Result<(), InstallError> {
        let (mut uninstaller, mut directive) = Uninstaller::begin(b"/home/alice/.amethyst".to_vec());
        loop {
            match directive {
                UninstallDirective::Finish(result) => {
                    assert!(uninstaller.is_finished());
                    return result;
                }
                UninstallDirective::Perform(action) => {
                    let event = self.perform(&action);
                    let (next, then) = uninstaller.advance(event);
                    uninstaller = next;
                    directive = then;
                }
            }
        }
    }
}

trait ResultCopy {
    fn result_copy(&self) -> Outcome;
}

impl ResultCopy for Outcome {
    fn result_copy(&self) -> Outcome {
        Outcome {
            result: match &self.result {
                Ok(record) => Ok(record.duplicate()),
                Err(error) => Err(error.duplicate()),
            },
            residue: self.residue,
        }
    }
}

fn record(product: &str) -> InstallRecord {
    InstallRecord { version: version(product), tool_version: version("0.1.0") }
}

fn installed(payload: &[u8], product: &str) -> Tree {
    Tree { payload: payload.to_vec(), record: Some(record(product).encode()) }
}

const PUBLISHED: [(&str, &[u8]); 3] =
    [("1.0.0", b"one-zero-zero"), ("1.1.0", b"one-one-zero"), ("1.1.0-rc1", b"candidate")];

#[test]
fn install_into_an_empty_target() {
    let mut platform = Platform::new(&PUBLISHED);
    let outcome = platform.install(None, false);
    assert_eq!(outcome, Outcome { result: Ok(record("1.1.0")), residue: Residue::Clean });
    let target = platform.disk.target.clone().unwrap();
    assert_eq!(target.payload, b"one-one-zero");
    let read = InstallRecord::decode(&target.record.unwrap()).unwrap();
    assert_eq!(read.version, version("1.1.0"));
    assert_eq!(read.tool_version, version("0.1.0"));
    assert_eq!(platform.disk.staging, None);
    assert_eq!(platform.disk.backup, None);
    assert_eq!(platform.disk.download, None);
    assert_eq!(
        platform.log,
        ["list", "probe", "fetch", "stage", "swap", "write-record", "discard"]
    );
}

#[test]
fn install_the_latest_by_name() {
    let mut platform = Platform::new(&PUBLISHED);
    let outcome = platform.install(Some("latest"), false);
    assert_eq!(outcome.result, Ok(record("1.1.0")));
    assert_eq!(platform.log[0], "list");
}

#[test]
fn install_a_concrete_version() {
    let mut platform = Platform::new(&PUBLISHED);
    let outcome = platform.install(Some("1.1.0-rc1"), false);
    assert_eq!(outcome, Outcome { result: Ok(record("1.1.0-rc1")), residue: Residue::Clean });
    assert_eq!(platform.disk.target, Some(installed(b"candidate", "1.1.0-rc1")));
    assert_eq!(platform.log[0], "locate");
}

#[test]
fn a_hint_that_is_no_version_ends_at_once() {
    let mut platform = Platform::new(&PUBLISHED);
    let before = platform.disk.clone();
    let outcome = platform.install(Some("1.1"), false);
    assert_eq!(
        outcome,
        Outcome { result: Err(InstallError::InvalidVersionFormat), residue: Residue::Clean }
    );
    assert!(platform.log.is_empty());
    assert_eq!(platform.disk, before);
}

#[test]
fn no_releases_found() {
    let mut platform = Platform::new(&[]);
    let outcome = platform.install(None, false);
    assert_eq!(
        outcome,
        Outcome { result: Err(InstallError::NoReleasesFound), residue: Residue::Clean }
    );
    assert_eq!(platform.log, ["list"]);
    assert_eq!(platform.disk.target, None);
}

#[test]
fn provider_unavailable() {
    let mut platform = Platform::new(&PUBLISHED);
    platform.provider_down = true;
    assert_eq!(platform.install(None, false).result, Err(InstallError::ProviderUnavailable));
    assert_eq!(platform.install(Some("1.0.0"), false).result, Err(InstallError::ProviderUnavailable));
    assert_eq!(platform.log, ["list", "locate"]);
}

#[test]
fn a_version_that_is_not_published_is_not_provided() {
    let mut platform = Platform::new(&PUBLISHED);
    assert_eq!(platform.install(Some("9.9.9"), false).result, Err(InstallError::ProviderUnavailable));
    assert_eq!(platform.disk.target, None);
}

#[test]
fn a_release_of_another_version_is_refused() {
    let request = InstallRequest {
        target: b"/t".to_vec(),
        version_hint: Some(b"1.0.0".to_vec()),
        tool_version: version("0.1.0"),
        reinstall: false,
    };
    let (installer, directive) = Installer::begin(request);
    assert_eq!(directive, Directive::Perform(Action::LocateRelease(version("1.0.0"))));
    let other = Release {
        version: version("1.0.1"),
        location: b"x".to_vec(),
        integrity: Integrity { size: None, checksum: None },
    };
    let (installer, directive) = installer.advance(Event::Located(other));
    assert_eq!(
        directive,
        Directive::Finish(Outcome {
            result: Err(InstallError::ProviderUnavailable),
            residue: Residue::Clean
        })
    );
    assert_eq!(installer.phase(), Phase::RolledBack);
}

#[test]
fn install_over_an_existing_installation_is_refused() {
    let mut platform = Platform::new(&PUBLISHED);
    platform.disk.target = Some(installed(b"old", "1.0.0"));
    let before = platform.disk.clone();
    let outcome = platform.install(None, false);
    assert_eq!(
        outcome,
        Outcome {
            result: Err(InstallError::AlreadyInstalled { existing: Some(version("1.0.0")) }),
            residue: Residue::Clean
        }
    );
    assert_eq!(platform.disk, before);
    assert_eq!(platform.log, ["list", "probe"]);
}

#[test]
fn an_unreadable_record_still_counts_as_installed() {
    let mut platform = Platform::new(&PUBLISHED);
    platform.disk.target = Some(Tree { payload: b"old".to_vec(), record: Some(b"garbage".to_vec()) });
    let before = platform.disk.clone();
    let outcome = platform.install(None, false);
    assert_eq!(outcome.result, Err(InstallError::AlreadyInstalled { existing: None }));
    assert_eq!(platform.disk, before);
}

#[test]
fn an_occupied_target_without_record_is_in_the_way() {
    let mut platform = Platform::new(&PUBLISHED);
    platform.disk.target = Some(Tree { payload: b"something".to_vec(), record: None });
    let before = platform.disk.clone();
    let outcome = platform.install(None, false);
    assert_eq!(
        outcome,
        Outcome { result: Err(InstallError::PlacementFailed), residue: Residue::Clean }
    );
    assert_eq!(platform.disk, before);
    assert_eq!(platform.log, ["list", "probe"]);
}

#[test]
fn a_failed_look_at_the_target_fails_the_placement() {
    let mut platform = Platform::new(&PUBLISHED);
    platform.fails = vec!["probe"];
    let outcome = platform.install(None, false);
    assert_eq!(outcome.result, Err(InstallError::PlacementFailed));
    assert_eq!(platform.log, ["list", "probe"]);
}

#[test]
fn a_failed_download_is_discarded() {
    let mut platform = Platform::new(&PUBLISHED);
    platform.fails = vec!["fetch"];
    let outcome = platform.install(None, false);
    assert_eq!(
        outcome,
        Outcome { result: Err(InstallError::DownloadFailed), residue: Residue::Clean }
    );
    assert_eq!(platform.disk, Disk { target: None, staging: None, backup: None, download: None });
    assert_eq!(platform.log, ["list", "probe", "fetch", "discard"]);
}

#[test]
fn an_integrity_mismatch_leaves_no_artifact_behind() {
    let mut platform = Platform::new(&PUBLISHED);
    platform.announce_size = Some(5);
    let outcome = platform.install(None, false);
    assert_eq!(
        outcome,
        Outcome { result: Err(InstallError::IntegrityMismatch), residue: Residue::Clean }
    );
    assert_eq!(platform.disk, Disk { target: None, staging: None, backup: None, download: None });
    assert_eq!(platform.log, ["list", "probe", "fetch", "discard"]);
}

#[test]
fn a_failure_while_staging_leaves_the_target_absent() {
    let mut platform = Platform::new(&PUBLISHED);
    platform.fails = vec!["stage"];
    let outcome = platform.install(None, false);
    assert_eq!(
        outcome,
        Outcome { result: Err(InstallError::PlacementFailed), residue: Residue::Clean }
    );
    assert_eq!(platform.disk, Disk { target: None, staging: None, backup: None, download: None });
    assert_eq!(platform.log, ["list", "probe", "fetch", "stage", "remove-staging", "discard"]);
}

#[test]
fn a_failed_swap_leaves_the_target_absent() {
    let mut platform = Platform::new(&PUBLISHED);
    platform.fails = vec!["swap"];
    let outcome = platform.install(None, false);
    assert_eq!(
        outcome,
        Outcome { result: Err(InstallError::PlacementFailed), residue: Residue::Clean }
    );
    assert_eq!(platform.disk, Disk { target: None, staging: None, backup: None, download: None });
    assert_eq!(
        platform.log,
        ["list", "probe", "fetch", "stage", "swap", "remove-staging", "discard"]
    );
}

#[test]
fn a_failed_record_removes_what_was_placed() {
    let mut platform = Platform::new(&PUBLISHED);
    platform.fails = vec!["write-record"];
    let outcome = platform.install(None, false);
    assert_eq!(
        outcome,
        Outcome { result: Err(InstallError::PlacementFailed), residue: Residue::Clean }
    );
    assert_eq!(platform.disk, Disk { target: None, staging: None, backup: None, download: None });
    assert_eq!(
        platform.log,
        ["list", "probe", "fetch", "stage", "swap", "write-record", "remove-target", "discard"]
    );
}

#[test]
fn a_staging_directory_that_cannot_be_removed_is_reported_as_scratch() {
    let mut platform = Platform::new(&PUBLISHED);
    platform.fails = vec!["stage", "remove-staging"];
    let outcome = platform.install(None, false);
    assert_eq!(
        outcome,
        Outcome { result: Err(InstallError::PlacementFailed), residue: Residue::Scratch }
    );
    assert_eq!(platform.disk.target, None);
    assert!(platform.disk.staging.is_some());
    assert_eq!(platform.disk.download, None);
}

#[test]
fn a_target_that_cannot_be_removed_is_reported() {
    let mut platform = Platform::new(&PUBLISHED);
    platform.fails = vec!["write-record", "remove-target"];
    let outcome = platform.install(None, false);
    assert_eq!(
        outcome,
        Outcome { result: Err(InstallError::PlacementFailed), residue: Residue::Target }
    );
    assert_eq!(platform.disk.download, None);
}

#[test]
fn an_artifact_that_cannot_be_discarded_does_not_undo_the_installation() {
    let mut platform = Platform::new(&PUBLISHED);
    platform.fails = vec!["discard"];
    let outcome = platform.install(None, false);
    assert_eq!(outcome, Outcome { result: Ok(record("1.1.0")), residue: Residue::Scratch });
    assert_eq!(platform.disk.target, Some(installed(b"one-one-zero", "1.1.0")));
    assert!(platform.disk.download.is_some());
}

#[test]
fn reinstall_replaces_the_installation() {
    let mut platform = Platform::new(&PUBLISHED);
    platform.disk.target = Some(installed(b"old", "1.0.0"));
    let outcome = platform.install(None, true);
    assert_eq!(outcome, Outcome { result: Ok(record("1.1.0")), residue: Residue::Clean });
    assert_eq!(
        platform.disk,
        Disk {
            target: Some(installed(b"one-one-zero", "1.1.0")),
            staging: None,
            backup: None,
            download: None
        }
    );
    assert_eq!(
        platform.log,
        [
            "list",
            "probe",
            "fetch",
            "stage",
            "move-aside",
            "swap",
            "write-record",
            "drop-backup",
            "discard"
        ]
    );
}

#[test]
fn reinstall_into_an_empty_target_installs() {
    let mut platform = Platform::new(&PUBLISHED);
    let outcome = platform.install(Some("1.0.0"), true);
    assert_eq!(outcome, Outcome { result: Ok(record("1.0.0")), residue: Residue::Clean });
    assert_eq!(platform.disk.target, Some(installed(b"one-zero-zero", "1.0.0")));
    assert!(!platform.log.contains(&"move-aside"));
}

#[test]
fn a_failed_reinstall_puts_the_old_installation_back() {
    for step in ["fetch", "stage", "move-aside", "swap", "write-record"] {
        let mut platform = Platform::new(&PUBLISHED);
        platform.disk.target = Some(installed(b"old", "1.0.0"));
        let before = platform.disk.clone();
        platform.fails = vec![step];
        let outcome = platform.install(None, true);
        assert!(outcome.result.is_err(), "{}", step);
        assert_eq!(outcome.residue, Residue::Clean, "{}", step);
        assert_eq!(platform.disk, before, "{}", step);
    }
}

#[test]
fn a_failed_reinstall_after_the_swap_undoes_in_order() {
    let mut platform = Platform::new(&PUBLISHED);
    platform.disk.target = Some(installed(b"old", "1.0.0"));
    platform.fails = vec!["write-record"];
    let outcome = platform.install(None, true);
    assert_eq!(outcome.result, Err(InstallError::PlacementFailed));
    assert_eq!(
        platform.log,
        [
            "list",
            "probe",
            "fetch",
            "stage",
            "move-aside",
            "swap",
            "write-record",
            "remove-target",
            "restore",
            "discard"
        ]
    );
}

#[test]
fn an_old_installation_that_cannot_be_put_back_is_reported() {
    let mut platform = Platform::new(&PUBLISHED);
    platform.disk.target = Some(installed(b"old", "1.0.0"));
    platform.fails = vec!["swap", "restore"];
    let outcome = platform.install(None, true);
    assert_eq!(
        outcome,
        Outcome { result: Err(InstallError::PlacementFailed), residue: Residue::Target }
    );
    assert_eq!(platform.disk.backup, Some(installed(b"old", "1.0.0")));
}

#[test]
fn an_event_that_answers_nothing_counts_as_a_failure() {
    let request = InstallRequest {
        target: b"/t".to_vec(),
        version_hint: None,
        tool_version: version("0.1.0"),
        reinstall: false,
    };
    let (installer, directive) = Installer::begin(request);
    assert_eq!(directive, Directive::Perform(Action::ListReleases));
    assert_eq!(installer.phase(), Phase::Resolving);
    let (installer, directive) = installer.advance(Event::Done);
    assert_eq!(
        directive,
        Directive::Finish(Outcome {
            result: Err(InstallError::ProviderUnavailable),
            residue: Residue::Clean
        })
    );
    let (installer, directive) = installer.advance(Event::Done);
    assert!(installer.is_finished());
    assert_eq!(
        directive,
        Directive::Finish(Outcome {
            result: Err(InstallError::ProviderUnavailable),
            residue: Residue::Clean
        })
    );
}

#[test]
fn the_phases_of_an_installation() {
    let request = InstallRequest {
        target: b"/home/alice/.amethyst".to_vec(),
        version_hint: None,
        tool_version: version("0.1.0"),
        reinstall: false,
    };
    let release = Release {
        version: version("2.0.0"),
        location: b"somewhere".to_vec(),
        integrity: Integrity { size: Some(4), checksum: None },
    };
    let (installer, _) = Installer::begin(request);
    assert_eq!(installer.target(), b"/home/alice/.amethyst");
    assert_eq!(installer.phase(), Phase::Resolving);
    assert!(!installer.may_leak());
    let (installer, directive) = installer.advance(Event::Releases(vec![release]));
    assert_eq!(directive, Directive::Perform(Action::ProbeTarget));
    assert_eq!(installer.phase(), Phase::Resolving);
    let (installer, directive) = installer.advance(Event::Probed(TargetProbe::Absent));
    assert_eq!(directive, Directive::Perform(Action::Fetch(b"somewhere".to_vec())));
    assert_eq!(installer.phase(), Phase::Fetching);
    let (installer, directive) =
        installer.advance(Event::Fetched(Received { size: 4, checksum: Vec::new() }));
    assert_eq!(directive, Directive::Perform(Action::Stage));
    assert_eq!(installer.phase(), Phase::Placing);
    assert!(installer.may_leak());
    let (installer, directive) = installer.advance(Event::Done);
    assert_eq!(directive, Directive::Perform(Action::Swap));
    assert_eq!(installer.phase(), Phase::Placing);
    let (installer, directive) = installer.advance(Event::Done);
    assert_eq!(directive, Directive::Perform(Action::WriteRecord(b"2.0.0\n0.1.0\n".to_vec())));
    assert_eq!(installer.phase(), Phase::Placing);
    let (installer, directive) = installer.advance(Event::Done);
    assert_eq!(directive, Directive::Perform(Action::Discard));
    assert_eq!(installer.phase(), Phase::Committed);
    let (installer, directive) = installer.advance(Event::Done);
    assert_eq!(
        directive,
        Directive::Finish(Outcome { result: Ok(record("2.0.0")), residue: Residue::Clean })
    );
    assert_eq!(installer.phase(), Phase::Committed);
    assert!(!installer.may_leak());
}

#[test]
fn the_graver_residue_wins() {
    assert_eq!(graver(Residue::Clean, Residue::Clean), Residue::Clean);
    assert_eq!(graver(Residue::Clean, Residue::Scratch), Residue::Scratch);
    assert_eq!(graver(Residue::Scratch, Residue::Target), Residue::Target);
    assert_eq!(graver(Residue::Target, Residue::Clean), Residue::Target);
}

#[test]
fn uninstall_with_nothing_installed_changes_nothing() {
    let mut platform = Platform::new(&PUBLISHED);
    let before = platform.disk.clone();
    assert_eq!(platform.uninstall(), Ok(()));
    assert_eq!(platform.disk, before);
    assert_eq!(platform.log, ["probe"]);
}

#[test]
fn uninstall_leaves_what_is_not_recorded() {
    let mut platform = Platform::new(&PUBLISHED);
    platform.disk.target = Some(Tree { payload: b"something".to_vec(), record: None });
    let before = platform.disk.clone();
    assert_eq!(platform.uninstall(), Ok(()));
    assert_eq!(platform.disk, before);
}

#[test]
fn uninstall_after_install_removes_the_target() {
    let mut platform = Platform::new(&PUBLISHED);
    assert!(platform.install(None, false).result.is_ok());
    assert!(platform.disk.target.is_some());
    platform.log.clear();
    assert_eq!(platform.uninstall(), Ok(()));
    assert_eq!(platform.disk, Disk { target: None, staging: None, backup: None, download: None });
    assert_eq!(platform.log, ["probe", "remove-target"]);
    platform.log.clear();
    assert_eq!(platform.uninstall(), Ok(()));
    assert_eq!(platform.disk.target, None);
    assert_eq!(platform.log, ["probe"]);
}

#[test]
fn uninstall_that_cannot_remove_fails() {
    let mut platform = Platform::new(&PUBLISHED);
    platform.disk.target = Some(installed(b"old", "1.0.0"));
    platform.fails = vec!["remove-target"];
    assert_eq!(platform.uninstall(), Err(InstallError::UninstallFailed));
    assert_eq!(platform.log, ["probe", "remove-target"]);
}

#[test]
fn uninstall_that_cannot_look_fails() {
    let mut platform = Platform::new(&PUBLISHED);
    platform.disk.target = Some(installed(b"old", "1.0.0"));
    let before = platform.disk.clone();
    platform.fails = vec!["probe"];
    assert_eq!(platform.uninstall(), Err(InstallError::UninstallFailed));
    assert_eq!(platform.disk, before);
}

#[test]
fn the_uninstaller_knows_its_target() {
    let (uninstaller, directive) = Uninstaller::begin(b"/home/alice/.amethyst".to_vec());
    assert_eq!(uninstaller.target(), b"/home/alice/.amethyst");
    assert_eq!(directive, UninstallDirective::Perform(Action::ProbeTarget));
    assert_eq!(uninstaller.pending(), UninstallDirective::Perform(Action::ProbeTarget));
    let (uninstaller, directive) = uninstaller.advance(Event::Probed(TargetProbe::Recorded(Vec::new())));
    assert_eq!(directive, UninstallDirective::Perform(Action::RemoveTarget));
    let (uninstaller, directive) = uninstaller.advance(Event::Done);
    assert_eq!(directive, UninstallDirective::Finish(Ok(())));
    let (_, directive) = uninstaller.advance(Event::Failed);
    assert_eq!(directive, UninstallDirective::Finish(Ok(())));
}

#[test]
fn errors_are_duplicated() {
    let errors = [
        InstallError::InvalidVersionFormat,
        InstallError::NoReleasesFound,
        InstallError::ProviderUnavailable,
        InstallError::DownloadFailed,
        InstallError::IntegrityMismatch,
        InstallError::AlreadyInstalled { existing: Some(version("1.0.0")) },
        InstallError::AlreadyInstalled { existing: None },
        InstallError::PlacementFailed,
        InstallError::UninstallFailed,
        InstallError::SystemUnsupported,
    ];
    for error in &errors {
        assert_eq!(&error.duplicate(), error);
    }
}
