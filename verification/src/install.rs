//! Installing a mod, step by step. The engine decides what is done next;
//! whoever runs it carries each action out and hands back what came of it.

use crate::download::{download_path, download_path_of, is_archive, names_archive};
use crate::error::{EngineError, EngineErrorView, ErrorKind};
use crate::inspect::{disabled_mod_dir, disabled_mod_dir_of, mod_dir, mod_dir_of, Presence};
use crate::lifecycle::{Action, ActionView};
use crate::progress::{percent, Transfer};
use crate::text::{same_but_for_case, same_text_ignoring_case};
use vstd::prelude::*;
use vstd::string::*;

verus! {

/// Where an installation stands.
#[derive(Clone, Copy, Debug, PartialEq, Eq, Structural)]
pub enum InstallStep {
    /// The disk has to be looked at.
    Probing,
    /// The folder of the mod is being moved out of `Disabled`.
    Enabling,
    /// The folder of the mod is being created.
    CreatingDir,
    /// The address is being opened.
    Connecting,
    /// The content is coming in.
    Streaming,
    /// The digest of what was downloaded is being computed.
    Digesting,
    /// The archive is being unpacked.
    Extracting,
    /// The downloaded archive is being removed.
    Discarding,
    /// The mod is installed and enabled.
    Done,
    /// The installation failed.
    Failed,
    /// The download was called off.
    Cancelled,
}

/// What came of the action that the engine asked for last.
#[derive(Debug, PartialEq)]
pub enum InstallEvent {
    /// The disk was looked at: whether the mods root exists, and where the
    /// folder of the mod lies.
    Probed { root_exists: bool, seen: Presence },
    /// The action on disk was carried out, or it failed.
    Performed { ok: bool },
    /// The address was opened; `length` is the content length that the
    /// server reported, if it reported one.
    Connected { length: Option<u64> },
    /// The address could not be opened.
    Unreachable,
    /// A chunk of `len` bytes came in and was written.
    Chunk { len: u64 },
    /// The stream came to its end, or it broke off.
    StreamEnded { ok: bool },
    /// The digest of the file in hexadecimal, or none where the file could
    /// not be read.
    Digest { hex: Option<String> },
    /// The download is to be called off.
    Cancel,
}

/// An `InstallEvent` as a value of the contracts.
pub enum InstallEventView {
    Probed { root_exists: bool, seen: Presence },
    Performed { ok: bool },
    Connected { length: Option<u64> },
    Unreachable,
    Chunk { len: u64 },
    StreamEnded { ok: bool },
    Digest { hex: Option<Seq<char>> },
    Cancel,
}

impl View for InstallEvent {
    type V = InstallEventView;

    open spec fn view(&self) -> InstallEventView {
        match self {
            InstallEvent::Probed { root_exists, seen } => InstallEventView::Probed {
                root_exists: *root_exists,
                seen: *seen,
            },
            InstallEvent::Performed { ok } => InstallEventView::Performed { ok: *ok },
            InstallEvent::Connected { length } => InstallEventView::Connected { length: *length },
            InstallEvent::Unreachable => InstallEventView::Unreachable,
            InstallEvent::Chunk { len } => InstallEventView::Chunk { len: *len },
            InstallEvent::StreamEnded { ok } => InstallEventView::StreamEnded { ok: *ok },
            InstallEvent::Digest { hex } => InstallEventView::Digest {
                hex: match hex {
                    Some(h) => Some(h@),
                    None => None,
                },
            },
            InstallEvent::Cancel => InstallEventView::Cancel,
        }
    }
}

/// An installation in progress.
#[derive(Debug, PartialEq)]
pub struct InstallJob {
    name: String,
    version: String,
    sha256: String,
    link: String,
    root: String,
    verify: bool,
    step: InstallStep,
    transfer: Transfer,
    progress: u8,
    seen: Presence,
    error: Option<EngineError>,
}

/// An `InstallJob` as a value of the contracts.
pub struct InstallJobView {
    /// The name of the mod.
    pub name: Seq<char>,
    /// The version that is installed.
    pub version: Seq<char>,
    /// The digest that the download is to have; empty when none is known.
    pub sha256: Seq<char>,
    /// The address of the download.
    pub link: Seq<char>,
    /// The mods root.
    pub root: Seq<char>,
    /// Whether the digest of the download is checked.
    pub verify: bool,
    pub step: InstallStep,
    /// The count of the download.
    pub transfer: Transfer,
    /// How far the download has come, in percent.
    pub progress: u8,
    /// What the disk shows for the mod, as far as the engine knows.
    pub seen: Presence,
    /// Why the installation failed.
    pub error: Option<EngineErrorView>,
}

/// The optional failure as a value of the contracts.
pub open spec fn error_view(e: Option<EngineError>) -> Option<EngineErrorView> {
    match e {
        Some(x) => Some(x@),
        None => None,
    }
}

impl InstallJobView {
    /// The folder of the mod.
    pub open spec fn target(self) -> Seq<char> {
        mod_dir_of(self.root, self.name)
    }

    /// The path to which the download is written.
    pub open spec fn dest(self) -> Seq<char> {
        download_path_of(self.root, self.name, self.link)
    }

    /// Whether the digest of the download is to be checked: checking is
    /// switched on, and a digest is known.
    pub open spec fn checks_digest(self) -> bool {
        self.verify && self.sha256.len() > 0
    }

    /// The installation has succeeded.
    pub open spec fn finished(self) -> (InstallJobView, ActionView) {
        (InstallJobView { step: InstallStep::Done, progress: 100, ..self }, ActionView::Halt)
    }

    /// The installation has failed at `place`.
    pub open spec fn failed(self, kind: ErrorKind, place: Seq<char>) -> (
        InstallJobView,
        ActionView,
    ) {
        (
            InstallJobView {
                step: InstallStep::Failed,
                error: Some(EngineErrorView { kind, name: self.name, place }),
                ..self
            },
            ActionView::Halt,
        )
    }

    /// What follows once the digest was found right, or was not asked for:
    /// an archive is unpacked; any other file lies where it belongs.
    pub open spec fn after_verified(self) -> (InstallJobView, ActionView) {
        if names_archive(self.link) {
            (
                InstallJobView { step: InstallStep::Extracting, ..self },
                ActionView::Extract { archive: self.dest(), into: self.target() },
            )
        } else {
            self.finished()
        }
    }

    /// What follows once all of the content has come.
    pub open spec fn after_download(self) -> (InstallJobView, ActionView) {
        if self.checks_digest() {
            (
                InstallJobView { step: InstallStep::Digesting, ..self },
                ActionView::Digest { path: self.dest() },
            )
        } else {
            self.after_verified()
        }
    }

    /// The step that an event leads to, and the action that is asked for
    /// next. An event that the step does not wait for changes nothing.
    pub open spec fn next(self, e: InstallEventView) -> (InstallJobView, ActionView) {
        match e {
            InstallEventView::Probed { root_exists, seen } => {
                if self.step != InstallStep::Probing {
                    (self, ActionView::Halt)
                } else if !root_exists {
                    self.failed(ErrorKind::Filesystem, self.root)
                } else if seen.enabled() {
                    (InstallJobView { seen, ..self }).finished()
                } else if seen.installed() {
                    (
                        InstallJobView { step: InstallStep::Enabling, seen, ..self },
                        ActionView::MoveToMods {
                            from: disabled_mod_dir_of(self.root, self.name),
                            to: self.target(),
                        },
                    )
                } else {
                    (
                        InstallJobView { step: InstallStep::CreatingDir, seen, ..self },
                        ActionView::CreateModDir { path: self.target() },
                    )
                }
            },
            InstallEventView::Performed { ok } => {
                match self.step {
                    InstallStep::Enabling => {
                        if ok {
                            (InstallJobView {
                                seen: Presence { in_mods: true, in_disabled: false },
                                ..self
                            }).finished()
                        } else {
                            self.failed(
                                ErrorKind::Filesystem,
                                disabled_mod_dir_of(self.root, self.name),
                            )
                        }
                    },
                    InstallStep::CreatingDir => {
                        if ok {
                            (
                                InstallJobView {
                                    step: InstallStep::Connecting,
                                    seen: Presence { in_mods: true, ..self.seen },
                                    ..self
                                },
                                ActionView::Fetch { url: self.link, dest: self.dest() },
                            )
                        } else {
                            self.failed(ErrorKind::Filesystem, self.target())
                        }
                    },
                    InstallStep::Extracting => {
                        (
                            InstallJobView {
                                step: InstallStep::Discarding,
                                error: if ok {
                                    None
                                } else {
                                    Some(
                                        EngineErrorView {
                                            kind: ErrorKind::Extract,
                                            name: self.name,
                                            place: self.dest(),
                                        },
                                    )
                                },
                                ..self
                            },
                            ActionView::Discard { path: self.dest() },
                        )
                    },
                    InstallStep::Discarding => {
                        if self.error is Some {
                            (InstallJobView { step: InstallStep::Failed, ..self }, ActionView::Halt)
                        } else if ok {
                            self.finished()
                        } else {
                            self.failed(ErrorKind::Filesystem, self.dest())
                        }
                    },
                    _ => (self, ActionView::Halt),
                }
            },
            InstallEventView::Connected { length } => {
                if self.step != InstallStep::Connecting {
                    (self, ActionView::Halt)
                } else {
                    match length {
                        Some(n) => (
                            InstallJobView {
                                step: InstallStep::Streaming,
                                transfer: Transfer { total: n, received: 0 },
                                progress: percent(0, n as nat) as u8,
                                ..self
                            },
                            ActionView::Receive,
                        ),
                        None => self.failed(ErrorKind::Network, self.link),
                    }
                }
            },
            InstallEventView::Unreachable => {
                if self.step != InstallStep::Connecting {
                    (self, ActionView::Halt)
                } else {
                    self.failed(ErrorKind::Network, self.link)
                }
            },
            InstallEventView::Chunk { len } => {
                if self.step != InstallStep::Streaming {
                    (self, ActionView::Halt)
                } else {
                    (
                        InstallJobView {
                            transfer: self.transfer.after(len),
                            progress: self.transfer.after(len).percent() as u8,
                            ..self
                        },
                        ActionView::Receive,
                    )
                }
            },
            InstallEventView::StreamEnded { ok } => {
                if self.step != InstallStep::Streaming {
                    (self, ActionView::Halt)
                } else if !ok || !self.transfer.complete() {
                    self.failed(ErrorKind::Network, self.link)
                } else {
                    self.after_download()
                }
            },
            InstallEventView::Digest { hex } => {
                if self.step != InstallStep::Digesting {
                    (self, ActionView::Halt)
                } else {
                    match hex {
                        Some(h) => if same_but_for_case(h, self.sha256) {
                            self.after_verified()
                        } else {
                            self.failed(ErrorKind::Integrity, self.dest())
                        },
                        None => self.failed(ErrorKind::Filesystem, self.dest()),
                    }
                }
            },
            InstallEventView::Cancel => {
                if self.step == InstallStep::Connecting || self.step == InstallStep::Streaming {
                    (InstallJobView { step: InstallStep::Cancelled, ..self }, ActionView::Halt)
                } else {
                    (self, ActionView::Halt)
                }
            },
        }
    }

    /// What holds of an installation at every step. The percentage is 0
    /// until the content comes in, follows the count while it does, and is
    /// 100 from then on; from the moment the folder of the mod was created,
    /// the disk shows the mod as enabled; a failed installation says why.
    pub open spec fn inv(self) -> bool {
        &&& self.progress <= 100
        &&& match self.step {
            InstallStep::Probing | InstallStep::Enabling => self.progress == 0,
            InstallStep::CreatingDir => self.progress == 0 && !self.seen.in_disabled,
            InstallStep::Connecting => self.progress == 0 && self.seen.enabled(),
            InstallStep::Streaming => self.progress == self.transfer.percent()
                && self.seen.enabled(),
            InstallStep::Digesting | InstallStep::Extracting | InstallStep::Discarding => {
                self.progress == 100 && self.seen.enabled()
            },
            InstallStep::Done => self.progress == 100 && self.seen.enabled(),
            InstallStep::Failed => self.error is Some,
            InstallStep::Cancelled => true,
        }
    }

    /// Whether the installation is over: it succeeded, failed or was called
    /// off.
    pub open spec fn over(self) -> bool {
        self.step == InstallStep::Done || self.step == InstallStep::Failed || self.step
            == InstallStep::Cancelled
    }
}

/// An installation as it starts: nothing is known of the disk, nothing has
/// come in, and the percentage is 0.
pub open spec fn install_start(
    root: Seq<char>,
    name: Seq<char>,
    version: Seq<char>,
    sha256: Seq<char>,
    link: Seq<char>,
    verify: bool,
) -> InstallJobView {
    InstallJobView {
        name,
        version,
        sha256,
        link,
        root,
        verify,
        step: InstallStep::Probing,
        transfer: Transfer { total: 0, received: 0 },
        progress: 0,
        seen: Presence { in_mods: false, in_disabled: false },
        error: None,
    }
}

/// What holds of an installation at every step holds at its start, and
/// every event keeps it.
pub proof fn lemma_install_inv(j: InstallJobView, e: InstallEventView)
    ensures
        install_start(j.root, j.name, j.version, j.sha256, j.link, j.verify).inv(),
        j.inv() ==> j.next(e).0.inv(),
{
    if j.inv() {
        crate::progress::lemma_percent_range(
            j.transfer.after(0).received as nat,
            j.transfer.total as nat,
        );
        match e {
            InstallEventView::Chunk { len } => {
                crate::progress::lemma_percent_range(
                    j.transfer.after(len).received as nat,
                    j.transfer.total as nat,
                );
            },
            InstallEventView::Connected { length: Some(n) } => {
                crate::progress::lemma_percent_range(0, n as nat);
            },
            InstallEventView::StreamEnded { ok } => {
                crate::progress::lemma_percent_range(
                    j.transfer.received as nat,
                    j.transfer.total as nat,
                );
            },
            _ => {},
        }
    }
}

/// Once an installation has succeeded, the disk shows the mod as installed
/// and enabled, and the percentage stands at 100.
pub proof fn lemma_install_done(j: InstallJobView)
    requires
        j.inv(),
        j.step == InstallStep::Done,
    ensures
        j.seen.installed(),
        j.seen.enabled(),
        j.progress == 100,
{
}

/// The percentage never falls in the course of an installation; what the
/// installation is of never changes; and an installation that is over stays
/// as it is.
pub proof fn lemma_install_progress(j: InstallJobView, e: InstallEventView)
    requires
        j.inv(),
    ensures
        j.next(e).0.progress >= j.progress,
        j.next(e).0.name == j.name,
        j.next(e).0.version == j.version,
        j.next(e).0.sha256 == j.sha256,
        j.next(e).0.link == j.link,
        j.next(e).0.root == j.root,
        j.over() ==> j.next(e) == (j, ActionView::Halt),
{
    match e {
        InstallEventView::Chunk { len } => {
            crate::progress::lemma_percent_range(
                j.transfer.received as nat,
                j.transfer.total as nat,
            );
            crate::progress::lemma_percent_range(
                j.transfer.after(len).received as nat,
                j.transfer.total as nat,
            );
            if j.transfer.received < j.transfer.total {
                crate::progress::lemma_percent_monotonic(
                    j.transfer.received as nat,
                    j.transfer.after(len).received as nat,
                    j.transfer.total as nat,
                );
            }
        },
        _ => {},
    }
}

impl InstallJob {
    /// The installation as a value of the contracts.
    pub closed spec fn view(&self) -> InstallJobView {
        InstallJobView {
            name: self.name@,
            version: self.version@,
            sha256: self.sha256@,
            link: self.link@,
            root: self.root@,
            verify: self.verify,
            step: self.step,
            transfer: self.transfer,
            progress: self.progress,
            seen: self.seen,
            error: error_view(self.error),
        }
    }

    /// An installation of the mod `name` in `version`, downloaded from
    /// `link` into the mods root `root`. `sha256` is the digest that the
    /// download is to have, empty when none is known; with `verify` the
    /// digest is checked against it. The first thing to do is to look at the
    /// disk.
    pub fn begin(
        root: &str,
        name: &str,
        version: &str,
        sha256: &str,
        link: &str,
        verify: bool,
    ) -> (r: (InstallJob, Action))
        ensures
            r.0@ == install_start(root@, name@, version@, sha256@, link@, verify),
            r.0@.inv(),
            r.1@ == ActionView::Probe,
    {
        let job = InstallJob {
            name: name.to_owned(),
            version: version.to_owned(),
            sha256: sha256.to_owned(),
            link: link.to_owned(),
            root: root.to_owned(),
            verify,
            step: InstallStep::Probing,
            transfer: Transfer { total: 0, received: 0 },
            progress: 0,
            seen: Presence { in_mods: false, in_disabled: false },
            error: None,
        };
        (job, Action::Probe)
    }

    fn finish(&mut self) -> (a: Action)
        ensures
            (final(self)@, a@) == old(self)@.finished(),
    {
        self.step = InstallStep::Done;
        self.progress = 100;
        Action::Halt
    }

    fn fail(&mut self, kind: ErrorKind, place: String) -> (a: Action)
        ensures
            (final(self)@, a@) == old(self)@.failed(kind, place@),
    {
        self.step = InstallStep::Failed;
        self.error = Some(EngineError { kind, name: self.name.clone(), place });
        Action::Halt
    }

    fn target_dir(&self) -> (r: String)
        ensures
            r@ == self@.target(),
    {
        mod_dir(self.root.as_str(), self.name.as_str())
    }

    fn dest_path(&self) -> (r: String)
        ensures
            r@ == self@.dest(),
    {
        download_path(self.root.as_str(), self.name.as_str(), self.link.as_str())
    }

    fn proceed_verified(&mut self) -> (a: Action)
        ensures
            (final(self)@, a@) == old(self)@.after_verified(),
    {
        if is_archive(self.link.as_str()) {
            let a = Action::Extract { archive: self.dest_path(), into: self.target_dir() };
            self.step = InstallStep::Extracting;
            a
        } else {
            self.finish()
        }
    }

    fn proceed_downloaded(&mut self) -> (a: Action)
        ensures
            (final(self)@, a@) == old(self)@.after_download(),
    {
        if self.verify && !self.sha256.as_str().is_empty() {
            let a = Action::Digest { path: self.dest_path() };
            self.step = InstallStep::Digesting;
            a
        } else {
            self.proceed_verified()
        }
    }

    /// Takes in what came of the last action, and returns the action that
    /// is to be carried out next.
    pub fn advance(&mut self, event: InstallEvent) -> (a: Action)
        ensures
            (final(self)@, a@) == old(self)@.next(event@),
            old(self)@.inv() ==> final(self)@.inv(),
    {
        proof {
            lemma_install_inv(self@, event@);
        }
        match event {
            InstallEvent::Probed { root_exists, seen } => {
                if self.step != InstallStep::Probing {
                    Action::Halt
                } else if !root_exists {
                    let place = self.root.clone();
                    self.fail(ErrorKind::Filesystem, place)
                } else if seen.is_enabled() {
                    self.seen = seen;
                    self.finish()
                } else if seen.is_installed() {
                    let a = Action::MoveToMods {
                        from: disabled_mod_dir(self.root.as_str(), self.name.as_str()),
                        to: self.target_dir(),
                    };
                    self.step = InstallStep::Enabling;
                    self.seen = seen;
                    a
                } else {
                    let a = Action::CreateModDir { path: self.target_dir() };
                    self.step = InstallStep::CreatingDir;
                    self.seen = seen;
                    a
                }
            },
            InstallEvent::Performed { ok } => {
                match self.step {
                    InstallStep::Enabling => {
                        if ok {
                            self.seen = Presence { in_mods: true, in_disabled: false };
                            self.finish()
                        } else {
                            let place = disabled_mod_dir(
                                self.root.as_str(),
                                self.name.as_str(),
                            );
                            self.fail(ErrorKind::Filesystem, place)
                        }
                    },
                    InstallStep::CreatingDir => {
                        if ok {
                            let a = Action::Fetch { url: self.link.clone(), dest: self.dest_path() };
                            self.step = InstallStep::Connecting;
                            self.seen = Presence {
                                in_mods: true,
                                in_disabled: self.seen.in_disabled,
                            };
                            a
                        } else {
                            let place = self.target_dir();
                            self.fail(ErrorKind::Filesystem, place)
                        }
                    },
                    InstallStep::Extracting => {
                        let a = Action::Discard { path: self.dest_path() };
                        if !ok {
                            self.error = Some(
                                EngineError {
                                    kind: ErrorKind::Extract,
                                    name: self.name.clone(),
                                    place: self.dest_path(),
                                },
                            );
                        } else {
                            self.error = None;
                        }
                        self.step = InstallStep::Discarding;
                        a
                    },
                    InstallStep::Discarding => {
                        if self.error.is_some() {
                            self.step = InstallStep::Failed;
                            Action::Halt
                        } else if ok {
                            self.finish()
                        } else {
                            let place = self.dest_path();
                            self.fail(ErrorKind::Filesystem, place)
                        }
                    },
                    _ => Action::Halt,
                }
            },
            InstallEvent::Connected { length } => {
                if self.step != InstallStep::Connecting {
                    Action::Halt
                } else {
                    match length {
                        Some(n) => {
                            self.transfer = Transfer::start(n);
                            self.progress = self.transfer.progress();
                            self.step = InstallStep::Streaming;
                            Action::Receive
                        },
                        None => {
                            let place = self.link.clone();
                            self.fail(ErrorKind::Network, place)
                        },
                    }
                }
            },
            InstallEvent::Unreachable => {
                if self.step != InstallStep::Connecting {
                    Action::Halt
                } else {
                    let place = self.link.clone();
                    self.fail(ErrorKind::Network, place)
                }
            },
            InstallEvent::Chunk { len } => {
                if self.step != InstallStep::Streaming {
                    Action::Halt
                } else {
                    let mut t = self.transfer;
                    let p = t.record(len);
                    self.transfer = t;
                    self.progress = p;
                    Action::Receive
                }
            },
            InstallEvent::StreamEnded { ok } => {
                if self.step != InstallStep::Streaming {
                    Action::Halt
                } else if !ok || !self.transfer.is_complete() {
                    let place = self.link.clone();
                    self.fail(ErrorKind::Network, place)
                } else {
                    self.proceed_downloaded()
                }
            },
            InstallEvent::Digest { hex } => {
                if self.step != InstallStep::Digesting {
                    Action::Halt
                } else {
                    match hex {
                        Some(h) => {
                            if same_text_ignoring_case(h.as_str(), self.sha256.as_str()) {
                                self.proceed_verified()
                            } else {
                                let place = self.dest_path();
                                self.fail(ErrorKind::Integrity, place)
                            }
                        },
                        None => {
                            let place = self.dest_path();
                            self.fail(ErrorKind::Filesystem, place)
                        },
                    }
                }
            },
            InstallEvent::Cancel => {
                if self.step == InstallStep::Connecting || self.step == InstallStep::Streaming {
                    self.step = InstallStep::Cancelled;
                    Action::Halt
                } else {
                    Action::Halt
                }
            },
        }
    }

    /// Where the installation stands.
    pub fn step(&self) -> (r: InstallStep)
        ensures
            r == self@.step,
    {
        self.step
    }

    /// How far the download has come, in percent.
    pub fn progress(&self) -> (r: u8)
        ensures
            r == self@.progress,
    {
        self.progress
    }

    /// What the disk shows for the mod, as far as the engine knows.
    pub fn seen(&self) -> (r: Presence)
        ensures
            r == self@.seen,
    {
        self.seen
    }

    /// Whether the installation has succeeded.
    pub fn is_done(&self) -> (r: bool)
        ensures
            r == (self@.step == InstallStep::Done),
    {
        self.step == InstallStep::Done
    }

    /// Whether the installation is over.
    pub fn is_over(&self) -> (r: bool)
        ensures
            r == self@.over(),
    {
        self.step == InstallStep::Done || self.step == InstallStep::Failed || self.step
            == InstallStep::Cancelled
    }

    /// Why the installation failed, if it did.
    pub fn error(&self) -> (r: Option<EngineError>)
        ensures
            error_view(r) == self@.error,
    {
        match &self.error {
            Some(e) => Some(e.clone()),
            None => None,
        }
    }

    /// The name of the mod.
    pub fn name(&self) -> (r: &str)
        ensures
            r@ == self@.name,
    {
        self.name.as_str()
    }

    /// The record that the catalog gets of the mod once it is installed, as
    /// a value of the contracts.
    pub open spec fn record_view(&self) -> crate::mod_links::local::ManifestView {
        crate::catalog::downloaded_record(
            self@.name,
            self@.version,
            self@.sha256,
            self@.link,
        )
    }

    /// The record that the catalog gets of the mod once it is installed.
    pub fn record(&self) -> (r: crate::mod_links::local::LocalModManifest)
        ensures
            r@ == crate::catalog::downloaded_record(
                self@.name,
                self@.version,
                self@.sha256,
                self@.link,
            ),
    {
        crate::mod_links::local::LocalModManifest::downloaded(
            self.name.as_str(),
            self.version.as_str(),
            self.sha256.as_str(),
            self.link.as_str(),
        )
    }
}

} // verus!
