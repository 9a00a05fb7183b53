use vstd::prelude::*;
use crate::guard::{OperationGuard, OperationKind};
use crate::log::{strings_view, spec_append, Outcome, ResultLog};
use crate::roots::{roots_view, RootDescriptor, RootRegistry, Store};

verus! {

/// Why a start was refused after the guard had accepted it.
pub enum StartError {
    /// The backup target could not be made ready for writing.
    BackupTargetInvalid,
    /// The restore source (as resolved) is missing or not a directory.
    RestorationSourceInvalid { path: String },
}

/// The dialog in front of the screens, if any.
pub enum Modal {
    ConfirmBackup,
    ConfirmRestore,
    Error(StartError),
}

#[derive(Clone, Copy, Debug, PartialEq, Eq, Structural)]
pub enum Screen {
    Backup,
    Restore,
}

/// The tasks of one run: one per game, all of the same kind.
pub struct Dispatch {
    pub kind: OperationKind,
    /// The games to scan, one task each.
    pub games: Vec<String>,
    /// The search roots as they stood when the run began.
    pub roots: Vec<RootDescriptor>,
    /// The resolved backup target or restore source; a backup preview has
    /// none.
    pub location: Option<String>,
    /// Whether the tasks run inside the application directory; the
    /// directory is left again on the `RestoreWorkingDir` that ends the run.
    pub enter_app_dir: bool,
}

/// What the caller has to do after an event.
pub enum Action {
    Nothing,
    /// Go back to the working directory the process started in.
    RestoreWorkingDir,
    /// Resolve this path, make it ready to receive a backup, and report
    /// through `precondition_checked`.
    CheckBackupTarget { path: String },
    /// Resolve this path, check that it is a directory, and report through
    /// `precondition_checked`.
    CheckRestoreSource { path: String },
    /// Persist the configuration, run the tasks and report each through
    /// `task_completed`.
    Dispatch(Dispatch),
}

/// Where a run stands: the kind in the guard, whether a start is waiting
/// for its precondition, and how many tasks have not reported yet.
pub struct RunStatus {
    pub kind: Option<OperationKind>,
    pub checking: bool,
    pub pending: nat,
}

pub open spec fn idle_status() -> RunStatus {
    RunStatus { kind: None, checking: false, pending: 0 }
}

/// Right after the tasks of a run of `n` games were handed out: running
/// until they report, or idle at once when there are none.
pub open spec fn dispatched(kind: OperationKind, n: nat) -> RunStatus {
    if n == 0 {
        idle_status()
    } else {
        RunStatus { kind: Some(kind), checking: false, pending: n }
    }
}

/// A start: ignored while anything runs; a backup preview dispatches at
/// once; the other kinds wait for their precondition.
pub open spec fn spec_start(s: RunStatus, kind: OperationKind, n: nat) -> RunStatus {
    if s.kind is Some {
        s
    } else if kind == OperationKind::PreviewBackup {
        dispatched(kind, n)
    } else {
        RunStatus { kind: Some(kind), checking: true, pending: 0 }
    }
}

/// The report of a precondition: a failure frees the guard, a success
/// dispatches.
pub open spec fn spec_checked(s: RunStatus, ok: bool, n: nat) -> RunStatus {
    if !s.checking || s.kind is None {
        s
    } else if !ok {
        idle_status()
    } else {
        dispatched(s.kind->Some_0, n)
    }
}

/// One task reports: the count of outstanding tasks drops, and the guard is
/// freed with the last one. A report outside a run changes nothing.
pub open spec fn after_completion(s: RunStatus) -> RunStatus {
    if s.kind is None || s.checking || s.pending == 0 {
        s
    } else if s.pending == 1 {
        idle_status()
    } else {
        RunStatus { kind: s.kind, checking: false, pending: (s.pending - 1) as nat }
    }
}

/// The status after `j` reports.
pub open spec fn completions(s: RunStatus, j: nat) -> RunStatus
    decreases j,
{
    if j == 0 {
        s
    } else {
        after_completion(completions(s, (j - 1) as nat))
    }
}

pub open spec fn opt_chars(o: Option<String>) -> Option<Seq<char>> {
    match o {
        Some(s) => Some(s@),
        None => None,
    }
}

/// `a` dispatches a run of `kind` over these games and roots.
pub open spec fn is_dispatch(
    a: Action,
    kind: OperationKind,
    games: Seq<Seq<char>>,
    roots: Seq<(Seq<char>, Store)>,
    location: Option<Seq<char>>,
) -> bool {
    match a {
        Action::Dispatch(d) => {
            &&& d.kind == kind
            &&& strings_view(d.games@) == games
            &&& roots_view(d.roots@) == roots
            &&& opt_chars(d.location) == location
            &&& d.enter_app_dir == (kind.spec_is_backup_side() && games.len() > 0)
        },
        _ => false,
    }
}

/// The whole state behind the two screens: the guard, the confirmation
/// dialog, the settings that runs read, the manifest's games and the two
/// result logs.
pub struct Orchestrator {
    guard: OperationGuard,
    checking: bool,
    pending: usize,
    modal: Option<Modal>,
    screen: Screen,
    backup_path: String,
    restore_path: String,
    roots: RootRegistry,
    games: Vec<String>,
    backup_log: ResultLog,
    restore_log: ResultLog,
}

impl Orchestrator {
    pub closed spec fn status(&self) -> RunStatus {
        RunStatus { kind: self.guard@, checking: self.checking, pending: self.pending as nat }
    }

    pub closed spec fn wf(&self) -> bool {
        &&& self.backup_log.wf()
        &&& self.restore_log.wf()
        &&& self.guard@ is None ==> !self.checking && self.pending == 0
        &&& self.checking ==> self.pending == 0
        &&& (self.guard@ is Some && !self.checking) ==> self.pending > 0
    }

    pub closed spec fn spec_games(&self) -> Seq<Seq<char>> {
        strings_view(self.games@)
    }

    pub closed spec fn spec_roots(&self) -> Seq<(Seq<char>, Store)> {
        self.roots@
    }

    pub closed spec fn spec_backup_path(&self) -> Seq<char> {
        self.backup_path@
    }

    pub closed spec fn spec_restore_path(&self) -> Seq<char> {
        self.restore_path@
    }

    pub closed spec fn spec_modal(&self) -> Option<Modal> {
        self.modal
    }

    pub closed spec fn spec_screen(&self) -> Screen {
        self.screen
    }

    /// The log of the backup screen, or of the restore screen.
    pub closed spec fn spec_log(&self, backup_side: bool) -> ResultLog {
        if backup_side {
            self.backup_log
        } else {
            self.restore_log
        }
    }

    /// The run and both logs are as they were.
    pub open spec fn same_run(&self, other: &Orchestrator) -> bool {
        &&& self.status() == other.status()
        &&& self.spec_log(true) == other.spec_log(true)
        &&& self.spec_log(false) == other.spec_log(false)
        &&& self.spec_games() == other.spec_games()
    }

    /// The settings that a run reads are as they were.
    pub open spec fn same_settings(&self, other: &Orchestrator) -> bool {
        &&& self.spec_roots() == other.spec_roots()
        &&& self.spec_backup_path() == other.spec_backup_path()
        &&& self.spec_restore_path() == other.spec_restore_path()
    }

    /// What an accepted start of `kind` leaves, coming from `prev` and
    /// returning `a`: the screen's log emptied, the other log, the games,
    /// the settings and the screen as they were, the dialog closed; a real
    /// backup asks for its target to be checked, a restore or its preview
    /// for its source, and a backup preview dispatches at once.
    pub open spec fn accepted_start(&self, prev: &Orchestrator, kind: OperationKind, a: Action) -> bool {
        let side = kind.spec_is_backup_side();
        &&& self.spec_log(side)@.len() == 0
        &&& self.spec_log(side).history().len() == 0
        &&& self.spec_log(!side) == prev.spec_log(!side)
        &&& self.spec_games() == prev.spec_games()
        &&& self.same_settings(prev)
        &&& self.spec_modal() is None
        &&& self.spec_screen() == prev.spec_screen()
        &&& kind == OperationKind::Backup ==> (a matches Action::CheckBackupTarget { path }
            && path@ == prev.spec_backup_path())
        &&& !side ==> (a matches Action::CheckRestoreSource { path } && path@
            == prev.spec_restore_path())
        &&& kind == OperationKind::PreviewBackup ==> is_dispatch(
            a,
            kind,
            prev.spec_games(),
            prev.spec_roots(),
            None,
        )
    }

    /// The dialog and the shown screen are as they were.
    pub open spec fn same_display(&self, other: &Orchestrator) -> bool {
        &&& self.spec_modal() == other.spec_modal()
        &&& self.spec_screen() == other.spec_screen()
    }

    pub fn new(
        games: Vec<String>,
        backup_path: String,
        restore_path: String,
        roots: RootRegistry,
    ) -> (r: Orchestrator)
        ensures
            r.wf(),
            r.status() == idle_status(),
            r.spec_modal() is None,
            r.spec_screen() == Screen::Backup,
            r.spec_games() == strings_view(games@),
            r.spec_roots() == roots@,
            r.spec_backup_path() == backup_path@,
            r.spec_restore_path() == restore_path@,
            r.spec_log(true)@.len() == 0,
            r.spec_log(false)@.len() == 0,
    {
        Orchestrator {
            guard: OperationGuard::new(),
            checking: false,
            pending: 0,
            modal: None,
            screen: Screen::Backup,
            backup_path,
            restore_path,
            roots,
            games,
            backup_log: ResultLog::new(),
            restore_log: ResultLog::new(),
        }
    }
    /// Hands out the tasks of a run of `kind`, which the guard holds.
    fn dispatch(&mut self, kind: OperationKind, location: Option<String>) -> (a: Action)
        requires
            old(self).spec_log(true).wf(),
            old(self).spec_log(false).wf(),
            old(self).guard@ == Some(kind),
        ensures
            final(self).wf(),
            final(self).status() == dispatched(kind, old(self).spec_games().len()),
            final(self).spec_log(true) == old(self).spec_log(true),
            final(self).spec_log(false) == old(self).spec_log(false),
            final(self).spec_games() == old(self).spec_games(),
            final(self).same_settings(old(self)),
            final(self).spec_modal() == old(self).spec_modal(),
            final(self).spec_screen() == old(self).spec_screen(),
            is_dispatch(
                a,
                kind,
                old(self).spec_games(),
                old(self).spec_roots(),
                opt_chars(location),
            ),
    {
        let mut games: Vec<String> = Vec::new();
        let mut i: usize = 0;
        while i < self.games.len()
            invariant
                i <= self.games@.len(),
                games@.len() == i,
                forall|j: int| 0 <= j < i ==> games@[j]@ == self.games@[j]@,
            decreases self.games@.len() - i,
        {
            games.push(self.games[i].clone());
            i = i + 1;
        }
        assert(strings_view(games@) =~= self.spec_games());
        let n = self.games.len();
        self.checking = false;
        self.pending = n;
        if n == 0 {
            self.guard.finish();
        }
        let backup_side = kind.is_backup_side();
        Action::Dispatch(
            Dispatch {
                kind,
                games,
                roots: self.roots.snapshot(),
                location,
                enter_app_dir: backup_side && n > 0,
            },
        )
    }

    /// Starts an operation of `kind`. While another one runs this does
    /// nothing. Otherwise the guard takes `kind`, the screen's log is
    /// cleared and the dialog closed; a backup preview dispatches at once,
    /// the other kinds first ask for their precondition to be checked.
    pub fn start(&mut self, kind: OperationKind) -> (a: Action)
        requires
            old(self).wf(),
        ensures
            final(self).wf(),
            final(self).status() == spec_start(old(self).status(), kind, old(self).spec_games().len()),
            old(self).status().kind is Some ==> a is Nothing && *final(self) == *old(self),
            old(self).status().kind is None ==> final(self).accepted_start(old(self), kind, a),
    {
        if !self.guard.try_start(kind) {
            return Action::Nothing;
        }
        if kind.is_backup_side() {
            self.backup_log.clear();
        } else {
            self.restore_log.clear();
        }
        self.modal = None;
        match kind {
            OperationKind::PreviewBackup => self.dispatch(kind, None),
            OperationKind::Backup => {
                self.checking = true;
                Action::CheckBackupTarget { path: self.backup_path.clone() }
            },
            _ => {
                self.checking = true;
                Action::CheckRestoreSource { path: self.restore_path.clone() }
            },
        }
    }

    /// The report of a precondition check, with the path as it was
    /// resolved. A failure frees the guard and shows the error; a success
    /// dispatches the run. Outside a pending start this does nothing.
    pub fn precondition_checked(&mut self, resolved: String, ok: bool) -> (a: Action)
        requires
            old(self).wf(),
        ensures
            final(self).wf(),
            final(self).status() == spec_checked(old(self).status(), ok, old(self).spec_games().len()),
            !old(self).status().checking ==> a is Nothing && *final(self) == *old(self),
            old(self).status().checking ==> {
                &&& final(self).spec_log(true) == old(self).spec_log(true)
                &&& final(self).spec_log(false) == old(self).spec_log(false)
                &&& final(self).spec_games() == old(self).spec_games()
                &&& final(self).same_settings(old(self))
                &&& final(self).spec_screen() == old(self).spec_screen()
            },
            old(self).status().checking && !ok ==> {
                &&& a is Nothing
                &&& old(self).status().kind == Some(OperationKind::Backup) ==> (final(self).spec_modal()
                    matches Some(Modal::Error(StartError::BackupTargetInvalid)))
                &&& old(self).status().kind != Some(OperationKind::Backup) ==> (final(self).spec_modal()
                    matches Some(Modal::Error(StartError::RestorationSourceInvalid { path }))
                    && path@ == resolved@)
            },
            old(self).status().checking && ok ==> {
                &&& final(self).spec_modal() == old(self).spec_modal()
                &&& is_dispatch(
                    a,
                    old(self).status().kind->Some_0,
                    old(self).spec_games(),
                    old(self).spec_roots(),
                    Some(resolved@),
                )
            },
    {
        if !self.checking {
            return Action::Nothing;
        }
        let kind = match self.guard.current_kind() {
            Some(k) => k,
            None => {
                return Action::Nothing;
            },
        };
        if !ok {
            self.checking = false;
            self.guard.finish();
            let error = match kind {
                OperationKind::Backup => StartError::BackupTargetInvalid,
                _ => StartError::RestorationSourceInvalid { path: resolved },
            };
            self.modal = Some(Modal::Error(error));
            return Action::Nothing;
        }
        self.dispatch(kind, Some(resolved))
    }

    /// A task of the current run reports its outcome for `game`: the outcome
    /// goes to the log of the run's screen, and the last report frees the
    /// guard (and, after a backup or its preview, asks to leave the
    /// application directory). A report outside a run changes nothing.
    pub fn task_completed(&mut self, game: String, outcome: Outcome) -> (a: Action)
        requires
            old(self).wf(),
        ensures
            final(self).wf(),
            final(self).status() == after_completion(old(self).status()),
            ({
                let s = old(self).status();
                let running = s.kind is Some && !s.checking && s.pending > 0;
                &&& !running ==> a is Nothing && *final(self) == *old(self)
                &&& running ==> {
                    let side = s.kind->Some_0.spec_is_backup_side();
                    &&& final(self).spec_log(side)@ == spec_append(
                        old(self).spec_log(side)@,
                        game@,
                        outcome@,
                    )
                    &&& final(self).spec_log(side).history() == old(self).spec_log(
                        side,
                    ).history().push((game@, outcome@.is_match()))
                    &&& final(self).spec_log(!side) == old(self).spec_log(!side)
                    &&& final(self).spec_games() == old(self).spec_games()
                    &&& final(self).same_settings(old(self))
                    &&& final(self).spec_modal() == old(self).spec_modal()
                    &&& final(self).spec_screen() == old(self).spec_screen()
                    &&& (s.pending == 1 && side) ==> a is RestoreWorkingDir
                    &&& !(s.pending == 1 && side) ==> a is Nothing
                }
            }),
    {
        if self.checking || self.pending == 0 {
            return Action::Nothing;
        }
        let kind = match self.guard.current_kind() {
            Some(k) => k,
            None => {
                return Action::Nothing;
            },
        };
        let backup_side = kind.is_backup_side();
        if backup_side {
            self.backup_log.append(game, outcome);
        } else {
            self.restore_log.append(game, outcome);
        }
        self.pending = self.pending - 1;
        if self.pending == 0 {
            self.guard.finish();
            if backup_side {
                return Action::RestoreWorkingDir;
            }
        }
        Action::Nothing
    }
    /// Asks for confirmation before a real backup.
    pub fn request_backup(&mut self)
        requires
            old(self).wf(),
        ensures
            final(self).wf(),
            final(self).spec_modal() matches Some(Modal::ConfirmBackup),
            final(self).same_run(old(self)),
            final(self).same_settings(old(self)),
            final(self).spec_screen() == old(self).spec_screen(),
    {
        self.modal = Some(Modal::ConfirmBackup);
    }

    /// Asks for confirmation before a real restore.
    pub fn request_restore(&mut self)
        requires
            old(self).wf(),
        ensures
            final(self).wf(),
            final(self).spec_modal() matches Some(Modal::ConfirmRestore),
            final(self).same_run(old(self)),
            final(self).same_settings(old(self)),
            final(self).spec_screen() == old(self).spec_screen(),
    {
        self.modal = Some(Modal::ConfirmRestore);
    }

    /// Closes the dialog without going on, and asks to go back to the
    /// working directory the process started in.
    pub fn dismiss(&mut self) -> (a: Action)
        requires
            old(self).wf(),
        ensures
            final(self).wf(),
            a is RestoreWorkingDir,
            final(self).spec_modal() is None,
            final(self).same_run(old(self)),
            final(self).same_settings(old(self)),
            final(self).spec_screen() == old(self).spec_screen(),
    {
        self.modal = None;
        Action::RestoreWorkingDir
    }

    /// The positive answer to the dialog: a pending confirmation starts its
    /// operation, an error is dismissed.
    pub fn confirm(&mut self) -> (a: Action)
        requires
            old(self).wf(),
        ensures
            final(self).wf(),
            final(self).spec_modal() is None,
            final(self).spec_screen() == old(self).spec_screen(),
            final(self).same_settings(old(self)),
            ({
                let confirming = old(self).spec_modal() matches Some(Modal::ConfirmBackup)
                    || old(self).spec_modal() matches Some(Modal::ConfirmRestore);
                let kind = if old(self).spec_modal() matches Some(Modal::ConfirmBackup) {
                    OperationKind::Backup
                } else {
                    OperationKind::Restore
                };
                &&& confirming ==> final(self).status() == spec_start(
                    old(self).status(),
                    kind,
                    old(self).spec_games().len(),
                )
                &&& (confirming && old(self).status().kind is None) ==> final(self).accepted_start(
                    old(self),
                    kind,
                    a,
                )
                &&& (confirming && old(self).status().kind is Some) ==> (a is Nothing
                    && final(self).same_run(old(self)))
                &&& !confirming ==> (a is RestoreWorkingDir && final(self).same_run(old(self)))
            }),
    {
        let kind = match &self.modal {
            Some(Modal::ConfirmBackup) => OperationKind::Backup,
            Some(Modal::ConfirmRestore) => OperationKind::Restore,
            _ => {
                return self.dismiss();
            },
        };
        self.modal = None;
        self.start(kind)
    }

    pub fn set_backup_path(&mut self, path: String)
        requires
            old(self).wf(),
        ensures
            final(self).wf(),
            final(self).spec_backup_path() == path@,
            final(self).spec_restore_path() == old(self).spec_restore_path(),
            final(self).spec_roots() == old(self).spec_roots(),
            final(self).same_display(old(self)),
            final(self).same_run(old(self)),
    {
        self.backup_path = path;
    }

    pub fn set_restore_path(&mut self, path: String)
        requires
            old(self).wf(),
        ensures
            final(self).wf(),
            final(self).spec_restore_path() == path@,
            final(self).spec_backup_path() == old(self).spec_backup_path(),
            final(self).spec_roots() == old(self).spec_roots(),
            final(self).same_display(old(self)),
            final(self).same_run(old(self)),
    {
        self.restore_path = path;
    }

    /// Appends a root with an empty path and the `Other` store.
    pub fn add_root(&mut self)
        requires
            old(self).wf(),
        ensures
            final(self).wf(),
            final(self).spec_roots() == old(self).spec_roots().push(
                (Seq::<char>::empty(), Store::Other),
            ),
            final(self).spec_backup_path() == old(self).spec_backup_path(),
            final(self).spec_restore_path() == old(self).spec_restore_path(),
            final(self).same_display(old(self)),
            final(self).same_run(old(self)),
    {
        self.roots.add_root();
    }

    pub fn set_root_path(&mut self, index: usize, path: String)
        requires
            old(self).wf(),
            index < old(self).spec_roots().len(),
        ensures
            final(self).wf(),
            final(self).spec_roots() == old(self).spec_roots().update(
                index as int,
                (path@, old(self).spec_roots()[index as int].1),
            ),
            final(self).spec_backup_path() == old(self).spec_backup_path(),
            final(self).spec_restore_path() == old(self).spec_restore_path(),
            final(self).same_display(old(self)),
            final(self).same_run(old(self)),
    {
        self.roots.set_path(index, path);
    }

    pub fn set_root_store(&mut self, index: usize, store: Store)
        requires
            old(self).wf(),
            index < old(self).spec_roots().len(),
        ensures
            final(self).wf(),
            final(self).spec_roots() == old(self).spec_roots().update(
                index as int,
                (old(self).spec_roots()[index as int].0, store),
            ),
            final(self).spec_backup_path() == old(self).spec_backup_path(),
            final(self).spec_restore_path() == old(self).spec_restore_path(),
            final(self).same_display(old(self)),
            final(self).same_run(old(self)),
    {
        self.roots.set_store(index, store);
    }

    pub fn remove_root(&mut self, index: usize)
        requires
            old(self).wf(),
            index < old(self).spec_roots().len(),
        ensures
            final(self).wf(),
            final(self).spec_roots() == old(self).spec_roots().remove(index as int),
            final(self).spec_backup_path() == old(self).spec_backup_path(),
            final(self).spec_restore_path() == old(self).spec_restore_path(),
            final(self).same_display(old(self)),
            final(self).same_run(old(self)),
    {
        self.roots.remove(index);
    }

    pub fn show_screen(&mut self, screen: Screen)
        requires
            old(self).wf(),
        ensures
            final(self).wf(),
            final(self).spec_screen() == screen,
            final(self).spec_modal() == old(self).spec_modal(),
            final(self).same_run(old(self)),
            final(self).same_settings(old(self)),
    {
        self.screen = screen;
    }

    /// The operation in flight, if any.
    pub fn current_kind(&self) -> (r: Option<OperationKind>)
        ensures
            r == self.status().kind,
    {
        self.guard.current_kind()
    }

    /// Whether controls that start an operation are enabled.
    pub fn is_idle(&self) -> (r: bool)
        ensures
            r == (self.status().kind is None),
    {
        self.guard.is_idle()
    }

    /// The number of tasks of the current run that have not reported.
    pub fn pending(&self) -> (n: usize)
        ensures
            n == self.status().pending,
    {
        self.pending
    }

    pub fn modal(&self) -> (r: &Option<Modal>)
        ensures
            *r == self.spec_modal(),
    {
        &self.modal
    }

    pub fn screen(&self) -> (r: Screen)
        ensures
            r == self.spec_screen(),
    {
        self.screen
    }

    pub fn backup_log(&self) -> (r: &ResultLog)
        requires
            self.wf(),
        ensures
            *r == self.spec_log(true),
            r.wf(),
    {
        &self.backup_log
    }

    pub fn restore_log(&self) -> (r: &ResultLog)
        requires
            self.wf(),
        ensures
            *r == self.spec_log(false),
            r.wf(),
    {
        &self.restore_log
    }

    pub fn roots(&self) -> (r: &RootRegistry)
        ensures
            r@ == self.spec_roots(),
    {
        &self.roots
    }

    pub fn backup_path(&self) -> (r: &String)
        ensures
            r@ == self.spec_backup_path(),
    {
        &self.backup_path
    }

    pub fn restore_path(&self) -> (r: &String)
        ensures
            r@ == self.spec_restore_path(),
    {
        &self.restore_path
    }
}

proof fn lemma_completions_while_running(kind: OperationKind, n: nat, j: nat)
    requires
        j < n,
    ensures
        completions(dispatched(kind, n), j) == (RunStatus {
            kind: Some(kind),
            checking: false,
            pending: (n - j) as nat,
        }),
    decreases j,
{
    if j > 0 {
        lemma_completions_while_running(kind, n, (j - 1) as nat);
    }
}

/// A run started from idle holds the guard for one unbroken period: it
/// holds `kind` from the start (and, for the kinds that check a
/// precondition, through a successful check) until exactly `n` tasks have
/// reported, and is idle after the `n`-th; with no games it is idle as
/// soon as it is dispatched.
pub proof fn lemma_run_returns_to_idle(kind: OperationKind, n: nat)
    ensures
        ({
            let started = spec_start(idle_status(), kind, n);
            let running = if kind == OperationKind::PreviewBackup {
                started
            } else {
                spec_checked(started, true, n)
            };
            &&& kind != OperationKind::PreviewBackup ==> started.kind == Some(kind)
            &&& running == dispatched(kind, n)
            &&& forall|j: nat| j < n ==> (#[trigger] completions(running, j)).kind == Some(kind)
            &&& completions(running, n).kind is None
        }),
{
    assert forall|j: nat| j < n implies (#[trigger] completions(dispatched(kind, n), j)).kind == Some(
        kind,
    ) by {
        lemma_completions_while_running(kind, n, j);
    }
    if n > 0 {
        lemma_completions_while_running(kind, n, (n - 1) as nat);
    }
}

} // verus!
