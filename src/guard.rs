use vstd::prelude::*;

verus! {

/// The four operations that the orchestrator can run.
#[derive(Clone, Copy, Debug, PartialEq, Eq, Structural)]
pub enum OperationKind {
    Backup,
    PreviewBackup,
    Restore,
    PreviewRestore,
}

impl OperationKind {
    /// Backup and its preview scan the configured roots (and run inside the
    /// application directory); the other two read a restore source.
    pub open spec fn spec_is_backup_side(self) -> bool {
        self == OperationKind::Backup || self == OperationKind::PreviewBackup
    }

    /// Only the real backup and the real restore change anything outside.
    pub open spec fn spec_mutates(self) -> bool {
        self == OperationKind::Backup || self == OperationKind::Restore
    }

    pub fn is_backup_side(&self) -> (r: bool)
        ensures
            r == self.spec_is_backup_side(),
    {
        match self {
            OperationKind::Backup | OperationKind::PreviewBackup => true,
            _ => false,
        }
    }

    pub fn mutates(&self) -> (r: bool)
        ensures
            r == self.spec_mutates(),
    {
        match self {
            OperationKind::Backup | OperationKind::Restore => true,
            _ => false,
        }
    }
}

/// What `try_start` does to a guard state: it accepts exactly when the guard
/// is idle, and then records the kind that now runs.
pub open spec fn spec_try_start(state: Option<OperationKind>, kind: OperationKind) -> (
    bool,
    Option<OperationKind>,
) {
    if state is None {
        (true, Some(kind))
    } else {
        (false, state)
    }
}

/// The single slot that says which operation, if any, is in flight.
pub struct OperationGuard {
    current: Option<OperationKind>,
}

impl View for OperationGuard {
    type V = Option<OperationKind>;

    closed spec fn view(&self) -> Option<OperationKind> {
        self.current
    }
}

impl OperationGuard {
    pub fn new() -> (r: OperationGuard)
        ensures
            r@ is None,
    {
        OperationGuard { current: None }
    }

    /// Test-and-set on the idle state.
    pub fn try_start(&mut self, kind: OperationKind) -> (accepted: bool)
        ensures
            (accepted, final(self)@) == spec_try_start(old(self)@, kind),
            !accepted ==> *final(self) == *old(self),
    {
        if self.current.is_none() {
            self.current = Some(kind);
            true
        } else {
            false
        }
    }

    /// Back to idle, whatever the state was.
    pub fn finish(&mut self)
        ensures
            final(self)@ is None,
    {
        self.current = None;
    }

    pub fn current_kind(&self) -> (r: Option<OperationKind>)
        ensures
            r == self@,
    {
        self.current
    }

    pub fn is_idle(&self) -> (r: bool)
        ensures
            r == (self@ is None),
    {
        self.current.is_none()
    }
}

/// Two starts on one guard that is idle: the first is accepted and the
/// second rejected, whichever kinds they ask for and in whichever order they
/// come, and the guard then holds the kind of the accepted one.
pub proof fn lemma_try_start_exclusive(
    state: Option<OperationKind>,
    first: OperationKind,
    second: OperationKind,
)
    requires
        state is None,
    ensures
        spec_try_start(state, first).0,
        !spec_try_start(spec_try_start(state, first).1, second).0,
        spec_try_start(spec_try_start(state, first).1, second).1 == Some(first),
{
}

} // verus!
