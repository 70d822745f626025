use vstd::prelude::*;

verus! {

/// Contract parameter flag: restrict contract membership to the process group.
pub const CT_PR_PGRPONLY: u32 = 0x4;
/// Contract parameter flag: mark the contract as a regent (inheritance anchor).
pub const CT_PR_REGENT: u32 = 0x8;
/// Process event class treated as fatal: hardware error.
pub const CT_PR_EV_HWERR: u32 = 0x20;

/// One call in the configuration sequence of an open contract template
/// descriptor. The sequence is fixed: critical events, informative events,
/// fatal events, contract parameters, then activation for the calling thread.
#[derive(Clone, Copy, Debug, PartialEq, Eq, Structural)]
pub enum TemplateOp {
    SetCritical,
    SetInformative,
    SetFatal,
    SetParam,
    Activate,
}

/// The configuration calls in the order they must be issued.
pub open spec fn op_order() -> Seq<TemplateOp> {
    seq![
        TemplateOp::SetCritical,
        TemplateOp::SetInformative,
        TemplateOp::SetFatal,
        TemplateOp::SetParam,
        TemplateOp::Activate,
    ]
}

impl TemplateOp {
    /// The event-set or parameter mask the call takes; activation takes none.
    pub open spec fn mask_spec(self) -> u32 {
        match self {
            TemplateOp::SetCritical => 0,
            TemplateOp::SetInformative => 0,
            TemplateOp::SetFatal => CT_PR_EV_HWERR,
            TemplateOp::SetParam => CT_PR_PGRPONLY | CT_PR_REGENT,
            TemplateOp::Activate => 0,
        }
    }

    /// The mask to hand to the configuration call.
    pub fn mask(&self) -> (m: u32)
        ensures
            m == self.mask_spec(),
    {
        match self {
            TemplateOp::SetCritical => 0,
            TemplateOp::SetInformative => 0,
            TemplateOp::SetFatal => CT_PR_EV_HWERR,
            TemplateOp::SetParam => CT_PR_PGRPONLY | CT_PR_REGENT,
            TemplateOp::Activate => 0,
        }
    }
}

/// The configuration call at a given position of the sequence.
pub fn op_at(i: usize) -> (op: TemplateOp)
    requires
        i < op_order().len(),
    ensures
        op == op_order()[i as int],
{
    if i == 0 {
        TemplateOp::SetCritical
    } else if i == 1 {
        TemplateOp::SetInformative
    } else if i == 2 {
        TemplateOp::SetFatal
    } else if i == 3 {
        TemplateOp::SetParam
    } else {
        TemplateOp::Activate
    }
}

/// Tracks the open-and-configure sequence on a freshly opened template
/// descriptor. The sequence fails atomically: after the first failed call no
/// further call is pending, and the descriptor still awaits its release.
#[derive(Clone, Copy, Debug, PartialEq, Eq, Structural)]
pub struct TemplateSetup {
    pub fd: i32,
    pub done: usize,
    pub failed: bool,
}

impl TemplateSetup {
    pub open spec fn wf(self) -> bool {
        &&& self.fd >= 0
        &&& self.done <= op_order().len()
        &&& (self.failed ==> self.done < op_order().len())
    }

    pub open spec fn fd_spec(self) -> i32 {
        self.fd
    }

    pub open spec fn done_spec(self) -> int {
        self.done as int
    }

    pub open spec fn failed_spec(self) -> bool {
        self.failed
    }

    /// All five calls succeeded; the template is activated for the thread.
    pub open spec fn complete(self) -> bool {
        !self.failed && self.done == op_order().len()
    }

    /// The call that must be issued next, if any.
    pub open spec fn pending_spec(self) -> Option<TemplateOp> {
        if self.failed || self.done >= op_order().len() {
            None
        } else {
            Some(op_order()[self.done as int])
        }
    }

    /// Start the sequence on a descriptor the driver has just opened.
    pub fn begin(fd: i32) -> (s: Self)
        requires
            fd >= 0,
    ensures
            s.wf(),
            s.fd_spec() == fd,
            s.done_spec() == 0,
            !s.failed_spec(),
            s.pending_spec() == Some(TemplateOp::SetCritical),
    {
        TemplateSetup { fd, done: 0, failed: false }
    }

    /// The descriptor under configuration.
    pub fn fd(&self) -> (f: i32)
        ensures
            f == self.fd_spec(),
    {
        self.fd
    }

    /// The call that must be issued next, if any.
    pub fn pending(&self) -> (op: Option<TemplateOp>)
        requires
            self.wf(),
        ensures
            op == self.pending_spec(),
    {
        if self.failed || self.done >= 5 {
            None
        } else {
            Some(op_at(self.done))
        }
    }

    /// Record the outcome of the pending call. On failure the sequence halts:
    /// nothing further is pending, and the descriptor must still be released.
    pub fn record(&mut self, ok: bool)
        requires
            old(self).wf(),
            old(self).pending_spec() is Some,
        ensures
            final(self).wf(),
            final(self).fd_spec() == old(self).fd_spec(),
            final(self).failed_spec() == !ok,
            ok ==> final(self).done_spec() == old(self).done_spec() + 1,
            !ok ==> final(self).done_spec() == old(self).done_spec(),
            final(self).complete() <==> (ok && old(self).done_spec() + 1 == op_order().len()),
    {
        if ok {
            self.done = self.done + 1;
        } else {
            self.failed = true;
        }
    }
}

/// Once a configuration call fails, no later call of the sequence is ever
/// pending: the sequence halts at the first error.
pub proof fn lemma_failed_setup_halts(s: TemplateSetup)
    requires
        s.failed_spec(),
    ensures
        s.pending_spec() is None,
{
}

/// An activated process-contract template: an open kernel descriptor together
/// with its association with the calling thread.
#[derive(Clone, Copy, Debug, PartialEq, Eq, Structural)]
pub struct ContractTemplate {
    pub fd: i32,
    pub active: bool,
    pub open: bool,
}

impl ContractTemplate {
    pub open spec fn wf(self) -> bool {
        self.fd >= 0
    }

    pub open spec fn fd_spec(self) -> i32 {
        self.fd
    }

    /// Still associated with the calling thread.
    pub open spec fn active_spec(self) -> bool {
        self.active
    }

    /// The underlying descriptor has not been released.
    pub open spec fn open_spec(self) -> bool {
        self.open
    }

    /// The state after a clear: the thread association is dropped, the
    /// descriptor stays open.
    pub open spec fn after_clear(self) -> ContractTemplate {
        ContractTemplate { active: false, ..self }
    }

    /// Take ownership of a descriptor whose configuration sequence completed.
    pub fn from_setup(s: &TemplateSetup) -> (t: Self)
        requires
            s.wf(),
            s.complete(),
        ensures
            t.wf(),
            t.fd_spec() == s.fd_spec(),
            t.active_spec(),
            t.open_spec(),
    {
        ContractTemplate { fd: s.fd(), active: true, open: true }
    }

    /// Drop the template's association with the calling thread. Idempotent in
    /// effect; allowed as long as the descriptor is open. Returns the
    /// descriptor the driver's clear call must act on.
    pub fn clear(&mut self) -> (fd: i32)
        requires
            old(self).open_spec(),
        ensures
            *final(self) == old(self).after_clear(),
            fd == old(self).fd_spec(),
    {
        self.active = false;
        self.fd
    }

    /// Give up the descriptor for its one and only close. Afterwards neither
    /// a clear nor a second release is permitted.
    pub fn release(&mut self) -> (fd: i32)
        requires
            old(self).open_spec(),
        ensures
            *final(self) == (ContractTemplate { open: false, ..*old(self) }),
            fd == old(self).fd_spec(),
    {
        self.open = false;
        self.fd
    }

    /// Whether the template is still associated with the calling thread.
    pub fn is_active(&self) -> (b: bool)
        ensures
            b == self.active_spec(),
    {
        self.active
    }

    /// Whether the descriptor has not yet been released.
    pub fn is_open(&self) -> (b: bool)
        ensures
            b == self.open_spec(),
    {
        self.open
    }
}

/// Clearing a template twice from the same thread leaves exactly the state of
/// one clear: the second call changes nothing and is always permitted while
/// the descriptor is open.
pub proof fn lemma_clear_idempotent(t: ContractTemplate)
    ensures
        t.after_clear().after_clear() == t.after_clear(),
        t.after_clear().open_spec() == t.open_spec(),
{
}

} // verus!
