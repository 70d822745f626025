use vstd::prelude::*;
use crate::errors::RunError;
use crate::hook::ZoneEntryHook;
use crate::launch::{LaunchSpec, make_launch_spec};
use crate::output::{assess, assess_spec};
use crate::template::{ContractTemplate, TemplateOp, TemplateSetup, op_order};

verus! {

/// What the unverified driver must do next. The driver performs the system
/// call the action names and reports the result back; it makes no decision of
/// its own.
#[derive(Debug, PartialEq, Eq)]
pub enum Action {
    /// Open the process contract template resource, read-write.
    OpenTemplate,
    /// Issue this configuration call on the open descriptor.
    Configure { fd: i32, op: TemplateOp },
    /// Fork and exec the child this specification describes, collecting its
    /// terminal status and captured standard output.
    Launch { spec: LaunchSpec },
    /// Clear the parent thread's own template association on this descriptor.
    ClearParent { fd: i32 },
    /// Close this descriptor — exactly once per run; a failed close is fatal
    /// to the whole process, not an error value.
    CloseTemplate { fd: i32 },
    /// The run is over; the outcome is ready to be taken.
    Finish,
}

/// An action stripped of its launch payload, as recorded in a run's history.
#[derive(PartialEq, Eq, Structural)]
pub enum ActionKind {
    OpenTemplate,
    Configure { fd: i32, op: TemplateOp },
    Launch,
    ClearParent { fd: i32 },
    CloseTemplate { fd: i32 },
    Finish,
}

/// The history entry an action leaves behind.
pub open spec fn kind_of(a: Action) -> ActionKind {
    match a {
        Action::OpenTemplate => ActionKind::OpenTemplate,
        Action::Configure { fd, op } => ActionKind::Configure { fd, op },
        Action::Launch { .. } => ActionKind::Launch,
        Action::ClearParent { fd } => ActionKind::ClearParent { fd },
        Action::CloseTemplate { fd } => ActionKind::CloseTemplate { fd },
        Action::Finish => ActionKind::Finish,
    }
}

/// How many closes of the template descriptor a history holds.
pub open spec fn close_count(s: Seq<ActionKind>) -> nat
    decreases s.len(),
{
    if s.len() == 0 {
        0
    } else {
        close_count(s.drop_last()) + (if s.last() is CloseTemplate {
            1nat
        } else {
            0nat
        })
    }
}

/// A history free of any contract-template interaction: only the fork and the
/// end of the run appear in it.
pub open spec fn only_launch_and_finish(s: Seq<ActionKind>) -> bool {
    forall|i: int| 0 <= i < s.len() ==> (s[i] is Launch || s[i] is Finish)
}

/// The configuration call that activates the template for the calling thread.
pub open spec fn is_activation(k: ActionKind) -> bool {
    k matches ActionKind::Configure { op, .. } && op is Activate
}

/// Every fork in the history comes strictly after an activation of the
/// contract template.
pub open spec fn launch_after_activation(s: Seq<ActionKind>) -> bool {
    forall|i: int|
        0 <= i < s.len() && s[i] is Launch ==> exists|j: int| 0 <= j < i && is_activation(s[j])
}

proof fn lemma_close_count_push(s: Seq<ActionKind>, x: ActionKind)
    ensures
        close_count(s.push(x)) == close_count(s) + (if x is CloseTemplate {
            1nat
        } else {
            0nat
        }),
{
    assert(s.push(x).drop_last() =~= s);
    assert(s.push(x).last() == x);
}

proof fn lemma_only_launch_and_finish_push(s: Seq<ActionKind>, x: ActionKind)
    requires
        only_launch_and_finish(s),
        x is Launch || x is Finish,
    ensures
        only_launch_and_finish(s.push(x)),
{
    let t = s.push(x);
    assert forall|i: int| 0 <= i < t.len() implies (t[i] is Launch || t[i] is Finish) by {
        if i < s.len() {
            assert(t[i] == s[i]);
        } else {
            assert(t[i] == x);
        }
    }
}

proof fn lemma_launch_after_activation_push(s: Seq<ActionKind>, x: ActionKind)
    requires
        launch_after_activation(s),
        x is Launch ==> s.len() >= 1 && is_activation(s.last()),
    ensures
        launch_after_activation(s.push(x)),
{
    let t = s.push(x);
    assert forall|i: int| 0 <= i < t.len() && t[i] is Launch implies exists|j: int|
        0 <= j < i && is_activation(t[j]) by {
        if i < s.len() {
            assert(t[i] == s[i]);
            assert(exists|j: int| 0 <= j < i && is_activation(s[j]));
            let j = choose|j: int| 0 <= j < i && is_activation(s[j]);
            assert(t[j] == s[j]);
        } else {
            let j = s.len() - 1;
            assert(t[j] == s[j]);
            assert(0 <= j < i && is_activation(t[j]));
        }
    }
}

/// The outcome a collected launch maps to: a spawn failure is the spawn
/// error, everything else is assessed by terminal status and output.
pub open spec fn outcome_for(out: LaunchOutcome) -> Result<Seq<u8>, RunError> {
    match out {
        LaunchOutcome::SpawnFailed => Err(RunError::Spawn),
        LaunchOutcome::Completed { success, stdout } => assess_spec(success, stdout@),
    }
}

/// A run outcome with the formatted output abstracted to its byte sequence.
pub open spec fn result_view(r: Result<Vec<u8>, RunError>) -> Result<Seq<u8>, RunError> {
    match r {
        Ok(v) => Ok(v@),
        Err(e) => Err(e),
    }
}

/// What came back from the fork, exec and collect step.
#[derive(Clone, Debug, PartialEq, Eq)]
pub enum LaunchOutcome {
    /// The child could not be spawned; a failure of the pre-execution hook in
    /// the child surfaces here, indistinguishable from an exec failure.
    SpawnFailed,
    /// The child reached a terminal status; its standard output was captured.
    Completed { success: bool, stdout: Vec<u8> },
}

/// Map one collected launch to the run outcome.
pub fn collect_outcome(out: LaunchOutcome) -> (r: Result<Vec<u8>, RunError>)
    ensures
        result_view(r) == outcome_for(out),
{
    match out {
        LaunchOutcome::SpawnFailed => Err(RunError::Spawn),
        LaunchOutcome::Completed { success, stdout } => assess(success, &stdout),
    }
}

/// Where a run stands, with the data the next decision needs.
#[derive(Debug)]
pub enum Phase {
    /// Nothing has happened yet.
    Start,
    /// The driver is opening the template resource.
    AwaitOpen,
    /// The configuration sequence is under way on the open descriptor.
    Configuring { setup: TemplateSetup },
    /// The driver is forking and collecting the child.
    AwaitLaunch { tmpl: Option<ContractTemplate> },
    /// The launch returned; the parent must clear its own association before
    /// anything else.
    AwaitClear { tmpl: ContractTemplate, out: LaunchOutcome },
    /// The descriptor awaits its one close; the outcome is already decided.
    AwaitClose { fd: i32, pending: Result<Vec<u8>, RunError> },
    /// Terminal.
    Finished { outcome: Result<Vec<u8>, RunError> },
}

/// Drives one launch: optionally prepares and activates a contract template,
/// launches the child with the zone-entry hook installed, clears the template
/// in the parent immediately after the fork point returns, collects the
/// child, and releases the descriptor on every path that opened one.
pub struct Runner {
    /// The target zone, absent for a launch in the current zone.
    pub zone: Option<i32>,
    pub phase: Phase,
    /// Every action handed to the driver so far, in order.
    pub hist: Ghost<Seq<ActionKind>>,
    /// The template resource was opened at some point of this run.
    pub opened: bool,
    /// The template was activated for the parent thread at some point.
    pub activated: bool,
    /// The fork point was passed at some point.
    pub launched: bool,
    /// The parent cleared its own template association.
    pub parent_cleared: bool,
    /// A close of the descriptor was handed to the driver.
    pub close_requested: bool,
}

impl Runner {
    pub open spec fn wf(self) -> bool {
        &&& (self.zone matches Some(z) ==> z >= 1)
        &&& (self.zone is None ==> !self.opened && !self.activated && !self.parent_cleared
            && !self.close_requested)
        &&& (self.close_requested ==> self.opened)
        &&& (self.activated ==> self.opened)
        &&& (self.launched && self.zone is Some ==> self.activated)
        &&& close_count(self.hist@) == (if self.close_requested {
            1nat
        } else {
            0nat
        })
        &&& (self.zone is None ==> only_launch_and_finish(self.hist@))
        &&& (self.zone is Some ==> launch_after_activation(self.hist@))
        &&& (match self.phase {
            Phase::Start => !self.opened && !self.activated && !self.launched
                && !self.parent_cleared && !self.close_requested,
            Phase::AwaitOpen => self.zone is Some && !self.opened && !self.activated
                && !self.launched && !self.parent_cleared && !self.close_requested,
            Phase::Configuring { setup } => self.zone is Some && self.opened && !self.activated
                && !self.launched && !self.parent_cleared && !self.close_requested
                && setup.wf() && setup.pending_spec() is Some && self.hist@.len() >= 1
                && self.hist@.last() == (ActionKind::Configure {
                fd: setup.fd_spec(),
                op: op_order()[setup.done_spec()],
            }),
            Phase::AwaitLaunch { tmpl } => !self.launched && !self.parent_cleared
                && !self.close_requested && (self.zone is Some <==> tmpl is Some)
                && (tmpl matches Some(t) ==> t.wf() && t.active_spec() && t.open_spec()
                    && self.opened && self.activated),
            Phase::AwaitClear { tmpl, out } => self.zone is Some && self.opened && self.activated
                && self.launched && !self.parent_cleared && !self.close_requested
                && tmpl.wf() && tmpl.open_spec(),
            Phase::AwaitClose { fd, pending } => self.zone is Some && self.opened
                && self.close_requested && fd >= 0
                && (self.launched ==> self.parent_cleared),
            Phase::Finished { outcome } => (self.opened <==> self.close_requested)
                && (self.launched && self.zone is Some ==> self.parent_cleared),
        })
    }

    /// A fresh run for the given target.
    pub fn new(zone: Option<i32>) -> (r: Self)
        requires
            zone matches Some(z) ==> z >= 1,
        ensures
            r.wf(),
            r.zone == zone,
            r.phase is Start,
            r.hist@ == Seq::<ActionKind>::empty(),
            !r.opened && !r.activated && !r.launched && !r.parent_cleared && !r.close_requested,
    {
        Runner {
            zone,
            phase: Phase::Start,
            hist: Ghost(Seq::empty()),
            opened: false,
            activated: false,
            launched: false,
            parent_cleared: false,
            close_requested: false,
        }
    }

    /// Begin: a zoned run first opens the template resource; a run without a
    /// zone target goes straight to the launch, with no template anywhere.
    pub fn start(self) -> (ra: (Self, Action))
        requires
            self.wf(),
            self.phase is Start,
        ensures
            ra.0.wf(),
            ra.0.zone == self.zone,
            ra.0.hist@ == self.hist@.push(kind_of(ra.1)),
            !(ra.1 is CloseTemplate),
            ra.0.close_requested == self.close_requested,
            self.zone is None ==> {
                &&& ra.0.phase matches Phase::AwaitLaunch { tmpl } && tmpl is None
                &&& ra.1 matches Action::Launch { spec }
                    && crate::launch::is_launch_spec_for(spec, self.zone, None)
                &&& !ra.0.opened
            },
            self.zone is Some ==> ra.0.phase is AwaitOpen && ra.1 is OpenTemplate,
    {
        match self.zone {
            None => {
                let spec = make_launch_spec(None, None);
                proof {
                    lemma_close_count_push(self.hist@, ActionKind::Launch);
                    lemma_only_launch_and_finish_push(self.hist@, ActionKind::Launch);
                }
                (
                    Runner {
                        phase: Phase::AwaitLaunch { tmpl: None },
                        hist: Ghost(self.hist@.push(ActionKind::Launch)),
                        ..self
                    },
                    Action::Launch { spec },
                )
            }
            Some(_) => {
                proof {
                    lemma_close_count_push(self.hist@, ActionKind::OpenTemplate);
                    lemma_launch_after_activation_push(self.hist@, ActionKind::OpenTemplate);
                }
                (
                    Runner {
                        phase: Phase::AwaitOpen,
                        hist: Ghost(self.hist@.push(ActionKind::OpenTemplate)),
                        ..self
                    },
                    Action::OpenTemplate,
                )
            }
        }
    }

    /// The open of the template resource came back. A failure ends the run
    /// with the resource error — nothing was opened, so nothing is released.
    /// A success starts the configuration sequence on the new descriptor.
    pub fn on_open(self, fd: Option<i32>) -> (ra: (Self, Action))
        requires
            self.wf(),
            self.phase is AwaitOpen,
            fd matches Some(f) ==> f >= 0,
        ensures
            ra.0.wf(),
            ra.0.zone == self.zone,
            ra.0.hist@ == self.hist@.push(kind_of(ra.1)),
            !(ra.1 is CloseTemplate),
            ra.0.close_requested == self.close_requested,
            fd is None ==> {
                &&& ra.0.phase matches Phase::Finished { outcome }
                    && outcome == Err::<Vec<u8>, RunError>(RunError::Resource)
                &&& ra.1 is Finish
                &&& !ra.0.opened
            },
            fd matches Some(f) ==> {
                &&& ra.0.opened
                &&& ra.0.phase matches Phase::Configuring { setup } && setup.fd_spec() == f
                    && setup.done_spec() == 0 && !setup.failed_spec()
                &&& ra.1 == (Action::Configure { fd: f, op: op_order()[0] })
            },
    {
        match fd {
            None => {
                proof {
                    lemma_close_count_push(self.hist@, ActionKind::Finish);
                    lemma_launch_after_activation_push(self.hist@, ActionKind::Finish);
                }
                (
                    Runner {
                        phase: Phase::Finished { outcome: Err(RunError::Resource) },
                        hist: Ghost(self.hist@.push(ActionKind::Finish)),
                        ..self
                    },
                    Action::Finish,
                )
            }
            Some(f) => {
                let setup = TemplateSetup::begin(f);
                let op = setup.pending().unwrap();
                let ghost k = ActionKind::Configure { fd: f, op: op_order()[0] };
                proof {
                    lemma_close_count_push(self.hist@, k);
                    lemma_launch_after_activation_push(self.hist@, k);
                }
                (
                    Runner {
                        phase: Phase::Configuring { setup },
                        hist: Ghost(self.hist@.push(k)),
                        opened: true,
                        ..self
                    },
                    Action::Configure { fd: f, op },
                )
            }
        }
    }

    /// A configuration call came back. On success the next call of the fixed
    /// sequence is issued; after the last one — the activation — the template
    /// is held activated and the zoned launch begins. On failure no later
    /// call is issued and the open descriptor goes straight to its close,
    /// the run ending with the configuration error.
    pub fn on_config(self, ok: bool) -> (ra: (Self, Action))
        requires
            self.wf(),
            self.phase is Configuring,
        ensures
            ra.0.wf(),
            ra.0.zone == self.zone,
            ra.0.opened == self.opened,
            ra.0.hist@ == self.hist@.push(kind_of(ra.1)),
            ra.1 is CloseTemplate ==> !self.close_requested && ra.0.close_requested,
            !(ra.1 is CloseTemplate) ==> ra.0.close_requested == self.close_requested,
            !ok ==> {
                &&& ra.1 == (Action::CloseTemplate {
                    fd: self.phase->Configuring_setup.fd_spec(),
                })
                &&& ra.0.phase matches Phase::AwaitClose { fd, pending }
                    && fd == self.phase->Configuring_setup.fd_spec()
                    && pending == Err::<Vec<u8>, RunError>(RunError::Configuration)
                &&& !ra.0.activated
            },
            (ok && self.phase->Configuring_setup.done_spec() + 1 < op_order().len()) ==> {
                &&& ra.0.phase matches Phase::Configuring { setup }
                    && setup.done_spec() == self.phase->Configuring_setup.done_spec() + 1
                    && setup.fd_spec() == self.phase->Configuring_setup.fd_spec()
                    && !setup.failed_spec()
                &&& ra.1 == (Action::Configure {
                    fd: self.phase->Configuring_setup.fd_spec(),
                    op: op_order()[self.phase->Configuring_setup.done_spec() + 1],
                })
            },
            (ok && self.phase->Configuring_setup.done_spec() + 1 == op_order().len()) ==> {
                &&& ra.0.activated
                &&& ra.0.phase matches Phase::AwaitLaunch { tmpl }
                    && tmpl matches Some(t) && t.active_spec() && t.open_spec()
                    && t.fd_spec() == self.phase->Configuring_setup.fd_spec()
                &&& ra.1 matches Action::Launch { spec } && crate::launch::is_launch_spec_for(
                    spec,
                    self.zone,
                    Some(self.phase->Configuring_setup.fd_spec()),
                )
            },
    {
        match self.phase {
            Phase::Configuring { mut setup } => {
                setup.record(ok);
                if !ok {
                    let fd = setup.fd();
                    let ghost k = ActionKind::CloseTemplate { fd };
                    proof {
                        lemma_close_count_push(self.hist@, k);
                        lemma_launch_after_activation_push(self.hist@, k);
                    }
                    (
                        Runner {
                            phase: Phase::AwaitClose {
                                fd,
                                pending: Err(RunError::Configuration),
                            },
                            hist: Ghost(self.hist@.push(k)),
                            close_requested: true,
                            zone: self.zone,
                            opened: self.opened,
                            activated: self.activated,
                            launched: self.launched,
                            parent_cleared: self.parent_cleared,
                        },
                        Action::CloseTemplate { fd },
                    )
                } else {
                    match setup.pending() {
                        Some(op) => {
                            let fd = setup.fd();
                            let ghost k = ActionKind::Configure {
                                fd,
                                op: op_order()[setup.done_spec()],
                            };
                            proof {
                                lemma_close_count_push(self.hist@, k);
                                lemma_launch_after_activation_push(self.hist@, k);
                            }
                            (
                                Runner {
                                    phase: Phase::Configuring { setup },
                                    hist: Ghost(self.hist@.push(k)),
                                    zone: self.zone,
                                    opened: self.opened,
                                    activated: self.activated,
                                    launched: self.launched,
                                    parent_cleared: self.parent_cleared,
                                    close_requested: self.close_requested,
                                },
                                Action::Configure { fd, op },
                            )
                        }
                        None => {
                            let tmpl = ContractTemplate::from_setup(&setup);
                            let fd = setup.fd();
                            let zone = self.zone;
                            let spec = make_launch_spec(zone, Some(fd));
                            proof {
                                lemma_close_count_push(self.hist@, ActionKind::Launch);
                                assert(op_order()[4] is Activate);
                                assert(is_activation(self.hist@.last()));
                                lemma_launch_after_activation_push(
                                    self.hist@,
                                    ActionKind::Launch,
                                );
                            }
                            (
                                Runner {
                                    phase: Phase::AwaitLaunch { tmpl: Some(tmpl) },
                                    hist: Ghost(self.hist@.push(ActionKind::Launch)),
                                    activated: true,
                                    zone,
                                    opened: self.opened,
                                    launched: self.launched,
                                    parent_cleared: self.parent_cleared,
                                    close_requested: self.close_requested,
                                },
                                Action::Launch { spec },
                            )
                        }
                    }
                }
            }
            _ => (self, Action::Finish),  // unreachable under the precondition
        }
    }

    /// The launch returned to the parent. A zoned run clears the parent's own
    /// template association before anything else; a run without a zone target
    /// is finished, its outcome decided by the collected result alone.
    pub fn on_launch(self, out: LaunchOutcome) -> (ra: (Self, Action))
        requires
            self.wf(),
            self.phase is AwaitLaunch,
        ensures
            ra.0.wf(),
            ra.0.zone == self.zone,
            ra.0.launched,
            ra.0.hist@ == self.hist@.push(kind_of(ra.1)),
            !(ra.1 is CloseTemplate),
            ra.0.close_requested == self.close_requested,
            self.phase->AwaitLaunch_tmpl matches Some(t) ==> {
                &&& ra.0.phase matches Phase::AwaitClear { tmpl, out: stash }
                    && tmpl == t && stash == out
                &&& ra.1 == (Action::ClearParent { fd: t.fd_spec() })
            },
            self.phase->AwaitLaunch_tmpl is None ==> {
                &&& ra.0.phase matches Phase::Finished { outcome }
                    && result_view(outcome) == outcome_for(out)
                &&& ra.1 is Finish
            },
    {
        match self.phase {
            Phase::AwaitLaunch { tmpl: Some(tmpl) } => {
                let fd = tmpl.fd;
                let ghost k = ActionKind::ClearParent { fd };
                proof {
                    lemma_close_count_push(self.hist@, k);
                    lemma_launch_after_activation_push(self.hist@, k);
                }
                (
                    Runner {
                        phase: Phase::AwaitClear { tmpl, out },
                        hist: Ghost(self.hist@.push(k)),
                        launched: true,
                        zone: self.zone,
                        opened: self.opened,
                        activated: self.activated,
                        parent_cleared: self.parent_cleared,
                        close_requested: self.close_requested,
                    },
                    Action::ClearParent { fd },
                )
            }
            Phase::AwaitLaunch { tmpl: None } => {
                let outcome = collect_outcome(out);
                proof {
                    lemma_close_count_push(self.hist@, ActionKind::Finish);
                    if self.zone is None {
                        lemma_only_launch_and_finish_push(self.hist@, ActionKind::Finish);
                    }
                }
                (
                    Runner {
                        phase: Phase::Finished { outcome },
                        hist: Ghost(self.hist@.push(ActionKind::Finish)),
                        launched: true,
                        zone: self.zone,
                        opened: self.opened,
                        activated: self.activated,
                        parent_cleared: self.parent_cleared,
                        close_requested: self.close_requested,
                    },
                    Action::Finish,
                )
            }
            _ => (self, Action::Finish),  // unreachable under the precondition
        }
    }

    /// The parent's clear call was made. The run's outcome is decided from
    /// the stashed launch result, and the descriptor goes to its one close.
    pub fn on_cleared(self) -> (ra: (Self, Action))
        requires
            self.wf(),
            self.phase is AwaitClear,
        ensures
            ra.0.wf(),
            ra.0.zone == self.zone,
            ra.0.parent_cleared,
            ra.0.hist@ == self.hist@.push(kind_of(ra.1)),
            ra.1 is CloseTemplate ==> !self.close_requested && ra.0.close_requested,
            ra.1 == (Action::CloseTemplate { fd: self.phase->AwaitClear_tmpl.fd_spec() }),
            ra.0.phase matches Phase::AwaitClose { fd, pending }
                && fd == self.phase->AwaitClear_tmpl.fd_spec()
                && result_view(pending) == outcome_for(self.phase->AwaitClear_out),
    {
        match self.phase {
            Phase::AwaitClear { mut tmpl, out } => {
                tmpl.clear();
                let fd = tmpl.release();
                let pending = collect_outcome(out);
                let ghost k = ActionKind::CloseTemplate { fd };
                proof {
                    lemma_close_count_push(self.hist@, k);
                    lemma_launch_after_activation_push(self.hist@, k);
                }
                (
                    Runner {
                        phase: Phase::AwaitClose { fd, pending },
                        hist: Ghost(self.hist@.push(k)),
                        parent_cleared: true,
                        close_requested: true,
                        zone: self.zone,
                        opened: self.opened,
                        activated: self.activated,
                        launched: self.launched,
                    },
                    Action::CloseTemplate { fd },
                )
            }
            _ => (self, Action::Finish),  // unreachable under the precondition
        }
    }

    /// The close call returned successfully. (A failed close never reports
    /// back: it is fatal to the whole process.) The run is finished.
    pub fn on_closed(self) -> (ra: (Self, Action))
        requires
            self.wf(),
            self.phase is AwaitClose,
        ensures
            ra.0.wf(),
            ra.0.zone == self.zone,
            ra.0.hist@ == self.hist@.push(kind_of(ra.1)),
            !(ra.1 is CloseTemplate),
            ra.0.close_requested == self.close_requested,
            ra.0.parent_cleared == self.parent_cleared,
            ra.0.launched == self.launched,
            ra.0.phase matches Phase::Finished { outcome }
                && outcome == self.phase->AwaitClose_pending,
            ra.1 is Finish,
    {
        match self.phase {
            Phase::AwaitClose { fd: _, pending } => {
                proof {
                    lemma_close_count_push(self.hist@, ActionKind::Finish);
                    lemma_launch_after_activation_push(self.hist@, ActionKind::Finish);
                }
                (
                    Runner {
                        phase: Phase::Finished { outcome: pending },
                        hist: Ghost(self.hist@.push(ActionKind::Finish)),
                        zone: self.zone,
                        opened: self.opened,
                        activated: self.activated,
                        launched: self.launched,
                        parent_cleared: self.parent_cleared,
                        close_requested: self.close_requested,
                    },
                    Action::Finish,
                )
            }
            _ => (self, Action::Finish),  // unreachable under the precondition
        }
    }

    /// Take the outcome of a finished run.
    pub fn into_outcome(self) -> (r: Result<Vec<u8>, RunError>)
        requires
            self.phase is Finished,
        ensures
            r == self.phase->Finished_outcome,
    {
        match self.phase {
            Phase::Finished { outcome } => outcome,
            _ => Err(RunError::Launch),  // unreachable under the precondition
        }
    }
}

/// A launch with no zone target touches no contract template at all: nothing
/// is opened, activated, cleared or closed at any point of such a run, and
/// its whole history holds nothing but the fork and the end of the run.
pub proof fn lemma_no_zone_no_template(r: Runner)
    requires
        r.wf(),
        r.zone is None,
    ensures
        !r.opened,
        !r.activated,
        !r.parent_cleared,
        !r.close_requested,
        only_launch_and_finish(r.hist@),
        !(r.phase is AwaitOpen),
        !(r.phase is Configuring),
        !(r.phase is AwaitClear),
        !(r.phase is AwaitClose),
{
}

/// A zoned run reaches its fork point only with the template activated for
/// the parent thread: in the history of any zoned run, every fork comes
/// strictly after the activation call.
pub proof fn lemma_zoned_launch_after_activation(r: Runner, i: int)
    requires
        r.wf(),
        r.zone is Some,
        0 <= i < r.hist@.len(),
        r.hist@[i] is Launch,
    ensures
        exists|j: int| 0 <= j < i && is_activation(r.hist@[j]),
{
}

/// Once a zoned run that passed its fork point is finished, the parent has
/// cleared its own template association: the parent is free to prepare a new
/// template for a subsequent launch.
pub proof fn lemma_zoned_finished_parent_cleared(r: Runner)
    requires
        r.wf(),
        r.zone is Some,
        r.launched,
        r.phase is Finished,
    ensures
        r.parent_cleared,
{
}

/// No double close, on any path of any run: the history never holds more
/// than one close of the template descriptor.
pub proof fn lemma_close_at_most_once(r: Runner)
    requires
        r.wf(),
    ensures
        close_count(r.hist@) <= 1,
{
}

/// No descriptor leaks: every finished run that opened the template resource
/// has handed exactly one close to the driver — on the success path and on
/// every failure path alike.
pub proof fn lemma_no_descriptor_leak(r: Runner)
    requires
        r.wf(),
        r.phase is Finished,
    ensures
        r.opened ==> close_count(r.hist@) == 1,
        !r.opened ==> close_count(r.hist@) == 0,
{
}

} // verus!
