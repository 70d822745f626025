use vstd::prelude::*;

verus! {

/// One step of the child's pre-execution sequence.
#[derive(Clone, Copy, Debug, PartialEq, Eq)]
pub enum HookStep {
    /// Clear the inherited contract template association on this descriptor.
    ClearTemplate(i32),
    /// Transition the calling process into this zone.
    EnterZone(i32),
}

/// The child's reaction to the outcome of one step.
#[derive(Clone, Copy, Debug, PartialEq, Eq)]
pub enum HookVerdict {
    /// Run this step next.
    Continue(HookStep),
    /// Abort before the target image replaces the child: the parent then
    /// observes a failed launch, never a child that skipped the zone entry.
    Abort,
    /// Every step succeeded: let the target image load.
    Exec,
}

/// The pre-execution callback run in the child after the fork and before the
/// target image loads. It clears the inherited contract template association
/// if a template was supplied, then enters the target zone — strictly in that
/// order, with no retry and no rollback.
#[derive(Clone, Copy, Debug, PartialEq, Eq)]
pub struct ZoneEntryHook {
    /// The target zone identifier; always positive, the global zone being
    /// represented by the absence of any hook.
    pub zone_id: i32,
    /// The descriptor of the contract template the child inherited, if any.
    pub template_fd: Option<i32>,
}

impl ZoneEntryHook {
    pub open spec fn wf(self) -> bool {
        &&& self.zone_id >= 1
        &&& (self.template_fd matches Some(fd) ==> fd >= 0)
    }

    /// The steps the child must perform, in order: template clear first where
    /// a template was supplied, zone entry always last.
    pub open spec fn plan_spec(self) -> Seq<HookStep> {
        match self.template_fd {
            Some(fd) => seq![HookStep::ClearTemplate(fd), HookStep::EnterZone(self.zone_id)],
            None => seq![HookStep::EnterZone(self.zone_id)],
        }
    }

    pub fn new(zone_id: i32, template_fd: Option<i32>) -> (h: Self)
        requires
            zone_id >= 1,
            template_fd matches Some(fd) ==> fd >= 0,
        ensures
            h == (ZoneEntryHook { zone_id, template_fd }),
            h.wf(),
    {
        ZoneEntryHook { zone_id, template_fd }
    }

    /// The steps the child must perform, in order.
    pub fn plan(&self) -> (p: Vec<HookStep>)
        ensures
            p@ == self.plan_spec(),
    {
        let mut p: Vec<HookStep> = Vec::new();
        match self.template_fd {
            Some(fd) => {
                p.push(HookStep::ClearTemplate(fd));
                p.push(HookStep::EnterZone(self.zone_id));
            }
            None => {
                p.push(HookStep::EnterZone(self.zone_id));
            }
        }
        proof {
            assert(p@ =~= self.plan_spec());
        }
        p
    }

    /// The first step; the plan is never empty.
    pub fn first_step(&self) -> (s: HookStep)
        ensures
            self.plan_spec().len() >= 1,
            s == self.plan_spec()[0],
    {
        match self.template_fd {
            Some(fd) => HookStep::ClearTemplate(fd),
            None => HookStep::EnterZone(self.zone_id),
        }
    }

    /// Decide what the child does once the step at position `done` has run:
    /// abort on any failure, otherwise take the next step, otherwise exec.
    pub fn after_step(&self, done: usize, ok: bool) -> (v: HookVerdict)
        requires
            done < self.plan_spec().len(),
        ensures
            !ok ==> v is Abort,
            (ok && done + 1 < self.plan_spec().len()) ==> v == HookVerdict::Continue(
                self.plan_spec()[done as int + 1],
            ),
            (ok && done + 1 == self.plan_spec().len()) ==> v is Exec,
    {
        if !ok {
            HookVerdict::Abort
        } else if self.template_fd.is_some() && done == 0 {
            HookVerdict::Continue(HookStep::EnterZone(self.zone_id))
        } else {
            HookVerdict::Exec
        }
    }
}

/// The hook clears the template strictly before it enters the zone: in every
/// step plan, each template clear stands before each zone entry.
pub proof fn lemma_clear_before_enter(h: ZoneEntryHook, i: int, j: int)
    requires
        0 <= i < h.plan_spec().len(),
        0 <= j < h.plan_spec().len(),
        h.plan_spec()[i] is ClearTemplate,
        h.plan_spec()[j] is EnterZone,
    ensures
        i < j,
{
}

} // verus!
