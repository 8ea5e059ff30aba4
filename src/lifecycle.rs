use vstd::prelude::*;

use crate::error::InitError;

verus! {

/// A handle that setup acquires and teardown must release.
#[derive(Clone, Copy, Debug, PartialEq, Eq, Structural)]
pub enum Resource {
    Instance,
    Channel,
    Surface,
    Device,
}

/// Where the bootstrap sequence stands.
#[derive(Clone, Copy, Debug, PartialEq, Eq, Structural)]
pub enum Phase {
    Uninitialized,
    InstanceReady,
    ChannelRegistered,
    SurfaceReady,
    AcceleratorSelected,
    DeviceReady,
    TearingDown,
    Destroyed,
}

/// A setup step that the caller performs against the graphics runtime.
#[derive(Clone, Copy, Debug, PartialEq, Eq, Structural)]
pub enum Step {
    CreateInstance,
    RegisterChannel,
    CreateSurface,
    SelectAccelerator,
    CreateDevice,
}

/// The step attempted from phase `p`, if setup goes on from there.
pub open spec fn step_at(p: Phase) -> Option<Step> {
    match p {
        Phase::Uninitialized => Some(Step::CreateInstance),
        Phase::InstanceReady => Some(Step::RegisterChannel),
        Phase::ChannelRegistered => Some(Step::CreateSurface),
        Phase::SurfaceReady => Some(Step::SelectAccelerator),
        Phase::AcceleratorSelected => Some(Step::CreateDevice),
        _ => None,
    }
}

/// The phase reached when the step attempted from `p` succeeds.
pub open spec fn phase_after(p: Phase) -> Phase {
    match p {
        Phase::Uninitialized => Phase::InstanceReady,
        Phase::InstanceReady => Phase::ChannelRegistered,
        Phase::ChannelRegistered => Phase::SurfaceReady,
        Phase::SurfaceReady => Phase::AcceleratorSelected,
        Phase::AcceleratorSelected => Phase::DeviceReady,
        _ => p,
    }
}

/// The resource that a successful step creates; selection creates none.
pub open spec fn created_by(s: Step) -> Option<Resource> {
    match s {
        Step::CreateInstance => Some(Resource::Instance),
        Step::RegisterChannel => Some(Resource::Channel),
        Step::CreateSurface => Some(Resource::Surface),
        Step::SelectAccelerator => None,
        Step::CreateDevice => Some(Resource::Device),
    }
}

/// The resources held, in order of acquisition, while setup stands at `p`.
pub open spec fn acquired_at(p: Phase) -> Seq<Resource> {
    match p {
        Phase::InstanceReady => seq![Resource::Instance],
        Phase::ChannelRegistered => seq![Resource::Instance, Resource::Channel],
        Phase::SurfaceReady => seq![Resource::Instance, Resource::Channel, Resource::Surface],
        Phase::AcceleratorSelected => seq![
            Resource::Instance,
            Resource::Channel,
            Resource::Surface,
        ],
        Phase::DeviceReady => seq![
            Resource::Instance,
            Resource::Channel,
            Resource::Surface,
            Resource::Device,
        ],
        _ => seq![],
    }
}

/// The release order after a complete setup.
pub open spec fn closing_order() -> Seq<Resource> {
    seq![Resource::Surface, Resource::Device, Resource::Channel, Resource::Instance]
}

/// The abstract state of a bootstrap sequence.
pub struct LifecycleView {
    pub phase: Phase,
    /// The error that ended setup early, if one did.
    pub failure: Option<InitError>,
    /// The resources still held, as a stack: the top is released first.
    pub held: Seq<Resource>,
}

impl LifecycleView {
    /// The releases still to be issued, in the order they come.
    pub open spec fn pending_releases(self) -> Seq<Resource> {
        self.held.reverse()
    }

    pub open spec fn wf(self) -> bool {
        match self.phase {
            Phase::TearingDown => self.held.no_duplicates(),
            Phase::Destroyed => self.held.len() == 0,
            _ => self.failure is None && self.held == acquired_at(self.phase),
        }
    }

    /// The state after the current step succeeded.
    pub open spec fn after_success(self) -> LifecycleView {
        match step_at(self.phase) {
            Some(s) => LifecycleView {
                phase: phase_after(self.phase),
                failure: self.failure,
                held: match created_by(s) {
                    Some(r) => self.held.push(r),
                    None => self.held,
                },
            },
            None => self,
        }
    }

    /// The state after the current step failed with `e`: everything held is
    /// released, last acquired first.
    pub open spec fn after_failure(self, e: InitError) -> LifecycleView {
        LifecycleView { phase: Phase::TearingDown, failure: Some(e), held: self.held }
    }
}

/// The state before any step.
pub open spec fn initial_state() -> LifecycleView {
    LifecycleView { phase: Phase::Uninitialized, failure: None, held: seq![] }
}

/// The state after the first `n` steps of setup succeeded.
pub open spec fn after_successes(n: nat) -> LifecycleView
    decreases n,
{
    if n == 0 {
        initial_state()
    } else {
        after_successes((n - 1) as nat).after_success()
    }
}

/// The resources that the first `n` successful steps created, in order.
pub open spec fn creations(n: nat) -> Seq<Resource>
    decreases n,
{
    if n == 0 {
        seq![]
    } else {
        let before = creations((n - 1) as nat);
        match step_at(after_successes((n - 1) as nat).phase) {
            Some(s) => match created_by(s) {
                Some(r) => before.push(r),
                None => before,
            },
            None => before,
        }
    }
}

/// The ordered acquisition and release of the runtime's handles. The caller
/// performs each step that `next_step` names and reports how it went; on a
/// failure, or once setup is done, it issues the releases that
/// `release_next` hands out until there are none.
pub struct Lifecycle {
    phase: Phase,
    failure: Option<InitError>,
    held: Vec<Resource>,
}

impl View for Lifecycle {
    type V = LifecycleView;

    closed spec fn view(&self) -> LifecycleView {
        LifecycleView { phase: self.phase, failure: self.failure, held: self.held@ }
    }
}

proof fn lemma_acquired_distinct(p: Phase)
    ensures
        acquired_at(p).no_duplicates(),
{
    let s = acquired_at(p);
    assert forall|i: int, j: int| 0 <= i < s.len() && 0 <= j < s.len() && i != j implies s[i]
        != s[j] by {}
}

/// Whatever step of setup fails, the releases then issued are exactly the
/// resources that the successful steps before it created, in reverse order of
/// creation, each once.
pub proof fn lemma_failure_unwinds_in_reverse(n: nat, e: InitError)
    requires
        n < 5,
    ensures
        ({
            let reached = after_successes(n);
            let unwinding = reached.after_failure(e);
            &&& reached.wf()
            &&& step_at(reached.phase) is Some
            &&& unwinding.wf()
            &&& unwinding.pending_releases() == creations(n).reverse()
            &&& unwinding.pending_releases().no_duplicates()
        }),
{
    reveal_with_fuel(after_successes, 6);
    reveal_with_fuel(creations, 6);
    let reached = after_successes(n);
    assert(reached.held =~= creations(n));
    assert(reached.held =~= acquired_at(reached.phase));
    lemma_acquired_distinct(reached.phase);
    let r = creations(n).reverse();
    assert forall|i: int, j: int| 0 <= i < r.len() && 0 <= j < r.len() && i != j implies r[i]
        != r[j] by {}
}

/// Once every step has succeeded, all four resources are held, in the order
/// of creation.
pub proof fn lemma_complete_setup_holds_all()
    ensures
        after_successes(5).phase == Phase::DeviceReady,
        after_successes(5).wf(),
        creations(5) == acquired_at(Phase::DeviceReady),
{
    reveal_with_fuel(after_successes, 6);
    reveal_with_fuel(creations, 6);
    assert(after_successes(5).held =~= acquired_at(Phase::DeviceReady));
    assert(creations(5) =~= acquired_at(Phase::DeviceReady));
}

impl Lifecycle {
    pub fn new() -> (r: Lifecycle)
        ensures
            r@ == initial_state(),
            r@.wf(),
    {
        let r = Lifecycle { phase: Phase::Uninitialized, failure: None, held: Vec::new() };
        assert(r@.held =~= seq![]);
        r
    }

    pub fn phase(&self) -> (r: Phase)
        ensures
            r == self@.phase,
    {
        self.phase
    }

    /// The step to perform next, or none once setup is over.
    pub fn next_step(&self) -> (r: Option<Step>)
        ensures
            r == step_at(self@.phase),
    {
        match self.phase {
            Phase::Uninitialized => Some(Step::CreateInstance),
            Phase::InstanceReady => Some(Step::RegisterChannel),
            Phase::ChannelRegistered => Some(Step::CreateSurface),
            Phase::SurfaceReady => Some(Step::SelectAccelerator),
            Phase::AcceleratorSelected => Some(Step::CreateDevice),
            _ => None,
        }
    }

    /// Records that the current step succeeded.
    pub fn succeeded(&mut self)
        requires
            old(self)@.wf(),
            step_at(old(self)@.phase) is Some,
        ensures
            final(self)@ == old(self)@.after_success(),
            final(self)@.wf(),
    {
        match self.phase {
            Phase::Uninitialized => {
                self.held.push(Resource::Instance);
                self.phase = Phase::InstanceReady;
            },
            Phase::InstanceReady => {
                self.held.push(Resource::Channel);
                self.phase = Phase::ChannelRegistered;
            },
            Phase::ChannelRegistered => {
                self.held.push(Resource::Surface);
                self.phase = Phase::SurfaceReady;
            },
            Phase::SurfaceReady => {
                self.phase = Phase::AcceleratorSelected;
            },
            _ => {
                self.held.push(Resource::Device);
                self.phase = Phase::DeviceReady;
            },
        }
        assert(self@.held =~= old(self)@.after_success().held);
        assert(self@.held =~= acquired_at(self.phase));
    }

    /// Records that the current step failed with `e`; teardown begins.
    pub fn failed(&mut self, e: InitError)
        requires
            old(self)@.wf(),
            step_at(old(self)@.phase) is Some,
        ensures
            final(self)@ == old(self)@.after_failure(e),
            final(self)@.wf(),
    {
        proof {
            lemma_acquired_distinct(self.phase);
        }
        self.failure = Some(e);
        self.phase = Phase::TearingDown;
    }

    /// Ends a complete setup; teardown begins, surface first.
    pub fn finish_setup(&mut self)
        requires
            old(self)@.wf(),
            old(self)@.phase == Phase::DeviceReady,
        ensures
            final(self)@.phase == Phase::TearingDown,
            final(self)@.failure is None,
            final(self)@.pending_releases() == closing_order(),
            final(self)@.wf(),
    {
        let mut stack: Vec<Resource> = Vec::new();
        stack.push(Resource::Instance);
        stack.push(Resource::Channel);
        stack.push(Resource::Device);
        stack.push(Resource::Surface);
        self.held = stack;
        self.phase = Phase::TearingDown;
        assert(self@.pending_releases() =~= closing_order());
        assert(self@.held.no_duplicates()) by {
            let s = self@.held;
            assert forall|i: int, j: int|
                0 <= i < s.len() && 0 <= j < s.len() && i != j implies s[i] != s[j] by {}
        }
    }

    /// Hands out the next release to issue, or none when nothing is held; in
    /// that case the sequence is over.
    pub fn release_next(&mut self) -> (r: Option<Resource>)
        requires
            old(self)@.wf(),
            old(self)@.phase == Phase::TearingDown,
        ensures
            final(self)@.wf(),
            final(self)@.failure == old(self)@.failure,
            old(self)@.held.len() > 0 ==> {
                &&& r == Some(old(self)@.pending_releases()[0])
                &&& final(self)@.phase == Phase::TearingDown
                &&& final(self)@.pending_releases() == old(self)@.pending_releases().drop_first()
            },
            old(self)@.held.len() == 0 ==> {
                &&& r is None
                &&& final(self)@.phase == Phase::Destroyed
            },
    {
        let ghost before = self@.held;
        match self.held.pop() {
            Some(res) => {
                assert(self@.held =~= before.drop_last());
                assert(self@.pending_releases() =~= before.reverse().drop_first());
                Some(res)
            },
            None => {
                self.phase = Phase::Destroyed;
                None
            },
        }
    }

    /// How the sequence ended: the error that stopped setup, if any.
    pub fn outcome(&self) -> (r: Result<(), InitError>)
        ensures
            r == match self@.failure {
                Some(e) => Err::<(), InitError>(e),
                None => Ok(()),
            },
    {
        match self.failure {
            Some(e) => Err(e),
            None => Ok(()),
        }
    }
}

} // verus!
