//! Per-resource action state: which executions are running on a
//! resource, so that a second execution is refused while one runs.
use vstd::prelude::*;

verus! {

/// The flags of what is running on one kind of resource.
pub trait ActionFlags: Sized + Copy {
    /// Whether anything is running.
    spec fn spec_busy(&self) -> bool;

    /// The state with nothing running.
    spec fn spec_idle() -> Self;

    /// Nothing runs in the idle state.
    proof fn lemma_idle_not_busy()
        ensures
            !Self::spec_idle().spec_busy(),
    ;

    /// Whether anything is running.
    fn busy(&self) -> (b: bool)
        ensures
            b == self.spec_busy(),
    ;

    /// The state with nothing running.
    fn idle() -> (s: Self)
        ensures
            s == Self::spec_idle(),
    ;
}

/// Why an update of an action state was refused.
#[derive(Clone, Copy, Debug, PartialEq, Eq, Structural)]
pub enum ActionStateError {
    /// Something is already running on the resource.
    Busy,
}

impl ActionStateError {
    /// The message shown for the error.
    pub fn message(&self) -> (m: String)
        ensures
            m@ == "Resource is busy"@,
    {
        match self {
            ActionStateError::Busy => "Resource is busy".to_owned(),
        }
    }
}

/// Whether an update is accepted on flags `states`: always when the
/// busy check is skipped, else when nothing is running.
pub open spec fn update_accepted<S: ActionFlags>(states: S, busy_check: bool) -> bool {
    !(busy_check && states.spec_busy())
}

/// The action state of one resource.
pub struct ActionState<S> {
    states: S,
}

/// Returned by an accepted update; releasing it hands the state back:
/// to idle, or through the return function given to
/// [ActionState::update_custom].
pub struct UpdateGuard<R> {
    return_fn: Option<R>,
}

impl<R> UpdateGuard<R> {
    /// Whether the guard resets the state to idle on release.
    pub closed spec fn resets_to_idle(&self) -> bool {
        self.return_fn is None
    }

    /// The return function the guard applies on release, if any.
    pub closed spec fn return_fn(&self) -> Option<R> {
        self.return_fn
    }

    /// A guard resets the state to idle exactly when it has no return
    /// function.
    pub proof fn lemma_resets_to_idle_iff_no_return_fn(&self)
        ensures
            self.resets_to_idle() <==> self.return_fn() is None,
    {
    }
}

impl<S: ActionFlags> ActionState<S> {
    /// The current flags.
    pub closed spec fn view_states(&self) -> S {
        self.states
    }

    /// A new action state with nothing running.
    pub fn new() -> (a: ActionState<S>)
        ensures
            a.view_states() == S::spec_idle(),
    {
        ActionState { states: S::idle() }
    }

    /// The current flags.
    pub fn get(&self) -> (s: S)
        ensures
            s == self.view_states(),
    {
        self.states
    }

    /// Whether anything is running.
    pub fn busy(&self) -> (b: bool)
        ensures
            b == self.view_states().spec_busy(),
    {
        self.states.busy()
    }

    /// Refuses if anything is running; otherwise applies `update_fn` to
    /// the flags and returns a guard that resets them to idle on release.
    pub fn update<U: Fn(S) -> S>(&mut self, update_fn: U) -> (r: Result<UpdateGuard<U>, ActionStateError>)
        requires
            forall|s: S| call_requires(update_fn, (s,)),
        ensures
            !update_accepted(old(self).view_states(), true) ==> r == Err::<UpdateGuard<U>, ActionStateError>(
                ActionStateError::Busy,
            ) && final(self).view_states() == old(self).view_states(),
            update_accepted(old(self).view_states(), true) ==> r is Ok && call_ensures(
                update_fn,
                (old(self).view_states(),),
                final(self).view_states(),
            ),
            r matches Ok(g) ==> g.resets_to_idle() && g.return_fn() is None,
    {
        if self.states.busy() {
            return Err(ActionStateError::Busy);
        }
        self.states = update_fn(self.states);
        Ok(UpdateGuard { return_fn: None })
    }

    /// Refuses if `busy_check` is set and anything is running; otherwise
    /// applies `update_fn` to the flags and returns a guard that applies
    /// `return_fn` on release.
    pub fn update_custom<U: Fn(S) -> S, R: Fn(S) -> S>(
        &mut self,
        update_fn: U,
        return_fn: R,
        busy_check: bool,
    ) -> (r: Result<UpdateGuard<R>, ActionStateError>)
        requires
            forall|s: S| call_requires(update_fn, (s,)),
        ensures
            !update_accepted(old(self).view_states(), busy_check) ==> r
                == Err::<UpdateGuard<R>, ActionStateError>(ActionStateError::Busy) && final(self).view_states()
                == old(self).view_states(),
            update_accepted(old(self).view_states(), busy_check) ==> r is Ok && call_ensures(
                update_fn,
                (old(self).view_states(),),
                final(self).view_states(),
            ),
            r matches Ok(g) ==> g.return_fn() == Some(return_fn),
    {
        if busy_check && self.states.busy() {
            return Err(ActionStateError::Busy);
        }
        self.states = update_fn(self.states);
        Ok(UpdateGuard { return_fn: Some(return_fn) })
    }

    /// Hands the state back: resets it to idle, or applies the guard's
    /// return function.
    pub fn release<R: Fn(S) -> S>(&mut self, guard: UpdateGuard<R>)
        requires
            guard.return_fn() matches Some(f) ==> forall|s: S| call_requires(f, (s,)),
        ensures
            guard.resets_to_idle() ==> final(self).view_states() == S::spec_idle(),
            guard.return_fn() matches Some(f) ==> call_ensures(
                f,
                (old(self).view_states(),),
                final(self).view_states(),
            ),
    {
        match guard.return_fn {
            Some(f) => {
                self.states = f(self.states);
            },
            None => {
                self.states = S::idle();
            },
        }
    }
}

/// What runs on a deployment.
#[derive(Clone, Copy, Debug, PartialEq, Eq, Structural)]
pub struct DeploymentActionState {
    pub pulling: bool,
    pub deploying: bool,
    pub starting: bool,
    pub restarting: bool,
    pub pausing: bool,
    pub unpausing: bool,
    pub stopping: bool,
    pub destroying: bool,
    pub renaming: bool,
}

impl ActionFlags for DeploymentActionState {
    open spec fn spec_busy(&self) -> bool {
        self.pulling || self.deploying || self.starting || self.restarting || self.pausing
            || self.unpausing || self.stopping || self.destroying || self.renaming
    }

    open spec fn spec_idle() -> Self {
        DeploymentActionState {
            pulling: false,
            deploying: false,
            starting: false,
            restarting: false,
            pausing: false,
            unpausing: false,
            stopping: false,
            destroying: false,
            renaming: false,
        }
    }

    proof fn lemma_idle_not_busy() {
    }

    fn busy(&self) -> (b: bool) {
        self.pulling || self.deploying || self.starting || self.restarting || self.pausing
            || self.unpausing || self.stopping || self.destroying || self.renaming
    }

    fn idle() -> (s: Self) {
        DeploymentActionState {
            pulling: false,
            deploying: false,
            starting: false,
            restarting: false,
            pausing: false,
            unpausing: false,
            stopping: false,
            destroying: false,
            renaming: false,
        }
    }
}

/// What runs on a stack.
#[derive(Clone, Copy, Debug, PartialEq, Eq, Structural)]
pub struct StackActionState {
    pub pulling: bool,
    pub deploying: bool,
    pub starting: bool,
    pub restarting: bool,
    pub pausing: bool,
    pub unpausing: bool,
    pub stopping: bool,
    pub destroying: bool,
}

impl ActionFlags for StackActionState {
    open spec fn spec_busy(&self) -> bool {
        self.pulling || self.deploying || self.starting || self.restarting || self.pausing
            || self.unpausing || self.stopping || self.destroying
    }

    open spec fn spec_idle() -> Self {
        StackActionState {
            pulling: false,
            deploying: false,
            starting: false,
            restarting: false,
            pausing: false,
            unpausing: false,
            stopping: false,
            destroying: false,
        }
    }

    proof fn lemma_idle_not_busy() {
    }

    fn busy(&self) -> (b: bool) {
        self.pulling || self.deploying || self.starting || self.restarting || self.pausing
            || self.unpausing || self.stopping || self.destroying
    }

    fn idle() -> (s: Self) {
        StackActionState {
            pulling: false,
            deploying: false,
            starting: false,
            restarting: false,
            pausing: false,
            unpausing: false,
            stopping: false,
            destroying: false,
        }
    }
}

/// What runs on a server.
#[derive(Clone, Copy, Debug, PartialEq, Eq, Structural)]
pub struct ServerActionState {
    pub pruning_networks: bool,
    pub pruning_containers: bool,
    pub pruning_images: bool,
    pub pruning_volumes: bool,
    pub pruning_docker_builders: bool,
    pub pruning_buildx: bool,
    pub pruning_system: bool,
    pub starting_containers: bool,
    pub restarting_containers: bool,
    pub pausing_containers: bool,
    pub unpausing_containers: bool,
    pub stopping_containers: bool,
}

impl ActionFlags for ServerActionState {
    open spec fn spec_busy(&self) -> bool {
        self.pruning_networks || self.pruning_containers || self.pruning_images || self.pruning_volumes
            || self.pruning_docker_builders || self.pruning_buildx || self.pruning_system
            || self.starting_containers || self.restarting_containers || self.pausing_containers
            || self.unpausing_containers || self.stopping_containers
    }

    open spec fn spec_idle() -> Self {
        ServerActionState {
            pruning_networks: false,
            pruning_containers: false,
            pruning_images: false,
            pruning_volumes: false,
            pruning_docker_builders: false,
            pruning_buildx: false,
            pruning_system: false,
            starting_containers: false,
            restarting_containers: false,
            pausing_containers: false,
            unpausing_containers: false,
            stopping_containers: false,
        }
    }

    proof fn lemma_idle_not_busy() {
    }

    fn busy(&self) -> (b: bool) {
        self.pruning_networks || self.pruning_containers || self.pruning_images || self.pruning_volumes
            || self.pruning_docker_builders || self.pruning_buildx || self.pruning_system
            || self.starting_containers || self.restarting_containers || self.pausing_containers
            || self.unpausing_containers || self.stopping_containers
    }

    fn idle() -> (s: Self) {
        ServerActionState {
            pruning_networks: false,
            pruning_containers: false,
            pruning_images: false,
            pruning_volumes: false,
            pruning_docker_builders: false,
            pruning_buildx: false,
            pruning_system: false,
            starting_containers: false,
            restarting_containers: false,
            pausing_containers: false,
            unpausing_containers: false,
            stopping_containers: false,
        }
    }
}

/// What runs on a procedure, an action or a resource sync: one flag.
#[derive(Clone, Copy, Debug, PartialEq, Eq, Structural)]
pub struct RunningActionState {
    pub running: bool,
}

impl ActionFlags for RunningActionState {
    open spec fn spec_busy(&self) -> bool {
        self.running
    }

    open spec fn spec_idle() -> Self {
        RunningActionState { running: false }
    }

    proof fn lemma_idle_not_busy() {
    }

    fn busy(&self) -> (b: bool) {
        self.running
    }

    fn idle() -> (s: Self) {
        RunningActionState { running: false }
    }
}

// ---------------------------------------------------------------------
// Laws
// ---------------------------------------------------------------------

/// While an execution runs, a second checked update is refused: once
/// an accepted update has left the flags busy, no checked update is
/// accepted until the guard is released.
pub proof fn law_busy_refuses_update<S: ActionFlags>(after_first: S)
    requires
        after_first.spec_busy(),
    ensures
        !update_accepted(after_first, true),
{
}

/// Releasing the guard of a plain update returns the state to idle, so
/// that the next checked update is accepted.
pub proof fn law_release_frees<S: ActionFlags>()
    ensures
        !S::spec_idle().spec_busy(),
        update_accepted(S::spec_idle(), true),
{
    S::lemma_idle_not_busy();
}

/// An update that skips the busy check is always accepted.
pub proof fn law_unchecked_update_accepted<S: ActionFlags>(states: S)
    ensures
        update_accepted(states, false),
{
}

/// A deployment is busy exactly when something runs on it: any flag set.
pub proof fn law_deployment_busy_when_any_flag_set(s: DeploymentActionState)
    ensures
        s.spec_busy() <==> s != (DeploymentActionState {
            pulling: false,
            deploying: false,
            starting: false,
            restarting: false,
            pausing: false,
            unpausing: false,
            stopping: false,
            destroying: false,
            renaming: false,
        }),
        s == DeploymentActionState::spec_idle() ==> !s.spec_busy(),
{
}

/// A stack is busy exactly when something runs on it: any flag set.
pub proof fn law_stack_busy_when_any_flag_set(s: StackActionState)
    ensures
        s.spec_busy() <==> s != (StackActionState {
            pulling: false,
            deploying: false,
            starting: false,
            restarting: false,
            pausing: false,
            unpausing: false,
            stopping: false,
            destroying: false,
        }),
        s == StackActionState::spec_idle() ==> !s.spec_busy(),
{
}

/// A server is busy exactly when something runs on it: any flag set.
pub proof fn law_server_busy_when_any_flag_set(s: ServerActionState)
    ensures
        s.spec_busy() <==> s != (ServerActionState {
            pruning_networks: false,
            pruning_containers: false,
            pruning_images: false,
            pruning_volumes: false,
            pruning_docker_builders: false,
            pruning_buildx: false,
            pruning_system: false,
            starting_containers: false,
            restarting_containers: false,
            pausing_containers: false,
            unpausing_containers: false,
            stopping_containers: false,
        }),
        s == ServerActionState::spec_idle() ==> !s.spec_busy(),
{
}

/// A procedure, action or sync is busy exactly while it runs.
pub proof fn law_running_busy_when_running(s: RunningActionState)
    ensures
        s.spec_busy() <==> s.running,
        s == RunningActionState::spec_idle() ==> !s.spec_busy(),
{
}

} // verus!
