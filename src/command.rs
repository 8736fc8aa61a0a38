use vstd::prelude::*;

verus! {

/// One procedure that the child runs between fork and exec.
pub enum PreExecStep {
    /// Start a new session and make the subordinate device its controlling
    /// terminal.
    SessionLeader,
    /// The procedure that the caller supplied.
    Custom,
}

/// A post-fork hook as it is handed to the process builder.
#[derive(Debug, Clone, Copy, PartialEq, Eq, Structural)]
pub enum Hook {
    /// The session-leader procedure alone.
    SessionLeader,
    /// The session-leader procedure, then the caller's procedure.
    SessionLeaderThenCustom,
}

/// The procedures that a hook runs, in order.
pub open spec fn hook_steps(h: Hook) -> Seq<PreExecStep> {
    match h {
        Hook::SessionLeader => seq![PreExecStep::SessionLeader],
        Hook::SessionLeaderThenCustom => seq![PreExecStep::SessionLeader, PreExecStep::Custom],
    }
}

/// The hook that a spawn installs: the caller's pending procedure chained
/// after the session-leader procedure; else the session-leader procedure
/// unless one is installed already.
pub open spec fn hook_to_install(custom_pending: bool, hook_installed: bool) -> Option<Hook> {
    if custom_pending {
        Some(Hook::SessionLeaderThenCustom)
    } else if !hook_installed {
        Some(Hook::SessionLeader)
    } else {
        None
    }
}

/// `after` and `plan` are what planning a spawn makes of `before`.
pub open spec fn spawn_planned(before: CommandState, after: CommandState, plan: SpawnPlan) -> bool {
    &&& plan.attach_stdin == !before.stdin_overridden()
    &&& plan.attach_stdout == !before.stdout_overridden()
    &&& plan.attach_stderr == !before.stderr_overridden()
    &&& plan.hook == hook_to_install(before.custom_pending(), before.hook_installed())
    &&& after.stdin_overridden() == before.stdin_overridden()
    &&& after.stdout_overridden() == before.stdout_overridden()
    &&& after.stderr_overridden() == before.stderr_overridden()
    &&& after.hook_installed()
    &&& !after.custom_pending()
    &&& after.installed_hooks() == match plan.hook {
        Some(h) => before.installed_hooks().push(h),
        None => before.installed_hooks(),
    }
    &&& after.wf()
}

/// What one spawn does to the process builder before it forks.
#[derive(Debug, Clone, Copy, PartialEq, Eq, Structural)]
pub struct SpawnPlan {
    /// Attach a duplicate of the subordinate device as standard input.
    pub attach_stdin: bool,
    /// Attach a duplicate of the subordinate device as standard output.
    pub attach_stdout: bool,
    /// Attach a duplicate of the subordinate device as standard error.
    pub attach_stderr: bool,
    /// The hook to install, or `None` where the one installed by an earlier
    /// spawn stays.
    pub hook: Option<Hook>,
}

/// The state that a command adapter keeps beside its process builder: which
/// standard streams the caller overrode, whether a session-leader hook has
/// been installed, and whether a caller's pre-exec procedure waits to be
/// chained.
pub struct CommandState {
    stdin: bool,
    stdout: bool,
    stderr: bool,
    pre_exec_set: bool,
    pre_exec: bool,
    /// The hooks installed so far, oldest first.
    installed: Ghost<Seq<Hook>>,
}

impl CommandState {
    pub closed spec fn stdin_overridden(&self) -> bool {
        self.stdin
    }

    pub closed spec fn stdout_overridden(&self) -> bool {
        self.stdout
    }

    pub closed spec fn stderr_overridden(&self) -> bool {
        self.stderr
    }

    /// Whether a spawn has installed a session-leader hook.
    pub closed spec fn hook_installed(&self) -> bool {
        self.pre_exec_set
    }

    /// Whether a caller's pre-exec procedure waits to be chained.
    pub closed spec fn custom_pending(&self) -> bool {
        self.pre_exec
    }

    /// The hooks that the process builder holds, oldest first; the child
    /// runs them in this order.
    pub closed spec fn installed_hooks(&self) -> Seq<Hook> {
        self.installed@
    }

    /// A hook is installed exactly when some spawn has been planned.
    pub closed spec fn wf(&self) -> bool {
        self.pre_exec_set <==> self.installed@.len() > 0
    }

    #[verifier::type_invariant]
    closed spec fn inv(self) -> bool {
        self.wf()
    }

    /// A fresh adapter: nothing overridden, no hook installed, no caller's
    /// procedure.
    pub fn new() -> (r: CommandState)
        ensures
            r.wf(),
            !r.stdin_overridden(),
            !r.stdout_overridden(),
            !r.stderr_overridden(),
            !r.hook_installed(),
            !r.custom_pending(),
            r.installed_hooks() == Seq::<Hook>::empty(),
    {
        CommandState {
            stdin: false,
            stdout: false,
            stderr: false,
            pre_exec_set: false,
            pre_exec: false,
            installed: Ghost(Seq::empty()),
        }
    }

    /// Records that the caller set standard input.
    pub fn stdin(&mut self)
        ensures
            final(self).stdin_overridden(),
            final(self).stdout_overridden() == old(self).stdout_overridden(),
            final(self).stderr_overridden() == old(self).stderr_overridden(),
            final(self).hook_installed() == old(self).hook_installed(),
            final(self).custom_pending() == old(self).custom_pending(),
            final(self).installed_hooks() == old(self).installed_hooks(),
            final(self).wf(),
    {
        proof {
            use_type_invariant(&*self);
        }
        self.stdin = true;
    }

    /// Records that the caller set standard output.
    pub fn stdout(&mut self)
        ensures
            final(self).stdout_overridden(),
            final(self).stdin_overridden() == old(self).stdin_overridden(),
            final(self).stderr_overridden() == old(self).stderr_overridden(),
            final(self).hook_installed() == old(self).hook_installed(),
            final(self).custom_pending() == old(self).custom_pending(),
            final(self).installed_hooks() == old(self).installed_hooks(),
            final(self).wf(),
    {
        proof {
            use_type_invariant(&*self);
        }
        self.stdout = true;
    }

    /// Records that the caller set standard error.
    pub fn stderr(&mut self)
        ensures
            final(self).stderr_overridden(),
            final(self).stdin_overridden() == old(self).stdin_overridden(),
            final(self).stdout_overridden() == old(self).stdout_overridden(),
            final(self).hook_installed() == old(self).hook_installed(),
            final(self).custom_pending() == old(self).custom_pending(),
            final(self).installed_hooks() == old(self).installed_hooks(),
            final(self).wf(),
    {
        proof {
            use_type_invariant(&*self);
        }
        self.stderr = true;
    }

    /// Records that the caller supplied a pre-exec procedure; the next spawn
    /// chains it after the session-leader procedure.
    pub fn pre_exec(&mut self)
        ensures
            final(self).custom_pending(),
            final(self).stdin_overridden() == old(self).stdin_overridden(),
            final(self).stdout_overridden() == old(self).stdout_overridden(),
            final(self).stderr_overridden() == old(self).stderr_overridden(),
            final(self).hook_installed() == old(self).hook_installed(),
            final(self).installed_hooks() == old(self).installed_hooks(),
            final(self).wf(),
    {
        proof {
            use_type_invariant(&*self);
        }
        self.pre_exec = true;
    }

    /// Decides what one spawn does: each standard stream that the caller did
    /// not override gets a duplicate of the subordinate device; a pending
    /// caller's procedure is chained after the session-leader procedure; with
    /// none pending, the session-leader procedure alone is installed unless
    /// an earlier spawn installed it already. Afterwards a hook is installed
    /// and no caller's procedure is pending.
    pub fn plan_spawn(&mut self) -> (r: SpawnPlan)
        ensures
            old(self).wf(),
            spawn_planned(*old(self), *final(self), r),
    {
        proof {
            use_type_invariant(&*self);
        }
        let hook = if self.pre_exec {
            Some(Hook::SessionLeaderThenCustom)
        } else if !self.pre_exec_set {
            Some(Hook::SessionLeader)
        } else {
            None
        };
        let ghost installed = match hook {
            Some(h) => self.installed@.push(h),
            None => self.installed@,
        };
        *self = CommandState {
            pre_exec: false,
            pre_exec_set: true,
            installed: Ghost(installed),
            ..*self
        };
        SpawnPlan {
            attach_stdin: !self.stdin,
            attach_stdout: !self.stdout,
            attach_stderr: !self.stderr,
            hook,
        }
    }

    /// Whether standard input was overridden by the caller.
    pub fn is_stdin_overridden(&self) -> (r: bool)
        ensures
            r == self.stdin_overridden(),
    {
        self.stdin
    }

    /// Whether standard output was overridden by the caller.
    pub fn is_stdout_overridden(&self) -> (r: bool)
        ensures
            r == self.stdout_overridden(),
    {
        self.stdout
    }

    /// Whether standard error was overridden by the caller.
    pub fn is_stderr_overridden(&self) -> (r: bool)
        ensures
            r == self.stderr_overridden(),
    {
        self.stderr
    }

    /// Whether a spawn has installed a session-leader hook.
    pub fn is_hook_installed(&self) -> (r: bool)
        ensures
            r == self.hook_installed(),
    {
        self.pre_exec_set
    }

    /// Whether a caller's pre-exec procedure waits to be chained.
    pub fn has_custom_pending(&self) -> (r: bool)
        ensures
            r == self.custom_pending(),
    {
        self.pre_exec
    }
}

} // verus!

verus! {

/// The procedures that the child runs between fork and exec, in order, for
/// the hooks `hooks` installed oldest first.
pub open spec fn run_order(hooks: Seq<Hook>) -> Seq<PreExecStep>
    decreases hooks.len(),
{
    if hooks.len() == 0 {
        Seq::empty()
    } else {
        run_order(hooks.drop_last()) + hook_steps(hooks.last())
    }
}

/// Every caller's procedure in `steps` comes right after a session-leader
/// procedure.
pub open spec fn custom_follows_leader(steps: Seq<PreExecStep>) -> bool {
    forall|i: int| 0 <= i < steps.len() ==> #[trigger] follows_leader(steps, i)
}

/// The procedure at `i` is no caller's procedure, or comes right after a
/// session-leader procedure.
pub open spec fn follows_leader(steps: Seq<PreExecStep>, i: int) -> bool {
    steps[i] is Custom ==> i > 0 && steps[i - 1] is SessionLeader
}

proof fn lemma_hook_steps(h: Hook)
    ensures
        hook_steps(h).len() > 0,
        hook_steps(h)[0] is SessionLeader,
        custom_follows_leader(hook_steps(h)),
{
    let b = hook_steps(h);
    assert forall|j: int| 0 <= j < b.len() implies #[trigger] follows_leader(b, j) by {
        match h {
            Hook::SessionLeader => {
                assert(b[0] is SessionLeader);
            },
            Hook::SessionLeaderThenCustom => {
                assert(b[0] is SessionLeader);
            },
        }
    }
}

proof fn lemma_run_order(hooks: Seq<Hook>)
    ensures
        custom_follows_leader(run_order(hooks)),
        hooks.len() > 0 ==> run_order(hooks).len() > 0 && run_order(hooks)[0] is SessionLeader,
    decreases hooks.len(),
{
    if hooks.len() > 0 {
        let front = hooks.drop_last();
        lemma_run_order(front);
        let a = run_order(front);
        let b = hook_steps(hooks.last());
        lemma_hook_steps(hooks.last());
        let s = run_order(hooks);
        assert(s == a + b);
        assert forall|i: int| 0 <= i < s.len() implies #[trigger] follows_leader(s, i) by {
            if i < a.len() {
                assert(follows_leader(a, i));
                assert(s[i] == a[i]);
                if i > 0 {
                    assert(s[i - 1] == a[i - 1]);
                }
            } else {
                let j = i - a.len();
                assert(follows_leader(b, j));
                assert(s[i] == b[j]);
                if j > 0 {
                    assert(s[i - 1] == b[j - 1]);
                }
            }
        }
        if front.len() > 0 {
            assert(s[0] == a[0]);
        } else {
            assert(s[0] == b[0]);
        }
    }
}

/// Every spawn leaves a session-leader hook installed, also where the caller
/// supplied a pre-exec procedure: the child runs a session-leader procedure
/// first, each caller's procedure right after a session-leader procedure, and
/// a procedure that was pending is chained into the hook this spawn
/// installs.
pub proof fn lemma_session_leader_runs_first(before: CommandState, after: CommandState, plan: SpawnPlan)
    requires
        before.wf(),
        spawn_planned(before, after, plan),
    ensures
        after.hook_installed(),
        run_order(after.installed_hooks()).len() > 0,
        run_order(after.installed_hooks())[0] is SessionLeader,
        custom_follows_leader(run_order(after.installed_hooks())),
        before.custom_pending() ==> plan.hook == Some(Hook::SessionLeaderThenCustom)
            && after.installed_hooks().last() == Hook::SessionLeaderThenCustom,
{
    lemma_run_order(after.installed_hooks());
}

} // verus!
