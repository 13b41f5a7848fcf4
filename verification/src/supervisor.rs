//! The sidecar supervisor: a state machine that keeps at most one child
//! process alive.
//!
//! The supervisor owns two facts about the world: whether the UI considers
//! the server live (`is_live`) and whether a child process handle currently
//! exists (`has_child`). Commands arrive over a FIFO channel and are applied
//! by [`Supervisor::step`]; the caller performs the returned [`Action`]
//! (spawn or kill the real process) and stops its loop when `exit_loop` is
//! set. The UI-facing toggle updates `is_live` optimistically and reports
//! which command it posted.

use vstd::prelude::*;

verus! {

/// A command posted to the supervisor loop over its channel.
///
/// `End` is terminal: the loop must exit after handling it.
#[derive(Clone, Debug, PartialEq, Eq)]
pub enum Command {
    Start,
    Stop,
    End,
}

/// What the caller of [`Supervisor::step`] must do to the real child
/// process. `Spawn` carries the value the child's `TOKEN` environment
/// variable must be set to.
#[derive(Clone, Debug, PartialEq, Eq)]
pub enum Action {
    Spawn(String),
    Kill,
    Stay,
}

/// The result of one supervisor step: the side effect to perform and
/// whether the supervisor loop must exit.
#[derive(Debug, PartialEq, Eq)]
pub struct StepOutcome {
    pub action: Action,
    pub exit_loop: bool,
}

/// The supervisor's view of the world.
pub struct Supervisor {
    /// The liveness flag shown to the UI. Updated optimistically by
    /// [`Supervisor::toggle_server`] before the loop has acted.
    pub is_live: bool,
    /// Whether a child process handle exists. Only [`Supervisor::step`]
    /// changes this.
    pub has_child: bool,
    /// The per-session bearer token every spawned child receives.
    pub token: String,
}

/// Number of live child processes the supervisor accounts for.
pub open spec fn child_count(s: Supervisor) -> nat {
    if s.has_child {
        1
    } else {
        0
    }
}

/// The state the supervisor reaches when its child (if any) is taken away.
pub open spec fn killed(s: Supervisor) -> Supervisor {
    Supervisor { is_live: false, has_child: false, token: s.token }
}

/// The state the supervisor reaches when a child has been spawned.
pub open spec fn spawned(s: Supervisor) -> Supervisor {
    Supervisor { is_live: true, has_child: true, token: s.token }
}

/// The supervisor's transition table, keyed on child presence:
///
/// | state \ command | Start            | Stop           | End                  |
/// |-----------------|------------------|----------------|----------------------|
/// | no child        | spawn, live      | no-op          | no-op, exit          |
/// | child           | no-op            | kill, not live | kill, not live, exit |
pub open spec fn spec_step(s: Supervisor, cmd: Command) -> (Supervisor, Action, bool) {
    match cmd {
        Command::Start => {
            if s.has_child {
                (s, Action::Stay, false)
            } else {
                (spawned(s), Action::Spawn(s.token), false)
            }
        },
        Command::Stop => {
            if s.has_child {
                (killed(s), Action::Kill, false)
            } else {
                (s, Action::Stay, false)
            }
        },
        Command::End => {
            if s.has_child {
                (killed(s), Action::Kill, true)
            } else {
                (s, Action::Stay, true)
            }
        },
    }
}

/// How one action changes the number of live child processes.
pub open spec fn action_delta(a: Action) -> int {
    match a {
        Action::Spawn(_) => 1,
        Action::Kill => -1,
        Action::Stay => 0,
    }
}

/// Total change in live children over a sequence of actions.
pub open spec fn delta_sum(actions: Seq<Action>) -> int
    decreases actions.len(),
{
    if actions.len() == 0 {
        0
    } else {
        action_delta(actions[0]) + delta_sum(actions.drop_first())
    }
}

/// The state reached and the actions emitted when the supervisor consumes
/// commands in order, stopping after the first command whose step asks the
/// loop to exit.
pub open spec fn run_trace(s: Supervisor, cmds: Seq<Command>) -> (Supervisor, Seq<Action>)
    decreases cmds.len(),
{
    if cmds.len() == 0 {
        (s, Seq::empty())
    } else {
        let (s1, a, exit) = spec_step(s, cmds[0]);
        if exit {
            (s1, seq![a])
        } else {
            let (sf, rest) = run_trace(s1, cmds.drop_first());
            (sf, seq![a] + rest)
        }
    }
}

/// The UI toggle: flip `is_live`, leave the child handle alone, and report
/// the command to post together with the new flag value.
pub open spec fn spec_toggle(s: Supervisor) -> (Supervisor, Command, bool) {
    if s.is_live {
        (Supervisor { is_live: false, has_child: s.has_child, token: s.token }, Command::Stop, false)
    } else {
        (Supervisor { is_live: true, has_child: s.has_child, token: s.token }, Command::Start, true)
    }
}

/// The flags returned by `n` consecutive toggles starting from `s`.
pub open spec fn toggle_flags(s: Supervisor, n: nat) -> Seq<bool>
    decreases n,
{
    if n == 0 {
        Seq::empty()
    } else {
        let (s1, _, flag) = spec_toggle(s);
        seq![flag] + toggle_flags(s1, (n - 1) as nat)
    }
}

/// The supervisor's resting invariant: the UI flag agrees with the child
/// handle. The optimistic toggle breaks it briefly; every step the loop
/// takes from a coherent state lands on a coherent state.
pub open spec fn coherent(s: Supervisor) -> bool {
    s.is_live == s.has_child
}

/// The loop keeps the flag and the child handle in agreement: a run of any
/// command sequence from a coherent state ends coherent.
pub proof fn lemma_run_coherent(s: Supervisor, cmds: Seq<Command>)
    requires
        coherent(s),
    ensures
        coherent(run_trace(s, cmds).0),
    decreases cmds.len(),
{
    if cmds.len() > 0 {
        let (s1, _, exit) = spec_step(s, cmds[0]);
        if !exit {
            lemma_run_coherent(s1, cmds.drop_first());
        }
    }
}

/// One step changes the child count by exactly the delta of the action it
/// emits, and both the count before and the count after stay below two.
proof fn lemma_step_count(s: Supervisor, cmd: Command)
    ensures
        ({
            let (s2, a, exit) = spec_step(s, cmd);
            child_count(s2) == child_count(s) + action_delta(a) && child_count(s2) <= 1
        }),
{
}

/// Splitting off the first action splits the delta sum.
proof fn lemma_delta_sum_cons(a: Action, rest: Seq<Action>)
    ensures
        delta_sum(seq![a] + rest) == action_delta(a) + delta_sum(rest),
{
    let whole = seq![a] + rest;
    assert(whole.len() >= 1);
    assert(whole[0] == a);
    assert(whole.drop_first() =~= rest);
}

/// Single child: however many commands the supervisor consumes, the number
/// of live child processes — the starting count plus the net effect of every
/// prefix of the emitted spawn and kill actions — never exceeds one, and
/// never goes negative. The full trace lands exactly on the final state's
/// count.
pub proof fn lemma_single_child(s: Supervisor, cmds: Seq<Command>)
    ensures
        ({
            let (sf, actions) = run_trace(s, cmds);
            &&& child_count(s) + delta_sum(actions) == child_count(sf)
            &&& forall|k: int|
                0 <= k <= actions.len() ==> 0 <= child_count(s) + delta_sum(#[trigger] actions.take(k)) <= 1
        }),
    decreases cmds.len(),
{
    let (sf, actions) = run_trace(s, cmds);
    if cmds.len() == 0 {
        assert(forall|k: int|
            0 <= k <= actions.len() ==> #[trigger] actions.take(k) =~= Seq::<Action>::empty());
    } else {
        let (s1, a, exit) = spec_step(s, cmds[0]);
        lemma_step_count(s, cmds[0]);
        if exit {
            assert(actions =~= seq![a] + Seq::<Action>::empty());
            lemma_delta_sum_cons(a, Seq::<Action>::empty());
            assert(child_count(s) + delta_sum(actions) == child_count(sf));
            assert forall|k: int| 0 <= k <= actions.len() implies 0 <= child_count(s) + delta_sum(
                #[trigger] actions.take(k),
            ) <= 1 by {
                if k == 0 {
                    assert(actions.take(0) =~= Seq::<Action>::empty());
                } else {
                    assert(actions.take(k) =~= seq![a] + Seq::<Action>::empty());
                    lemma_delta_sum_cons(a, Seq::<Action>::empty());
                }
            }
        } else {
            let (sf1, rest) = run_trace(s1, cmds.drop_first());
            lemma_single_child(s1, cmds.drop_first());
            lemma_delta_sum_cons(a, rest);
            assert(actions =~= seq![a] + rest);
            assert forall|k: int| 0 <= k <= actions.len() implies 0 <= child_count(s) + delta_sum(
                #[trigger] actions.take(k),
            ) <= 1 by {
                if k == 0 {
                    assert(actions.take(0) =~= Seq::<Action>::empty());
                } else {
                    assert(actions.take(k) =~= seq![a] + rest.take(k - 1));
                    lemma_delta_sum_cons(a, rest.take(k - 1));
                    assert(0 <= child_count(s1) + delta_sum(rest.take(k - 1)) <= 1);
                }
            }
        }
    }
}

/// Shutdown kills the child: handling `End` always asks the loop to exit,
/// leaves no child behind, and emits the kill exactly when a child existed.
pub proof fn lemma_end_kills(s: Supervisor)
    ensures
        ({
            let (s2, a, exit) = spec_step(s, Command::End);
            &&& exit
            &&& !s2.has_child
            &&& child_count(s2) == 0
            &&& s.has_child ==> a == Action::Kill
            &&& !s.has_child ==> a == Action::Stay
        }),
{
}

/// Env propagation: no step changes the token, and every spawn action in a
/// trace carries the token the supervisor started with.
pub proof fn lemma_spawn_token(s: Supervisor, cmds: Seq<Command>)
    ensures
        run_trace(s, cmds).0.token == s.token,
        forall|i: int|
            0 <= i < run_trace(s, cmds).1.len() ==> (#[trigger] run_trace(s, cmds).1[i] matches Action::Spawn(t)
                ==> t == s.token),
    decreases cmds.len(),
{
    if cmds.len() > 0 {
        let (s1, a, exit) = spec_step(s, cmds[0]);
        assert(s1.token == s.token);
        if !exit {
            lemma_spawn_token(s1, cmds.drop_first());
            let rest = run_trace(s1, cmds.drop_first()).1;
            assert forall|i: int| 0 <= i < run_trace(s, cmds).1.len() implies (
            #[trigger] run_trace(s, cmds).1[i] matches Action::Spawn(t) ==> t == s.token) by {
                if i > 0 {
                    assert(run_trace(s, cmds).1[i] == rest[i - 1]);
                }
            }
        }
    }
}

/// Toggle alternation: from any state, the flags returned by consecutive
/// toggles strictly alternate, and the first one is the negation of the
/// starting flag. In particular, starting cold the sequence is
/// `true, false, true, …`.
pub proof fn lemma_toggle_alternates(s: Supervisor, n: nat)
    ensures
        toggle_flags(s, n).len() == n,
        forall|i: int|
            0 <= i < n ==> #[trigger] toggle_flags(s, n)[i] == if i % 2 == 0 {
                !s.is_live
            } else {
                s.is_live
            },
    decreases n,
{
    if n > 0 {
        let (s1, _, flag) = spec_toggle(s);
        lemma_toggle_alternates(s1, (n - 1) as nat);
        assert forall|i: int| 0 <= i < n implies #[trigger] toggle_flags(s, n)[i] == if i % 2 == 0 {
            !s.is_live
        } else {
            s.is_live
        } by {
            if i > 0 {
                assert(toggle_flags(s, n)[i] == toggle_flags(s1, (n - 1) as nat)[i - 1]);
            }
        }
    }
}

impl Supervisor {
    /// A fresh supervisor: no child, not live, bound to `token`.
    pub fn new(token: String) -> (s: Supervisor)
        ensures
            !s.is_live,
            !s.has_child,
            s.token == token,
    {
        Supervisor { is_live: false, has_child: false, token }
    }

    /// Apply one command from the channel and say what the loop must do.
    pub fn step(&mut self, cmd: Command) -> (r: StepOutcome)
        ensures
            ({
                let (s2, a, exit) = spec_step(*old(self), cmd);
                *final(self) == s2 && r.action == a && r.exit_loop == exit
            }),
    {
        match cmd {
            Command::Start => {
                if self.has_child {
                    StepOutcome { action: Action::Stay, exit_loop: false }
                } else {
                    let token_env = self.token.clone();
                    self.has_child = true;
                    self.is_live = true;
                    StepOutcome { action: Action::Spawn(token_env), exit_loop: false }
                }
            },
            Command::Stop => {
                if self.has_child {
                    self.has_child = false;
                    self.is_live = false;
                    StepOutcome { action: Action::Kill, exit_loop: false }
                } else {
                    StepOutcome { action: Action::Stay, exit_loop: false }
                }
            },
            Command::End => {
                if self.has_child {
                    self.has_child = false;
                    self.is_live = false;
                    StepOutcome { action: Action::Kill, exit_loop: true }
                } else {
                    StepOutcome { action: Action::Stay, exit_loop: true }
                }
            },
        }
    }

    /// The UI toggle: read the flag, flip it optimistically, and return the
    /// command the caller must post together with the flag value to report.
    pub fn toggle_server(&mut self) -> (r: (bool, Command))
        ensures
            ({
                let (s2, cmd, flag) = spec_toggle(*old(self));
                *final(self) == s2 && r.0 == flag && r.1 == cmd
            }),
    {
        if self.is_live {
            self.is_live = false;
            (false, Command::Stop)
        } else {
            self.is_live = true;
            (true, Command::Start)
        }
    }

    /// Record that the spawn the last step asked for failed: the loop
    /// returns to the childless state. The liveness flag is left as it
    /// stands, so it may stay stale until the next command — a known
    /// limitation of the design.
    pub fn spawn_failed(&mut self)
        ensures
            !final(self).has_child,
            final(self).is_live == old(self).is_live,
            final(self).token == old(self).token,
    {
        self.has_child = false;
    }

    /// The UI status read: the current value of the liveness flag.
    pub fn get_server_status(&self) -> (r: bool)
        ensures
            r == self.is_live,
    {
        self.is_live
    }
}

} // verus!
