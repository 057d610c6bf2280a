//! The session runner: the steps that take one session from opening its
//! terminal to reaping its shell, and what each answer from the outside
//! leads to. Whoever drives a runner performs the action it asks for and
//! hands back the reply; the runner decides, and fills the session's buffer.

use crate::command::{
    env_views, geometry, shell_args, shell_command, shell_env, standard_geometry, CommandSpec,
    PtyGeometry,
};
use crate::shared::SharedLineBuffer;
use vstd::prelude::*;

verus! {

/// Why a session never came to capture output.
#[derive(Clone, Copy, Debug, PartialEq, Eq, Structural)]
pub enum RunnerFault {
    /// No terminal could be had.
    PtyUnavailable,
    /// The shell did not start.
    SpawnFailed,
    /// The terminal's output could not be opened for reading.
    ReaderUnavailable,
}

/// How a runner ended.
#[derive(Clone, Copy, Debug, PartialEq, Eq, Structural)]
pub enum Outcome {
    /// Output was captured until the stream ended or a read failed, and the
    /// shell was waited for.
    Completed,
    /// The session never started capturing.
    Failed(RunnerFault),
}

/// Where a runner stands: the step it is waiting on, or how it ended.
#[derive(Clone, Copy, Debug, PartialEq, Eq, Structural)]
pub enum RunnerState {
    OpeningPty,
    Spawning,
    Releasing,
    OpeningReader,
    Reading,
    Reaping,
    Finished(Outcome),
}

/// What came of the action that a runner asked for.
#[derive(Clone, Debug)]
pub enum RunnerReply {
    /// The action was carried out.
    Done,
    /// The action failed.
    Failed,
    /// A read gave one complete line, without its line ending.
    Line(String),
    /// A read found the end of the stream: the shell is gone.
    EndOfStream,
}

/// What a runner asks its driver to do next.
#[derive(Clone, Debug)]
pub enum RunnerAction {
    /// Open a terminal pair of this size.
    OpenPty(PtyGeometry),
    /// Start this command on the subordinate side.
    Spawn(CommandSpec),
    /// Give up the parent's hold on the subordinate side, so that the end of
    /// the stream shows when the shell exits.
    ReleaseSubordinate,
    /// Open the controlling side for reading.
    OpenReader,
    /// Read one line; this may block.
    ReadLine,
    /// Wait for the shell, so that no defunct process is left.
    Reap,
    /// Nothing is left to do.
    Stop(Outcome),
}

/// The state that follows `state` when the pending action is answered by
/// `reply`. A failure before reading ends the runner with its fault. While
/// reading, each line leads to the next read, and anything else, the end of
/// the stream or a failed read alike, leads to reaping: capture is never
/// taken up again. A finished runner stays as it is.
pub open spec fn next_state(state: RunnerState, reply: RunnerReply) -> RunnerState {
    match state {
        RunnerState::OpeningPty => if reply is Failed {
            RunnerState::Finished(Outcome::Failed(RunnerFault::PtyUnavailable))
        } else {
            RunnerState::Spawning
        },
        RunnerState::Spawning => if reply is Failed {
            RunnerState::Finished(Outcome::Failed(RunnerFault::SpawnFailed))
        } else {
            RunnerState::Releasing
        },
        RunnerState::Releasing => RunnerState::OpeningReader,
        RunnerState::OpeningReader => if reply is Failed {
            RunnerState::Finished(Outcome::Failed(RunnerFault::ReaderUnavailable))
        } else {
            RunnerState::Reading
        },
        RunnerState::Reading => if reply is Line {
            RunnerState::Reading
        } else {
            RunnerState::Reaping
        },
        RunnerState::Reaping => RunnerState::Finished(Outcome::Completed),
        RunnerState::Finished(outcome) => RunnerState::Finished(outcome),
    }
}

/// The line that `reply` adds to the session's buffer in `state`: a line
/// counts only while the runner is reading.
pub open spec fn captured(state: RunnerState, reply: RunnerReply) -> Option<Seq<char>> {
    match (state, reply) {
        (RunnerState::Reading, RunnerReply::Line(line)) => Some(line@),
        _ => None,
    }
}

/// The state after a run of replies, each answering the action that was
/// pending when it came.
pub open spec fn state_after(state: RunnerState, replies: Seq<RunnerReply>) -> RunnerState
    decreases replies.len(),
{
    if replies.len() == 0 {
        state
    } else {
        next_state(state_after(state, replies.drop_last()), replies.last())
    }
}

/// The lines that a run of replies adds to the session's buffer, in the
/// order in which they are added.
pub open spec fn lines_captured(state: RunnerState, replies: Seq<RunnerReply>) -> Seq<Seq<char>>
    decreases replies.len(),
{
    if replies.len() == 0 {
        Seq::empty()
    } else {
        let before = lines_captured(state, replies.drop_last());
        match captured(state_after(state, replies.drop_last()), replies.last()) {
            Some(line) => before.push(line),
            None => before,
        }
    }
}

/// Whether capture can still happen from `state` on.
pub open spec fn may_capture(state: RunnerState) -> bool {
    !(state is Reaping || state is Finished)
}

/// Once a runner is reaping or finished it never reads again and captures
/// nothing more, whatever replies it is given.
pub proof fn lemma_capture_never_resumes(state: RunnerState, replies: Seq<RunnerReply>)
    requires
        !may_capture(state),
    ensures
        !may_capture(state_after(state, replies)),
        lines_captured(state, replies) == Seq::<Seq<char>>::empty(),
    decreases replies.len(),
{
    if replies.len() > 0 {
        lemma_capture_never_resumes(state, replies.drop_last());
    }
}

/// A session whose terminal or shell could not be had never receives
/// output: the runner ends with the fault, and no reply changes that.
pub proof fn lemma_failed_start_captures_nothing(
    state: RunnerState,
    reply: RunnerReply,
    replies: Seq<RunnerReply>,
)
    requires
        state is OpeningPty || state is Spawning || state is OpeningReader,
        reply is Failed,
    ensures
        next_state(state, reply) matches RunnerState::Finished(Outcome::Failed(_)),
        captured(state, reply) is None,
        state_after(next_state(state, reply), replies) == next_state(state, reply),
        lines_captured(next_state(state, reply), replies) == Seq::<Seq<char>>::empty(),
    decreases replies.len(),
{
    let ended = next_state(state, reply);
    lemma_capture_never_resumes(ended, replies);
    if replies.len() > 0 {
        lemma_failed_start_captures_nothing(state, reply, replies.drop_last());
    }
}

/// A failed read in the middle of the stream ends capture for the session
/// without a fault: the shell is reaped and the runner completes.
pub proof fn lemma_read_failure_ends_quietly(after: RunnerReply)
    ensures
        next_state(RunnerState::Reading, RunnerReply::Failed) == RunnerState::Reaping,
        next_state(RunnerState::Reaping, after) == RunnerState::Finished(Outcome::Completed),
{
}

/// The replies that hand over `lines`, one reply for each line.
pub open spec fn is_lines(replies: Seq<RunnerReply>, lines: Seq<Seq<char>>) -> bool {
    &&& replies.len() == lines.len()
    &&& forall|i: int|
        0 <= i < replies.len() ==> captured(RunnerState::Reading, #[trigger] replies[i]) == Some(
            lines[i],
        )
}

/// While reading, every line that arrives is captured, in the order of
/// arrival, and the runner keeps reading.
pub proof fn lemma_reading_captures_in_order(replies: Seq<RunnerReply>, lines: Seq<Seq<char>>)
    requires
        is_lines(replies, lines),
    ensures
        state_after(RunnerState::Reading, replies) == RunnerState::Reading,
        lines_captured(RunnerState::Reading, replies) == lines,
    decreases replies.len(),
{
    if replies.len() > 0 {
        lemma_reading_captures_in_order(replies.drop_last(), lines.drop_last());
        assert(lines.drop_last().push(lines.last()) =~= lines);
    } else {
        assert(lines =~= Seq::<Seq<char>>::empty());
    }
}

/// The replies that reach runner `who`, in order, out of replies delivered to
/// several runners in any interleaving. Each delivery names the runner it is
/// for, by its place among the runners.
pub open spec fn replies_to(deliveries: Seq<(nat, RunnerReply)>, who: nat) -> Seq<RunnerReply>
    decreases deliveries.len(),
{
    if deliveries.len() == 0 {
        Seq::empty()
    } else if deliveries.last().0 == who {
        replies_to(deliveries.drop_last(), who).push(deliveries.last().1)
    } else {
        replies_to(deliveries.drop_last(), who)
    }
}

/// The states of several runners after replies have been delivered to them
/// in some interleaving: each delivery moves the runner it is for, and a
/// delivery for a runner that does not exist moves none.
pub open spec fn runners_after(
    runners: Seq<RunnerState>,
    deliveries: Seq<(nat, RunnerReply)>,
) -> Seq<RunnerState>
    decreases deliveries.len(),
{
    if deliveries.len() == 0 {
        runners
    } else {
        let before = runners_after(runners, deliveries.drop_last());
        let (who, reply) = deliveries.last();
        if who < before.len() {
            before.update(who as int, next_state(before[who as int], reply))
        } else {
            before
        }
    }
}

/// The lines that runner `who` adds to its buffer while replies are
/// delivered to several runners in some interleaving.
pub open spec fn lines_captured_by(
    runners: Seq<RunnerState>,
    deliveries: Seq<(nat, RunnerReply)>,
    who: nat,
) -> Seq<Seq<char>>
    decreases deliveries.len(),
{
    if deliveries.len() == 0 {
        Seq::empty()
    } else {
        let before = lines_captured_by(runners, deliveries.drop_last(), who);
        let states = runners_after(runners, deliveries.drop_last());
        if deliveries.last().0 == who && who < states.len() {
            match captured(states[who as int], deliveries.last().1) {
                Some(line) => before.push(line),
                None => before,
            }
        } else {
            before
        }
    }
}

/// Sessions are isolated. Whatever reaches the other runners, failures
/// included, and however the deliveries interleave, a runner ends in the
/// state, and captures the lines, that its own replies alone lead to: no
/// failure elsewhere stops it from appending.
pub proof fn lemma_runners_do_not_interfere(
    runners: Seq<RunnerState>,
    deliveries: Seq<(nat, RunnerReply)>,
    who: nat,
)
    requires
        who < runners.len(),
    ensures
        runners_after(runners, deliveries).len() == runners.len(),
        runners_after(runners, deliveries)[who as int] == state_after(
            runners[who as int],
            replies_to(deliveries, who),
        ),
        lines_captured_by(runners, deliveries, who) == lines_captured(
            runners[who as int],
            replies_to(deliveries, who),
        ),
    decreases deliveries.len(),
{
    if deliveries.len() > 0 {
        let front = deliveries.drop_last();
        lemma_runners_do_not_interfere(runners, front, who);
        let (to, reply) = deliveries.last();
        if to == who {
            assert(replies_to(deliveries, who).drop_last() =~= replies_to(front, who));
            assert(replies_to(deliveries, who).last() == reply);
        }
    }
}

/// Takes one step: the state that follows, and the line to add to the
/// session's buffer, if the reply brought one while the runner was reading.
pub fn step(state: RunnerState, reply: RunnerReply) -> (next: (RunnerState, Option<String>))
    ensures
        next.0 == next_state(state, reply),
        match next.1 {
            Some(line) => captured(state, reply) == Some(line@),
            None => captured(state, reply) is None,
        },
{
    match state {
        RunnerState::OpeningPty => match reply {
            RunnerReply::Failed => (
                RunnerState::Finished(Outcome::Failed(RunnerFault::PtyUnavailable)),
                None,
            ),
            _ => (RunnerState::Spawning, None),
        },
        RunnerState::Spawning => match reply {
            RunnerReply::Failed => (
                RunnerState::Finished(Outcome::Failed(RunnerFault::SpawnFailed)),
                None,
            ),
            _ => (RunnerState::Releasing, None),
        },
        RunnerState::Releasing => (RunnerState::OpeningReader, None),
        RunnerState::OpeningReader => match reply {
            RunnerReply::Failed => (
                RunnerState::Finished(Outcome::Failed(RunnerFault::ReaderUnavailable)),
                None,
            ),
            _ => (RunnerState::Reading, None),
        },
        RunnerState::Reading => match reply {
            RunnerReply::Line(line) => (RunnerState::Reading, Some(line)),
            _ => (RunnerState::Reaping, None),
        },
        RunnerState::Reaping => (RunnerState::Finished(Outcome::Completed), None),
        RunnerState::Finished(outcome) => (RunnerState::Finished(outcome), None),
    }
}

/// Whether `action` is what a runner of session `id`, whose startup script
/// lies under `root`, asks for in `state`.
pub open spec fn is_pending(
    action: RunnerAction,
    state: RunnerState,
    id: u8,
    root: Seq<char>,
) -> bool {
    match state {
        RunnerState::OpeningPty => action matches RunnerAction::OpenPty(size) && size
            == standard_geometry(),
        RunnerState::Spawning => action matches RunnerAction::Spawn(command) && {
            &&& command.program@ == "bash"@
            &&& command.args.deep_view() == shell_args(root, id)
            &&& env_views(command.env@) == shell_env(id)
        },
        RunnerState::Releasing => action is ReleaseSubordinate,
        RunnerState::OpeningReader => action is OpenReader,
        RunnerState::Reading => action is ReadLine,
        RunnerState::Reaping => action is Reap,
        RunnerState::Finished(outcome) => action matches RunnerAction::Stop(with) && with
            == outcome,
    }
}

/// The runner of one session. It shares nothing with other runners: its
/// buffer is reached by this runner and by the renderer only.
pub struct SessionRunner {
    /// The identity of the session.
    pub id: u8,
    /// The directory that holds the sessions' startup directories.
    pub root: String,
    /// The session's buffer.
    pub buffer: SharedLineBuffer,
    /// Where the runner stands.
    pub state: RunnerState,
}

impl SessionRunner {
    /// A runner for session `id` that has yet to open its terminal.
    pub fn new(id: u8, root: String, buffer: SharedLineBuffer) -> (runner: SessionRunner)
        ensures
            runner.id == id,
            runner.root == root,
            runner.buffer == buffer,
            runner.state == RunnerState::OpeningPty,
    {
        SessionRunner { id, root, buffer, state: RunnerState::OpeningPty }
    }

    /// The action the runner is waiting on.
    pub fn pending(&self) -> (action: RunnerAction)
        ensures
            is_pending(action, self.state, self.id, self.root@),
    {
        match self.state {
            RunnerState::OpeningPty => RunnerAction::OpenPty(geometry()),
            RunnerState::Spawning => RunnerAction::Spawn(shell_command(self.id, self.root.as_str())),
            RunnerState::Releasing => RunnerAction::ReleaseSubordinate,
            RunnerState::OpeningReader => RunnerAction::OpenReader,
            RunnerState::Reading => RunnerAction::ReadLine,
            RunnerState::Reaping => RunnerAction::Reap,
            RunnerState::Finished(outcome) => RunnerAction::Stop(outcome),
        }
    }

    /// Whether the runner has ended.
    pub fn is_finished(&self) -> (finished: bool)
        ensures
            finished == (self.state is Finished),
    {
        match self.state {
            RunnerState::Finished(_) => true,
            _ => false,
        }
    }

    /// Takes the reply to the pending action: moves to the state that
    /// follows, and appends the line to the session's buffer if the reply
    /// brought one while the runner was reading.
    pub fn advance(&mut self, reply: RunnerReply)
        ensures
            final(self).state == next_state(old(self).state, reply),
            final(self).id == old(self).id,
            final(self).root == old(self).root,
            final(self).buffer == old(self).buffer,
    {
        let (next, line) = step(self.state, reply);
        match line {
            Some(line) => self.buffer.append(line),
            None => {},
        }
        self.state = next;
    }
}

} // verus!
