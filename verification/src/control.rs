//! The render and input loop: the one loop that owns the screen and the
//! keyboard. It enters the terminal, starts the runners, then draws and
//! polls in turn until the quit key or a failure, and restores the terminal
//! on every way out. Whoever drives it performs the action it asks for and
//! hands back the reply.

use vstd::prelude::*;

verus! {

/// The longest a poll for input waits, in milliseconds. The loop is never
/// blocked for longer, so it ticks at a steady pace without input.
pub const POLL_TIMEOUT_MS: u64 = 100;

/// How long the runners are given to produce output before the first frame,
/// in milliseconds.
pub const STARTUP_GRACE_MS: u64 = 500;

/// The key that ends the dashboard.
pub const QUIT_KEY: char = 'q';

/// What one poll of the terminal found.
#[derive(Clone, Copy, Debug, PartialEq, Eq, Structural)]
pub enum Input {
    /// Nothing within the time allowed.
    Nothing,
    /// A key that stands for a character.
    Key(char),
    /// Any other key.
    OtherKey,
    /// Something that is not a key: the mouse, a change of size.
    Other,
}

/// What went wrong in the loop.
#[derive(Clone, Copy, Debug, PartialEq, Eq, Structural)]
pub enum LoopFault {
    /// A frame could not be painted.
    Draw,
    /// The terminal could not be asked for input.
    Input,
}

/// Why the dashboard ends.
#[derive(Clone, Copy, Debug, PartialEq, Eq, Structural)]
pub enum Ending {
    /// The quit key was pressed.
    Quit,
    /// The terminal could not be set up.
    InitFailed,
    /// The loop failed while it ran.
    LoopFailed(LoopFault),
    /// The terminal could not be restored.
    RestoreFailed,
}

/// Where the dashboard stands: the step it is waiting on, or how it ended.
#[derive(Clone, Copy, Debug, PartialEq, Eq, Structural)]
pub enum Phase {
    Entering,
    Launching,
    Settling,
    Drawing,
    Polling,
    Restoring(Ending),
    Finished(Ending),
}

/// What came of the action that the loop asked for.
#[derive(Clone, Copy, Debug, PartialEq, Eq, Structural)]
pub enum Reply {
    /// The action was carried out.
    Done,
    /// The action failed.
    Failed,
    /// A poll ended, and this is what it found.
    Polled(Input),
}

/// What the loop asks its driver to do next.
#[derive(Clone, Copy, Debug, PartialEq, Eq, Structural)]
pub enum Action {
    /// Switch the terminal to the alternate screen and to raw input.
    EnterTerminal,
    /// Start one runner for each session, each on a thread of its own.
    LaunchRunners,
    /// Wait this many milliseconds.
    Sleep(u64),
    /// Sample the buffers and paint one frame.
    Draw,
    /// Wait for input, this many milliseconds at most.
    Poll(u64),
    /// Put the terminal back as it was.
    RestoreTerminal,
    /// Leave, reporting how the dashboard ended, with this exit code.
    Exit(Ending, u8),
}

/// Whether `input` is the quit key.
pub open spec fn is_quit(input: Input) -> bool {
    input == Input::Key(QUIT_KEY)
}

/// The phase that follows `phase` when the pending action is answered by
/// `reply`. Entering, drawing and polling may fail, and then the terminal
/// is restored before the dashboard ends; the quit key leads there too.
/// Any other input leads to the next frame. A session that fails to start
/// does not show here: its pane stays empty.
pub open spec fn next_phase(phase: Phase, reply: Reply) -> Phase {
    match phase {
        Phase::Entering => if reply is Failed {
            Phase::Restoring(Ending::InitFailed)
        } else {
            Phase::Launching
        },
        Phase::Launching => Phase::Settling,
        Phase::Settling => Phase::Drawing,
        Phase::Drawing => if reply is Failed {
            Phase::Restoring(Ending::LoopFailed(LoopFault::Draw))
        } else {
            Phase::Polling
        },
        Phase::Polling => match reply {
            Reply::Failed => Phase::Restoring(Ending::LoopFailed(LoopFault::Input)),
            Reply::Polled(input) => if is_quit(input) {
                Phase::Restoring(Ending::Quit)
            } else {
                Phase::Drawing
            },
            Reply::Done => Phase::Drawing,
        },
        Phase::Restoring(ending) => if reply is Failed {
            Phase::Finished(Ending::RestoreFailed)
        } else {
            Phase::Finished(ending)
        },
        Phase::Finished(ending) => Phase::Finished(ending),
    }
}

/// The exit code for an ending: zero unless the terminal could not be set
/// up or restored.
pub open spec fn exit_code(ending: Ending) -> u8 {
    match ending {
        Ending::Quit => 0,
        Ending::LoopFailed(_) => 0,
        Ending::InitFailed => 1,
        Ending::RestoreFailed => 1,
    }
}

/// The action that the loop is waiting on in `phase`.
pub open spec fn pending_action(phase: Phase) -> Action {
    match phase {
        Phase::Entering => Action::EnterTerminal,
        Phase::Launching => Action::LaunchRunners,
        Phase::Settling => Action::Sleep(STARTUP_GRACE_MS),
        Phase::Drawing => Action::Draw,
        Phase::Polling => Action::Poll(POLL_TIMEOUT_MS),
        Phase::Restoring(_) => Action::RestoreTerminal,
        Phase::Finished(ending) => Action::Exit(ending, exit_code(ending)),
    }
}

/// The phase after a run of replies, each answering the action that was
/// pending when it came.
pub open spec fn phase_after(phase: Phase, replies: Seq<Reply>) -> Phase
    decreases replies.len(),
{
    if replies.len() == 0 {
        phase
    } else {
        next_phase(phase_after(phase, replies.drop_last()), replies.last())
    }
}

/// The actions that were carried out in a run of replies, in order: each
/// reply answers the action that was pending when it came.
pub open spec fn actions_taken(phase: Phase, replies: Seq<Reply>) -> Seq<Action>
    decreases replies.len(),
{
    if replies.len() == 0 {
        Seq::empty()
    } else {
        actions_taken(phase, replies.drop_last()).push(
            pending_action(phase_after(phase, replies.drop_last())),
        )
    }
}

/// How often `action` occurs in `actions`.
pub open spec fn occurrences(actions: Seq<Action>, action: Action) -> nat
    decreases actions.len(),
{
    if actions.len() == 0 {
        0
    } else {
        occurrences(actions.drop_last(), action) + if actions.last() == action {
            1nat
        } else {
            0nat
        }
    }
}

/// The terminal is restored exactly once on every way out: in no run is it
/// restored twice, and a run that has ended, by the quit key or by a failure,
/// has restored it before leaving.
pub proof fn lemma_terminal_restored_once(phase: Phase, replies: Seq<Reply>)
    requires
        !(phase is Finished),
    ensures
        occurrences(actions_taken(phase, replies), Action::RestoreTerminal) <= 1,
        phase_after(phase, replies) is Finished <==> occurrences(
            actions_taken(phase, replies),
            Action::RestoreTerminal,
        ) == 1,
    decreases replies.len(),
{
    if replies.len() > 0 {
        let front = replies.drop_last();
        lemma_terminal_restored_once(phase, front);
        let taken = actions_taken(phase, replies);
        assert(taken.drop_last() =~= actions_taken(phase, front));
        assert(taken.last() == pending_action(phase_after(phase, front)));
    } else {
        assert(actions_taken(phase, replies).len() == 0);
    }
}

/// Once the quit key has been delivered, the loop draws no frame and polls
/// no more: all that is left is to restore the terminal, once, and to leave
/// with exit code zero.
pub proof fn lemma_quit_leaves_at_once(replies: Seq<Reply>)
    requires
        replies.len() > 0,
        !(replies[0] is Failed),
    ensures
        next_phase(Phase::Polling, Reply::Polled(Input::Key(QUIT_KEY))) == Phase::Restoring(
            Ending::Quit,
        ),
        phase_after(Phase::Restoring(Ending::Quit), replies) == Phase::Finished(Ending::Quit),
        actions_taken(Phase::Restoring(Ending::Quit), replies) == seq![Action::RestoreTerminal]
            + Seq::new((replies.len() - 1) as nat, |i: int| Action::Exit(Ending::Quit, 0)),
    decreases replies.len(),
{
    let start = Phase::Restoring(Ending::Quit);
    let front = replies.drop_last();
    if replies.len() == 1 {
        assert(front.len() == 0);
        assert(actions_taken(start, front) =~= Seq::<Action>::empty());
        assert(actions_taken(start, replies) =~= seq![Action::RestoreTerminal] + Seq::new(
            0,
            |i: int| Action::Exit(Ending::Quit, 0),
        ));
    } else {
        assert(front[0] == replies[0]);
        lemma_quit_leaves_at_once(front);
        assert(actions_taken(start, replies) =~= seq![Action::RestoreTerminal] + Seq::new(
            (replies.len() - 1) as nat,
            |i: int| Action::Exit(Ending::Quit, 0),
        ));
    }
}

/// Whether `input` is the quit key.
pub fn quits(input: Input) -> (quit: bool)
    ensures
        quit == is_quit(input),
{
    match input {
        Input::Key(key) => key == QUIT_KEY,
        _ => false,
    }
}

/// Takes one step of the loop.
pub fn advance(phase: Phase, reply: Reply) -> (next: Phase)
    ensures
        next == next_phase(phase, reply),
{
    match phase {
        Phase::Entering => match reply {
            Reply::Failed => Phase::Restoring(Ending::InitFailed),
            _ => Phase::Launching,
        },
        Phase::Launching => Phase::Settling,
        Phase::Settling => Phase::Drawing,
        Phase::Drawing => match reply {
            Reply::Failed => Phase::Restoring(Ending::LoopFailed(LoopFault::Draw)),
            _ => Phase::Polling,
        },
        Phase::Polling => match reply {
            Reply::Failed => Phase::Restoring(Ending::LoopFailed(LoopFault::Input)),
            Reply::Polled(input) => if quits(input) {
                Phase::Restoring(Ending::Quit)
            } else {
                Phase::Drawing
            },
            Reply::Done => Phase::Drawing,
        },
        Phase::Restoring(ending) => match reply {
            Reply::Failed => Phase::Finished(Ending::RestoreFailed),
            _ => Phase::Finished(ending),
        },
        Phase::Finished(ending) => Phase::Finished(ending),
    }
}

/// The exit code for an ending.
pub fn code_of(ending: Ending) -> (code: u8)
    ensures
        code == exit_code(ending),
{
    match ending {
        Ending::Quit => 0,
        Ending::LoopFailed(_) => 0,
        Ending::InitFailed => 1,
        Ending::RestoreFailed => 1,
    }
}

/// The action that the loop is waiting on in `phase`.
pub fn pending(phase: Phase) -> (action: Action)
    ensures
        action == pending_action(phase),
{
    match phase {
        Phase::Entering => Action::EnterTerminal,
        Phase::Launching => Action::LaunchRunners,
        Phase::Settling => Action::Sleep(STARTUP_GRACE_MS),
        Phase::Drawing => Action::Draw,
        Phase::Polling => Action::Poll(POLL_TIMEOUT_MS),
        Phase::Restoring(_) => Action::RestoreTerminal,
        Phase::Finished(ending) => Action::Exit(ending, code_of(ending)),
    }
}

/// Whether the loop still draws and polls, or is on its way there.
pub fn is_running(phase: Phase) -> (running: bool)
    ensures
        running == !(phase is Restoring || phase is Finished),
{
    match phase {
        Phase::Restoring(_) => false,
        Phase::Finished(_) => false,
        _ => true,
    }
}

} // verus!
