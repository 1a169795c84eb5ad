//! Commands: the units of work that control threads hand to the audio
//! thread, and their application to the synthesizer in the order in which
//! they were sent.

use crate::backend::{font_absent, font_file, same_banks};
use crate::error::{BankLoadError, EventApplyError};
use crate::event::{decode, decoded, MusicalEvent};
use crate::synth::{programs_follow, routed, Engine, Gain};
use vstd::prelude::*;

verus! {

/// A unit of work for the synthesizer.
#[derive(Clone, Debug, PartialEq, Eq)]
pub enum Command {
    /// Apply a musical event.
    PlayEvent(MusicalEvent),
    /// Load the sound bank in the file with this path.
    LoadBank(String),
    /// Set the master gain.
    SetGain(Gain),
}

/// What became of a command. A failure is reported and never stops the
/// commands that follow.
#[derive(Clone, Debug, PartialEq, Eq)]
pub enum Outcome {
    /// The command was carried out, or asked for nothing.
    Done,
    /// The event was not applied.
    EventFailed(EventApplyError),
    /// The bank was not loaded; no bank is active.
    BankFailed(BankLoadError),
}

/// The gain that a synthesizer has after a run of commands: that of the last
/// command that sets one, or the gain it started with.
pub open spec fn gain_after(start: Gain, commands: Seq<Command>) -> Gain
    decreases commands.len(),
{
    if commands.len() == 0 {
        start
    } else {
        match commands.last() {
            Command::SetGain(gain) => gain,
            _ => gain_after(start, commands.drop_last()),
        }
    }
}

/// Whether a synthesizer has a bank after a run of commands: as the last load
/// ended, or as it started where no bank was loaded.
pub open spec fn bank_after(start: bool, commands: Seq<Command>, outcomes: Seq<Outcome>) -> bool
    decreases commands.len(),
{
    if commands.len() == 0 || outcomes.len() != commands.len() {
        start
    } else {
        match commands.last() {
            Command::LoadBank(_) => outcomes.last() is Done,
            _ => bank_after(start, commands.drop_last(), outcomes.drop_last()),
        }
    }
}

/// The command that raw input bytes give: to play the event that they
/// decode to. Bytes that decode to no event give no command.
pub fn input_command(data: &[u8]) -> (command: Option<Command>)
    ensures
        command == match decoded(data@) {
            Some(event) => Some(Command::PlayEvent(event)),
            None => None,
        },
{
    match decode(data) {
        Some(event) => Some(Command::PlayEvent(event)),
        None => None,
    }
}

impl Engine {
    /// One command takes a synthesizer from `pre` to `post` with this
    /// outcome.
    ///
    /// An event leaves bank, presets, gain and the loaded fonts alone; it
    /// fails with `InvalidParameter` exactly when it is not valid, and then,
    /// as when it asks nothing of the backend, the synthesizer stays as it
    /// was. A valid event is done unless it is a note that the backend
    /// refuses, and leaves the channels as [`programs_follow`] says. A bank
    /// load ends with the bank of that file and `Done`, or with no bank and
    /// the failure, which names the path; either way the synthesizer is
    /// well formed and the bank that was active has left the backend. A gain is recorded and
    /// nothing else changes. No command makes a well-formed synthesizer ill
    /// formed.
    pub open spec fn applies(pre: Engine, command: Command, outcome: Outcome, post: Engine) -> bool {
        &&& pre.wf() ==> post.wf()
        &&& match command {
            Command::PlayEvent(event) => {
                &&& post.font() == pre.font()
                &&& post.descriptors() == pre.descriptors()
                &&& post.gain_value() == pre.gain_value()
                &&& outcome is Done || outcome is EventFailed
                &&& (outcome == Outcome::EventFailed(EventApplyError::InvalidParameter))
                    == !event.valid()
                &&& !event.valid() ==> post == pre
                &&& event.valid() && routed(event).never_refused() ==> outcome is Done
                &&& event.valid() && routed(event) is Nothing ==> post == pre
                &&& event.valid() ==> programs_follow(routed(event), pre.state(), post.state())
                &&& same_banks(pre.state(), post.state())
            },
            Command::LoadBank(path) => {
                &&& post.wf()
                &&& post.gain_value() == pre.gain_value()
                &&& pre.font() is Some && post.font() != pre.font() ==> font_absent(
                    post.state(),
                    pre.font()->Some_0,
                )
                &&& match outcome {
                    Outcome::Done => post.font() is Some && font_file(
                        post.state(),
                        post.font()->Some_0,
                    ) == Some(path@),
                    Outcome::BankFailed(error) => post.font() is None && error.path@ == path@,
                    Outcome::EventFailed(_) => false,
                }
            },
            Command::SetGain(gain) => {
                &&& outcome is Done
                &&& post.gain_value() == gain
                &&& post.state() == pre.state()
                &&& post.font() == pre.font()
                &&& post.descriptors() == pre.descriptors()
            },
        }
    }

    /// The states that a synthesizer passes through while the commands are
    /// applied one after the other, in the order of the sequence: each
    /// command takes the state before it to the state after it, with its
    /// outcome.
    pub open spec fn follows(
        trace: Seq<Engine>,
        commands: Seq<Command>,
        outcomes: Seq<Outcome>,
    ) -> bool {
        &&& trace.len() == commands.len() + 1
        &&& outcomes.len() == commands.len()
        &&& forall|i: int|
            0 <= i < commands.len() ==> Self::applies(
                trace[i],
                #[trigger] commands[i],
                outcomes[i],
                trace[i + 1],
            )
    }

    /// A run of commands, applied one after the other in the order of the
    /// sequence, takes a synthesizer from `pre` to `post` with these
    /// outcomes, one for each command.
    pub open spec fn applies_all(
        pre: Engine,
        commands: Seq<Command>,
        outcomes: Seq<Outcome>,
        post: Engine,
    ) -> bool {
        exists|trace: Seq<Engine>|
            {
                &&& #[trigger] Self::follows(trace, commands, outcomes)
                &&& trace.first() == pre
                &&& trace.last() == post
            }
    }

    /// Applies one command and reports what became of it.
    pub fn apply_command(&mut self, command: &Command) -> (outcome: Outcome)
        ensures
            Self::applies(*old(self), *command, outcome, *final(self)),
    {
        match command {
            Command::PlayEvent(event) => match self.send_midi_message(*event) {
                Ok(()) => Outcome::Done,
                Err(error) => Outcome::EventFailed(error),
            },
            Command::LoadBank(path) => match self.load_sfont(path.as_str()) {
                Ok(()) => Outcome::Done,
                Err(error) => Outcome::BankFailed(error),
            },
            Command::SetGain(gain) => {
                self.set_gain(*gain);
                Outcome::Done
            },
        }
    }

    /// Applies all the commands of a batch, first to last, and reports what
    /// became of each. No failure stops the batch.
    pub fn drain(&mut self, commands: &[Command]) -> (outcomes: Vec<Outcome>)
        ensures
            old(self).wf() ==> final(self).wf(),
            outcomes.len() == commands.len(),
            Self::applies_all(*old(self), commands@, outcomes@, *final(self)),
    {
        let ghost mut trace: Seq<Engine> = seq![*self];
        let mut outcomes: Vec<Outcome> = Vec::new();
        let mut at: usize = 0;
        while at < commands.len()
            invariant
                at <= commands.len(),
                outcomes.len() == at,
                old(self).wf() ==> self.wf(),
                Self::follows(trace, commands@.take(at as int), outcomes@),
                trace.first() == *old(self),
                trace.last() == *self,
            decreases commands.len() - at,
        {
            let outcome = self.apply_command(&commands[at]);
            outcomes.push(outcome);
            proof {
                trace = trace.push(*self);
            }
            at += 1;
        }
        assert(commands@.take(at as int) =~= commands@);
        outcomes
    }
}

/// A batch of one command does what the command does.
pub proof fn law_single_command(pre: Engine, command: Command, outcome: Outcome, post: Engine)
    ensures
        Engine::applies_all(pre, seq![command], seq![outcome], post) == Engine::applies(
            pre,
            command,
            outcome,
            post,
        ),
{
    let commands = seq![command];
    let outcomes = seq![outcome];
    if Engine::applies(pre, command, outcome, post) {
        let trace = seq![pre, post];
        assert(Engine::follows(trace, commands, outcomes));
    }
    if Engine::applies_all(pre, commands, outcomes, post) {
        let trace = choose|trace: Seq<Engine>|
            {
                &&& #[trigger] Engine::follows(trace, commands, outcomes)
                &&& trace.first() == pre
                &&& trace.last() == post
            };
        assert(commands[0] == command);
        assert(Engine::applies(trace[0], commands[0], outcomes[0], trace[1]));
    }
}

/// Two runs in a row are one run of the commands in a row: where a batch
/// ends and the next begins does not matter.
pub proof fn law_runs_join(
    pre: Engine,
    first: Seq<Command>,
    first_outcomes: Seq<Outcome>,
    mid: Engine,
    second: Seq<Command>,
    second_outcomes: Seq<Outcome>,
    post: Engine,
)
    requires
        Engine::applies_all(pre, first, first_outcomes, mid),
        Engine::applies_all(mid, second, second_outcomes, post),
    ensures
        Engine::applies_all(pre, first + second, first_outcomes + second_outcomes, post),
{
    let head = choose|trace: Seq<Engine>|
        {
            &&& #[trigger] Engine::follows(trace, first, first_outcomes)
            &&& trace.first() == pre
            &&& trace.last() == mid
        };
    let tail = choose|trace: Seq<Engine>|
        {
            &&& #[trigger] Engine::follows(trace, second, second_outcomes)
            &&& trace.first() == mid
            &&& trace.last() == post
        };
    let trace = head + tail.skip(1);
    let commands = first + second;
    let outcomes = first_outcomes + second_outcomes;
    assert forall|i: int| 0 <= i < commands.len() implies Engine::applies(
        trace[i],
        #[trigger] commands[i],
        outcomes[i],
        trace[i + 1],
    ) by {
        if i < first.len() {
            assert(commands[i] == first[i]);
            assert(trace[i + 1] == head[i + 1]);
        } else {
            let j = i - first.len();
            assert(commands[i] == second[j]);
            assert(trace[i] == tail[j]);
            assert(trace[i + 1] == tail[j + 1]);
        }
    }
    assert(Engine::follows(trace, commands, outcomes));
}

/// One run is two runs in a row, wherever it is cut: the synthesizer passes
/// through a state that the first part reaches and from which the second
/// part goes on.
pub proof fn law_run_splits(
    pre: Engine,
    commands: Seq<Command>,
    outcomes: Seq<Outcome>,
    post: Engine,
    cut: int,
) -> (mid: Engine)
    requires
        Engine::applies_all(pre, commands, outcomes, post),
        0 <= cut <= commands.len(),
    ensures
        Engine::applies_all(pre, commands.take(cut), outcomes.take(cut), mid),
        Engine::applies_all(mid, commands.skip(cut), outcomes.skip(cut), post),
{
    let trace = choose|trace: Seq<Engine>|
        {
            &&& #[trigger] Engine::follows(trace, commands, outcomes)
            &&& trace.first() == pre
            &&& trace.last() == post
        };
    let head = trace.take(cut + 1);
    let tail = trace.skip(cut);
    assert forall|i: int| 0 <= i < cut implies Engine::applies(
        head[i],
        #[trigger] commands.take(cut)[i],
        outcomes.take(cut)[i],
        head[i + 1],
    ) by {
        assert(commands.take(cut)[i] == commands[i]);
    }
    assert(Engine::follows(head, commands.take(cut), outcomes.take(cut)));
    assert forall|i: int| 0 <= i < commands.len() - cut implies Engine::applies(
        tail[i],
        #[trigger] commands.skip(cut)[i],
        outcomes.skip(cut)[i],
        tail[i + 1],
    ) by {
        assert(commands.skip(cut)[i] == commands[i + cut]);
    }
    assert(Engine::follows(tail, commands.skip(cut), outcomes.skip(cut)));
    trace[cut]
}

/// A run keeps a well-formed synthesizer well formed, and leaves it with the
/// gain that the commands alone decide, and with or without a bank as the
/// commands and their outcomes decide.
pub proof fn law_run_decides_gain_and_bank(
    pre: Engine,
    commands: Seq<Command>,
    outcomes: Seq<Outcome>,
    post: Engine,
)
    requires
        pre.wf(),
        Engine::applies_all(pre, commands, outcomes, post),
    ensures
        post.wf(),
        post.gain_value() == gain_after(pre.gain_value(), commands),
        post.font() is Some == bank_after(pre.font() is Some, commands, outcomes),
    decreases commands.len(),
{
    lemma_one_outcome_each(pre, commands, outcomes, post);
    if commands.len() > 0 {
        let last = commands.len() - 1;
        let before_last = law_run_splits(pre, commands, outcomes, post, last);
        assert(commands.take(last) =~= commands.drop_last());
        assert(outcomes.take(last) =~= outcomes.drop_last());
        law_run_decides_gain_and_bank(
            pre,
            commands.drop_last(),
            outcomes.drop_last(),
            before_last,
        );
        assert(commands.skip(last) =~= seq![commands.last()]);
        assert(outcomes.skip(last) =~= seq![outcomes.last()]);
        law_single_command(before_last, commands.last(), outcomes.last(), post);
    } else {
        let trace = choose|trace: Seq<Engine>|
            {
                &&& #[trigger] Engine::follows(trace, commands, outcomes)
                &&& trace.first() == pre
                &&& trace.last() == post
            };
        assert(trace.first() == trace.last());
    }
}

/// A run reports one outcome for each command.
proof fn lemma_one_outcome_each(
    pre: Engine,
    commands: Seq<Command>,
    outcomes: Seq<Outcome>,
    post: Engine,
)
    requires
        Engine::applies_all(pre, commands, outcomes, post),
    ensures
        outcomes.len() == commands.len(),
{
}

} // verus!
