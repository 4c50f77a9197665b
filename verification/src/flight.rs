//! What sounds on the device while the actor runs, and the laws of
//! single-flight playback.
//!
//! The device is modelled apart from the actor: it keeps every session that
//! was started and has neither been silenced nor come to its end, however
//! many these are. The laws show that under the actor's direction they are
//! never more than one.

use vstd::prelude::*;
use crate::actor::{step, ActionView, EventView, StartOutcome, StateView};
use crate::command::CommandView;

verus! {

/// The actor together with its device at one instant.
pub ghost struct Stage {
    /// Where the actor stands.
    pub state: StateView,
    /// What the actor last asked its driver to do.
    pub asked: Option<ActionView>,
    /// The clips that sound on the device, oldest first.
    pub sounding: Seq<Seq<char>>,
    /// Every clip that has begun to sound since the actor was made, in the
    /// order in which they began.
    pub started: Seq<Seq<char>>,
}

/// The stage before the driver has reported anything.
pub open spec fn opening() -> Stage {
    Stage {
        state: StateView::Booting,
        asked: None,
        sounding: Seq::empty(),
        started: Seq::empty(),
    }
}

/// The clip that has begun to sound when the driver, asked for `asked`,
/// reports `event`: the clip of a start that succeeded, else none.
pub open spec fn begun(asked: Option<ActionView>, event: EventView) -> Option<Seq<char>> {
    match (asked, event) {
        (Some(ActionView::Start(location)), EventView::StartFinished(StartOutcome::Started)) => {
            Some(location)
        },
        _ => None,
    }
}

/// What sounds once the driver has done what was asked of it and reports
/// `event`: a start that succeeded adds its clip, a silencing takes the
/// youngest session away, and so does the end of its clip. No other report
/// touches the device.
pub open spec fn device_after(
    sounding: Seq<Seq<char>>,
    asked: Option<ActionView>,
    event: EventView,
) -> Seq<Seq<char>> {
    match (begun(asked, event), asked, event) {
        (Some(location), _, _) => sounding.push(location),
        (None, Some(ActionView::Silence), EventView::Silenced) => {
            if sounding.len() > 0 {
                sounding.drop_last()
            } else {
                sounding
            }
        },
        (None, _, EventView::Finished) => {
            if sounding.len() > 0 {
                sounding.drop_last()
            } else {
                sounding
            }
        },
        _ => sounding,
    }
}

/// The stage after one more report: the device shows what the driver did,
/// and the actor moves as [`step`] says, or stays where the report is not
/// one that it awaits. Where the actor asks to exit, the device is released
/// with it, and whatever sounded is silent.
pub open spec fn advance(stage: Stage, event: EventView) -> Stage {
    match step(stage.state, event) {
        Some((next, asked)) => Stage {
            state: next,
            asked: Some(asked),
            sounding: if asked is Exit {
                Seq::empty()
            } else {
                device_after(stage.sounding, stage.asked, event)
            },
            started: match begun(stage.asked, event) {
                Some(location) => stage.started.push(location),
                None => stage.started,
            },
        },
        None => stage,
    }
}

/// The stage after a run of reports, starting from `stage`.
pub open spec fn replay_from(stage: Stage, events: Seq<EventView>) -> Stage
    decreases events.len(),
{
    if events.len() == 0 {
        stage
    } else {
        advance(replay_from(stage, events.drop_last()), events.last())
    }
}

/// The stage after a run of reports to a fresh actor.
pub open spec fn replay(events: Seq<EventView>) -> Stage {
    replay_from(opening(), events)
}

/// A stage in which device and actor agree: what sounds is the one session
/// that the actor holds, and what was asked fits where the actor stands.
pub open spec fn coherent(stage: Stage) -> bool {
    match stage.state {
        StateView::Booting => stage.asked is None && stage.sounding.len() == 0,
        StateView::Idle => stage.asked == Some(ActionView::AwaitCommand) && stage.sounding.len()
            == 0,
        StateView::Playing { location } => stage.asked == Some(ActionView::AwaitCommand)
            && stage.sounding == seq![location],
        StateView::Silencing { .. } => stage.asked == Some(ActionView::Silence)
            && stage.sounding.len() == 1,
        StateView::Starting { location } => stage.asked == Some(ActionView::Start(location))
            && stage.sounding.len() == 0,
        StateView::Terminated => stage.asked matches Some(ActionView::Exit(_))
            && stage.sounding.len() == 0,
    }
}

/// Whether the actor awaits a command at this stage.
pub open spec fn awaits_command(stage: Stage) -> bool {
    stage.state is Idle || stage.state is Playing
}

/// One report keeps device and actor in agreement.
pub proof fn lemma_advance_coherent(stage: Stage, event: EventView)
    requires
        coherent(stage),
    ensures
        coherent(advance(stage, event)),
{
    let after = advance(stage, event);
    match (stage.state, event) {
        (StateView::Silencing { .. }, EventView::Silenced) => {
            assert(after.sounding =~= Seq::<Seq<char>>::empty());
        },
        (StateView::Starting { location }, EventView::StartFinished(StartOutcome::Started)) => {
            assert(after.sounding =~= seq![location]);
        },
        (StateView::Playing { .. }, EventView::Finished) => {
            assert(after.sounding =~= Seq::<Seq<char>>::empty());
        },
        _ => {},
    }
}

/// At most one clip sounds at any instant: whatever the driver reports to a
/// fresh actor, and in whatever order, no more than one session is left
/// sounding; a started clip is the only one that sounds; a start is asked
/// for only while nothing sounds; and nothing sounds once the actor has
/// ended.
pub proof fn lemma_single_flight(events: Seq<EventView>)
    ensures
        coherent(replay(events)),
        replay(events).sounding.len() <= 1,
        replay(events).state matches StateView::Playing { location } ==> replay(events).sounding
            == seq![location],
        replay(events).asked matches Some(ActionView::Start(_)) ==> replay(events).sounding.len()
            == 0,
        replay(events).state is Terminated ==> replay(events).sounding.len() == 0,
    decreases events.len(),
{
    if events.len() > 0 {
        lemma_single_flight(events.drop_last());
        lemma_advance_coherent(replay(events.drop_last()), events.last());
    }
}

/// A new `Play` takes the place of the clip that sounds: the actor has the
/// old session silenced before it asks for the new clip, nothing sounds in
/// between, and once the start has succeeded the new clip is the only one
/// that sounds.
pub proof fn lemma_play_preempts(stage: Stage, first: Seq<char>, second: Seq<char>)
    requires
        coherent(stage),
        stage.state == (StateView::Playing { location: first }),
    ensures
        ({
            let taken = advance(stage, EventView::Received(CommandView::Play(second)));
            let silent = advance(taken, EventView::Silenced);
            let replaced = advance(silent, EventView::StartFinished(StartOutcome::Started));
            &&& taken.asked == Some(ActionView::Silence)
            &&& taken.sounding == seq![first]
            &&& silent.asked == Some(ActionView::Start(second))
            &&& silent.sounding.len() == 0
            &&& replaced.state == StateView::Playing { location: second }
            &&& replaced.asked == Some(ActionView::AwaitCommand)
            &&& replaced.sounding == seq![second]
        }),
{
    let taken = advance(stage, EventView::Received(CommandView::Play(second)));
    let silent = advance(taken, EventView::Silenced);
    let replaced = advance(silent, EventView::StartFinished(StartOutcome::Started));
    assert(silent.sounding =~= Seq::<Seq<char>>::empty());
    assert(replaced.sounding =~= seq![second]);
}

/// `Stop` while nothing plays changes nothing: the actor stays idle and goes
/// on to await the next command, without asking anything of the device.
pub proof fn lemma_stop_when_idle(stage: Stage)
    requires
        coherent(stage),
        stage.state is Idle,
    ensures
        step(StateView::Idle, EventView::Received(CommandView::Stop)) == Some(
            (StateView::Idle, ActionView::AwaitCommand),
        ),
        advance(stage, EventView::Received(CommandView::Stop)) == stage,
{
}

/// `Stop` after the clip has played to its end is the same no-op: the end of
/// the clip leaves the actor idle with nothing sounding and nothing asked of
/// the device, and the `Stop` that follows changes nothing. A `Play` that
/// follows instead is started at once, with nothing to silence.
pub proof fn lemma_stop_after_finished(stage: Stage, next: Seq<char>)
    requires
        coherent(stage),
        stage.state is Playing,
    ensures
        ({
            let ended = advance(stage, EventView::Finished);
            let stopped = advance(ended, EventView::Received(CommandView::Stop));
            let played = advance(ended, EventView::Received(CommandView::Play(next)));
            &&& ended.state == StateView::Idle
            &&& ended.asked == Some(ActionView::AwaitCommand)
            &&& ended.sounding.len() == 0
            &&& ended.started == stage.started
            &&& stopped == ended
            &&& played.asked == Some(ActionView::Start(next))
        }),
{
    lemma_advance_coherent(stage, EventView::Finished);
}

/// A clip that cannot be started does not end the actor: it is back to
/// `Idle` with nothing sounding and awaits the next command, and a `Play` of
/// a good clip after that ends with that clip sounding. This holds whether
/// or not something played when the bad clip was asked for.
pub proof fn lemma_failed_start_recovers(stage: Stage, missing: Seq<char>, valid: Seq<char>)
    requires
        coherent(stage),
        awaits_command(stage),
    ensures
        ({
            let taken = advance(stage, EventView::Received(CommandView::Play(missing)));
            let trying = if stage.state is Playing {
                advance(taken, EventView::Silenced)
            } else {
                taken
            };
            let failed = advance(trying, EventView::StartFinished(StartOutcome::Failed));
            let again = advance(failed, EventView::Received(CommandView::Play(valid)));
            let started = advance(again, EventView::StartFinished(StartOutcome::Started));
            &&& trying.asked == Some(ActionView::Start(missing))
            &&& failed.state == StateView::Idle
            &&& failed.asked == Some(ActionView::AwaitCommand)
            &&& failed.sounding.len() == 0
            &&& again.asked == Some(ActionView::Start(valid))
            &&& started.state == StateView::Playing { location: valid }
            &&& started.sounding == seq![valid]
        }),
{
    let taken = advance(stage, EventView::Received(CommandView::Play(missing)));
    let trying = if stage.state is Playing {
        advance(taken, EventView::Silenced)
    } else {
        taken
    };
    lemma_advance_coherent(stage, EventView::Received(CommandView::Play(missing)));
    if stage.state is Playing {
        lemma_advance_coherent(taken, EventView::Silenced);
    }
    let failed = advance(trying, EventView::StartFinished(StartOutcome::Failed));
    lemma_advance_coherent(trying, EventView::StartFinished(StartOutcome::Failed));
    let again = advance(failed, EventView::Received(CommandView::Play(valid)));
    lemma_advance_coherent(failed, EventView::Received(CommandView::Play(valid)));
    lemma_advance_coherent(again, EventView::StartFinished(StartOutcome::Started));
}

/// `Play` followed by `Stop` leaves the actor idle with nothing sounding,
/// however the start of the clip ended: the `Stop` is taken only after the
/// start is over, and silences the clip if it had begun to sound.
pub proof fn lemma_play_then_stop(stage: Stage, location: Seq<char>, outcome: StartOutcome)
    requires
        coherent(stage),
        stage.state is Idle,
    ensures
        ({
            let trying = advance(stage, EventView::Received(CommandView::Play(location)));
            let early = advance(trying, EventView::Received(CommandView::Stop));
            let settled = advance(trying, EventView::StartFinished(outcome));
            let stopping = advance(settled, EventView::Received(CommandView::Stop));
            let done = if outcome == StartOutcome::Started {
                advance(stopping, EventView::Silenced)
            } else {
                stopping
            };
            &&& early == trying
            &&& settled.asked == Some(ActionView::AwaitCommand)
            &&& done.state == StateView::Idle
            &&& done.asked == Some(ActionView::AwaitCommand)
            &&& done.sounding.len() == 0
        }),
{
    let trying = advance(stage, EventView::Received(CommandView::Play(location)));
    let settled = advance(trying, EventView::StartFinished(outcome));
    let stopping = advance(settled, EventView::Received(CommandView::Stop));
    lemma_advance_coherent(stage, EventView::Received(CommandView::Play(location)));
    lemma_advance_coherent(trying, EventView::StartFinished(outcome));
    lemma_advance_coherent(settled, EventView::Received(CommandView::Stop));
    if outcome == StartOutcome::Started {
        lemma_advance_coherent(stopping, EventView::Silenced);
    }
}

/// The stage of an actor that has acquired the device and awaits its first
/// command.
pub open spec fn ready() -> Stage {
    advance(opening(), EventView::DeviceReady)
}

/// A command as it arrives at the actor.
pub ghost struct Arrival {
    /// The command.
    pub command: CommandView,
    /// Whether the clip that played, if any did, had come to its end before
    /// the command arrived.
    pub after_end: bool,
}

/// The stage after a driver has served one command in full: it reports the
/// end of the clip if that came first, hands the command over, silences the
/// session if it is asked to, and if it is asked to start a clip it reports
/// success for a clip in `playable` and failure for any other.
pub open spec fn serve(stage: Stage, arrival: Arrival, playable: Set<Seq<char>>) -> Stage {
    let found = if arrival.after_end {
        advance(stage, EventView::Finished)
    } else {
        stage
    };
    let taken = advance(found, EventView::Received(arrival.command));
    let silent = if taken.asked == Some(ActionView::Silence) {
        advance(taken, EventView::Silenced)
    } else {
        taken
    };
    match silent.asked {
        Some(ActionView::Start(location)) => advance(
            silent,
            EventView::StartFinished(
                if playable.contains(location) {
                    StartOutcome::Started
                } else {
                    StartOutcome::Failed
                },
            ),
        ),
        _ => silent,
    }
}

/// The stage after a driver has served a run of commands, one after the
/// other, starting from `stage`.
pub open spec fn serve_all(
    stage: Stage,
    arrivals: Seq<Arrival>,
    playable: Set<Seq<char>>,
) -> Stage
    decreases arrivals.len(),
{
    if arrivals.len() == 0 {
        stage
    } else {
        serve(serve_all(stage, arrivals.drop_last(), playable), arrivals.last(), playable)
    }
}

/// The clips of the `Play` commands among `arrivals` that are in `playable`,
/// in the order of the commands.
pub open spec fn playable_plays(
    arrivals: Seq<Arrival>,
    playable: Set<Seq<char>>,
) -> Seq<Seq<char>>
    decreases arrivals.len(),
{
    if arrivals.len() == 0 {
        Seq::empty()
    } else {
        let before = playable_plays(arrivals.drop_last(), playable);
        match arrivals.last().command {
            CommandView::Play(location) => if playable.contains(location) {
                before.push(location)
            } else {
                before
            },
            CommandView::Stop => before,
        }
    }
}

/// What sounds after a command was served, whatever sounded before: the clip
/// of a `Play` that is playable, and nothing after any other command.
pub open spec fn sounding_after(command: CommandView, playable: Set<Seq<char>>) -> Seq<Seq<char>> {
    match command {
        CommandView::Play(location) => if playable.contains(location) {
            seq![location]
        } else {
            Seq::empty()
        },
        CommandView::Stop => Seq::empty(),
    }
}

/// Serving one command from a stage that awaits one ends in a stage that
/// awaits the next: the clip of a playable `Play` has begun and is the only
/// one that sounds, and after any other command nothing has begun and
/// nothing sounds. Whether the clip before had played to its end makes no
/// difference to that.
pub proof fn lemma_serve(stage: Stage, arrival: Arrival, playable: Set<Seq<char>>)
    requires
        coherent(stage),
        awaits_command(stage),
    ensures
        coherent(serve(stage, arrival, playable)),
        awaits_command(serve(stage, arrival, playable)),
        serve(stage, arrival, playable).sounding == sounding_after(arrival.command, playable),
        serve(stage, arrival, playable).started == stage.started + sounding_after(
            arrival.command,
            playable,
        ),
{
    let command = arrival.command;
    let found = if arrival.after_end {
        advance(stage, EventView::Finished)
    } else {
        stage
    };
    if arrival.after_end {
        lemma_advance_coherent(stage, EventView::Finished);
    }
    let taken = advance(found, EventView::Received(command));
    lemma_advance_coherent(found, EventView::Received(command));
    let silent = if taken.asked == Some(ActionView::Silence) {
        advance(taken, EventView::Silenced)
    } else {
        taken
    };
    if taken.asked == Some(ActionView::Silence) {
        lemma_advance_coherent(taken, EventView::Silenced);
    }
    let after = serve(stage, arrival, playable);
    match silent.asked {
        Some(ActionView::Start(location)) => {
            let outcome = if playable.contains(location) {
                StartOutcome::Started
            } else {
                StartOutcome::Failed
            };
            lemma_advance_coherent(silent, EventView::StartFinished(outcome));
        },
        _ => {},
    }
    assert(after.sounding =~= sounding_after(command, playable));
    assert(after.started =~= stage.started + sounding_after(command, playable));
}

/// Over a whole run of commands, each served in full before the next is
/// taken, the clips that begin to sound are exactly the playable `Play`s, in
/// the order in which they were sent, whichever clips played to their end in
/// between; the actor ends awaiting the next command; and what sounds right
/// after the last command is decided by that command alone.
pub proof fn lemma_run_starts_playable_plays(arrivals: Seq<Arrival>, playable: Set<Seq<char>>)
    ensures
        coherent(serve_all(ready(), arrivals, playable)),
        awaits_command(serve_all(ready(), arrivals, playable)),
        serve_all(ready(), arrivals, playable).started == playable_plays(arrivals, playable),
        arrivals.len() > 0 ==> serve_all(ready(), arrivals, playable).sounding == sounding_after(
            arrivals.last().command,
            playable,
        ),
        arrivals.len() == 0 ==> serve_all(ready(), arrivals, playable).sounding.len() == 0,
    decreases arrivals.len(),
{
    if arrivals.len() > 0 {
        let earlier = arrivals.drop_last();
        lemma_run_starts_playable_plays(earlier, playable);
        let before = serve_all(ready(), earlier, playable);
        lemma_serve(before, arrivals.last(), playable);
        let after = serve_all(ready(), arrivals, playable);
        assert(after.started =~= playable_plays(arrivals, playable));
    } else {
        assert(ready().started =~= playable_plays(arrivals, playable));
    }
}

} // verus!
