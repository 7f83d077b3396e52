use vstd::prelude::*;

use crate::channel::{EventView, P2pEvent};
use crate::error::{ErrorView, P2pError};
use crate::topic::EventTopic;

verus! {

/// One queued intent, carried from a channel handle to the consumer loop.
/// Each command owns, outside this model, a single-use result slot that the
/// loop resolves exactly once with the outcome of its remote operation.
#[derive(Debug, Clone, PartialEq, Eq)]
pub enum ManagerCommand {
    /// Start a peer discovery scan.
    Discover,
    /// Stop the ongoing peer discovery scan.
    StopDiscovery,
    /// Connect to the peer with the given device address.
    Connect { device_address: String },
    /// Create a P2P group.
    CreateGroup,
}

/// Mathematical image of a command: the same variant with the address as a
/// character sequence.
pub enum CommandView {
    Discover,
    StopDiscovery,
    Connect(Seq<char>),
    CreateGroup,
}

impl View for ManagerCommand {
    type V = CommandView;

    open spec fn view(&self) -> CommandView {
        match self {
            ManagerCommand::Discover => CommandView::Discover,
            ManagerCommand::StopDiscovery => CommandView::StopDiscovery,
            ManagerCommand::Connect { device_address } => {
                CommandView::Connect(device_address@)
            },
            ManagerCommand::CreateGroup => CommandView::CreateGroup,
        }
    }
}

impl ManagerCommand {
    /// An owned copy with the same variant and address.
    pub fn duplicate(&self) -> (r: Self)
        ensures
            r@ == self@,
    {
        match self {
            ManagerCommand::Discover => ManagerCommand::Discover,
            ManagerCommand::StopDiscovery => ManagerCommand::StopDiscovery,
            ManagerCommand::Connect { device_address } => {
                ManagerCommand::Connect { device_address: device_address.clone() }
            },
            ManagerCommand::CreateGroup => ManagerCommand::CreateGroup,
        }
    }
}

/// The image of a whole command sequence, in submission order.
pub open spec fn commands_view(commands: Seq<ManagerCommand>) -> Seq<CommandView> {
    commands.map_values(|c: ManagerCommand| c@)
}

/// The single event variant that corresponds 1:1 to a command variant.
pub open spec fn event_for(command: CommandView) -> EventView {
    match command {
        CommandView::Discover => EventView::DiscoveryStarted,
        CommandView::StopDiscovery => EventView::DiscoveryStopped,
        CommandView::Connect(addr) => EventView::Connected(addr),
        CommandView::CreateGroup => EventView::GroupCreated,
    }
}

/// The outcome of one remote operation, as the contracts see it.
pub open spec fn outcome_view(outcome: Result<(), P2pError>) -> Result<(), ErrorView> {
    match outcome {
        Ok(u) => Ok(u),
        Err(e) => Err(e@),
    }
}

/// The image of a whole outcome (or reply) sequence.
pub open spec fn outcomes_view(outcomes: Seq<Result<(), P2pError>>) -> Seq<
    Result<(), ErrorView>,
> {
    outcomes.map_values(|o: Result<(), P2pError>| outcome_view(o))
}

/// Resolve one executed command: the reply for the command's own result
/// slot, and the event to broadcast. The reply is exactly the remote
/// operation's outcome — success value or typed failure, never neither and
/// never both. An event is present if and only if the outcome is success,
/// and it is the one matching the command; a failure is reported only to the
/// originating caller and never broadcast.
pub fn resolve_command(command: &ManagerCommand, outcome: Result<(), P2pError>) -> (r: (
    Result<(), P2pError>,
    Option<P2pEvent>,
))
    ensures
        outcome_view(r.0) == outcome_view(outcome),
        r.1 is Some <==> outcome is Ok,
        r.1 matches Some(e) ==> e@ == event_for(command@),
{
    let event = if outcome.is_ok() {
        Some(
            match command {
                ManagerCommand::Discover => P2pEvent::DiscoveryStarted,
                ManagerCommand::StopDiscovery => P2pEvent::DiscoveryStopped,
                ManagerCommand::Connect { device_address } => {
                    P2pEvent::Connected(device_address.clone())
                },
                ManagerCommand::CreateGroup => P2pEvent::GroupCreated,
            },
        )
    } else {
        None
    };
    (outcome, event)
}

/// The events a run broadcasts, oldest first: one matching event for each
/// command whose outcome is success, none for a failure, in command order.
pub open spec fn event_log(
    commands: Seq<CommandView>,
    outcomes: Seq<Result<(), ErrorView>>,
) -> Seq<EventView>
    decreases commands.len(),
{
    if commands.len() == 0 || outcomes.len() == 0 {
        Seq::empty()
    } else {
        let rest = event_log(commands.drop_first(), outcomes.drop_first());
        if outcomes[0] is Ok {
            seq![event_for(commands[0])] + rest
        } else {
            rest
        }
    }
}

/// The commands whose outcome is success, in command order.
pub open spec fn successful_commands(
    commands: Seq<CommandView>,
    outcomes: Seq<Result<(), ErrorView>>,
) -> Seq<CommandView>
    decreases commands.len(),
{
    if commands.len() == 0 || outcomes.len() == 0 {
        Seq::empty()
    } else {
        let rest = successful_commands(commands.drop_first(), outcomes.drop_first());
        if outcomes[0] is Ok {
            seq![commands[0]] + rest
        } else {
            rest
        }
    }
}

/// How many outcomes are successes.
pub open spec fn ok_count(outcomes: Seq<Result<(), ErrorView>>) -> nat
    decreases outcomes.len(),
{
    if outcomes.len() == 0 {
        0
    } else {
        (if outcomes[0] is Ok {
            1nat
        } else {
            0nat
        }) + ok_count(outcomes.drop_first())
    }
}

/// What one complete run of the consumer loop leaves behind when the port's
/// outcomes are scripted: the invocations the port observed, the reply
/// delivered to each command's result slot, and the loop's final state.
pub struct ActorRun {
    /// The remote operations the port observed, in invocation order.
    pub invocations: Vec<ManagerCommand>,
    /// The value each command's result slot was resolved with, one per
    /// command, in submission order.
    pub replies: Vec<Result<(), P2pError>>,
    /// The loop's state after the queue was closed and drained.
    pub state: LoopState,
}

/// States of the consumer loop. The loop starts Running when spawned and
/// becomes Stopped once the command queue is closed and drained; Stopped is
/// terminal and not resumable.
#[derive(Debug, Clone, Copy, PartialEq, Eq)]
pub enum LoopState {
    Running,
    Stopped,
}

/// The consumer loop, run to completion over a closed queue of commands,
/// against a port whose outcome for each command is scripted. Commands are
/// taken strictly in submission order, one at a time: the port observes
/// invocation `i + 1` only after the outcome of invocation `i` was taken and
/// its reply recorded, so no two remote operations ever overlap. Every
/// command's result slot receives exactly that command's own outcome; the
/// matching event is published to `topic` exactly when the outcome is
/// success. A failure never ends the loop: the loop stops only at end of
/// input, leaving no command unresolved.
pub fn run_script(
    commands: Vec<ManagerCommand>,
    outcomes: Vec<Result<(), P2pError>>,
    topic: &mut EventTopic,
) -> (r: ActorRun)
    requires
        commands@.len() == outcomes@.len(),
    ensures
        commands_view(r.invocations@) == commands_view(commands@),
        outcomes_view(r.replies@) == outcomes_view(outcomes@),
        final(topic).log_view() == old(topic).log_view() + event_log(
            commands_view(commands@),
            outcomes_view(outcomes@),
        ),
        final(topic).spec_capacity() == old(topic).spec_capacity(),
        r.state == LoopState::Stopped,
{
    let ghost all_commands = commands_view(commands@);
    let ghost all_outcomes = outcomes_view(outcomes@);
    let ghost log_before = topic.log_view();
    let mut commands = commands;
    let mut outcomes = outcomes;
    let mut invocations: Vec<ManagerCommand> = Vec::new();
    let mut replies: Vec<Result<(), P2pError>> = Vec::new();
    while commands.len() > 0
        invariant
            commands@.len() == outcomes@.len(),
            commands_view(invocations@) + commands_view(commands@) =~= all_commands,
            outcomes_view(replies@) + outcomes_view(outcomes@) =~= all_outcomes,
            topic.log_view() + event_log(commands_view(commands@), outcomes_view(outcomes@))
                =~= log_before + event_log(all_commands, all_outcomes),
            topic.spec_capacity() == old(topic).spec_capacity(),
        decreases commands@.len(),
    {
        let ghost pending_commands = commands_view(commands@);
        let ghost pending_outcomes = outcomes_view(outcomes@);
        let command = commands.remove(0);
        let outcome = outcomes.remove(0);
        proof {
            assert(commands_view(commands@) =~= pending_commands.drop_first());
            assert(outcomes_view(outcomes@) =~= pending_outcomes.drop_first());
        }
        // The port observes exactly the dequeued command.
        let invocation = command.duplicate();
        let (reply, event) = resolve_command(&command, outcome);
        let ghost invoked = commands_view(invocations@);
        let ghost replied = outcomes_view(replies@);
        invocations.push(invocation);
        // The command's own result slot is resolved first ...
        replies.push(reply);
        proof {
            assert(commands_view(invocations@) =~= invoked.push(command@));
            assert(outcomes_view(replies@) =~= replied.push(outcome_view(outcome)));
            assert(commands_view(invocations@) + commands_view(commands@) =~= all_commands);
            assert(outcomes_view(replies@) + outcomes_view(outcomes@) =~= all_outcomes);
        }
        // ... and only then, on success alone, is the matching event broadcast.
        let ghost log_here = topic.log_view();
        if let Some(event) = event {
            topic.publish(event);
        }
        proof {
            assert(topic.log_view() + event_log(
                commands_view(commands@),
                outcomes_view(outcomes@),
            ) =~= log_here + event_log(pending_commands, pending_outcomes));
        }
    }
    proof {
        assert(commands_view(invocations@) =~= all_commands);
        assert(outcomes_view(replies@) =~= all_outcomes);
        assert(topic.log_view() =~= log_before + event_log(all_commands, all_outcomes));
    }
    ActorRun { invocations, replies, state: LoopState::Stopped }
}

/// Law: the events a run broadcasts are exactly the successful commands'
/// matching events, one per successful command and in submission order — a
/// failed command contributes no event at all.
pub proof fn lemma_events_match_successes(
    commands: Seq<CommandView>,
    outcomes: Seq<Result<(), ErrorView>>,
)
    requires
        commands.len() == outcomes.len(),
    ensures
        event_log(commands, outcomes) =~= successful_commands(commands, outcomes).map_values(
            |c: CommandView| event_for(c),
        ),
    decreases commands.len(),
{
    if commands.len() > 0 {
        lemma_events_match_successes(commands.drop_first(), outcomes.drop_first());
        if outcomes[0] is Ok {
            assert((seq![commands[0]] + successful_commands(
                commands.drop_first(),
                outcomes.drop_first(),
            )).map_values(|c: CommandView| event_for(c)) =~= seq![event_for(commands[0])]
                + successful_commands(commands.drop_first(), outcomes.drop_first()).map_values(
                |c: CommandView| event_for(c),
            ));
        }
    }
}

/// Law: a run broadcasts exactly one event per successful command and none
/// per failed command, so the number of events equals the number of
/// successes.
pub proof fn lemma_one_event_per_success(
    commands: Seq<CommandView>,
    outcomes: Seq<Result<(), ErrorView>>,
)
    requires
        commands.len() == outcomes.len(),
    ensures
        event_log(commands, outcomes).len() == ok_count(outcomes),
    decreases commands.len(),
{
    if commands.len() > 0 {
        lemma_one_event_per_success(commands.drop_first(), outcomes.drop_first());
    }
}

/// Law: a run in which every remote operation failed broadcasts nothing.
pub proof fn lemma_failures_broadcast_nothing(
    commands: Seq<CommandView>,
    outcomes: Seq<Result<(), ErrorView>>,
)
    requires
        commands.len() == outcomes.len(),
        forall|i: int| 0 <= i < outcomes.len() ==> outcomes[i] is Err,
    ensures
        event_log(commands, outcomes) =~= Seq::<EventView>::empty(),
    decreases commands.len(),
{
    if commands.len() > 0 {
        assert(outcomes[0] is Err);
        assert(forall|i: int|
            0 <= i < outcomes.drop_first().len() ==> outcomes.drop_first()[i] is Err);
        lemma_failures_broadcast_nothing(commands.drop_first(), outcomes.drop_first());
    }
}

} // verus!
