//! Bounded ownership of the active and the pending command.

use vstd::prelude::*;

use crate::incremental::OperationId;

verus! {

/// Non-zero sequence assigned by the async control plane.
#[derive(Clone, Copy, Debug, PartialEq, Eq, Hash, Structural)]
pub struct CommandSequence {
    pub(crate) value: u32,
}

impl CommandSequence {
    /// The sequence number.
    pub open(crate) spec fn view(&self) -> u32 {
        self.value
    }

    /// The sequence with this number.
    pub open(crate) spec fn of(value: u32) -> Self {
        CommandSequence { value }
    }

    #[verifier::type_invariant]
    spec fn wf(self) -> bool {
        self.value != 0
    }

    /// Validate a raw controller sequence.
    pub fn try_from_raw(value: u32) -> (sequence: Option<Self>)
        ensures
            sequence is Some <==> value != 0,
            sequence matches Some(s) ==> s == CommandSequence::of(value),
    {
        if value == 0 {
            None
        } else {
            Some(CommandSequence { value })
        }
    }

    /// Stable numeric representation used by the completion channel.
    pub fn get(self) -> (value: u32)
        ensures
            value == self@,
            value != 0,
    {
        proof {
            use_type_invariant(&self);
        }
        self.value
    }
}

/// A command sequence is exactly its number.
pub proof fn command_sequence_is_its_number(sequence: CommandSequence, value: u32)
    ensures
        CommandSequence::of(value)@ == value,
        CommandSequence::of(sequence@) == sequence,
{
}

/// One bounded command waiting to start.
#[derive(Debug)]
pub struct PendingCommand<C> {
    sequence: CommandSequence,
    command: C,
}

impl<C> PendingCommand<C> {
    /// The sequence and the command.
    pub closed spec fn view(&self) -> (CommandSequence, C) {
        (self.sequence, self.command)
    }

    /// Pair a validated sequence with an owned command.
    pub fn new(sequence: CommandSequence, command: C) -> (pending: Self)
        ensures
            pending@ == (sequence, command),
    {
        PendingCommand { sequence, command }
    }

    /// Controller sequence associated with this command.
    pub fn sequence(&self) -> (sequence: CommandSequence)
        ensures
            sequence == self@.0,
    {
        self.sequence
    }

    /// Recover the owned command after arbitration.
    pub fn into_inner(self) -> (command: C)
        ensures
            command == self@.1,
    {
        self.command
    }
}

/// Reason a bounded command arbitration transition was rejected.
#[derive(Clone, Copy, Debug, PartialEq, Eq, Structural)]
pub enum CommandArbiterError {
    /// One pending command already occupies the bounded queue.
    Busy,
    /// The transition does not match the current start/active state.
    InvalidTransition,
    /// The supplied operation identity belongs to an older generation.
    StaleOperation,
}

/// Failed submission that returns ownership of the unqueued command.
#[derive(Debug)]
pub struct SubmitError<C> {
    reason: CommandArbiterError,
    command: PendingCommand<C>,
}

impl<C> SubmitError<C> {
    /// The rejection reason and the unqueued command.
    pub closed spec fn view(&self) -> (CommandArbiterError, (CommandSequence, C)) {
        (self.reason, self.command@)
    }

    /// Stable rejection reason.
    pub fn reason(&self) -> (reason: CommandArbiterError)
        ensures
            reason == self@.0,
    {
        self.reason
    }

    /// Recover the command that did not enter the bounded queue.
    pub fn into_command(self) -> (command: PendingCommand<C>)
        ensures
            command@ == self@.1,
    {
        self.command
    }
}

/// Next control-plane action selected by [`CommandArbiter`].
#[derive(Clone, Copy, Debug, PartialEq, Eq, Structural)]
pub enum CommandArbiterAction {
    /// No active or pending command exists.
    Idle,
    /// Take and start the pending command.
    StartPending(CommandSequence),
    /// A start call is in progress and must resolve before another action.
    Starting(CommandSequence),
    /// Ask the backend to cancel the active operation once.
    CancelActive(OperationId),
    /// Wait for the active operation to become terminal.
    WaitActive(OperationId),
}

/// A command that the backend accepted.
#[derive(Clone, Copy, Debug, PartialEq, Eq, Structural)]
pub struct ActiveCommand {
    /// Controller sequence that owns the operation.
    pub sequence: CommandSequence,
    /// Backend operation identity.
    pub operation: OperationId,
    /// The one cancellation request has been sent.
    pub cancel_requested: bool,
}

/// The commands that an arbiter owns.
pub struct ArbiterModel<C> {
    /// Command running in the backend.
    pub active: Option<ActiveCommand>,
    /// Command handed out for a start that has not been resolved.
    pub starting: Option<CommandSequence>,
    /// Command waiting to start.
    pub pending: Option<(CommandSequence, C)>,
}

impl<C> ArbiterModel<C> {
    /// No command is owned.
    pub open spec fn empty() -> Self {
        ArbiterModel { active: None, starting: None, pending: None }
    }

    /// The next control-plane action.
    pub open spec fn action(self) -> CommandArbiterAction {
        match (self.active, self.starting, self.pending) {
            (Some(active), _, pending) => if pending is Some && !active.cancel_requested {
                CommandArbiterAction::CancelActive(active.operation)
            } else {
                CommandArbiterAction::WaitActive(active.operation)
            },
            (None, Some(sequence), _) => CommandArbiterAction::Starting(sequence),
            (None, None, Some((sequence, _))) => CommandArbiterAction::StartPending(sequence),
            (None, None, None) => CommandArbiterAction::Idle,
        }
    }
}

/// Bounded active/pending command ownership for the incremental runner.
///
/// The controller is serialized, but dropping one control future permits a new
/// command to enter while the old backend operation is still active. This
/// arbiter retains at most one replacement command, requests cancellation only
/// once, and never overwrites a command or operation identity.
#[derive(Debug)]
pub struct CommandArbiter<C> {
    active: Option<ActiveCommand>,
    starting: Option<CommandSequence>,
    pending: Option<PendingCommand<C>>,
}

impl<C> CommandArbiter<C> {
    /// The commands owned.
    pub closed spec fn view(&self) -> ArbiterModel<C> {
        ArbiterModel {
            active: self.active,
            starting: self.starting,
            pending: match self.pending {
                Some(pending) => Some(pending@),
                None => None,
            },
        }
    }

    /// Construct an empty arbiter.
    pub fn new() -> (arbiter: Self)
        ensures
            arbiter@ == ArbiterModel::<C>::empty(),
    {
        CommandArbiter { active: None, starting: None, pending: None }
    }

    /// Whether the one-entry pending command slot is available.
    ///
    /// Facade adapters use this as backpressure before removing another
    /// command from their own bounded channel.
    pub fn can_submit(&self) -> (available: bool)
        ensures
            available == (self@.pending is None),
    {
        self.pending.is_none()
    }

    /// Queue one command without replacing an existing pending command.
    pub fn submit(&mut self, command: PendingCommand<C>) -> (result: Result<(), SubmitError<C>>)
        ensures
            match result {
                Ok(_) => {
                    &&& old(self)@.pending is None
                    &&& final(self)@ == (ArbiterModel { pending: Some(command@), ..old(self)@ })
                },
                Err(error) => {
                    &&& old(self)@.pending is Some
                    &&& error@ == (CommandArbiterError::Busy, command@)
                    &&& final(self)@ == old(self)@
                },
            },
    {
        if self.pending.is_some() {
            return Err(SubmitError { reason: CommandArbiterError::Busy, command });
        }
        self.pending = Some(command);
        Ok(())
    }

    /// Select the next control-plane action.
    pub fn action(&self) -> (action: CommandArbiterAction)
        ensures
            action == self@.action(),
    {
        if let Some(active) = self.active {
            if self.pending.is_some() && !active.cancel_requested {
                CommandArbiterAction::CancelActive(active.operation)
            } else {
                CommandArbiterAction::WaitActive(active.operation)
            }
        } else if let Some(sequence) = self.starting {
            CommandArbiterAction::Starting(sequence)
        } else if let Some(pending) = self.pending.as_ref() {
            CommandArbiterAction::StartPending(pending.sequence())
        } else {
            CommandArbiterAction::Idle
        }
    }

    /// Take the command selected by [`CommandArbiterAction::StartPending`].
    pub fn take_startable(&mut self) -> (result: Result<PendingCommand<C>, CommandArbiterError>)
        ensures
            match result {
                Ok(command) => {
                    &&& old(self)@.action() == CommandArbiterAction::StartPending(command@.0)
                    &&& old(self)@.pending == Some(command@)
                    &&& final(self)@ == (ArbiterModel {
                        starting: Some(command@.0),
                        pending: None,
                        ..old(self)@
                    })
                },
                Err(error) => {
                    &&& !(old(self)@.action() is StartPending)
                    &&& error == CommandArbiterError::InvalidTransition
                    &&& final(self)@ == old(self)@
                },
            },
    {
        if self.active.is_some() || self.starting.is_some() {
            return Err(CommandArbiterError::InvalidTransition);
        }
        match self.pending.take() {
            None => Err(CommandArbiterError::InvalidTransition),
            Some(pending) => {
                self.starting = Some(pending.sequence());
                Ok(pending)
            },
        }
    }

    /// Withdraw the pending command with this sequence before it starts.
    pub fn withdraw(&mut self, sequence: CommandSequence) -> (withdrawn: Option<PendingCommand<C>>)
        ensures
            match withdrawn {
                Some(command) => {
                    &&& old(self)@.pending == Some(command@)
                    &&& command@.0 == sequence
                    &&& final(self)@ == (ArbiterModel { pending: None, ..old(self)@ })
                },
                None => {
                    &&& old(self)@.pending matches Some(pending) ==> pending.0 != sequence
                    &&& final(self)@ == old(self)@
                },
            },
    {
        if let Some(pending) = self.pending.as_ref() {
            if pending.sequence() == sequence {
                return self.pending.take();
            }
        }
        None
    }

    /// Bind a successful backend start to its operation identity.
    pub fn mark_started(&mut self, sequence: CommandSequence, operation: OperationId) -> (result:
        Result<(), CommandArbiterError>)
        ensures
            if old(self)@.starting == Some(sequence) && old(self)@.active is None {
                &&& result is Ok
                &&& final(self)@ == (ArbiterModel {
                    starting: None,
                    active: Some(ActiveCommand { sequence, operation, cancel_requested: false }),
                    ..old(self)@
                })
            } else {
                &&& result is Err
                &&& result->Err_0 == CommandArbiterError::InvalidTransition
                &&& final(self)@ == old(self)@
            },
    {
        if !self.is_starting(sequence) || self.active.is_some() {
            return Err(CommandArbiterError::InvalidTransition);
        }
        self.starting = None;
        self.active = Some(ActiveCommand { sequence, operation, cancel_requested: false });
        Ok(())
    }

    /// Clear a failed backend start so another pending command may proceed.
    pub fn reject_start(&mut self, sequence: CommandSequence) -> (result: Result<
        (),
        CommandArbiterError,
    >)
        ensures
            if old(self)@.starting == Some(sequence) {
                &&& result is Ok
                &&& final(self)@ == (ArbiterModel { starting: None, ..old(self)@ })
            } else {
                &&& result is Err
                &&& result->Err_0 == CommandArbiterError::InvalidTransition
                &&& final(self)@ == old(self)@
            },
    {
        if !self.is_starting(sequence) {
            return Err(CommandArbiterError::InvalidTransition);
        }
        self.starting = None;
        Ok(())
    }

    fn is_starting(&self, sequence: CommandSequence) -> (starting: bool)
        ensures
            starting == (self@.starting == Some(sequence)),
    {
        match self.starting {
            Some(starting) => starting == sequence,
            None => false,
        }
    }

    /// Record that the one cancellation request was sent to the backend.
    pub fn mark_cancel_requested(&mut self, operation: OperationId) -> (result: Result<
        (),
        CommandArbiterError,
    >)
        ensures
            match old(self)@.active {
                Some(active) if active.operation == operation => if active.cancel_requested {
                    &&& result is Err
                    &&& result->Err_0 == CommandArbiterError::InvalidTransition
                    &&& final(self)@ == old(self)@
                } else {
                    &&& result is Ok
                    &&& final(self)@ == (ArbiterModel {
                        active: Some(ActiveCommand { cancel_requested: true, ..active }),
                        ..old(self)@
                    })
                },
                _ => {
                    &&& result is Err
                    &&& result->Err_0 == CommandArbiterError::StaleOperation
                    &&& final(self)@ == old(self)@
                },
            },
    {
        match self.active {
            None => Err(CommandArbiterError::StaleOperation),
            Some(active) => {
                if active.operation != operation {
                    return Err(CommandArbiterError::StaleOperation);
                }
                if active.cancel_requested {
                    return Err(CommandArbiterError::InvalidTransition);
                }
                self.active = Some(ActiveCommand { cancel_requested: true, ..active });
                Ok(())
            },
        }
    }

    /// Finish exactly the current operation and free the active slot.
    pub fn finish_active(&mut self, operation: OperationId) -> (result: Result<
        CommandSequence,
        CommandArbiterError,
    >)
        ensures
            match old(self)@.active {
                Some(active) if active.operation == operation => {
                    &&& result is Ok
                    &&& result->Ok_0 == active.sequence
                    &&& final(self)@ == (ArbiterModel { active: None, ..old(self)@ })
                },
                _ => {
                    &&& result is Err
                    &&& result->Err_0 == CommandArbiterError::StaleOperation
                    &&& final(self)@ == old(self)@
                },
            },
    {
        match self.active {
            None => Err(CommandArbiterError::StaleOperation),
            Some(active) => {
                if active.operation != operation {
                    return Err(CommandArbiterError::StaleOperation);
                }
                self.active = None;
                Ok(active.sequence)
            },
        }
    }

    /// Current active command and backend operation identity.
    pub fn active(&self) -> (active: Option<(CommandSequence, OperationId)>)
        ensures
            active == match self@.active {
                Some(active) => Some((active.sequence, active.operation)),
                None => None,
            },
    {
        match self.active {
            Some(active) => Some((active.sequence, active.operation)),
            None => None,
        }
    }

    /// Whether the one cancellation request for the active command was sent.
    pub fn cancel_requested(&self) -> (requested: bool)
        ensures
            requested == (self@.active matches Some(active) && active.cancel_requested),
    {
        match self.active {
            Some(active) => active.cancel_requested,
            None => false,
        }
    }

    /// Sequence retained in the one-entry pending queue.
    pub fn pending_sequence(&self) -> (sequence: Option<CommandSequence>)
        ensures
            sequence == match self@.pending {
                Some(pending) => Some(pending.0),
                None => None,
            },
    {
        match self.pending.as_ref() {
            Some(pending) => Some(pending.sequence()),
            None => None,
        }
    }
}

impl<C> Default for CommandArbiter<C> {
    fn default() -> (arbiter: Self)
        ensures
            arbiter@ == ArbiterModel::<C>::empty(),
    {
        CommandArbiter::new()
    }
}

/// Once the cancellation of the active command has been sent, no further
/// cancellation is asked for while that command is active, whatever is
/// submitted in the meantime.
pub proof fn cancellation_is_asked_for_once<C>(
    arbiter: ArbiterModel<C>,
    active: ActiveCommand,
    pending: Option<(CommandSequence, C)>,
)
    requires
        arbiter.active == Some(active),
        active.cancel_requested,
    ensures
        (ArbiterModel { pending, ..arbiter }).action() == CommandArbiterAction::WaitActive(
            active.operation,
        ),
{
}

/// The next action follows from what is owned: an active command is waited for, and
/// cancelled once where another one waits; a start in progress comes before a
/// pending command, and only a pending command alone is started.
pub proof fn next_action_follows_from_ownership<C>(model: ArbiterModel<C>)
    ensures
        match model.action() {
            CommandArbiterAction::Idle => model.active is None && model.starting is None
                && model.pending is None,
            CommandArbiterAction::StartPending(sequence) => {
                &&& model.active is None
                &&& model.starting is None
                &&& model.pending matches Some((owner, _)) && owner == sequence
            },
            CommandArbiterAction::Starting(sequence) => model.active is None && model.starting
                == Some(sequence),
            CommandArbiterAction::CancelActive(operation) => {
                &&& model.active matches Some(active) && active.operation == operation
                    && !active.cancel_requested
                &&& model.pending is Some
            },
            CommandArbiterAction::WaitActive(operation) => model.active matches Some(active)
                && active.operation == operation && (active.cancel_requested
                || model.pending is None),
        },
{
}

/// A command that is handed over comes back as it was.
pub proof fn pending_command_comes_back<C>(
    raw: u32,
    made: Option<CommandSequence>,
    number: u32,
    command: C,
    pending: PendingCommand<C>,
    owner: CommandSequence,
    inner: C,
)
    requires
        call_ensures(CommandSequence::try_from_raw, (raw,), made),
        made matches Some(sequence) ==> call_ensures(CommandSequence::get, (sequence,), number),
        made matches Some(sequence) ==> call_ensures(
            PendingCommand::<C>::new,
            (sequence, command),
            pending,
        ),
        call_ensures(PendingCommand::<C>::sequence, (&pending,), owner),
        call_ensures(PendingCommand::<C>::into_inner, (pending,), inner),
    ensures
        made is None <==> raw == 0,
        made matches Some(sequence) ==> number == raw && owner == sequence && inner == command,
{
}

/// A command goes through the arbiter as it is: what is submitted to an idle one is
/// what is taken for the start, and the sequence bound to the started operation is
/// the one that its end gives back. A second submission is handed back unchanged.
pub proof fn command_passes_through_unchanged<C>()
    ensures
        forall|
            slot: &mut CommandArbiter<C>,
            command: PendingCommand<C>,
            submitted: Result<(), SubmitError<C>>,
            later: &mut CommandArbiter<C>,
            taken: Result<PendingCommand<C>, CommandArbiterError>,
        |
            #[trigger] call_ensures(CommandArbiter::<C>::submit, (slot, command), submitted)
                && #[trigger] call_ensures(CommandArbiter::<C>::take_startable, (later,), taken)
                && *later == *final(slot) && slot@.active is None && slot@.starting is None
                && slot@.pending is None ==> {
                &&& submitted is Ok
                &&& taken matches Ok(startable)
                &&& startable@ == command@
                &&& final(later)@.pending is None
                &&& final(later)@.starting == Some(command@.0)
            },
        forall|
            slot: &mut CommandArbiter<C>,
            command: PendingCommand<C>,
            refused: SubmitError<C>,
        | #[trigger]
            call_ensures(CommandArbiter::<C>::submit, (slot, command), Err(refused)) ==> {
                &&& slot@.pending is Some
                &&& final(slot)@ == slot@
                &&& refused@.1 == command@
            },
        forall|
            slot: &mut CommandArbiter<C>,
            sequence: CommandSequence,
            operation: OperationId,
            later: &mut CommandArbiter<C>,
            ended: Result<CommandSequence, CommandArbiterError>,
        |
            #[trigger] call_ensures(
                CommandArbiter::<C>::mark_started,
                (slot, sequence, operation),
                Ok(()),
            ) && #[trigger] call_ensures(
                CommandArbiter::<C>::finish_active,
                (later, operation),
                ended,
            ) && *later == *final(slot) ==> {
                &&& ended == Ok::<CommandSequence, CommandArbiterError>(sequence)
                &&& final(later)@.active is None
                &&& final(later)@.pending == slot@.pending
            },
{
}

/// Cancellation and withdrawal name what they mean: only the active operation is
/// marked, and once; only the pending command is withdrawn, as it was submitted; and
/// a refused start frees the way for the next command.
pub proof fn arbiter_changes_only_what_is_named<C>()
    ensures
        forall|
            slot: &mut CommandArbiter<C>,
            operation: OperationId,
            later: &mut CommandArbiter<C>,
            again: Result<(), CommandArbiterError>,
        |
            #[trigger] call_ensures(
                CommandArbiter::<C>::mark_cancel_requested,
                (slot, operation),
                Ok(()),
            ) && #[trigger] call_ensures(
                CommandArbiter::<C>::mark_cancel_requested,
                (later, operation),
                again,
            ) && *later == *final(slot) ==> {
                &&& slot@.active matches Some(was) && was.operation == operation
                    && !was.cancel_requested
                &&& final(slot)@.active matches Some(active) && active.operation == operation
                    && active.cancel_requested && active.sequence == slot@.active->Some_0.sequence
                &&& final(slot)@.pending == slot@.pending
                &&& again is Err
            },
        forall|
            slot: &mut CommandArbiter<C>,
            sequence: CommandSequence,
            withdrawn: Option<PendingCommand<C>>,
        | #[trigger]
            call_ensures(CommandArbiter::<C>::withdraw, (slot, sequence), withdrawn) ==> {
                &&& withdrawn is Some <==> (slot@.pending matches Some((owner, _)) && owner
                    == sequence)
                &&& withdrawn matches Some(command) ==> slot@.pending == Some(command@)
                    && final(slot)@.pending is None
                &&& withdrawn is None ==> final(slot)@.pending == slot@.pending
                &&& final(slot)@.active == slot@.active
                &&& final(slot)@.starting == slot@.starting
            },
        forall|
            slot: &mut CommandArbiter<C>,
            sequence: CommandSequence,
            rejected: Result<(), CommandArbiterError>,
        | #[trigger]
            call_ensures(CommandArbiter::<C>::reject_start, (slot, sequence), rejected) ==> {
                &&& rejected is Ok <==> slot@.starting == Some(sequence)
                &&& rejected is Ok ==> final(slot)@.starting is None
                &&& final(slot)@.active == slot@.active
                &&& final(slot)@.pending == slot@.pending
            },
{
}

} // verus!
