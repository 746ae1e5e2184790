//! The accumulator actor: a running total driven by arithmetic commands.
//!
//! A command is first validated into an event, and only an event changes the
//! total. The total is modelled as a mathematical integer; the executable
//! functions agree with the model wherever the result fits in an `i64`.

use vstd::prelude::*;

verus! {

/// The accumulator actor kind.
pub struct Calculator;

/// A request to change the running total.
#[derive(Debug, Clone, Copy, PartialEq, Eq, Structural)]
pub enum CalculatorCommand {
    Add { value: i64 },
    Sub { value: i64 },
    Mul { value: i64 },
    Div { value: i64 },
}

/// What an accepted command does to the running total.
#[derive(Debug, Clone, Copy, PartialEq, Eq, Structural)]
pub enum CalculatorEvent {
    DidAdd { value: i64 },
    DidSub { value: i64 },
    DidMul { value: i64 },
    DidDiv { value: i64 },
}

/// Why a command was turned down.
#[derive(Debug, Clone, Copy, PartialEq, Eq, Structural)]
pub enum CalculatorError {
    DivisionByZero,
}

/// What became of a command that was handled. Either way the command is
/// done with and the actor goes on to the next one: a rejection is reported,
/// not raised.
#[derive(Debug, Clone, Copy, PartialEq, Eq, Structural)]
pub enum Handled {
    /// The command was accepted and the total changed by this event.
    Applied(CalculatorEvent),
    /// The command was turned down for this reason and the total kept.
    Rejected(CalculatorError),
}

/// The running total.
#[derive(Debug)]
pub struct CalculatorState {
    value: i64,
}

/// The event that a command stands for, or the reason it is rejected.
pub open spec fn validate(command: CalculatorCommand) -> Result<CalculatorEvent, CalculatorError> {
    match command {
        CalculatorCommand::Add { value } => Ok(CalculatorEvent::DidAdd { value }),
        CalculatorCommand::Sub { value } => Ok(CalculatorEvent::DidSub { value }),
        CalculatorCommand::Mul { value } => Ok(CalculatorEvent::DidMul { value }),
        CalculatorCommand::Div { value } => if value == 0 {
            Err(CalculatorError::DivisionByZero)
        } else {
            Ok(CalculatorEvent::DidDiv { value })
        },
    }
}

/// The quotient of `x` by a non-zero `d`, rounded toward zero.
pub open spec fn quotient(x: int, d: int) -> int
    recommends
        d != 0,
{
    if x >= 0 && d > 0 {
        x / d
    } else if x < 0 && d < 0 {
        (-x) / (-d)
    } else if x < 0 {
        -((-x) / d)
    } else {
        -(x / (-d))
    }
}

/// The total after an event, as a mathematical integer.
pub open spec fn apply(total: int, event: CalculatorEvent) -> int {
    match event {
        CalculatorEvent::DidAdd { value } => total + value,
        CalculatorEvent::DidSub { value } => total - value,
        CalculatorEvent::DidMul { value } => total * value,
        CalculatorEvent::DidDiv { value } => quotient(total, value as int),
    }
}

/// An event can be applied to a total when its divisor, if it has one, is not
/// zero and the new total fits in an `i64`.
pub open spec fn applicable(total: int, event: CalculatorEvent) -> bool {
    &&& event matches CalculatorEvent::DidDiv { value } ==> value != 0
    &&& i64::MIN <= apply(total, event) <= i64::MAX
}

/// The total after one command: the event's effect if the command is
/// accepted, the same total if it is rejected.
pub open spec fn step(total: int, command: CalculatorCommand) -> int {
    match validate(command) {
        Ok(event) => apply(total, event),
        Err(_) => total,
    }
}

/// What becomes of a command that is handled: its event is applied, or it
/// is rejected for the reason that it fails to validate.
pub open spec fn handled(command: CalculatorCommand) -> Handled {
    match validate(command) {
        Ok(event) => Handled::Applied(event),
        Err(error) => Handled::Rejected(error),
    }
}

/// A command can be handled at a total when the event it stands for, if any,
/// can be applied there.
pub open spec fn accepts(total: int, command: CalculatorCommand) -> bool {
    validate(command) matches Ok(event) ==> applicable(total, event)
}

/// The total after a sequence of commands, handled one after the other in
/// the order in which they arrive.
pub open spec fn run(total: int, commands: Seq<CalculatorCommand>) -> int
    decreases commands.len(),
{
    if commands.len() == 0 {
        total
    } else {
        step(run(total, commands.drop_last()), commands.last())
    }
}

/// The events of the accepted commands of a sequence, in order; a rejected
/// command contributes none.
pub open spec fn events_of(commands: Seq<CalculatorCommand>) -> Seq<CalculatorEvent>
    decreases commands.len(),
{
    if commands.len() == 0 {
        Seq::empty()
    } else {
        match validate(commands.last()) {
            Ok(event) => events_of(commands.drop_last()).push(event),
            Err(_) => events_of(commands.drop_last()),
        }
    }
}

/// The total after a sequence of events, applied from the first to the last.
pub open spec fn replay(total: int, events: Seq<CalculatorEvent>) -> int
    decreases events.len(),
{
    if events.len() == 0 {
        total
    } else {
        apply(replay(total, events.drop_last()), events.last())
    }
}

/// Handling a sequence of commands leads to the total that replaying their
/// events from the same starting total gives.
pub proof fn lemma_run_is_replay(total: int, commands: Seq<CalculatorCommand>)
    ensures
        run(total, commands) == replay(total, events_of(commands)),
    decreases commands.len(),
{
    if commands.len() > 0 {
        let init = commands.drop_last();
        lemma_run_is_replay(total, init);
        if let Ok(event) = validate(commands.last()) {
            assert(events_of(commands).drop_last() == events_of(init));
        }
    }
}

/// When every command of a sequence is accepted, each command contributes
/// exactly its own event, and the final total is the replay of these events.
pub proof fn lemma_valid_commands_replay(total: int, commands: Seq<CalculatorCommand>)
    requires
        forall|i: int| 0 <= i < commands.len() ==> validate(#[trigger] commands[i]) is Ok,
    ensures
        events_of(commands).len() == commands.len(),
        forall|i: int|
            0 <= i < commands.len() ==> validate(#[trigger] commands[i]) == Ok::<
                CalculatorEvent,
                CalculatorError,
            >(events_of(commands)[i]),
        run(total, commands) == replay(total, events_of(commands)),
    decreases commands.len(),
{
    lemma_run_is_replay(total, commands);
    if commands.len() > 0 {
        let init = commands.drop_last();
        assert forall|i: int| 0 <= i < init.len() implies validate(#[trigger] init[i]) is Ok by {
            assert(init[i] == commands[i]);
        }
        lemma_valid_commands_replay(total, init);
        assert(validate(commands[commands.len() - 1]) is Ok);
        assert forall|i: int| 0 <= i < commands.len() implies validate(#[trigger] commands[i])
            == Ok::<CalculatorEvent, CalculatorError>(events_of(commands)[i]) by {
            if i < init.len() {
                assert(init[i] == commands[i]);
            }
        }
    }
}

/// The same commands, handled from the same total, lead to the same total
/// and to the same outcomes: each command is accepted or rejected alike, and
/// the accepted ones have the same events.
pub proof fn lemma_run_is_reproducible(
    total_a: int,
    commands_a: Seq<CalculatorCommand>,
    total_b: int,
    commands_b: Seq<CalculatorCommand>,
)
    requires
        total_a == total_b,
        commands_a.len() == commands_b.len(),
        forall|i: int| 0 <= i < commands_a.len() ==> commands_a[i] == commands_b[i],
    ensures
        run(total_a, commands_a) == run(total_b, commands_b),
        events_of(commands_a) == events_of(commands_b),
        forall|i: int|
            0 <= i < commands_a.len() ==> validate(#[trigger] commands_a[i]) == validate(
                commands_b[i],
            ),
{
    assert(commands_a =~= commands_b);
}

/// A rejected command changes neither the total nor the events of the
/// sequence it is appended to.
pub proof fn lemma_rejected_command_is_ignored(
    total: int,
    commands: Seq<CalculatorCommand>,
    command: CalculatorCommand,
)
    requires
        validate(command) is Err,
    ensures
        step(total, command) == total,
        run(total, commands.push(command)) == run(total, commands),
        events_of(commands.push(command)) == events_of(commands),
{
    assert(commands.push(command).drop_last() == commands);
}

/// A division by zero is the rejected command.
pub proof fn lemma_rejected_is_division_by_zero(command: CalculatorCommand)
    ensures
        validate(command) is Err <==> command == (CalculatorCommand::Div { value: 0 }),
        validate(command) is Err ==> validate(command) == Err::<
            CalculatorEvent,
            CalculatorError,
        >(CalculatorError::DivisionByZero),
{
}

/// The total after the first `n + 1` commands of a sequence is the total
/// after the first `n`, changed by the next command alone.
pub proof fn lemma_run_prefix(total: int, commands: Seq<CalculatorCommand>, n: int)
    requires
        0 <= n < commands.len(),
    ensures
        run(total, commands.take(n + 1)) == step(run(total, commands.take(n)), commands[n]),
{
    assert(commands.take(n + 1).drop_last() == commands.take(n));
}

impl View for CalculatorState {
    type V = int;

    closed spec fn view(&self) -> int {
        self.value as int
    }
}

impl CalculatorError {
    /// The text that describes the error.
    pub fn to_string(&self) -> (text: String)
        ensures
            text@ == "Division by zero"@,
    {
        match self {
            CalculatorError::DivisionByZero => String::from_str("Division by zero"),
        }
    }
}

impl CalculatorState {
    /// A total is a value of `i64`.
    pub proof fn lemma_total_fits(&self)
        ensures
            i64::MIN <= self@ <= i64::MAX,
    {
    }

    /// The current total.
    pub fn value(&self) -> (v: i64)
        ensures
            v == self@,
    {
        self.value
    }

    /// Validates a command, without changing the state.
    pub fn handle_command(&self, command: CalculatorCommand) -> (r: Result<
        CalculatorEvent,
        CalculatorError,
    >)
        ensures
            r == validate(command),
    {
        match command {
            CalculatorCommand::Add { value } => Ok(CalculatorEvent::DidAdd { value }),
            CalculatorCommand::Sub { value } => Ok(CalculatorEvent::DidSub { value }),
            CalculatorCommand::Mul { value } => Ok(CalculatorEvent::DidMul { value }),
            CalculatorCommand::Div { value: 0 } => Err(CalculatorError::DivisionByZero),
            CalculatorCommand::Div { value } => Ok(CalculatorEvent::DidDiv { value }),
        }
    }

    /// The total that an event leads to, if the event can be applied.
    fn total_after(&self, event: CalculatorEvent) -> (next: Option<i64>)
        ensures
            next is Some <==> applicable(self@, event),
            next matches Some(total) ==> total == apply(self@, event),
    {
        match event {
            CalculatorEvent::DidAdd { value } => self.value.checked_add(value),
            CalculatorEvent::DidSub { value } => self.value.checked_sub(value),
            CalculatorEvent::DidMul { value } => self.value.checked_mul(value),
            CalculatorEvent::DidDiv { value } => self.value.checked_div(value),
        }
    }

    /// Tells whether `handle_event` may be called with this event.
    pub fn can_apply(&self, event: CalculatorEvent) -> (ok: bool)
        ensures
            ok == applicable(self@, event),
    {
        self.total_after(event).is_some()
    }

    /// Applies an event to the total.
    pub fn handle_event(&mut self, event: CalculatorEvent)
        requires
            applicable(old(self)@, event),
        ensures
            final(self)@ == apply(old(self)@, event),
    {
        if let Some(total) = self.total_after(event) {
            self.value = total;
        }
    }
}

impl Calculator {
    /// The state that an actor starts with: the total it is given.
    pub fn pre_start(&self, args: i64) -> (state: CalculatorState)
        ensures
            state@ == args,
    {
        CalculatorState { value: args }
    }

    /// Tells whether `handle` may be called with this command on this state.
    pub fn can_handle(&self, command: CalculatorCommand, state: &CalculatorState) -> (ok: bool)
        ensures
            ok == accepts(state@, command),
    {
        match state.handle_command(command) {
            Ok(event) => state.can_apply(event),
            Err(_) => true,
        }
    }

    /// Handles one command. An accepted command changes the state by its
    /// event; a rejected one leaves the state as it was. What happened is
    /// reported in the result, and in both cases the command has been dealt
    /// with: a rejection is no failure of the handler.
    pub fn handle(&self, command: CalculatorCommand, state: &mut CalculatorState) -> (outcome:
        Handled)
        requires
            accepts(old(state)@, command),
        ensures
            outcome == handled(command),
            final(state)@ == step(old(state)@, command),
            outcome is Rejected ==> *final(state) == *old(state),
    {
        match state.handle_command(command) {
            Ok(event) => {
                state.handle_event(event);
                Handled::Applied(event)
            },
            Err(error) => Handled::Rejected(error),
        }
    }
}

} // verus!
