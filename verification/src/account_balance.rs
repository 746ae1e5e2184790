//! The ledger actor: one account's balance, changed by deposits,
//! withdrawals and fees, and read on request.

use crate::naming::{compose, registry_name};
use crate::runtime::{actor_name, find_actor, registered_name, reply, send, DeliveryError};
use vstd::prelude::*;

verus! {

/// The ledger actor kind.
pub struct AccountBalance;

/// What a ledger actor is started with.
#[derive(Debug)]
pub struct AccountBalanceArgs {
    initial_balance: i64,
    account_number: String,
}

/// What happened to an account.
#[derive(Debug, Clone, Copy, PartialEq, Eq, Structural)]
pub enum AccountBalanceEventPayload {
    AmountWithdrawn { value: i64 },
    AmountDeposited { value: i64 },
    FeeApplied { value: i64 },
}

/// Something that happened to the account with the given number.
#[derive(Debug)]
pub struct AccountBalanceEvent {
    pub account_number: String,
    pub payload: AccountBalanceEventPayload,
}

/// What a ledger actor is sent.
#[derive(Debug)]
pub enum AccountBalanceMessage {
    /// Change the balance by an event.
    ApplyEvent(AccountBalanceEvent),
    /// Write the balance to the port.
    GetBalance(ractor::RpcReplyPort<i64>),
}

/// The balance of one account.
#[derive(Debug)]
pub struct AccountBalanceState {
    balance: i64,
}

/// A handle on a running ledger actor.
pub type AccountBalanceActorRef = ractor::ActorRef<AccountBalanceMessage>;

/// Where an event for an account goes.
#[derive(Debug)]
pub enum Recipient {
    /// To the actor that already serves the account.
    Running(AccountBalanceActorRef),
    /// To an actor that is yet to be started with these arguments.
    ToSpawn(AccountBalanceArgs),
}

/// How an attempt to start the actor for an account ended; `E` is the
/// runtime's account of a start that did not succeed.
#[derive(Debug)]
pub enum SpawnOutcome<E> {
    /// The actor runs under the account's name.
    Started(AccountBalanceActorRef),
    /// Another actor took the account's name first.
    NameTaken(E),
    /// The actor could not be started.
    Failed(E),
}

/// How a request for a balance ended.
#[derive(Debug)]
pub enum CallOutcome {
    /// The actor wrote this balance to the reply port.
    Replied(i64),
    /// No reply came within the time allowed.
    TimedOut,
    /// The reply port was dropped without a reply.
    ReplyDropped,
    /// The request did not reach the actor's mailbox.
    NotSent(DeliveryError),
}

/// Why a request for a balance failed.
#[derive(Debug)]
pub enum QueryError {
    /// No reply came within the time allowed.
    Timeout,
    /// The request or its reply was lost on the way.
    Delivery(DeliveryError),
}

/// The time allowed for a reply, in milliseconds.
pub const RPC_TIMEOUT_MS: u64 = 1000;

/// The name of the ledger actor kind.
pub open spec fn kind() -> Seq<char> {
    "AccountBalance"@
}

/// A handle is the one of an account's actor when the runtime registered
/// the actor behind it under the account's registry name.
pub open spec fn serves(actor: AccountBalanceActorRef, account_number: Seq<char>) -> bool {
    registered_name(actor) == Some(registry_name(kind(), account_number))
}

/// The result of a request for the balance of an account: nothing where no
/// actor serves the account, the balance where one replied, and an error
/// where a request was made and no reply came.
pub open spec fn reply_result(answer: Option<CallOutcome>) -> Result<Option<i64>, QueryError> {
    match answer {
        None => Ok(None),
        Some(CallOutcome::Replied(balance)) => Ok(Some(balance)),
        Some(CallOutcome::TimedOut) => Err(QueryError::Timeout),
        Some(CallOutcome::ReplyDropped) => Err(QueryError::Delivery(DeliveryError::ChannelClosed)),
        Some(CallOutcome::NotSent(error)) => Err(QueryError::Delivery(error)),
    }
}

/// The balance after an event, as a mathematical integer.
pub open spec fn balance_after(balance: int, payload: AccountBalanceEventPayload) -> int {
    match payload {
        AccountBalanceEventPayload::AmountDeposited { value } => balance + value,
        AccountBalanceEventPayload::AmountWithdrawn { value } => balance - value,
        AccountBalanceEventPayload::FeeApplied { value } => balance - value,
    }
}

/// An event can be applied to a balance when the new balance fits in an
/// `i64`.
pub open spec fn applicable(balance: int, payload: AccountBalanceEventPayload) -> bool {
    i64::MIN <= balance_after(balance, payload) <= i64::MAX
}

/// A message can be handled at a balance when the event it brings, if any,
/// can be applied there.
pub open spec fn accepts(balance: int, message: AccountBalanceMessage) -> bool {
    message matches AccountBalanceMessage::ApplyEvent(event) ==> applicable(balance, event.payload)
}

/// The balance after one message: the event's effect if the message brings
/// one, the same balance if it asks for the balance.
pub open spec fn step(balance: int, message: AccountBalanceMessage) -> int {
    match message {
        AccountBalanceMessage::ApplyEvent(event) => balance_after(balance, event.payload),
        AccountBalanceMessage::GetBalance(_) => balance,
    }
}

/// The balance after a sequence of messages, handled one after the other in
/// the order in which they arrive.
pub open spec fn run(balance: int, messages: Seq<AccountBalanceMessage>) -> int
    decreases messages.len(),
{
    if messages.len() == 0 {
        balance
    } else {
        step(run(balance, messages.drop_last()), messages.last())
    }
}

/// What the events of a sequence of messages did to the account, in order;
/// a request for the balance contributes nothing.
pub open spec fn events_of(messages: Seq<AccountBalanceMessage>) -> Seq<
    AccountBalanceEventPayload,
>
    decreases messages.len(),
{
    if messages.len() == 0 {
        Seq::empty()
    } else {
        match messages.last() {
            AccountBalanceMessage::ApplyEvent(event) => events_of(messages.drop_last()).push(
                event.payload,
            ),
            AccountBalanceMessage::GetBalance(_) => events_of(messages.drop_last()),
        }
    }
}

/// The balance after a sequence of events, applied from the first to the
/// last.
pub open spec fn replay(balance: int, events: Seq<AccountBalanceEventPayload>) -> int
    decreases events.len(),
{
    if events.len() == 0 {
        balance
    } else {
        balance_after(replay(balance, events.drop_last()), events.last())
    }
}

/// What an event adds to a balance: the amount of a deposit, and the
/// amount of a withdrawal or of a fee with its sign turned.
pub open spec fn delta(payload: AccountBalanceEventPayload) -> int {
    match payload {
        AccountBalanceEventPayload::AmountDeposited { value } => value as int,
        AccountBalanceEventPayload::AmountWithdrawn { value } => -(value as int),
        AccountBalanceEventPayload::FeeApplied { value } => -(value as int),
    }
}

/// What a sequence of events adds to a balance in all.
pub open spec fn total_delta(events: Seq<AccountBalanceEventPayload>) -> int
    decreases events.len(),
{
    if events.len() == 0 {
        0
    } else {
        total_delta(events.drop_last()) + delta(events.last())
    }
}

/// The balance after a sequence of events is the starting balance plus the
/// sum of what each of these events adds, and of no other.
pub proof fn lemma_replay_is_sum(balance: int, events: Seq<AccountBalanceEventPayload>)
    ensures
        replay(balance, events) == balance + total_delta(events),
    decreases events.len(),
{
    if events.len() > 0 {
        lemma_replay_is_sum(balance, events.drop_last());
    }
}

/// The balance after a sequence of messages is the starting balance plus
/// the sum of what the events among them add; it is what a request for the
/// balance that comes next is answered with.
pub proof fn lemma_run_is_sum(balance: int, messages: Seq<AccountBalanceMessage>)
    ensures
        run(balance, messages) == balance + total_delta(events_of(messages)),
{
    lemma_run_is_replay(balance, messages);
    lemma_replay_is_sum(balance, events_of(messages));
}

/// Handling a sequence of messages leads to the balance that replaying
/// their events from the same starting balance gives.
pub proof fn lemma_run_is_replay(balance: int, messages: Seq<AccountBalanceMessage>)
    ensures
        run(balance, messages) == replay(balance, events_of(messages)),
    decreases messages.len(),
{
    if messages.len() > 0 {
        let init = messages.drop_last();
        lemma_run_is_replay(balance, init);
        if messages.last() is ApplyEvent {
            assert(events_of(messages).drop_last() == events_of(init));
        }
    }
}

/// The same messages, handled from the same balance, lead to the same
/// balance and bring the same events.
pub proof fn lemma_run_is_reproducible(
    balance_a: int,
    messages_a: Seq<AccountBalanceMessage>,
    balance_b: int,
    messages_b: Seq<AccountBalanceMessage>,
)
    requires
        balance_a == balance_b,
        messages_a.len() == messages_b.len(),
        forall|i: int| 0 <= i < messages_a.len() ==> messages_a[i] == messages_b[i],
    ensures
        run(balance_a, messages_a) == run(balance_b, messages_b),
        events_of(messages_a) == events_of(messages_b),
{
    assert(messages_a =~= messages_b);
}

/// A request for the balance changes neither the balance nor the events of
/// the sequence it is appended to.
pub proof fn lemma_query_changes_nothing(
    balance: int,
    messages: Seq<AccountBalanceMessage>,
    query: AccountBalanceMessage,
)
    requires
        query is GetBalance,
    ensures
        step(balance, query) == balance,
        run(balance, messages.push(query)) == run(balance, messages),
        events_of(messages.push(query)) == events_of(messages),
{
    assert(messages.push(query).drop_last() == messages);
}

/// The balance after the first `n + 1` messages of a sequence is the
/// balance after the first `n`, changed by the next message alone.
pub proof fn lemma_run_prefix(balance: int, messages: Seq<AccountBalanceMessage>, n: int)
    requires
        0 <= n < messages.len(),
    ensures
        run(balance, messages.take(n + 1)) == step(run(balance, messages.take(n)), messages[n]),
{
    assert(messages.take(n + 1).drop_last() == messages.take(n));
}

impl View for AccountBalanceState {
    type V = int;

    closed spec fn view(&self) -> int {
        self.balance as int
    }
}

impl AccountBalanceArgs {
    /// The balance that the account starts with.
    pub closed spec fn spec_initial_balance(&self) -> int {
        self.initial_balance as int
    }

    /// The number of the account.
    pub closed spec fn spec_account_number(&self) -> Seq<char> {
        self.account_number@
    }

    /// An initial balance is a value of `i64`.
    pub proof fn lemma_initial_balance_fits(&self)
        ensures
            i64::MIN <= self.spec_initial_balance() <= i64::MAX,
    {
    }

    /// The arguments for an account that starts empty.
    pub fn new(account_number: String) -> (args: Self)
        ensures
            args.spec_initial_balance() == 0,
            args.spec_account_number() == account_number@,
    {
        Self { initial_balance: 0, account_number }
    }

    /// The balance that the account starts with.
    pub fn initial_balance(&self) -> (balance: i64)
        ensures
            balance == self.spec_initial_balance(),
    {
        self.initial_balance
    }

    /// The number of the account.
    pub fn account_number(&self) -> (number: &str)
        ensures
            number@ == self.spec_account_number(),
    {
        self.account_number.as_str()
    }
}

impl Default for AccountBalanceArgs {
    /// The arguments for an empty account without a number.
    fn default() -> (args: Self)
        ensures
            args.spec_initial_balance() == 0,
            args.spec_account_number() == Seq::<char>::empty(),
    {
        Self { initial_balance: 0, account_number: String::new() }
    }
}

impl AccountBalanceState {
    /// A balance is a value of `i64`.
    pub proof fn lemma_balance_fits(&self)
        ensures
            i64::MIN <= self@ <= i64::MAX,
    {
    }

    /// The current balance.
    pub fn balance(&self) -> (balance: i64)
        ensures
            balance == self@,
    {
        self.balance
    }

    /// The balance that an event leads to, if the event can be applied.
    fn next_balance(&self, payload: AccountBalanceEventPayload) -> (next: Option<i64>)
        ensures
            next is Some <==> applicable(self@, payload),
            next matches Some(balance) ==> balance == balance_after(self@, payload),
    {
        match payload {
            AccountBalanceEventPayload::AmountDeposited { value } => self.balance.checked_add(
                value,
            ),
            AccountBalanceEventPayload::AmountWithdrawn { value } => self.balance.checked_sub(
                value,
            ),
            AccountBalanceEventPayload::FeeApplied { value } => self.balance.checked_sub(value),
        }
    }

    /// Tells whether an event with this payload may be applied.
    pub fn can_apply(&self, payload: AccountBalanceEventPayload) -> (ok: bool)
        ensures
            ok == applicable(self@, payload),
    {
        self.next_balance(payload).is_some()
    }

    /// Changes the balance by an event.
    pub fn apply(&mut self, payload: AccountBalanceEventPayload)
        requires
            applicable(old(self)@, payload),
        ensures
            final(self)@ == balance_after(old(self)@, payload),
    {
        if let Some(balance) = self.next_balance(payload) {
            self.balance = balance;
        }
    }
}

impl AccountBalance {
    /// The state that an actor starts with: the balance it is given.
    pub fn pre_start(&self, args: AccountBalanceArgs) -> (state: AccountBalanceState)
        ensures
            state@ == args.spec_initial_balance(),
    {
        AccountBalanceState { balance: args.initial_balance }
    }

    /// Tells whether `handle` may be called with this message on this state.
    pub fn can_handle(&self, message: &AccountBalanceMessage, state: &AccountBalanceState) -> (ok:
        bool)
        ensures
            ok == accepts(state@, *message),
    {
        match message {
            AccountBalanceMessage::ApplyEvent(event) => state.can_apply(event.payload),
            AccountBalanceMessage::GetBalance(_) => true,
        }
    }

    /// Handles one message. An event changes the balance and nothing is
    /// replied; a request for the balance leaves the state as it was, and the
    /// balance is written to the request's port and returned.
    pub fn handle(
        &self,
        message: AccountBalanceMessage,
        state: &mut AccountBalanceState,
    ) -> (replied: Option<i64>)
        requires
            accepts(old(state)@, message),
        ensures
            final(state)@ == step(old(state)@, message),
            match message {
                AccountBalanceMessage::ApplyEvent(event) => {
                    &&& replied is None
                    &&& final(state)@ == balance_after(old(state)@, event.payload)
                },
                AccountBalanceMessage::GetBalance(_) => {
                    &&& replied matches Some(balance)
                    &&& balance == old(state)@
                    &&& *final(state) == *old(state)
                },
            },
    {
        match message {
            AccountBalanceMessage::ApplyEvent(event) => {
                state.apply(event.payload);
                None
            },
            AccountBalanceMessage::GetBalance(reply_port) => {
                let balance = state.balance;
                let _ = reply(reply_port, balance);
                Some(balance)
            },
        }
    }

    /// The registry name of the actor that serves an account.
    pub fn via(account_number: &str) -> (name: String)
        ensures
            name@ == registry_name(kind(), account_number@),
    {
        compose("AccountBalance", account_number)
    }

    /// The name under which the actor started with these arguments is
    /// registered: the one under which `where_is` looks for its account.
    pub fn spawn_name(args: &AccountBalanceArgs) -> (name: Option<String>)
        ensures
            name matches Some(text) && text@ == registry_name(
                kind(),
                args.spec_account_number(),
            ),
    {
        Some(Self::via(args.account_number()))
    }

    /// Tells whether a handle is the one of an account's actor.
    pub fn serves(actor: &AccountBalanceActorRef, account_number: &str) -> (yes: bool)
        ensures
            yes == serves(*actor, account_number@),
    {
        match actor_name(actor) {
            Some(name) => name == Self::via(account_number),
            None => false,
        }
    }

    /// Looks in the registry for the actor that serves an account. Whether
    /// one is found is the registry's to say; one that is found is the actor
    /// registered under the account's name.
    pub fn where_is(account_number: &str) -> (found: Option<AccountBalanceActorRef>)
        ensures
            found matches Some(actor) ==> serves(actor, account_number@),
    {
        find_actor(Self::via(account_number))
    }

    /// Decides where an event goes, given what the registry holds for its
    /// account: to the running actor, or to a new one that starts empty.
    pub fn recipient_for(found: Option<AccountBalanceActorRef>, event: &AccountBalanceEvent) -> (to:
        Recipient)
        ensures
            match found {
                Some(actor) => to == Recipient::Running(actor),
                None => {
                    &&& to matches Recipient::ToSpawn(args)
                    &&& args.spec_initial_balance() == 0
                    &&& args.spec_account_number() == event.account_number@
                },
            },
    {
        match found {
            Some(actor) => Recipient::Running(actor),
            None => Recipient::ToSpawn(AccountBalanceArgs::new(event.account_number.clone())),
        }
    }

    /// Looks the event's account up in the registry and decides where the
    /// event goes. Whatever the registry holds, a running recipient is the
    /// actor registered under the name of the event's account, and an actor
    /// that is to be started starts empty and under the event's account
    /// number.
    pub fn recipient(event: &AccountBalanceEvent) -> (to: Recipient)
        ensures
            match to {
                Recipient::Running(actor) => serves(actor, event.account_number@),
                Recipient::ToSpawn(args) => {
                    &&& args.spec_initial_balance() == 0
                    &&& args.spec_account_number() == event.account_number@
                },
            },
    {
        let found = Self::where_is(event.account_number.as_str());
        Self::recipient_for(found, event)
    }

    /// Decides what follows a start that lost the race for the account's
    /// name, given what a new look into the registry found: the event goes to
    /// the actor that was found; where none was found, the start's failure
    /// stands.
    pub fn after_collision<E>(error: E, found: Option<AccountBalanceActorRef>) -> (to: Result<
        AccountBalanceActorRef,
        E,
    >)
        ensures
            match found {
                Some(actor) => to == Ok::<AccountBalanceActorRef, E>(actor),
                None => to == Err::<AccountBalanceActorRef, E>(error),
            },
    {
        match found {
            Some(actor) => Ok(actor),
            None => Err(error),
        }
    }

    /// Decides where an event goes once an attempt to start its actor has
    /// ended: to the actor that was started. Where another actor took the
    /// name first, the registry is looked into once more, and the event goes
    /// to the actor registered under the name of its account, if one is
    /// found. Otherwise the start's failure is handed on.
    pub fn after_spawn<E>(outcome: SpawnOutcome<E>, event: &AccountBalanceEvent) -> (to: Result<
        AccountBalanceActorRef,
        E,
    >)
        ensures
            match outcome {
                SpawnOutcome::Started(actor) => to == Ok::<AccountBalanceActorRef, E>(actor),
                SpawnOutcome::NameTaken(error) => match to {
                    Ok(actor) => serves(actor, event.account_number@),
                    Err(handed_on) => handed_on == error,
                },
                SpawnOutcome::Failed(error) => to == Err::<AccountBalanceActorRef, E>(error),
            },
    {
        match outcome {
            SpawnOutcome::Started(actor) => Ok(actor),
            SpawnOutcome::NameTaken(error) => {
                let found = Self::where_is(event.account_number.as_str());
                Self::after_collision(error, found)
            },
            SpawnOutcome::Failed(error) => Err(error),
        }
    }

    /// Puts an event at the end of an actor's mailbox, without waiting for it
    /// to be handled. An event that the mailbox refuses comes back in the
    /// error; the only other failure is an actor of another message type.
    pub fn deliver(actor: &AccountBalanceActorRef, event: AccountBalanceEvent) -> (sent: Result<
        (),
        DeliveryError,
    >)
        ensures
            sent matches Err(DeliveryError::Undelivered(message)) ==> message
                == AccountBalanceMessage::ApplyEvent(event),
            !(sent matches Err(DeliveryError::ChannelClosed)),
    {
        send(actor, AccountBalanceMessage::ApplyEvent(event))
    }

    /// Turns the end of a request for a balance into its result; `None`
    /// stands for an account that no actor serves, of which nothing was
    /// asked.
    pub fn balance_reply(answer: Option<CallOutcome>) -> (result: Result<Option<i64>, QueryError>)
        ensures
            result == reply_result(answer),
    {
        match answer {
            None => Ok(None),
            Some(CallOutcome::Replied(balance)) => Ok(Some(balance)),
            Some(CallOutcome::TimedOut) => Err(QueryError::Timeout),
            Some(CallOutcome::ReplyDropped) => Err(
                QueryError::Delivery(DeliveryError::ChannelClosed),
            ),
            Some(CallOutcome::NotSent(error)) => Err(QueryError::Delivery(error)),
        }
    }
}

} // verus!
