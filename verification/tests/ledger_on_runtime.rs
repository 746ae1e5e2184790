use std::time::Duration;

use event_actors::account_balance::{
    AccountBalance, AccountBalanceActorRef, AccountBalanceArgs, AccountBalanceEvent,
    AccountBalanceEventPayload, AccountBalanceMessage, AccountBalanceState, CallOutcome,
    QueryError, Recipient, SpawnOutcome, RPC_TIMEOUT_MS,
};
use event_actors::runtime::DeliveryError;
use ractor::rpc::CallResult;
use ractor::{Actor, ActorProcessingErr, ActorRef, MessagingErr};

struct Ledger;

impl Actor for Ledger {
    type Msg = AccountBalanceMessage;
    type State = AccountBalanceState;
    type Arguments = AccountBalanceArgs;

    async fn pre_start(
        &self,
        _myself: ActorRef<Self::Msg>,
        args: Self::Arguments,
    ) -> Result<Self::State, ActorProcessingErr> {
        Ok(AccountBalance.pre_start(args))
    }

    async fn handle(
        &self,
        _myself: ActorRef<Self::Msg>,
        message: Self::Msg,
        state: &mut Self::State,
    ) -> Result<(), ActorProcessingErr> {
        if let AccountBalanceMessage::ApplyEvent(event) = &message {
            assert!(state.can_apply(event.payload));
        }
        AccountBalance.handle(message, state);
        Ok(())
    }
}

/// A ledger that never answers a request for its balance.
struct SilentLedger;

impl Actor for SilentLedger {
    type Msg = AccountBalanceMessage;
    type State = Vec<AccountBalanceMessage>;
    type Arguments = AccountBalanceArgs;

    async fn pre_start(
        &self,
        _myself: ActorRef<Self::Msg>,
        _args: Self::Arguments,
    ) -> Result<Self::State, ActorProcessingErr> {
        Ok(Vec::new())
    }

    async fn handle(
        &self,
        _myself: ActorRef<Self::Msg>,
        message: Self::Msg,
        state: &mut Self::State,
    ) -> Result<(), ActorProcessingErr> {
        state.push(message);
        Ok(())
    }
}

/// An actor of another kind, which takes no ledger messages.
struct Stranger;

impl Actor for Stranger {
    type Msg = u8;
    type State = ();
    type Arguments = ();

    async fn pre_start(
        &self,
        _myself: ActorRef<Self::Msg>,
        _args: Self::Arguments,
    ) -> Result<Self::State, ActorProcessingErr> {
        Ok(())
    }
}

fn on_runtime<F: std::future::Future>(work: F) -> F::Output {
    tokio::runtime::Builder::new_current_thread().enable_all().build().unwrap().block_on(work)
}

fn event(account_number: &str, payload: AccountBalanceEventPayload) -> AccountBalanceEvent {
    AccountBalanceEvent { account_number: account_number.to_string(), payload }
}

async fn try_spawn(args: AccountBalanceArgs) -> SpawnOutcome<ractor::SpawnErr> {
    let name = AccountBalance::spawn_name(&args);
    match Actor::spawn(name, Ledger, args).await {
        Ok((actor, _)) => SpawnOutcome::Started(actor),
        Err(error @ ractor::SpawnErr::ActorAlreadyRegistered(_)) => SpawnOutcome::NameTaken(error),
        Err(error) => SpawnOutcome::Failed(error),
    }
}

async fn spawn(args: AccountBalanceArgs) -> AccountBalanceActorRef {
    match try_spawn(args).await {
        SpawnOutcome::Started(actor) => actor,
        other => panic!("the actor should have started, got {:?}", other),
    }
}

async fn apply_event(event: AccountBalanceEvent) -> Result<(), DeliveryError> {
    let actor = match AccountBalance::recipient(&event) {
        Recipient::Running(actor) => actor,
        Recipient::ToSpawn(args) => {
            let outcome = try_spawn(args).await;
            AccountBalance::after_spawn(outcome, &event).expect("the actor starts")
        }
    };
    assert!(AccountBalance::serves(&actor, &event.account_number));
    AccountBalance::deliver(&actor, event)
}

async fn ask(actor: &AccountBalanceActorRef, millis: u64) -> CallOutcome {
    let asked =
        actor.call(AccountBalanceMessage::GetBalance, Some(Duration::from_millis(millis))).await;
    match asked {
        Ok(CallResult::Success(balance)) => CallOutcome::Replied(balance),
        Ok(CallResult::Timeout) => CallOutcome::TimedOut,
        Ok(CallResult::SenderError) => CallOutcome::ReplyDropped,
        Err(MessagingErr::SendErr(message)) => {
            CallOutcome::NotSent(DeliveryError::Undelivered(message))
        }
        Err(MessagingErr::ChannelClosed) => CallOutcome::NotSent(DeliveryError::ChannelClosed),
        Err(MessagingErr::InvalidActorType) => {
            CallOutcome::NotSent(DeliveryError::InvalidActorType)
        }
    }
}

async fn get_balance(account_number: &str) -> Result<Option<i64>, QueryError> {
    match AccountBalance::where_is(account_number) {
        Some(actor) => AccountBalance::balance_reply(Some(ask(&actor, RPC_TIMEOUT_MS).await)),
        None => AccountBalance::balance_reply(None),
    }
}

#[test]
fn ledger_scenario_on_the_runtime() {
    on_runtime(async {
        assert!(AccountBalance::where_is("ACCOUNT1").is_none());
        apply_event(event("ACCOUNT1", AccountBalanceEventPayload::AmountDeposited { value: 100 }))
            .await
            .unwrap();
        assert!(AccountBalance::where_is("ACCOUNT1").is_some());
        assert!(matches!(get_balance("ACCOUNT1").await, Ok(Some(100))));
        apply_event(event("ACCOUNT1", AccountBalanceEventPayload::FeeApplied { value: 5 }))
            .await
            .unwrap();
        assert!(matches!(get_balance("ACCOUNT1").await, Ok(Some(95))));
        assert!(matches!(get_balance("ACCOUNT2").await, Ok(None)));
        assert!(AccountBalance::where_is("ACCOUNT2").is_none());
    });
}

#[test]
fn events_for_one_account_reach_one_actor_in_order() {
    on_runtime(async {
        let payloads = [
            AccountBalanceEventPayload::AmountDeposited { value: 50 },
            AccountBalanceEventPayload::AmountWithdrawn { value: 80 },
            AccountBalanceEventPayload::FeeApplied { value: 3 },
            AccountBalanceEventPayload::AmountDeposited { value: 40 },
        ];
        for payload in payloads {
            apply_event(event("ORDERED", payload)).await.unwrap();
        }
        let first = AccountBalance::where_is("ORDERED").unwrap();
        let second = AccountBalance::where_is("ORDERED").unwrap();
        assert_eq!(first.get_id(), second.get_id());
        assert_eq!(first.get_name(), Some("AccountBalance/ORDERED".to_string()));
        assert!(matches!(get_balance("ORDERED").await, Ok(Some(7))));
    });
}

#[test]
fn where_is_finds_only_the_account_it_is_asked_for() {
    on_runtime(async {
        let actor = spawn(AccountBalanceArgs::new("FOUND".to_string())).await;
        let found = AccountBalance::where_is("FOUND").unwrap();
        assert_eq!(found.get_id(), actor.get_id());
        assert!(AccountBalance::where_is("FOUN").is_none());
        assert!(AccountBalance::where_is("AccountBalance/FOUND").is_none());
    });
}

#[test]
fn a_second_actor_for_one_account_is_a_name_collision() {
    on_runtime(async {
        let _first = spawn(AccountBalanceArgs::new("TWICE".to_string())).await;
        let args = AccountBalanceArgs::new("TWICE".to_string());
        let second = Actor::spawn(AccountBalance::spawn_name(&args), Ledger, args).await;
        assert!(matches!(second, Err(ractor::SpawnErr::ActorAlreadyRegistered(_))));
    });
}

#[test]
fn the_loser_of_a_race_for_a_name_uses_the_winner() {
    on_runtime(async {
        let deposit = event("RACE", AccountBalanceEventPayload::AmountDeposited { value: 1 });
        let loser_args = match AccountBalance::recipient(&deposit) {
            Recipient::ToSpawn(args) => args,
            Recipient::Running(_) => panic!("no actor serves the account yet"),
        };
        let winner = spawn(AccountBalanceArgs::new("RACE".to_string())).await;
        let outcome = try_spawn(loser_args).await;
        assert!(matches!(outcome, SpawnOutcome::NameTaken(_)));
        match AccountBalance::after_spawn(outcome, &deposit) {
            Ok(actor) => {
                assert_eq!(actor.get_id(), winner.get_id());
                assert!(AccountBalance::serves(&actor, "RACE"));
            }
            other => panic!("the winner should have been found, got {:?}", other),
        }
    });
}

#[test]
fn a_started_actor_is_the_recipient_and_a_failed_start_ends_the_delivery() {
    on_runtime(async {
        let deposit = event("AFTER", AccountBalanceEventPayload::AmountDeposited { value: 1 });
        let started = spawn(AccountBalanceArgs::new("AFTER".to_string())).await;
        let id = started.get_id();
        match AccountBalance::after_spawn(SpawnOutcome::<String>::Started(started), &deposit) {
            Ok(actor) => assert_eq!(actor.get_id(), id),
            other => panic!("the started actor should be the recipient, got {:?}", other),
        }
        let failed = SpawnOutcome::Failed("out of memory".to_string());
        match AccountBalance::after_spawn(failed, &deposit) {
            Err(reason) => assert_eq!(reason, "out of memory"),
            Ok(to) => panic!("a failed start has no recipient, got {:?}", to),
        }
    });
}

#[test]
fn a_name_that_no_ledger_actor_holds_ends_the_delivery_with_the_collision() {
    on_runtime(async {
        let deposit = event("HELD", AccountBalanceEventPayload::AmountDeposited { value: 1 });
        let taken = SpawnOutcome::NameTaken("the name is held".to_string());
        match AccountBalance::after_spawn(taken, &deposit) {
            Err(reason) => assert_eq!(reason, "the name is held"),
            Ok(actor) => panic!("no actor serves the account, got {:?}", actor),
        }
        assert!(AccountBalance::where_is("HELD").is_none());
    });
}

#[test]
fn an_account_name_held_by_a_stranger_ends_the_delivery() {
    on_runtime(async {
        let name = AccountBalance::via("SQUATTED");
        let (_stranger, _handle) = Actor::spawn(Some(name), Stranger, ()).await.unwrap();
        assert!(AccountBalance::where_is("SQUATTED").is_none());
        let deposit = event("SQUATTED", AccountBalanceEventPayload::AmountDeposited { value: 1 });
        let args = match AccountBalance::recipient(&deposit) {
            Recipient::ToSpawn(args) => args,
            Recipient::Running(_) => panic!("no ledger actor serves the account"),
        };
        let outcome = try_spawn(args).await;
        assert!(matches!(outcome, SpawnOutcome::NameTaken(_)));
        assert!(matches!(
            AccountBalance::after_spawn(outcome, &deposit),
            Err(ractor::SpawnErr::ActorAlreadyRegistered(_))
        ));
    });
}

#[test]
fn a_collision_is_settled_by_what_the_registry_holds() {
    on_runtime(async {
        let running = spawn(AccountBalanceArgs::new("SETTLED".to_string())).await;
        let id = running.get_id();
        match AccountBalance::after_collision("taken".to_string(), Some(running)) {
            Ok(actor) => assert_eq!(actor.get_id(), id),
            Err(reason) => panic!("the actor that was found is the recipient, got {}", reason),
        }
        match AccountBalance::after_collision("taken".to_string(), None) {
            Err(reason) => assert_eq!(reason, "taken"),
            Ok(actor) => panic!("nothing was found, got {:?}", actor),
        }
    });
}

#[test]
fn a_handle_serves_the_account_it_is_registered_for() {
    on_runtime(async {
        let actor = spawn(AccountBalanceArgs::new("SERVED".to_string())).await;
        assert!(AccountBalance::serves(&actor, "SERVED"));
        assert!(!AccountBalance::serves(&actor, "SERVE"));
        assert!(!AccountBalance::serves(&actor, "AccountBalance/SERVED"));
        assert!(!AccountBalance::serves(&actor, ""));
        let found = AccountBalance::where_is("SERVED").unwrap();
        assert!(AccountBalance::serves(&found, "SERVED"));
        let other = spawn(AccountBalanceArgs::new("OTHER".to_string())).await;
        assert!(!AccountBalance::serves(&other, "SERVED"));
        assert!(AccountBalance::serves(&other, "OTHER"));
    });
}

#[test]
fn a_handle_without_a_name_serves_no_account() {
    on_runtime(async {
        let args = AccountBalanceArgs::new("NAMELESS".to_string());
        let (actor, _handle) = Actor::spawn(None, Ledger, args).await.unwrap();
        assert!(!AccountBalance::serves(&actor, "NAMELESS"));
        assert!(!AccountBalance::serves(&actor, ""));
        assert!(AccountBalance::where_is("NAMELESS").is_none());
    });
}

#[test]
fn a_running_recipient_serves_the_account_of_the_event() {
    on_runtime(async {
        let _one = spawn(AccountBalanceArgs::new("ONE".to_string())).await;
        let two = spawn(AccountBalanceArgs::new("TWO".to_string())).await;
        let fee = event("TWO", AccountBalanceEventPayload::FeeApplied { value: 1 });
        match AccountBalance::recipient(&fee) {
            Recipient::Running(actor) => {
                assert_eq!(actor.get_id(), two.get_id());
                assert!(AccountBalance::serves(&actor, "TWO"));
                assert!(!AccountBalance::serves(&actor, "ONE"));
            }
            Recipient::ToSpawn(_) => panic!("an actor serves the account"),
        }
    });
}

#[test]
fn an_event_for_a_stopped_actor_comes_back() {
    on_runtime(async {
        let args = AccountBalanceArgs::new("STOPPED".to_string());
        let (actor, handle) =
            Actor::spawn(AccountBalance::spawn_name(&args), Ledger, args).await.unwrap();
        actor.stop(None);
        handle.await.unwrap();
        let fee = event("STOPPED", AccountBalanceEventPayload::FeeApplied { value: 5 });
        match AccountBalance::deliver(&actor, fee) {
            Err(DeliveryError::Undelivered(AccountBalanceMessage::ApplyEvent(returned))) => {
                assert_eq!(returned.account_number, "STOPPED");
                assert_eq!(returned.payload, AccountBalanceEventPayload::FeeApplied { value: 5 });
            }
            other => panic!("the event should have come back, got {:?}", other),
        }
        assert!(AccountBalance::where_is("STOPPED").is_none());
    });
}

#[test]
fn a_request_without_a_reply_times_out() {
    on_runtime(async {
        let args = AccountBalanceArgs::new("SILENT".to_string());
        let (actor, _handle) =
            Actor::spawn(AccountBalance::spawn_name(&args), SilentLedger, args).await.unwrap();
        let outcome = ask(&actor, 50).await;
        assert!(matches!(outcome, CallOutcome::TimedOut));
        assert!(matches!(
            AccountBalance::balance_reply(Some(outcome)),
            Err(QueryError::Timeout)
        ));
    });
}

#[test]
fn a_request_to_an_actor_that_ends_first_is_a_closed_channel() {
    on_runtime(async {
        let args = AccountBalanceArgs::new("ENDING".to_string());
        let (actor, handle) =
            Actor::spawn(AccountBalance::spawn_name(&args), SilentLedger, args).await.unwrap();
        let stopper = actor.clone();
        let asked = tokio::spawn(async move { ask(&actor, 5000).await });
        tokio::time::sleep(Duration::from_millis(50)).await;
        stopper.stop(None);
        handle.await.unwrap();
        let outcome = asked.await.unwrap();
        assert!(matches!(outcome, CallOutcome::ReplyDropped));
        assert!(matches!(
            AccountBalance::balance_reply(Some(outcome)),
            Err(QueryError::Delivery(DeliveryError::ChannelClosed))
        ));
    });
}
