//! The actor runtime as this library sees it: the handles it passes along
//! and the calls it makes. Nothing here is proved; each contract states what
//! the runtime's own code shows.

use crate::account_balance::AccountBalanceMessage;
use vstd::prelude::*;

verus! {

/// `ractor::ActorRef`: a handle on a running actor that takes messages of
/// one type. Its content is not visible to the verifier.
#[verifier::external_type_specification]
#[verifier::external_body]
#[verifier::reject_recursive_types(TMessage)]
pub struct ExActorRef<TMessage>(ractor::ActorRef<TMessage>);

/// `ractor::RpcReplyPort`: the sending half of a single-use reply channel.
/// Its content is not visible to the verifier.
#[verifier::external_type_specification]
#[verifier::external_body]
#[verifier::reject_recursive_types(TMsg)]
pub struct ExRpcReplyPort<TMsg>(ractor::RpcReplyPort<TMsg>);

/// Why a message did not reach an actor's mailbox.
#[derive(Debug)]
pub enum DeliveryError {
    /// The mailbox no longer takes messages; the message comes back.
    Undelivered(AccountBalanceMessage),
    /// The channel was closed.
    ChannelClosed,
    /// The actor takes messages of another type.
    InvalidActorType,
}

/// The name under which the runtime registered the actor behind a handle,
/// if it has one: what `ractor::ActorCell::get_name` returns for the handle.
/// An actor is given its name when it is made and keeps it.
pub uninterp spec fn registered_name(actor: ractor::ActorRef<AccountBalanceMessage>) -> Option<
    Seq<char>,
>;

/// `ractor::ActorCell::get_name`, called through the handle: the name that
/// the actor was made with. The contract says that this is the handle's
/// registered name.
#[verifier::external_body]
pub(crate) fn actor_name(actor: &ractor::ActorRef<AccountBalanceMessage>) -> (name: Option<String>)
    ensures
        match name {
            Some(text) => registered_name(*actor) == Some(text@),
            None => registered_name(*actor) is None,
        },
{
    actor.get_name()
}

/// `ractor::ActorRef::where_is`: the actor registered under a name, if the
/// registry holds one that takes ledger messages. The registry is shared by
/// the whole process, so whether an actor is found is not claimed. The
/// runtime enters an actor in the registry under the actor's own name only,
/// so an actor that is found bears the name that was asked for, and the
/// contract says so.
#[verifier::external_body]
pub(crate) fn find_actor(name: String) -> (found: Option<ractor::ActorRef<AccountBalanceMessage>>)
    ensures
        found matches Some(actor) ==> registered_name(actor) == Some(name@),
{
    ractor::ActorRef::<AccountBalanceMessage>::where_is(name)
}

/// `ractor::ActorRef::send_message`: puts a message at the end of the
/// actor's mailbox without waiting. Whether the mailbox still takes messages
/// is the runtime's affair; where it refuses one, `send_message` hands that
/// same message back in its error, and the contract says so. Its only other
/// error is that of an actor of another message type, so the contract also
/// says that a closed channel is never reported.
#[verifier::external_body]
pub(crate) fn send(actor: &ractor::ActorRef<AccountBalanceMessage>, message: AccountBalanceMessage) -> (sent:
    Result<(), DeliveryError>)
    ensures
        sent matches Err(DeliveryError::Undelivered(returned)) ==> returned == message,
        !(sent matches Err(DeliveryError::ChannelClosed)),
{
    match actor.send_message(message) {
        Ok(()) => Ok(()),
        Err(ractor::MessagingErr::SendErr(returned)) => Err(DeliveryError::Undelivered(returned)),
        Err(ractor::MessagingErr::ChannelClosed) => Err(DeliveryError::ChannelClosed),
        Err(ractor::MessagingErr::InvalidActorType) => Err(DeliveryError::InvalidActorType),
    }
}

/// `ractor::RpcReplyPort::send`: writes the one value that the port takes
/// and uses the port up. The result tells whether the reader was still
/// there, which only the runtime knows.
#[verifier::external_body]
pub(crate) fn reply(port: ractor::RpcReplyPort<i64>, value: i64) -> (delivered: bool) {
    port.send(value).is_ok()
}

} // verus!
