//! The one-shot rendezvous that releases the child only after the
//! privilege mapping is committed.
//!
//! Two one-shot channels are used, to avoid a naming deadlock: the parent
//! creates a named one-shot server before cloning; the child dials that
//! name, hands back the sender half of a private channel, and then blocks
//! on the private channel's receiver for exactly one ready message. The
//! parent's accept call blocks until the child has dialed in, so accepting
//! and then sending is itself the synchronization point.
//!
//! Every endpoint here is consumed by the exchange: the server by its one
//! accept, the receiver by the one receive the child performs before it
//! drops it. A second receive attempt cannot be expressed against this
//! module's interface.

use vstd::prelude::*;

use crate::outcome::SandboxError;

verus! {

#[verifier::external_type_specification]
#[verifier::external_body]
#[verifier::reject_recursive_types(T)]
pub struct ExIpcOneShotServer<T>(ipc_channel::ipc::IpcOneShotServer<T>);

#[verifier::external_type_specification]
#[verifier::external_body]
#[verifier::reject_recursive_types(T)]
pub struct ExIpcSender<T>(ipc_channel::ipc::IpcSender<T>);

#[verifier::external_type_specification]
#[verifier::external_body]
#[verifier::reject_recursive_types(T)]
pub struct ExIpcReceiver<T>(ipc_channel::ipc::IpcReceiver<T>);

/// The zero-payload marker released to the child once the mapping is
/// committed; the channels carry nothing but its arrival.
pub type ReadyMessage = ();

/// Relies on ipc_channel::ipc::IpcOneShotServer::new: creates a fresh
/// one-shot server and returns it with the name under which it can be
/// dialed. The name is chosen by the operating system, so nothing is
/// stated about it.
#[verifier::external_body]
fn new_oneshot_server() -> (r: Result<
    (ipc_channel::ipc::IpcOneShotServer<ipc_channel::ipc::IpcSender<ReadyMessage>>, String),
    (),
>)
{
    match ipc_channel::ipc::IpcOneShotServer::new() {
        Ok(pair) => Ok(pair),
        Err(_) => Err(()),
    }
}

/// Relies on ipc_channel::ipc::IpcOneShotServer::accept: blocks until one
/// connection arrives, consumes the server, and yields the first message,
/// here the sender half the child handed back. The receiver half of the
/// accepted connection is never used and is dropped.
#[verifier::external_body]
fn accept_rendezvous(
    server: ipc_channel::ipc::IpcOneShotServer<ipc_channel::ipc::IpcSender<ReadyMessage>>,
) -> (r: Result<ipc_channel::ipc::IpcSender<ReadyMessage>, ()>)
{
    match server.accept() {
        Ok((_incoming, reply_sender)) => Ok(reply_sender),
        Err(_) => Err(()),
    }
}

/// Relies on ipc_channel::ipc::IpcSender::send: queues the one ready
/// message for the child.
#[verifier::external_body]
fn send_ready_message(tx: &ipc_channel::ipc::IpcSender<ReadyMessage>) -> (r: Result<(), ()>)
{
    match tx.send(()) {
        Ok(()) => Ok(()),
        Err(_) => Err(()),
    }
}

/// Relies on ipc_channel::ipc::channel: creates the child's private
/// channel over which the single ready message will travel.
#[verifier::external_body]
fn ready_channel() -> (r: Result<
    (ipc_channel::ipc::IpcSender<ReadyMessage>, ipc_channel::ipc::IpcReceiver<ReadyMessage>),
    (),
>)
{
    match ipc_channel::ipc::channel() {
        Ok(pair) => Ok(pair),
        Err(_) => Err(()),
    }
}

/// Relies on ipc_channel::ipc::IpcSender::connect: dials the parent's
/// one-shot server by name.
#[verifier::external_body]
fn connect_to_server(name: &String) -> (r: Result<
    ipc_channel::ipc::IpcSender<ipc_channel::ipc::IpcSender<ReadyMessage>>,
    (),
>)
{
    match ipc_channel::ipc::IpcSender::connect(name.clone()) {
        Ok(tx) => Ok(tx),
        Err(_) => Err(()),
    }
}

/// Relies on ipc_channel::ipc::IpcSender::send: hands the child's private
/// sender half back to the parent.
#[verifier::external_body]
fn send_reply_sender(
    tx: &ipc_channel::ipc::IpcSender<ipc_channel::ipc::IpcSender<ReadyMessage>>,
    reply: ipc_channel::ipc::IpcSender<ReadyMessage>,
) -> (r: Result<(), ()>)
{
    match tx.send(reply) {
        Ok(()) => Ok(()),
        Err(_) => Err(()),
    }
}

/// Relies on ipc_channel::ipc::IpcReceiver::recv: blocks until the one
/// ready message arrives.
#[verifier::external_body]
fn recv_ready_message(rx: &ipc_channel::ipc::IpcReceiver<ReadyMessage>) -> (r: Result<(), ()>)
{
    match rx.recv() {
        Ok(()) => Ok(()),
        Err(_) => Err(()),
    }
}

/// Create the parent's rendezvous endpoint before the clone, so that the
/// name exists before the child can dial it. Any failure here is a
/// synchronization error.
pub fn init_ipc() -> (r: Result<
    (ipc_channel::ipc::IpcOneShotServer<ipc_channel::ipc::IpcSender<ReadyMessage>>, String),
    SandboxError,
>)
    ensures
        r matches Err(e) ==> e == SandboxError::Synchronization,
{
    match new_oneshot_server() {
        Ok(pair) => Ok(pair),
        Err(()) => Err(SandboxError::Synchronization),
    }
}

/// Parent side of the handshake, called only after the mapping is
/// committed: block until the child dials in, then release it with the
/// one ready message. Consumes the server, so the exchange cannot be
/// repeated. Any failure is a synchronization error.
pub fn send_ready(
    server: ipc_channel::ipc::IpcOneShotServer<ipc_channel::ipc::IpcSender<ReadyMessage>>,
) -> (r: Result<(), SandboxError>)
    ensures
        r matches Err(e) ==> e == SandboxError::Synchronization,
{
    let reply_sender = match accept_rendezvous(server) {
        Ok(tx) => tx,
        Err(()) => {
            return Err(SandboxError::Synchronization);
        },
    };
    match send_ready_message(&reply_sender) {
        Ok(()) => Ok(()),
        Err(()) => Err(SandboxError::Synchronization),
    }
}

/// Child side of the handshake: dial the parent's server, hand back the
/// private sender half, and block until the one ready message arrives.
/// The private receiver is dropped on return, so the message cannot be
/// received a second time. Any failure is a synchronization error.
pub fn recv_ready(parent_name: &String) -> (r: Result<(), SandboxError>)
    ensures
        r matches Err(e) ==> e == SandboxError::Synchronization,
{
    let (reply_sender, ready_receiver) = match ready_channel() {
        Ok(pair) => pair,
        Err(()) => {
            return Err(SandboxError::Synchronization);
        },
    };
    let dial = match connect_to_server(parent_name) {
        Ok(tx) => tx,
        Err(()) => {
            return Err(SandboxError::Synchronization);
        },
    };
    match send_reply_sender(&dial, reply_sender) {
        Ok(()) => {},
        Err(()) => {
            return Err(SandboxError::Synchronization);
        },
    }
    match recv_ready_message(&ready_receiver) {
        Ok(()) => Ok(()),
        Err(()) => Err(SandboxError::Synchronization),
    }
}

} // verus!
