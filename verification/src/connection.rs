//! The transport as the session sees it: received messages with their time of
//! arrival, a handle for sending, and the two ways in which a receive ends
//! without a message.

pub mod usb;

use crate::cbor::Item;
use crate::codec::schema::message_tree;
use crate::codec::{decode, decoded, DecodeError};
use crate::interface::{Message, MessageView};
use std::sync::mpsc::{Receiver, RecvTimeoutError, Sender};
use std::time::{Duration, SystemTime};
use vstd::prelude::*;

verus! {

/// `std::time::SystemTime`, a point of the wall clock. It is carried through
/// and never computed with.
#[verifier::external_type_specification]
#[verifier::external_body]
pub struct ExSystemTime(SystemTime);

/// `std::sync::mpsc::Sender`, the sending half of a channel.
#[verifier::external_type_specification]
#[verifier::external_body]
#[verifier::reject_recursive_types(T)]
pub struct ExSender<T>(Sender<T>);

/// `std::sync::mpsc::Receiver`, the receiving half of a channel.
#[verifier::external_type_specification]
#[verifier::external_body]
#[verifier::reject_recursive_types(T)]
pub struct ExReceiver<T>(Receiver<T>);

/// `std::sync::mpsc::RecvTimeoutError`, with its two variants.
#[verifier::external_type_specification]
pub struct ExRecvTimeoutError(RecvTimeoutError);

/// A message together with the moment at which the transport decoded it.
#[derive(Debug, PartialEq, Eq)]
pub struct RxMessage {
    pub time: SystemTime,
    pub payload: Message,
}

/// View of an [`RxMessage`].
pub struct RxView {
    pub time: SystemTime,
    pub payload: MessageView,
}

impl View for RxMessage {
    type V = RxView;

    open spec fn view(&self) -> RxView {
        RxView { time: self.time, payload: self.payload@ }
    }
}

/// Why a receive returned no message.
#[derive(Debug, PartialEq, Eq, Clone, Copy)]
pub enum ConnError {
    /// Nothing arrived within the time asked for. The caller tries again.
    Timeout,
    /// The transport's delivery path is closed for good.
    Disconnected,
}

impl From<RecvTimeoutError> for ConnError {
    fn from(inner: RecvTimeoutError) -> (r: ConnError) {
        match inner {
            RecvTimeoutError::Timeout => ConnError::Timeout,
            RecvTimeoutError::Disconnected => ConnError::Disconnected,
        }
    }
}

impl vstd::std_specs::convert::FromSpecImpl<RecvTimeoutError> for ConnError {
    open spec fn obeys_from_spec() -> bool {
        true
    }

    open spec fn from_spec(inner: RecvTimeoutError) -> ConnError {
        match inner {
            RecvTimeoutError::Timeout => ConnError::Timeout,
            RecvTimeoutError::Disconnected => ConnError::Disconnected,
        }
    }
}

/// Calls `Sender::send`. Whether the value was taken depends on whether the
/// receiving half still exists, so nothing is promised of the answer.
#[verifier::external_body]
fn channel_send<T>(tx: &Sender<T>, value: T) -> (taken: bool) {
    tx.send(value).is_ok()
}

/// The channel that a sending half feeds, as a number that stands for the
/// channel. Two senders with one number send to one receiver.
pub uninterp spec fn channel(tx: Sender<Message>) -> int;

/// Calls `Sender::clone`. As std documents it, a sender is cloned to send to
/// the same channel: the clone feeds the channel that `tx` feeds.
#[verifier::external_body]
fn channel_sender(tx: &Sender<Message>) -> (other: Sender<Message>)
    ensures
        channel(other) == channel(*tx),
{
    tx.clone()
}

/// Calls `Receiver::recv_timeout`. What comes back depends on the other
/// threads, so nothing is promised of it.
#[verifier::external_body]
fn channel_recv<T>(rx: &Receiver<T>, timeout: Duration) -> (r: Result<T, RecvTimeoutError>) {
    rx.recv_timeout(timeout)
}

/// Calls `SystemTime::now`.
#[verifier::external_body]
fn now() -> (time: SystemTime) {
    SystemTime::now()
}

/// A handle for sending. It only queues the message for the transport's
/// writer: it does not wait, and it does not tell whether the message went
/// out.
pub struct Writer {
    tx: Sender<Message>,
}

impl Writer {
    /// The sending half that the handle queues into.
    pub closed spec fn sender(&self) -> Sender<Message> {
        self.tx
    }

    /// A handle that queues into `tx`.
    pub fn new(tx: Sender<Message>) -> (writer: Writer)
        ensures
            writer.sender() == tx,
    {
        Writer { tx }
    }

    /// Queues `msg` for sending. A message queued after the transport has
    /// gone is dropped.
    pub fn send(&self, msg: Message) {
        let _ = channel_send(&self.tx, msg);
    }
}

impl Clone for Writer {
    /// Another handle that queues into the same channel.
    fn clone(&self) -> (other: Writer)
        ensures
            channel(other.sender()) == channel(self.sender()),
    {
        Writer { tx: channel_sender(&self.tx) }
    }
}

/// A transport, as the session uses it.
pub trait Connection {
    /// Waits up to `timeout` for the next message.
    fn recv(&self, timeout: Duration) -> Result<RxMessage, ConnError>;

    /// A handle for sending on this transport.
    fn get_writer(&self) -> Writer;
}

/// The two channel ends that a transport shows to the session: received
/// messages come out of one, messages to send go into the other.
pub struct Endpoint {
    rx: Receiver<RxMessage>,
    tx: Sender<Message>,
}

impl Endpoint {
    /// The receiving half that messages come out of.
    pub closed spec fn receiver(&self) -> Receiver<RxMessage> {
        self.rx
    }

    /// The sending half that messages to send go into.
    pub closed spec fn sender(&self) -> Sender<Message> {
        self.tx
    }

    /// An endpoint that receives from `rx` and sends into `tx`.
    pub fn new(rx: Receiver<RxMessage>, tx: Sender<Message>) -> (endpoint: Endpoint)
        ensures
            endpoint.receiver() == rx,
            endpoint.sender() == tx,
    {
        Endpoint { rx, tx }
    }
}

/// What a receive returns for each way in which the wait on the channel can
/// end: the message that came out, `Timeout` where the time passed with the
/// channel still open, `Disconnected` where every sender is gone and the
/// channel is empty.
pub open spec fn received(outcome: Result<RxMessage, RecvTimeoutError>) -> Result<
    RxMessage,
    ConnError,
> {
    match outcome {
        Ok(rx) => Ok(rx),
        Err(RecvTimeoutError::Timeout) => Err(ConnError::Timeout),
        Err(RecvTimeoutError::Disconnected) => Err(ConnError::Disconnected),
    }
}

/// Turns the end of a wait on the channel into the result of a receive.
pub fn receive_outcome(outcome: Result<RxMessage, RecvTimeoutError>) -> (r: Result<
    RxMessage,
    ConnError,
>)
    ensures
        r == received(outcome),
{
    match outcome {
        Ok(rx) => Ok(rx),
        Err(e) => Err(ConnError::from(e)),
    }
}

impl Connection for Endpoint {
    /// Waits on the endpoint's receiving half. Which way the wait ends is
    /// for the channel and the threads behind it to decide;
    /// [`receive_outcome`] says what is returned for each.
    fn recv(&self, timeout: Duration) -> Result<RxMessage, ConnError> {
        receive_outcome(channel_recv(&self.rx, timeout))
    }

    /// A handle that queues into the channel of the endpoint's sending half.
    fn get_writer(&self) -> (writer: Writer)
        ensures
            channel(writer.sender()) == channel(self.sender()),
    {
        Writer { tx: channel_sender(&self.tx) }
    }
}

/// Decodes one frame and stamps the message with the time of decoding.
pub fn receive_frame(bytes: &[u8]) -> (r: Result<RxMessage, DecodeError>)
    ensures
        match r {
            Ok(rx) => decoded(bytes@) == Ok::<MessageView, DecodeError>(rx@.payload),
            Err(e) => decoded(bytes@) == Err::<MessageView, DecodeError>(e),
        },
{
    match decode(bytes) {
        Ok(payload) => Ok(RxMessage { time: now(), payload }),
        Err(e) => Err(e),
    }
}

/// How long a loop waits on its socket or channel before it looks at the
/// shutdown flag again, in milliseconds.
pub const POLL_INTERVAL_MS: u64 = 100;

/// The size of a receive buffer, in bytes.
pub const BUFFER_CAPACITY: usize = 16384;

/// What happened in one turn of a reader loop.
pub enum ReaderEvent<'a> {
    /// The shutdown flag was found cleared.
    Shutdown,
    /// A frame was read: a datagram, or the bytes of a completed transfer.
    Frame(&'a [u8]),
    /// The poll interval passed and nothing was read.
    Quiet,
    /// The session no longer takes messages.
    Undelivered,
}

/// What a reader loop does next.
#[derive(Debug, PartialEq, Eq)]
pub enum ReaderAction {
    /// Leave the loop.
    Stop,
    /// Poll again.
    Poll,
    /// Hand the message to the session, then poll again.
    Forward(RxMessage),
    /// Report the frame as undecodable and drop it, then poll again.
    Discard(DecodeError),
}

/// The reader's policy. A frame that is no message is dropped and the loop
/// goes on; the loop ends only on shutdown or when the session is gone.
pub fn reader_step(event: ReaderEvent) -> (action: ReaderAction)
    ensures
        match event {
            ReaderEvent::Shutdown => action == ReaderAction::Stop,
            ReaderEvent::Undelivered => action == ReaderAction::Stop,
            ReaderEvent::Quiet => action == ReaderAction::Poll,
            ReaderEvent::Frame(bytes) => match decoded(bytes@) {
                Ok(message) => action matches ReaderAction::Forward(rx) && rx@.payload == message,
                Err(e) => action == ReaderAction::Discard(e),
            },
        },
{
    match event {
        ReaderEvent::Shutdown => ReaderAction::Stop,
        ReaderEvent::Undelivered => ReaderAction::Stop,
        ReaderEvent::Quiet => ReaderAction::Poll,
        ReaderEvent::Frame(bytes) => match receive_frame(bytes) {
            Ok(rx) => ReaderAction::Forward(rx),
            Err(e) => ReaderAction::Discard(e),
        },
    }
}

/// What happened in one turn of a writer loop.
pub enum WriterEvent {
    /// The shutdown flag was found cleared.
    Shutdown,
    /// A message was taken from the outbound queue.
    Outgoing(Message),
    /// The poll interval passed and nothing was queued.
    Quiet,
    /// Every sending handle is gone.
    Closed,
    /// The last transmission failed.
    Failed,
}

/// What a writer loop does next.
#[derive(Debug, PartialEq, Eq)]
pub enum WriterAction {
    /// Leave the loop.
    Stop,
    /// Wait on the queue again.
    Poll,
    /// Send the data item as one frame, then wait on the queue again.
    Transmit(Item),
}

/// The writer's policy. Each queued message goes out as one frame; a failed
/// transmission ends the loop, as do shutdown and the loss of all senders.
pub fn writer_step(event: WriterEvent) -> (action: WriterAction)
    ensures
        match event {
            WriterEvent::Shutdown => action == WriterAction::Stop,
            WriterEvent::Closed => action == WriterAction::Stop,
            WriterEvent::Failed => action == WriterAction::Stop,
            WriterEvent::Quiet => action == WriterAction::Poll,
            WriterEvent::Outgoing(message) => action matches WriterAction::Transmit(item) && item@
                == message_tree(message@),
        },
{
    match event {
        WriterEvent::Shutdown => WriterAction::Stop,
        WriterEvent::Closed => WriterAction::Stop,
        WriterEvent::Failed => WriterAction::Stop,
        WriterEvent::Quiet => WriterAction::Poll,
        WriterEvent::Outgoing(message) => WriterAction::Transmit(message.to_item()),
    }
}

} // verus!
