//! Typed publishers and subscribers over bus topic handles.
//!
//! The embedding program performs each bus operation and hands its answer
//! to these types, which decide what it means: whether a topic was
//! created, whether a send went through, what a receive yields, and
//! whether a callback invocation is still to be honoured.
use crate::callback::CallbackSlot;
use crate::error::CalError;
use crate::format::{Codec, Deserializer, Format, Serializer};
use crate::process::{check_c_text, is_c_text, Cal};
use core::marker::PhantomData;
use vstd::prelude::*;

verus! {

/// What the bus is to be given to create a topic endpoint.
///
/// A request is only made by `topic_request`, which refuses one once the
/// lifecycle guard has ended.
pub struct TopicRequest {
    topic_name: String,
    topic_type: String,
    description: String,
}

impl TopicRequest {
    pub closed spec fn spec_topic_name(&self) -> Seq<char> {
        self.topic_name@
    }

    pub closed spec fn spec_topic_type(&self) -> Seq<char> {
        self.topic_type@
    }

    pub closed spec fn spec_description(&self) -> Seq<char> {
        self.description@
    }

    pub fn topic_name(&self) -> (r: &str)
        ensures
            r@ == self.spec_topic_name(),
    {
        self.topic_name.as_str()
    }

    pub fn topic_type(&self) -> (r: &str)
        ensures
            r@ == self.spec_topic_type(),
    {
        self.topic_type.as_str()
    }

    pub fn description(&self) -> (r: &str)
        ensures
            r@ == self.spec_description(),
    {
        self.description.as_str()
    }
}

/// The description text handed to the bus: empty where the format has none.
pub open spec fn description_text(d: Option<Seq<char>>) -> Seq<char> {
    match d {
        Some(t) => t,
        None => Seq::empty(),
    }
}

/// Whether a topic of this name can be requested with format `F`.
pub open spec fn request_is_valid<F: Format>(topic_name: Seq<char>) -> bool {
    is_c_text(topic_name) && is_c_text(F::spec_topic_type()) && is_c_text(
        description_text(F::spec_topic_description()),
    )
}

/// Prepares the creation of an endpoint for topic `topic_name` in format
/// `F`. A guard whose active period has ended gives no new endpoints.
pub fn topic_request<F: Format>(cal: &Cal, topic_name: &str) -> (r: Result<TopicRequest, CalError>)
    ensures
        !cal.spec_active() ==> r == Err::<TopicRequest, CalError>(CalError::InitializationFailed),
        cal.spec_active() ==> (r is Ok <==> request_is_valid::<F>(topic_name@)),
        cal.spec_active() && r is Err ==> r matches Err(CalError::Unknown(_)),
        r matches Ok(q) ==> {
            &&& q.spec_topic_name() == topic_name@
            &&& q.spec_topic_type() == F::spec_topic_type()
            &&& q.spec_description() == description_text(F::spec_topic_description())
        },
{
    if !cal.is_active() {
        return Err(CalError::InitializationFailed);
    }
    if let Err(e) = check_c_text(topic_name) {
        return Err(e);
    }
    let topic_type = F::topic_type();
    if let Err(e) = check_c_text(topic_type.as_str()) {
        return Err(e);
    }
    let description = match F::topic_description() {
        Some(d) => d,
        None => String::new(),
    };
    if let Err(e) = check_c_text(description.as_str()) {
        return Err(e);
    }
    Ok(TopicRequest { topic_name: String::from_str(topic_name), topic_type, description })
}

/// The timestamp that asks the bus to stamp a message with its own clock.
pub const SEND_TIME_NOW: i64 = -1;

/// The largest message the bus takes in one send.
pub const MAX_SEND_LEN: usize = 0x7fff_ffff;

/// The result of a send whose bus answered `bytes_sent` for a message of
/// `bytes_expected` bytes.
pub fn send_outcome(bytes_sent: i32, bytes_expected: usize) -> (r: Result<(), CalError>)
    ensures
        r is Ok <==> bytes_sent as int == bytes_expected as int,
        r is Err ==> r == Err::<(), CalError>(CalError::PublishFailed),
{
    if bytes_sent >= 0 && bytes_sent as usize == bytes_expected {
        Ok(())
    } else {
        Err(CalError::PublishFailed)
    }
}

/// Exclusive owner of one outbound topic handle, sending values of `T` in
/// format `S`.
pub struct Publisher<T, S> {
    handle: usize,
    topic_name: String,
    released: bool,
    subscribed: CallbackSlot,
    _ty: PhantomData<T>,
    _format: PhantomData<S>,
}

impl<T, S> Publisher<T, S> {
    pub closed spec fn spec_handle(&self) -> usize {
        self.handle
    }

    pub closed spec fn spec_topic_name(&self) -> Seq<char> {
        self.topic_name@
    }

    pub closed spec fn spec_released(&self) -> bool {
        self.released
    }

    pub closed spec fn spec_subscribed_slot(&self) -> CallbackSlot {
        self.subscribed
    }

    /// A released publisher honours no callback invocation.
    pub closed spec fn wf(&self) -> bool {
        self.released ==> !self.subscribed.spec_live()
    }

    /// The publisher over `handle`, which the bus created from `request`
    /// with status `status`. A status of zero is a refusal: the handle is
    /// then to be destroyed and no publisher exists.
    pub fn new(request: TopicRequest, handle: usize, status: i32) -> (r: Result<Self, CalError>)
        ensures
            status == 0 <==> r is Err,
            r matches Err(e) ==> e matches CalError::PublisherCreationFailed(t) && t@
                == request.spec_topic_name(),
            r matches Ok(p) ==> {
                &&& p.spec_handle() == handle
                &&& p.spec_topic_name() == request.spec_topic_name()
                &&& !p.spec_released()
                &&& p.wf()
                &&& !p.spec_subscribed_slot().spec_live()
                &&& p.spec_subscribed_slot().spec_generation() == 0
            },
    {
        if status == 0 {
            Err(CalError::PublisherCreationFailed(request.topic_name))
        } else {
            Ok(
                Publisher {
                    handle,
                    topic_name: request.topic_name,
                    released: false,
                    subscribed: CallbackSlot::new(),
                    _ty: PhantomData,
                    _format: PhantomData,
                },
            )
        }
    }

    pub fn handle(&self) -> (r: usize)
        ensures
            r == self.spec_handle(),
    {
        self.handle
    }

    pub fn topic_name(&self) -> (r: &str)
        ensures
            r@ == self.spec_topic_name(),
    {
        self.topic_name.as_str()
    }

    /// Registers the callback run when a subscriber connects, replacing any
    /// earlier one; returns the token the bus hands back with each event,
    /// or nothing once the publisher is released or its tokens are spent.
    pub fn on_subscribed(&mut self) -> (token: Option<u64>)
        ensures
            old(self).spec_released() || old(self).spec_subscribed_slot().spec_generation() == u64::MAX
                ==> token is None && *final(self) == *old(self),
            !old(self).spec_released() && old(self).spec_subscribed_slot().spec_generation() < u64::MAX
                ==> token == Some((old(self).spec_subscribed_slot().spec_generation() + 1) as u64)
                && final(self).spec_subscribed_slot().spec_accepts(token->Some_0),
            final(self).spec_handle() == old(self).spec_handle(),
            final(self).spec_topic_name() == old(self).spec_topic_name(),
            final(self).spec_released() == old(self).spec_released(),
            old(self).wf() ==> final(self).wf(),
    {
        if self.released || !self.subscribed.can_register() {
            None
        } else {
            Some(self.subscribed.register())
        }
    }

    /// Whether a connection event carrying `token` is to run the callback.
    pub fn subscribed_event(&self, token: u64) -> (r: bool)
        ensures
            r == self.spec_subscribed_slot().spec_accepts(token),
    {
        self.subscribed.accepts(token)
    }

    /// Ends the publisher's life: returns whether the handle is still to be
    /// destroyed, which is so the first time only. Events after this are
    /// dropped.
    pub fn release(&mut self) -> (r: bool)
        ensures
            r == !old(self).spec_released(),
            final(self).spec_released(),
            final(self).wf(),
            !final(self).spec_subscribed_slot().spec_live(),
            final(self).spec_handle() == old(self).spec_handle(),
            final(self).spec_topic_name() == old(self).spec_topic_name(),
    {
        let first = !self.released;
        self.released = true;
        self.subscribed.close();
        first
    }
}

/// What a send hands the bus, given the serializer's answer `serialized`
/// and the buffer `buf` it wrote: the buffer where it fits in one send,
/// `PublishFailed` where it does not, and the serializer's own error
/// unchanged where it failed.
pub fn encode_outcome(serialized: Result<(), CalError>, buf: Vec<u8>) -> (r: Result<Vec<u8>, CalError>)
    ensures
        serialized is Ok && buf@.len() <= MAX_SEND_LEN ==> (r matches Ok(b) && b@ == buf@),
        serialized is Ok && buf@.len() > MAX_SEND_LEN ==> r == Err::<Vec<u8>, CalError>(
            CalError::PublishFailed,
        ),
        serialized matches Err(e) ==> r == Err::<Vec<u8>, CalError>(e),
{
    match serialized {
        Err(e) => Err(e),
        Ok(()) => {
            if buf.len() > MAX_SEND_LEN {
                Err(CalError::PublishFailed)
            } else {
                Ok(buf)
            }
        },
    }
}

impl<T, S: Serializer<T>> Publisher<T, S> {
    /// The bytes to hand the bus for `msg`: its encoding, where that
    /// succeeds and fits in one send; see `encode_outcome` for each answer
    /// of the serializer.
    pub fn encode(&self, msg: &T) -> (r: Result<Vec<u8>, CalError>)
        ensures
            r matches Ok(b) ==> b@ == S::spec_serialize(*msg) && b@.len() <= MAX_SEND_LEN,
            S::spec_serialize(*msg).len() > MAX_SEND_LEN ==> r is Err,
    {
        let mut buf: Vec<u8> = Vec::with_capacity(32);
        let serialized = S::serialize(msg, &mut buf);
        proof {
            if serialized is Ok {
                assert(buf@ =~= S::spec_serialize(*msg));
            }
        }
        encode_outcome(serialized, buf)
    }
}

/// The timeout that asks the bus to wait until a message arrives.
pub const RECV_FOREVER: i32 = -1;

/// The timeout handed to the bus for a bounded wait of `millis`
/// milliseconds; longer waits are cut to the longest the bus takes, so that
/// a bounded wait never becomes an unbounded one.
pub fn bounded_timeout(millis: u128) -> (r: i32)
    ensures
        r >= 0,
        millis <= i32::MAX ==> r == millis,
        millis > i32::MAX ==> r == i32::MAX,
{
    if millis <= i32::MAX as u128 {
        millis as i32
    } else {
        i32::MAX
    }
}

/// What a receive yields, given that the bus answered `bytes_received` and
/// handed over `bytes`.
pub open spec fn spec_receive<T, D: Deserializer<T>>(bytes_received: i32, bytes: Seq<u8>) -> Result<
    T,
    CalError,
> {
    if bytes_received <= 0 {
        Err(CalError::Timeout)
    } else {
        match D::spec_deserialize(bytes) {
            Some(m) => Ok(m),
            None => Err(CalError::InvalidFormat),
        }
    }
}

/// Exclusive owner of one inbound topic handle, receiving values of `T`
/// in format `D`.
pub struct Subscriber<T, D> {
    handle: usize,
    topic_name: String,
    released: bool,
    receiver: CallbackSlot,
    _ty: PhantomData<T>,
    _format: PhantomData<D>,
}

impl<T, D> Subscriber<T, D> {
    pub closed spec fn spec_handle(&self) -> usize {
        self.handle
    }

    pub closed spec fn spec_topic_name(&self) -> Seq<char> {
        self.topic_name@
    }

    pub closed spec fn spec_released(&self) -> bool {
        self.released
    }

    pub closed spec fn spec_receiver_slot(&self) -> CallbackSlot {
        self.receiver
    }

    /// A released subscriber honours no callback invocation.
    pub closed spec fn wf(&self) -> bool {
        self.released ==> !self.receiver.spec_live()
    }

    /// The subscriber over `handle`, which the bus created from `request`
    /// with status `status`. A status of zero is a refusal: the handle is
    /// then to be destroyed and no subscriber exists.
    pub fn new(request: TopicRequest, handle: usize, status: i32) -> (r: Result<Self, CalError>)
        ensures
            status == 0 <==> r is Err,
            r matches Err(e) ==> e matches CalError::SubscriberCreationFailed(t) && t@
                == request.spec_topic_name(),
            r matches Ok(s) ==> {
                &&& s.spec_handle() == handle
                &&& s.spec_topic_name() == request.spec_topic_name()
                &&& !s.spec_released()
                &&& s.wf()
                &&& !s.spec_receiver_slot().spec_live()
                &&& s.spec_receiver_slot().spec_generation() == 0
            },
    {
        if status == 0 {
            Err(CalError::SubscriberCreationFailed(request.topic_name))
        } else {
            Ok(
                Subscriber {
                    handle,
                    topic_name: request.topic_name,
                    released: false,
                    receiver: CallbackSlot::new(),
                    _ty: PhantomData,
                    _format: PhantomData,
                },
            )
        }
    }

    pub fn handle(&self) -> (r: usize)
        ensures
            r == self.spec_handle(),
    {
        self.handle
    }

    pub fn topic_name(&self) -> (r: &str)
        ensures
            r@ == self.spec_topic_name(),
    {
        self.topic_name.as_str()
    }

    /// The timeout of a blocking receive.
    pub fn recv_timeout(&self) -> (r: i32)
        ensures
            r == RECV_FOREVER,
    {
        RECV_FOREVER
    }

    /// The timeout of a bounded receive of `millis` milliseconds.
    pub fn try_recv_timeout(&self, millis: u128) -> (r: i32)
        ensures
            r >= 0,
            millis <= i32::MAX ==> r == millis,
            millis > i32::MAX ==> r == i32::MAX,
    {
        bounded_timeout(millis)
    }

    /// Registers the receive callback, replacing any earlier one; returns
    /// the token the bus hands back with each invocation, or nothing once
    /// the subscriber is released or its tokens are spent.
    pub fn on_recv(&mut self) -> (token: Option<u64>)
        ensures
            old(self).spec_released() || old(self).spec_receiver_slot().spec_generation() == u64::MAX
                ==> token is None && *final(self) == *old(self),
            !old(self).spec_released() && old(self).spec_receiver_slot().spec_generation() < u64::MAX
                ==> token == Some((old(self).spec_receiver_slot().spec_generation() + 1) as u64)
                && final(self).spec_receiver_slot().spec_accepts(token->Some_0),
            final(self).spec_handle() == old(self).spec_handle(),
            final(self).spec_topic_name() == old(self).spec_topic_name(),
            final(self).spec_released() == old(self).spec_released(),
            old(self).wf() ==> final(self).wf(),
    {
        if self.released || !self.receiver.can_register() {
            None
        } else {
            Some(self.receiver.register())
        }
    }

    /// Ends the subscriber's life: returns whether the handle is still to
    /// be destroyed, which is so the first time only. Invocations after this
    /// are dropped.
    pub fn release(&mut self) -> (r: bool)
        ensures
            r == !old(self).spec_released(),
            final(self).spec_released(),
            final(self).wf(),
            !final(self).spec_receiver_slot().spec_live(),
            final(self).spec_handle() == old(self).spec_handle(),
            final(self).spec_topic_name() == old(self).spec_topic_name(),
    {
        let first = !self.released;
        self.released = true;
        self.receiver.close();
        first
    }
}

impl<T, D: Deserializer<T>> Subscriber<T, D> {
    /// What an invocation carrying `token` and `bytes` delivers.
    pub open spec fn spec_deliver(&self, token: u64, bytes: Seq<u8>) -> Option<T> {
        if self.spec_receiver_slot().spec_accepts(token) {
            D::spec_deserialize(bytes)
        } else {
            None
        }
    }

    /// What a blocking receive yields from the bus's answer: the decoded
    /// message, `InvalidFormat` where it does not decode, and `Timeout`
    /// where nothing arrived.
    pub fn recv(&self, bytes_received: i32, bytes: &[u8]) -> (r: Result<T, CalError>)
        requires
            bytes_received > 0 ==> bytes@.len() == bytes_received,
        ensures
            r == spec_receive::<T, D>(bytes_received, bytes@),
    {
        if bytes_received <= 0 {
            Err(CalError::Timeout)
        } else {
            D::deserialize(bytes)
        }
    }

    /// What a bounded receive yields from the bus's answer: the decoded
    /// message, or nothing where none arrived or it does not decode.
    pub fn try_recv(&self, bytes_received: i32, bytes: &[u8]) -> (r: Option<T>)
        requires
            bytes_received > 0 ==> bytes@.len() == bytes_received,
        ensures
            r == (match spec_receive::<T, D>(bytes_received, bytes@) {
                Ok(m) => Some(m),
                Err(_) => None,
            }),
    {
        match self.recv(bytes_received, bytes) {
            Ok(m) => Some(m),
            Err(_) => None,
        }
    }

    /// What a receive callback invocation carrying `token` and `bytes`
    /// delivers: the decoded message while the registration is current,
    /// nothing where it is stale or the bytes do not decode.
    pub fn deliver(&self, token: u64, bytes: &[u8]) -> (r: Option<T>)
        ensures
            r == self.spec_deliver(token, bytes@),
    {
        if !self.receiver.accepts(token) {
            return None;
        }
        match D::deserialize(bytes) {
            Ok(m) => Some(m),
            Err(_) => None,
        }
    }
}

/// A message that a publisher encoded and the bus handed over whole is
/// received as that message by a blocking or bounded receive.
pub proof fn lemma_sent_message_received<T, F: Codec<T>>(msg: T, bytes: Seq<u8>)
    requires
        bytes == F::spec_serialize(msg),
        0 < bytes.len() <= i32::MAX,
    ensures
        spec_receive::<T, F>(bytes.len() as i32, bytes) == Ok::<T, CalError>(msg),
{
    F::lemma_round_trip(msg);
}

/// Bytes that fail to decode are dropped without disturbing the
/// registration: a later well-formed message on the same registration is
/// still delivered.
pub proof fn lemma_decode_failure_keeps_delivering<T, D: Deserializer<T>>(
    s: Subscriber<T, D>,
    token: u64,
    bad: Seq<u8>,
    good: Seq<u8>,
    msg: T,
)
    requires
        s.spec_receiver_slot().spec_accepts(token),
        D::spec_deserialize(bad) is None,
        D::spec_deserialize(good) == Some(msg),
    ensures
        s.spec_deliver(token, bad) is None,
        s.spec_deliver(token, good) == Some(msg),
{
}

/// After a subscriber is released, an invocation that was already on its
/// way delivers nothing, whatever token and bytes it carries.
pub proof fn lemma_released_subscriber_drops<T, D: Deserializer<T>>(
    s: Subscriber<T, D>,
    token: u64,
    bytes: Seq<u8>,
)
    requires
        s.wf(),
        s.spec_released(),
    ensures
        s.spec_deliver(token, bytes) is None,
{
}

/// After a publisher is released, a connection event that was already on
/// its way runs nothing.
pub proof fn lemma_released_publisher_drops<T, S>(p: Publisher<T, S>, token: u64)
    requires
        p.wf(),
        p.spec_released(),
    ensures
        !p.spec_subscribed_slot().spec_accepts(token),
{
}

} // verus!
