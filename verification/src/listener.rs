//! The adapter between a native chat connection and its foreign listener.

use vstd::prelude::*;
use crate::delivery::Delivery;
use crate::delivery::Diagnostic;
use crate::delivery::Event;
use crate::delivery::Operation;
use crate::delivery::Outcome;
use crate::delivery::Phase;
use crate::delivery::Reply;
use crate::delivery::Request;
use crate::error::BridgeLayerError;
use crate::error::DisconnectCause;
use crate::foreign::ForeignCall;
use crate::foreign::ForeignObject;
use crate::foreign::GlobalRef;
use crate::foreign::RuntimeHandle;
use crate::foreign::Timestamp;
use crate::foreign::LISTENER_CLASS;

verus! {

/// A listener object of the foreign runtime, as the native side holds it:
/// the shared runtime and one strong reference to the object.
///
/// The adapter keeps nothing else. Every event is delivered on its own, and
/// no delivery leaves a trace in the adapter.
#[derive(Debug, PartialEq, Eq)]
pub struct JniChatListener {
    vm: RuntimeHandle,
    listener: GlobalRef,
}

impl Clone for JniChatListener {
    /// An adapter for the same object in the same runtime, with a strong
    /// reference of its own. No thread needs to be attached for it.
    fn clone(&self) -> (copy: Self)
        ensures
            copy == *self,
    {
        Self { vm: self.vm.rederive(), listener: self.listener.clone() }
    }
}

impl JniChatListener {
    /// The runtime that the adapter delivers into.
    pub closed spec fn spec_vm(self) -> RuntimeHandle {
        self.vm
    }

    /// The identity of the listener object.
    pub closed spec fn spec_target(self) -> u64 {
        self.listener.spec_identity()
    }

    /// The delivery that this adapter starts for `event`.
    pub open spec fn spec_deliver(self, event: Event) -> Delivery {
        Delivery { target: self.spec_target(), phase: Phase::Attaching(event) }
    }

    /// Wraps `listener` if, and only if, its declared type is exactly
    /// [`LISTENER_CLASS`]. Any other object is refused before a reference
    /// to it is taken.
    pub fn new(vm: RuntimeHandle, listener: &ForeignObject) -> (made: Result<Self, BridgeLayerError>)
        ensures
            listener.class_name@ == LISTENER_CLASS@ ==> made is Ok && made->Ok_0.spec_vm() == vm
                && made->Ok_0.spec_target() == listener.identity,
            listener.class_name@ != LISTENER_CLASS@ ==> made == Err::<Self, BridgeLayerError>(
                BridgeLayerError::TypeMismatch { actual: listener.class_name },
            ),
    {
        let expected: String = LISTENER_CLASS.to_owned();
        if listener.class_name == expected {
            Ok(Self { vm, listener: GlobalRef::acquire(listener) })
        } else {
            Err(BridgeLayerError::TypeMismatch { actual: listener.class_name.clone() })
        }
    }

    pub fn vm(&self) -> (vm: &RuntimeHandle)
        ensures
            *vm == self.spec_vm(),
    {
        &self.vm
    }

    pub fn target(&self) -> (target: u64)
        ensures
            target == self.spec_target(),
    {
        self.listener.identity()
    }

    /// Starts the delivery of `operation` under dispatch isolation: the
    /// thread is attached first, then the steps of the operation are taken
    /// in turn, and a step that fails ends the delivery with a diagnostic
    /// under the operation's name, after which the caller resumes. Only a
    /// failure to attach is fatal.
    pub fn attach_and_log_on_error(&self, operation: Event) -> (delivery: Delivery)
        ensures
            delivery == self.spec_deliver(operation),
            delivery.spec_pending() == Some(Request::Attach),
    {
        Delivery::start(self.listener.identity(), operation)
    }

    /// A listener for one more connection: a clone of this one.
    pub fn make_listener(&self) -> (made: Self)
        ensures
            made == *self,
    {
        self.clone()
    }

    /// Starts the delivery of a message: in turn, attach, convert the
    /// envelope, mint the acknowledgement's handle, and call
    /// `onIncomingMessage` with the three.
    pub fn received_incoming_message(&mut self, envelope: Vec<u8>, timestamp: Timestamp) -> (delivery: Delivery)
        ensures
            *final(self) == *old(self),
            delivery == old(self).spec_deliver(Event::IncomingMessage { envelope, timestamp }),
    {
        self.attach_and_log_on_error(Event::IncomingMessage { envelope, timestamp })
    }

    /// Starts the delivery of the news that the queue is empty: attach,
    /// then call `onQueueEmpty`.
    pub fn received_queue_empty(&mut self) -> (delivery: Delivery)
        ensures
            *final(self) == *old(self),
            delivery == old(self).spec_deliver(Event::QueueEmpty),
    {
        self.attach_and_log_on_error(Event::QueueEmpty)
    }

    /// Starts the delivery of an interruption: attach, translate
    /// `disconnect_cause` into a throwable, and call
    /// `onConnectionInterrupted` with it.
    pub fn connection_interrupted(&mut self, disconnect_cause: DisconnectCause) -> (delivery: Delivery)
        ensures
            *final(self) == *old(self),
            delivery == old(self).spec_deliver(Event::ConnectionInterrupted { cause: disconnect_cause }),
    {
        self.attach_and_log_on_error(Event::ConnectionInterrupted { cause: disconnect_cause })
    }

    /// Every delivery attaches first and once: whatever the event, the
    /// first request is to attach, and once that is answered the delivery
    /// never asks for it again, whatever is replied after.
    pub proof fn lemma_attaches_first_and_once(self, event: Event, reply: Reply, later: Seq<Reply>)
        requires
            self.spec_deliver(event).spec_accepts(reply),
        ensures
            self.spec_deliver(event).spec_pending() == Some(Request::Attach),
            !(self.spec_deliver(event).spec_advance(reply).phase is Attaching),
            !(self.spec_deliver(event).spec_advance(reply).run(later).phase is Attaching),
            reply is Done ==> self.spec_deliver(event).spec_advance(reply).spec_pending() == Some(
                match event {
                    Event::IncomingMessage { .. } => Request::ConvertEnvelope,
                    Event::QueueEmpty => Request::Invoke,
                    Event::ConnectionInterrupted { .. } => Request::TranslateCause,
                },
            ),
    {
        self.spec_deliver(event).spec_advance(reply).lemma_run_attaches_once(later, 0);
    }

    /// A message whose every step succeeds up to the call is delivered by
    /// exactly one call of `onIncomingMessage`, on this adapter's object,
    /// with the same bytes, the timestamp in epoch milliseconds and the
    /// handle that was minted. Whether the call returns or raises, the
    /// delivery is over and the calling thread resumes.
    pub proof fn lemma_incoming_message_makes_one_call(
        self,
        envelope: Vec<u8>,
        timestamp: Timestamp,
        ack_handle: i64,
        answer: Reply,
    )
        requires
            !(answer is Handle),
        ensures
            ({
                let delivery = self.spec_deliver(Event::IncomingMessage { envelope, timestamp });
                let replies = seq![Reply::Done, Reply::Done, Reply::Handle(ack_handle), answer];
                let calls = delivery.calls(replies);
                &&& calls.len() == 1
                &&& calls[0] matches ForeignCall::OnIncomingMessage { envelope: e, timestamp: t, ack_handle: a }
                &&& e@ == envelope@
                &&& t == timestamp.spec_as_long()
                &&& a == ack_handle
                &&& delivery.run(replies).target == self.spec_target()
                &&& delivery.run(replies).phase matches Phase::Finished(outcome)
                &&& outcome.spec_resumes()
                &&& answer is Done <==> outcome == Outcome::Delivered
                &&& answer matches Reply::Failed(detail) ==> outcome == Outcome::Logged(
                    Diagnostic {
                        operation: Operation::IncomingMessage,
                        cause: None,
                        error: BridgeLayerError::Invocation(detail),
                    },
                )
            }),
    {
        reveal_with_fuel(Delivery::calls_from, 5);
        reveal_with_fuel(Delivery::run_from, 5);
    }

    /// A message whose envelope or acknowledgement cannot be converted is
    /// not delivered: no call is made, and the failure is logged under
    /// "incoming message".
    pub proof fn lemma_unconverted_message_makes_no_call(
        self,
        envelope: Vec<u8>,
        timestamp: Timestamp,
        envelope_converts: bool,
        detail: String,
    )
        ensures
            ({
                let delivery = self.spec_deliver(Event::IncomingMessage { envelope, timestamp });
                let replies = if envelope_converts {
                    seq![Reply::Done, Reply::Done, Reply::Failed(detail)]
                } else {
                    seq![Reply::Done, Reply::Failed(detail)]
                };
                &&& delivery.calls(replies).len() == 0
                &&& delivery.run(replies).phase == Phase::Finished(
                    Outcome::Logged(
                        Diagnostic {
                            operation: Operation::IncomingMessage,
                            cause: None,
                            error: BridgeLayerError::Conversion(detail),
                        },
                    ),
                )
            }),
    {
        reveal_with_fuel(Delivery::calls_from, 5);
        reveal_with_fuel(Delivery::run_from, 5);
    }

    /// An empty queue is reported by exactly one call, `onQueueEmpty`
    /// without arguments, whatever the adapter delivered before: the
    /// delivery depends on nothing but the object it is for.
    pub proof fn lemma_queue_empty_makes_one_call(self, answer: Reply)
        requires
            !(answer is Handle),
        ensures
            ({
                let delivery = self.spec_deliver(Event::QueueEmpty);
                let replies = seq![Reply::Done, answer];
                &&& delivery.calls(replies) == seq![ForeignCall::OnQueueEmpty]
                &&& ForeignCall::OnQueueEmpty.spec_arity() == 0
                &&& delivery.run(replies).target == self.spec_target()
                &&& delivery.run(replies).phase matches Phase::Finished(outcome)
                &&& outcome.spec_resumes()
                &&& answer is Done <==> outcome == Outcome::Delivered
            }),
    {
        reveal_with_fuel(Delivery::calls_from, 4);
        reveal_with_fuel(Delivery::run_from, 4);
        let delivery = self.spec_deliver(Event::QueueEmpty);
        let replies = seq![Reply::Done, answer];
        assert(delivery.calls(replies) =~= seq![ForeignCall::OnQueueEmpty]);
    }

    /// The cause that an interruption hands out for translation is the one
    /// it was started with, and it is asked for before any call is made.
    /// Where the cause translates into a throwable, the interruption is
    /// reported by exactly one call of `onConnectionInterrupted` with that
    /// throwable. Where the translation fails no call is made. Either
    /// failure, of the translation or of the call, ends the delivery with
    /// one diagnostic under "connection interrupted", which holds the
    /// failure and the cause.
    pub proof fn lemma_connection_interrupted_calls_once_or_logs(
        self,
        cause: DisconnectCause,
        translation: Reply,
        answer: Reply,
    )
        requires
            !(translation is Done),
            !(answer is Handle),
        ensures
            ({
                let delivery = self.spec_deliver(Event::ConnectionInterrupted { cause });
                let replies = seq![Reply::Done, translation, answer];
                let calls = delivery.calls(replies);
                let end = delivery.run(replies).phase;
                &&& delivery.spec_advance(Reply::Done).phase == (Phase::TranslatingCause { cause })
                &&& delivery.calls(seq![Reply::Done]).len() == 0
                &&& translation matches Reply::Handle(throwable) ==> {
                    &&& calls == seq![ForeignCall::OnConnectionInterrupted { throwable }]
                    &&& answer is Done ==> end == Phase::Finished(Outcome::Delivered)
                    &&& answer matches Reply::Failed(detail) ==> end == Phase::Finished(
                        Outcome::Logged(
                            Diagnostic {
                                operation: Operation::ConnectionInterrupted,
                                cause: Some(cause),
                                error: BridgeLayerError::Invocation(detail),
                            },
                        ),
                    )
                }
                &&& translation matches Reply::Failed(detail) ==> {
                    &&& calls.len() == 0
                    &&& end == Phase::Finished(
                        Outcome::Logged(
                            Diagnostic {
                                operation: Operation::ConnectionInterrupted,
                                cause: Some(cause),
                                error: BridgeLayerError::Translation(detail),
                            },
                        ),
                    )
                }
            }),
    {
        reveal_with_fuel(Delivery::calls_from, 5);
        reveal_with_fuel(Delivery::run_from, 5);
        let delivery = self.spec_deliver(Event::ConnectionInterrupted { cause });
        let replies = seq![Reply::Done, translation, answer];
        if let Reply::Handle(throwable) = translation {
            assert(delivery.calls(replies) =~= seq![ForeignCall::OnConnectionInterrupted { throwable }]);
        }
    }

    /// Whatever the operation, a failure that is swallowed is logged under
    /// the operation's own name: a delivery that ends with a diagnostic
    /// names the operation of the event it was started for.
    pub proof fn lemma_diagnostic_names_the_operation(self, event: Event, replies: Seq<Reply>)
        ensures
            self.spec_deliver(event).run(replies).phase matches Phase::Finished(Outcome::Logged(diagnostic))
                ==> diagnostic.operation == event.spec_operation(),
    {
        self.spec_deliver(event).lemma_diagnostic_names_own_operation(replies, 0);
    }

    /// A call of `onIncomingMessage` that raises ends its own delivery
    /// with a diagnostic and touches nothing else: the delivery that the
    /// adapter starts next for an empty queue is the one it would have
    /// started otherwise, and it succeeds with its one call.
    pub proof fn lemma_failed_call_leaves_next_delivery_intact(
        self,
        envelope: Vec<u8>,
        timestamp: Timestamp,
        ack_handle: i64,
        detail: String,
    )
        ensures
            ({
                let first = self.spec_deliver(Event::IncomingMessage { envelope, timestamp });
                let raised = seq![Reply::Done, Reply::Done, Reply::Handle(ack_handle), Reply::Failed(detail)];
                let second = self.spec_deliver(Event::QueueEmpty);
                let fine = seq![Reply::Done, Reply::Done];
                &&& first.run(raised).phase matches Phase::Finished(Outcome::Logged(_))
                &&& second.calls(fine) == seq![ForeignCall::OnQueueEmpty]
                &&& second.run(fine).phase == Phase::Finished(Outcome::Delivered)
            }),
    {
        self.lemma_incoming_message_makes_one_call(envelope, timestamp, ack_handle, Reply::Failed(detail));
        self.lemma_queue_empty_makes_one_call(Reply::Done);
    }
}

} // verus!
