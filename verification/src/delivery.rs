//! One delivery of a native event to the foreign listener.
//!
//! A delivery alternates between foreign work and decisions. The work is
//! done elsewhere; the decisions are here. [`Delivery::pending`] names the
//! next piece of work, [`Delivery::advance`] takes the reply to it, and the
//! delivery ends in an [`Outcome`] after at most four replies and at most
//! one call on the listener object.

use vstd::prelude::*;
use vstd::string::StringExecFns;
use crate::error::BridgeLayerError;
use crate::error::DisconnectCause;
use crate::foreign::ForeignCall;
use crate::foreign::Timestamp;

verus! {

/// The three kinds of event that a listener is told of.
#[derive(Debug, Clone, Copy, PartialEq, Eq, Structural)]
pub enum Operation {
    IncomingMessage,
    QueueEmpty,
    ConnectionInterrupted,
}

impl Operation {
    pub open spec fn spec_name(self) -> Seq<char> {
        match self {
            Operation::IncomingMessage => "incoming message"@,
            Operation::QueueEmpty => "queue empty"@,
            Operation::ConnectionInterrupted => "connection interrupted"@,
        }
    }

    /// The name under which a failed delivery of this kind is logged.
    pub fn name(&self) -> (name: &'static str)
        ensures
            name@ == self.spec_name(),
    {
        match self {
            Operation::IncomingMessage => "incoming message",
            Operation::QueueEmpty => "queue empty",
            Operation::ConnectionInterrupted => "connection interrupted",
        }
    }
}

/// A native event, with what the delivery itself has to carry of it.
///
/// The pending acknowledgement of a message stays with the caller, who
/// hands it to the foreign runtime when the delivery asks for it.
#[derive(Debug, Clone, PartialEq, Eq)]
pub enum Event {
    IncomingMessage { envelope: Vec<u8>, timestamp: Timestamp },
    QueueEmpty,
    ConnectionInterrupted { cause: DisconnectCause },
}

impl Event {
    pub open spec fn spec_operation(self) -> Operation {
        match self {
            Event::IncomingMessage { .. } => Operation::IncomingMessage,
            Event::QueueEmpty => Operation::QueueEmpty,
            Event::ConnectionInterrupted { .. } => Operation::ConnectionInterrupted,
        }
    }

    /// The kind of this event.
    pub fn operation(&self) -> (op: Operation)
        ensures
            op == self.spec_operation(),
    {
        match self {
            Event::IncomingMessage { .. } => Operation::IncomingMessage,
            Event::QueueEmpty => Operation::QueueEmpty,
            Event::ConnectionInterrupted { .. } => Operation::ConnectionInterrupted,
        }
    }
}

/// A failure that was swallowed: what is logged in its place.
#[derive(Debug, Clone, PartialEq, Eq)]
pub struct Diagnostic {
    /// The operation that could not be reported.
    pub operation: Operation,
    /// Where an interruption could not be reported, why the connection
    /// had ended.
    pub cause: Option<DisconnectCause>,
    /// What went wrong.
    pub error: BridgeLayerError,
}

impl Diagnostic {
    pub open spec fn spec_message(self) -> Seq<char> {
        let line = "failed to report "@ + self.operation.spec_name() + ": "@ + self.error.spec_detail();
        match self.cause {
            Some(cause) => line + " (cause: "@ + cause.description@ + ")"@,
            None => line,
        }
    }

    /// The line to log: the operation's name, then the failure's text,
    /// then the cause of the interruption where there is one.
    pub fn message(&self) -> (line: String)
        ensures
            line@ == self.spec_message(),
    {
        let mut line = String::from_str("failed to report ");
        line.append(self.operation.name());
        line.append(": ");
        line.append(self.error.detail());
        match &self.cause {
            Some(cause) => {
                line.append(" (cause: ");
                line.append(cause.description.as_str());
                line.append(")");
            },
            None => {},
        }
        line
    }
}

/// How a delivery ended.
#[derive(Debug, Clone, PartialEq, Eq)]
pub enum Outcome {
    /// The foreign method was called and returned.
    Delivered,
    /// A step failed; the failure is to be logged and the caller resumes.
    Logged(Diagnostic),
    /// The thread could not be attached: the foreign runtime is gone.
    Fatal(BridgeLayerError),
}

impl Outcome {
    /// The policy of dispatch isolation: success is silent, a failed
    /// attachment is fatal, and every other failure becomes a diagnostic
    /// under the operation's name.
    pub open spec fn spec_isolate(name: Operation, result: Result<(), BridgeLayerError>) -> Outcome {
        match result {
            Ok(_) => Outcome::Delivered,
            Err(error) => if error.spec_is_fatal() {
                Outcome::Fatal(error)
            } else {
                Outcome::Logged(Diagnostic { operation: name, cause: None, error })
            },
        }
    }

    /// Turns the result of an attached operation into the delivery's outcome.
    pub fn isolate(name: Operation, result: Result<(), BridgeLayerError>) -> (outcome: Outcome)
        ensures
            outcome == Outcome::spec_isolate(name, result),
    {
        match result {
            Ok(_) => Outcome::Delivered,
            Err(error) => if error.is_fatal() {
                Outcome::Fatal(error)
            } else {
                Outcome::Logged(Diagnostic { operation: name, cause: None, error })
            },
        }
    }

    /// This outcome, with the cause of the interruption added to what is
    /// logged, if anything is.
    pub open spec fn spec_in_context(self, cause: Option<DisconnectCause>) -> Outcome {
        match self {
            Outcome::Logged(diagnostic) => Outcome::Logged(
                Diagnostic { operation: diagnostic.operation, cause, error: diagnostic.error },
            ),
            other => other,
        }
    }

    pub fn in_context(self, cause: Option<DisconnectCause>) -> (outcome: Outcome)
        ensures
            outcome == self.spec_in_context(cause),
    {
        match self {
            Outcome::Logged(diagnostic) => Outcome::Logged(
                Diagnostic { operation: diagnostic.operation, cause, error: diagnostic.error },
            ),
            other => other,
        }
    }

    /// Whether the calling thread goes on after this outcome.
    pub open spec fn spec_resumes(self) -> bool {
        !(self is Fatal)
    }

    pub fn resumes(&self) -> (resumes: bool)
        ensures
            resumes == self.spec_resumes(),
    {
        match self {
            Outcome::Fatal(_) => false,
            _ => true,
        }
    }
}

/// The foreign work that a delivery waits for.
#[derive(Debug, Clone, Copy, PartialEq, Eq, Structural)]
pub enum Request {
    /// Attach the calling thread to the foreign runtime; a thread that is
    /// attached already stays so.
    Attach,
    /// Give the envelope its foreign form, a byte array.
    ConvertEnvelope,
    /// Mint the opaque handle of the pending acknowledgement.
    ConvertAck,
    /// Turn the cause that [`Delivery::cause`] holds into a foreign
    /// throwable.
    TranslateCause,
    /// Make the call that [`Delivery::call`] holds.
    Invoke,
}

/// What came back from a piece of foreign work.
#[derive(Debug, Clone, PartialEq, Eq)]
pub enum Reply {
    /// The work was done and yields nothing.
    Done,
    /// The work was done and yields a 64-bit foreign value: an
    /// acknowledgement handle, or the reference of a throwable.
    Handle(i64),
    /// The work failed; the text is the foreign side's description.
    Failed(String),
}

/// Where a delivery stands.
#[derive(Debug, Clone, PartialEq, Eq)]
pub enum Phase {
    Attaching(Event),
    ConvertingEnvelope { envelope: Vec<u8>, timestamp: Timestamp },
    ConvertingAck { envelope: Vec<u8>, timestamp: Timestamp },
    TranslatingCause { cause: DisconnectCause },
    /// The call to make. For an interruption, `cause` is what the
    /// throwable of the call was made from.
    Invoking { call: ForeignCall, cause: Option<DisconnectCause> },
    Finished(Outcome),
}

/// One delivery: the foreign object it is for, and where it stands.
#[derive(Debug, Clone, PartialEq, Eq)]
pub struct Delivery {
    /// The identity of the listener object.
    pub target: u64,
    pub phase: Phase,
}

impl Delivery {
    /// A delivery of `event` to the object `target`, with nothing done yet.
    pub fn start(target: u64, event: Event) -> (delivery: Delivery)
        ensures
            delivery == (Delivery { target, phase: Phase::Attaching(event) }),
    {
        Delivery { target, phase: Phase::Attaching(event) }
    }

    pub open spec fn spec_pending(self) -> Option<Request> {
        match self.phase {
            Phase::Attaching(_) => Some(Request::Attach),
            Phase::ConvertingEnvelope { .. } => Some(Request::ConvertEnvelope),
            Phase::ConvertingAck { .. } => Some(Request::ConvertAck),
            Phase::TranslatingCause { .. } => Some(Request::TranslateCause),
            Phase::Invoking { .. } => Some(Request::Invoke),
            Phase::Finished(_) => None,
        }
    }

    /// The foreign work to do next, or `None` once the delivery has ended.
    pub fn pending(&self) -> (request: Option<Request>)
        ensures
            request == self.spec_pending(),
    {
        match &self.phase {
            Phase::Attaching(_) => Some(Request::Attach),
            Phase::ConvertingEnvelope { .. } => Some(Request::ConvertEnvelope),
            Phase::ConvertingAck { .. } => Some(Request::ConvertAck),
            Phase::TranslatingCause { .. } => Some(Request::TranslateCause),
            Phase::Invoking { .. } => Some(Request::Invoke),
            Phase::Finished(_) => None,
        }
    }

    /// The call to make, while the delivery waits for [`Request::Invoke`].
    pub fn call(&self) -> (call: Option<&ForeignCall>)
        ensures
            match self.phase {
                Phase::Invoking { call: c, .. } => call == Some(&c),
                _ => call is None,
            },
    {
        match &self.phase {
            Phase::Invoking { call, .. } => Some(call),
            _ => None,
        }
    }

    /// The cause to translate, while the delivery waits for
    /// [`Request::TranslateCause`].
    pub fn cause(&self) -> (cause: Option<&DisconnectCause>)
        ensures
            match self.phase {
                Phase::TranslatingCause { cause: c } => cause == Some(&c),
                _ => cause is None,
            },
    {
        match &self.phase {
            Phase::TranslatingCause { cause } => Some(cause),
            _ => None,
        }
    }

    /// The envelope to convert, while the delivery waits for
    /// [`Request::ConvertEnvelope`].
    pub fn envelope(&self) -> (envelope: Option<&Vec<u8>>)
        ensures
            match self.phase {
                Phase::ConvertingEnvelope { envelope: e, .. } => envelope == Some(&e),
                _ => envelope is None,
            },
    {
        match &self.phase {
            Phase::ConvertingEnvelope { envelope, .. } => Some(envelope),
            _ => None,
        }
    }

    /// How the delivery ended, once it has.
    pub fn outcome(&self) -> (outcome: Option<&Outcome>)
        ensures
            match self.phase {
                Phase::Finished(o) => outcome == Some(&o),
                _ => outcome is None,
            },
    {
        match &self.phase {
            Phase::Finished(o) => Some(o),
            _ => None,
        }
    }

    /// Whether `reply` answers the work that the delivery waits for. Work
    /// that yields nothing is answered by `Done`, work that yields a value
    /// by `Handle`; any work may fail. A finished delivery takes no reply.
    pub open spec fn spec_accepts(self, reply: Reply) -> bool {
        match self.phase {
            Phase::Attaching(_) | Phase::ConvertingEnvelope { .. } | Phase::Invoking { .. } => !(reply is Handle),
            Phase::ConvertingAck { .. } | Phase::TranslatingCause { .. } => !(reply is Done),
            Phase::Finished(_) => false,
        }
    }

    pub fn accepts(&self, reply: &Reply) -> (accepted: bool)
        ensures
            accepted == self.spec_accepts(*reply),
    {
        match &self.phase {
            Phase::Attaching(_) | Phase::ConvertingEnvelope { .. } | Phase::Invoking { .. } => match reply {
                Reply::Handle(_) => false,
                _ => true,
            },
            Phase::ConvertingAck { .. } | Phase::TranslatingCause { .. } => match reply {
                Reply::Done => false,
                _ => true,
            },
            Phase::Finished(_) => false,
        }
    }

    /// The delivery that follows on `reply`.
    ///
    /// Success moves a delivery one step towards its call. Failure ends
    /// it: fatally where the thread could not be attached, with a
    /// diagnostic under the operation's name anywhere else. The diagnostic
    /// of an interruption also holds its cause. A reply that does not
    /// answer the pending work changes nothing.
    pub open spec fn spec_advance(self, reply: Reply) -> Delivery {
        let phase = match (self.phase, reply) {
            (Phase::Attaching(event), Reply::Failed(detail)) => Phase::Finished(
                Outcome::spec_isolate(event.spec_operation(), Err(BridgeLayerError::Attach(detail))),
            ),
            (Phase::Attaching(Event::IncomingMessage { envelope, timestamp }), Reply::Done) => Phase::ConvertingEnvelope {
                envelope,
                timestamp,
            },
            (Phase::Attaching(Event::QueueEmpty), Reply::Done) => Phase::Invoking {
                call: ForeignCall::OnQueueEmpty,
                cause: None,
            },
            (Phase::Attaching(Event::ConnectionInterrupted { cause }), Reply::Done) => Phase::TranslatingCause {
                cause,
            },
            (Phase::ConvertingEnvelope { .. }, Reply::Failed(detail)) => Phase::Finished(
                Outcome::spec_isolate(Operation::IncomingMessage, Err(BridgeLayerError::Conversion(detail))),
            ),
            (Phase::ConvertingEnvelope { envelope, timestamp }, Reply::Done) => Phase::ConvertingAck {
                envelope,
                timestamp,
            },
            (Phase::ConvertingAck { envelope, timestamp }, Reply::Handle(ack_handle)) => Phase::Invoking {
                call: ForeignCall::OnIncomingMessage { envelope, timestamp: timestamp.spec_as_long() as i64, ack_handle },
                cause: None,
            },
            (Phase::ConvertingAck { .. }, Reply::Failed(detail)) => Phase::Finished(
                Outcome::spec_isolate(Operation::IncomingMessage, Err(BridgeLayerError::Conversion(detail))),
            ),
            (Phase::TranslatingCause { cause }, Reply::Handle(throwable)) => Phase::Invoking {
                call: ForeignCall::OnConnectionInterrupted { throwable },
                cause: Some(cause),
            },
            (Phase::TranslatingCause { cause }, Reply::Failed(detail)) => Phase::Finished(
                Outcome::spec_isolate(Operation::ConnectionInterrupted, Err(BridgeLayerError::Translation(detail))).spec_in_context(
                    Some(cause),
                ),
            ),
            (Phase::Invoking { call, cause }, Reply::Failed(detail)) => Phase::Finished(
                Outcome::spec_isolate(call.spec_operation(), Err(BridgeLayerError::Invocation(detail))).spec_in_context(cause),
            ),
            (Phase::Invoking { .. }, Reply::Done) => Phase::Finished(Outcome::Delivered),
            (phase, _) => phase,
        };
        Delivery { target: self.target, phase }
    }

    /// Takes the reply to the pending work and moves on. A reply that
    /// [`Self::accepts`] refuses leaves the delivery as it is.
    pub fn advance(self, reply: Reply) -> (next: Delivery)
        ensures
            next == self.spec_advance(reply),
            !self.spec_accepts(reply) ==> next == self,
    {
        let target: u64 = self.target;
        let phase = match (self.phase, reply) {
            (Phase::Attaching(event), Reply::Failed(detail)) => Phase::Finished(
                Outcome::isolate(event.operation(), Err(BridgeLayerError::Attach(detail))),
            ),
            (Phase::Attaching(Event::IncomingMessage { envelope, timestamp }), Reply::Done) => Phase::ConvertingEnvelope {
                envelope,
                timestamp,
            },
            (Phase::Attaching(Event::QueueEmpty), Reply::Done) => Phase::Invoking {
                call: ForeignCall::OnQueueEmpty,
                cause: None,
            },
            (Phase::Attaching(Event::ConnectionInterrupted { cause }), Reply::Done) => Phase::TranslatingCause {
                cause,
            },
            (Phase::ConvertingEnvelope { .. }, Reply::Failed(detail)) => Phase::Finished(
                Outcome::isolate(Operation::IncomingMessage, Err(BridgeLayerError::Conversion(detail))),
            ),
            (Phase::ConvertingEnvelope { envelope, timestamp }, Reply::Done) => Phase::ConvertingAck {
                envelope,
                timestamp,
            },
            (Phase::ConvertingAck { envelope, timestamp }, Reply::Handle(ack_handle)) => Phase::Invoking {
                call: ForeignCall::OnIncomingMessage { envelope, timestamp: timestamp.as_long(), ack_handle },
                cause: None,
            },
            (Phase::ConvertingAck { .. }, Reply::Failed(detail)) => Phase::Finished(
                Outcome::isolate(Operation::IncomingMessage, Err(BridgeLayerError::Conversion(detail))),
            ),
            (Phase::TranslatingCause { cause }, Reply::Handle(throwable)) => Phase::Invoking {
                call: ForeignCall::OnConnectionInterrupted { throwable },
                cause: Some(cause),
            },
            (Phase::TranslatingCause { cause }, Reply::Failed(detail)) => Phase::Finished(
                Outcome::isolate(Operation::ConnectionInterrupted, Err(BridgeLayerError::Translation(detail))).in_context(
                    Some(cause),
                ),
            ),
            (Phase::Invoking { call, cause }, Reply::Failed(detail)) => Phase::Finished(
                Outcome::isolate(call.operation(), Err(BridgeLayerError::Invocation(detail))).in_context(cause),
            ),
            (Phase::Invoking { .. }, Reply::Done) => Phase::Finished(Outcome::Delivered),
            (phase, _) => phase,
        };
        Delivery { target, phase }
    }
    /// The delivery after the replies from index `from` on, taken in turn.
    pub open spec fn run_from(self, replies: Seq<Reply>, from: nat) -> Delivery
        decreases replies.len() - from,
    {
        if from >= replies.len() {
            self
        } else {
            self.spec_advance(replies[from as int]).run_from(replies, from + 1)
        }
    }

    /// The delivery after `replies`.
    pub open spec fn run(self, replies: Seq<Reply>) -> Delivery {
        self.run_from(replies, 0)
    }

    /// The calls on the listener object that were made, and answered, in the
    /// course of [`Self::run_from`].
    pub open spec fn calls_from(self, replies: Seq<Reply>, from: nat) -> Seq<ForeignCall>
        decreases replies.len() - from,
    {
        if from >= replies.len() {
            Seq::empty()
        } else {
            let rest = self.spec_advance(replies[from as int]).calls_from(replies, from + 1);
            match self.phase {
                Phase::Invoking { call, .. } if self.spec_accepts(replies[from as int]) => seq![call] + rest,
                _ => rest,
            }
        }
    }

    /// The calls on the listener object in the course of [`Self::run`].
    pub open spec fn calls(self, replies: Seq<Reply>) -> Seq<ForeignCall> {
        self.calls_from(replies, 0)
    }

    /// An upper bound on the replies that a delivery can still take.
    pub open spec fn remaining(self) -> nat {
        match self.phase {
            Phase::Attaching(_) => 4,
            Phase::ConvertingEnvelope { .. } => 3,
            Phase::ConvertingAck { .. } => 2,
            Phase::TranslatingCause { .. } => 2,
            Phase::Invoking { .. } => 1,
            Phase::Finished(_) => 0,
        }
    }

    /// Every reply brings a delivery nearer to its end, which it reaches
    /// after four replies at most, and never changes whom it is for.
    pub proof fn lemma_advance_makes_progress(self, reply: Reply)
        requires
            self.spec_accepts(reply),
        ensures
            self.spec_advance(reply).remaining() < self.remaining() <= 4,
            self.spec_advance(reply).target == self.target,
    {
    }

    /// A delivery ends fatally only where the thread could not be attached:
    /// whatever else fails, the calling thread resumes.
    pub proof fn lemma_only_attachment_is_fatal(self, reply: Reply)
        requires
            !(self.phase is Finished),
        ensures
            (self.spec_advance(reply).phase matches Phase::Finished(outcome) && !outcome.spec_resumes()) <==> (
            self.phase is Attaching && reply is Failed),
            self.phase is Attaching && reply is Failed ==> self.spec_advance(reply).phase == Phase::Finished(
                Outcome::Fatal(BridgeLayerError::Attach(reply->Failed_0)),
            ),
    {
    }

    /// Attaching comes first and once: no reply brings a delivery to ask
    /// for it, and a reply that answers it is never followed by the same
    /// request.
    pub proof fn lemma_attach_is_not_asked_again(self, reply: Reply)
        ensures
            self.spec_advance(reply).spec_pending() == Some(Request::Attach) ==> self.spec_pending() == Some(
                Request::Attach,
            ) && !self.spec_accepts(reply),
    {
    }

    /// No run brings a delivery further from its end.
    pub proof fn lemma_run_never_goes_back(self, replies: Seq<Reply>, from: nat)
        ensures
            self.run_from(replies, from).remaining() <= self.remaining(),
        decreases replies.len() - from,
    {
        if from < replies.len() {
            self.spec_advance(replies[from as int]).lemma_run_never_goes_back(replies, from + 1);
        }
    }

    /// No piece of foreign work is asked for twice: once a request has
    /// been answered, the delivery never waits for the same request again,
    /// whatever is replied after. So the thread is attached once, the
    /// cause translated once, and the call made once.
    pub proof fn lemma_no_request_is_repeated(self, reply: Reply, later: Seq<Reply>)
        requires
            self.spec_accepts(reply),
        ensures
            self.spec_advance(reply).run(later).spec_pending() != self.spec_pending(),
    {
        self.spec_advance(reply).lemma_run_never_goes_back(later, 0);
    }

    /// Once a delivery is past attaching, no run of it asks to attach.
    pub proof fn lemma_run_attaches_once(self, replies: Seq<Reply>, from: nat)
        requires
            !(self.phase is Attaching),
        ensures
            !(self.run_from(replies, from).phase is Attaching),
        decreases replies.len() - from,
    {
        if from < replies.len() {
            self.spec_advance(replies[from as int]).lemma_run_attaches_once(replies, from + 1);
        }
    }

    /// The operation that a delivery reports, while it is under way.
    pub open spec fn spec_operation(self) -> Option<Operation> {
        match self.phase {
            Phase::Attaching(event) => Some(event.spec_operation()),
            Phase::ConvertingEnvelope { .. } | Phase::ConvertingAck { .. } => Some(Operation::IncomingMessage),
            Phase::TranslatingCause { .. } => Some(Operation::ConnectionInterrupted),
            Phase::Invoking { call, .. } => Some(call.spec_operation()),
            Phase::Finished(_) => None,
        }
    }

    /// A delivery under way keeps its operation from reply to reply, and
    /// where a run of it ends with a diagnostic, the diagnostic names that
    /// operation.
    pub proof fn lemma_diagnostic_names_own_operation(self, replies: Seq<Reply>, from: nat)
        requires
            !(self.phase is Finished),
        ensures
            self.run_from(replies, from).phase matches Phase::Finished(Outcome::Logged(diagnostic))
                ==> Some(diagnostic.operation) == self.spec_operation(),
        decreases replies.len() - from,
    {
        if from < replies.len() {
            let next = self.spec_advance(replies[from as int]);
            if next.phase is Finished {
                next.lemma_finished_stays_finished(replies, from + 1);
            } else {
                next.lemma_diagnostic_names_own_operation(replies, from + 1);
            }
        }
    }

    /// A finished delivery stays as it is, whatever is replied to it.
    pub proof fn lemma_finished_stays_finished(self, replies: Seq<Reply>, from: nat)
        requires
            self.phase is Finished,
        ensures
            self.run_from(replies, from) == self,
        decreases replies.len() - from,
    {
        if from < replies.len() {
            self.spec_advance(replies[from as int]).lemma_finished_stays_finished(replies, from + 1);
        }
    }

    /// Whatever the foreign side replies, and for however long, a delivery
    /// makes at most one call on the listener object; a finished one makes
    /// none.
    pub proof fn lemma_at_most_one_call(self, replies: Seq<Reply>, from: nat)
        ensures
            self.calls_from(replies, from).len() <= 1,
            self.phase is Finished ==> self.calls_from(replies, from).len() == 0,
            self.calls_from(replies, from).len() == 1 ==> self.run_from(replies, from).phase is Finished,
        decreases replies.len() - from,
    {
        if from < replies.len() {
            let next = self.spec_advance(replies[from as int]);
            next.lemma_at_most_one_call(replies, from + 1);
            if next.phase is Finished {
                next.lemma_finished_stays_finished(replies, from + 1);
            }
        }
    }
}

} // verus!
