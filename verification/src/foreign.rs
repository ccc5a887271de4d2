//! Plain values that stand for what lives in the foreign runtime.

use vstd::prelude::*;
use crate::delivery::Operation;

verus! {

/// The declared type that a listener object must report.
pub const LISTENER_CLASS: &'static str = "org.signal.libsignal.net.internal.MakeChatListener";

/// The process-wide foreign runtime, by the raw handle it gave out.
///
/// The handle is not owned: it stays valid for the life of the process and
/// every adapter shares it. It is never null. The type has no `Clone`: an
/// adapter that is cloned derives a further handle from the raw value of
/// its own, which cannot fail.
#[derive(Debug, PartialEq, Eq)]
pub struct RuntimeHandle {
    raw: u64,
}

impl RuntimeHandle {
    #[verifier::type_invariant]
    spec fn not_null(self) -> bool {
        self.raw != 0
    }

    /// The raw value of the handle.
    pub closed spec fn spec_raw(self) -> u64 {
        self.raw
    }

    /// The handle with the raw value `raw`; none where `raw` is null.
    pub fn from_raw(raw: u64) -> (handle: Option<RuntimeHandle>)
        ensures
            raw == 0 <==> handle is None,
            handle matches Some(h) ==> h.spec_raw() == raw,
    {
        if raw == 0 {
            None
        } else {
            Some(RuntimeHandle { raw })
        }
    }

    pub fn raw(&self) -> (raw: u64)
        ensures
            raw == self.spec_raw(),
            raw != 0,
    {
        proof {
            use_type_invariant(self);
        }
        self.raw
    }

    /// One more handle to the same runtime. It is derived from the raw
    /// value of a handle that exists, which is not null, so it cannot fail.
    pub(crate) fn rederive(&self) -> (handle: RuntimeHandle)
        ensures
            handle == *self,
    {
        RuntimeHandle::from_raw(self.raw()).unwrap()
    }
}

/// A foreign object as native code may know it: by its identity and by the
/// name of its declared type, never by its contents.
#[derive(Debug, Clone, PartialEq, Eq)]
pub struct ForeignObject {
    pub identity: u64,
    pub class_name: String,
}

/// One strong reference to a foreign object, counted by the foreign runtime.
///
/// Each value stands for one acquisition, to be paired with one release when
/// the value is dropped. A further reference to the same object is had by
/// `clone` alone.
#[derive(Debug, PartialEq, Eq)]
pub struct GlobalRef {
    identity: u64,
}

impl GlobalRef {
    /// The identity of the object that the reference keeps alive.
    pub closed spec fn spec_identity(self) -> u64 {
        self.identity
    }

    /// A new strong reference to `object`.
    pub fn acquire(object: &ForeignObject) -> (reference: GlobalRef)
        ensures
            reference.spec_identity() == object.identity,
    {
        GlobalRef { identity: object.identity }
    }

    pub fn identity(&self) -> (identity: u64)
        ensures
            identity == self.spec_identity(),
    {
        self.identity
    }
}

impl Clone for GlobalRef {
    /// One more strong reference to the same object.
    fn clone(&self) -> (reference: Self)
        ensures
            reference == *self,
    {
        GlobalRef { identity: self.identity }
    }
}

/// A point in time, in milliseconds since the epoch.
#[derive(Debug, Clone, Copy, PartialEq, Eq, Structural)]
pub struct Timestamp {
    pub millis: u64,
}

impl Timestamp {
    pub fn from_epoch_millis(millis: u64) -> (t: Timestamp)
        ensures
            t.millis == millis,
    {
        Timestamp { millis }
    }

    pub fn epoch_millis(&self) -> (millis: u64)
        ensures
            millis == self.millis,
    {
        self.millis
    }

    /// The foreign `long` with the same 64 bits as the millisecond count.
    pub open spec fn spec_as_long(self) -> int {
        if self.millis <= i64::MAX {
            self.millis as int
        } else {
            self.millis - 0x1_0000_0000_0000_0000
        }
    }

    /// The millisecond count as the foreign runtime takes it: a signed
    /// 64-bit integer with the same bits.
    pub fn as_long(&self) -> (long: i64)
        ensures
            long == self.spec_as_long(),
    {
        if self.millis <= 0x7fff_ffff_ffff_ffffu64 {
            self.millis as i64
        } else {
            let low: u64 = self.millis - 0x8000_0000_0000_0000u64;
            (low as i64) + i64::MIN
        }
    }
}

/// A call on the listener object: one of a fixed set of methods, each with
/// its arguments as plain values.
#[derive(Debug, Clone, PartialEq, Eq)]
pub enum ForeignCall {
    /// `onIncomingMessage(byte[], long, long) -> void`
    OnIncomingMessage { envelope: Vec<u8>, timestamp: i64, ack_handle: i64 },
    /// `onQueueEmpty() -> void`
    OnQueueEmpty,
    /// `onConnectionInterrupted(Throwable) -> void`; the throwable is given
    /// by its foreign reference.
    OnConnectionInterrupted { throwable: i64 },
}

impl ForeignCall {
    pub open spec fn spec_method_name(self) -> Seq<char> {
        match self {
            ForeignCall::OnIncomingMessage { .. } => "onIncomingMessage"@,
            ForeignCall::OnQueueEmpty => "onQueueEmpty"@,
            ForeignCall::OnConnectionInterrupted { .. } => "onConnectionInterrupted"@,
        }
    }

    /// The name of the foreign method.
    pub fn method_name(&self) -> (name: &'static str)
        ensures
            name@ == self.spec_method_name(),
    {
        match self {
            ForeignCall::OnIncomingMessage { .. } => "onIncomingMessage",
            ForeignCall::OnQueueEmpty => "onQueueEmpty",
            ForeignCall::OnConnectionInterrupted { .. } => "onConnectionInterrupted",
        }
    }

    pub open spec fn spec_operation(self) -> Operation {
        match self {
            ForeignCall::OnIncomingMessage { .. } => Operation::IncomingMessage,
            ForeignCall::OnQueueEmpty => Operation::QueueEmpty,
            ForeignCall::OnConnectionInterrupted { .. } => Operation::ConnectionInterrupted,
        }
    }

    /// The operation that the call reports.
    pub fn operation(&self) -> (operation: Operation)
        ensures
            operation == self.spec_operation(),
    {
        match self {
            ForeignCall::OnIncomingMessage { .. } => Operation::IncomingMessage,
            ForeignCall::OnQueueEmpty => Operation::QueueEmpty,
            ForeignCall::OnConnectionInterrupted { .. } => Operation::ConnectionInterrupted,
        }
    }

    pub open spec fn spec_signature(self) -> Seq<char> {
        match self {
            ForeignCall::OnIncomingMessage { .. } => "([BJJ)V"@,
            ForeignCall::OnQueueEmpty => "()V"@,
            ForeignCall::OnConnectionInterrupted { .. } => "(Ljava/lang/Throwable;)V"@,
        }
    }

    /// The foreign method's type signature, in the runtime's own notation.
    pub fn signature(&self) -> (sig: &'static str)
        ensures
            sig@ == self.spec_signature(),
    {
        match self {
            ForeignCall::OnIncomingMessage { .. } => "([BJJ)V",
            ForeignCall::OnQueueEmpty => "()V",
            ForeignCall::OnConnectionInterrupted { .. } => "(Ljava/lang/Throwable;)V",
        }
    }

    pub open spec fn spec_arity(self) -> nat {
        match self {
            ForeignCall::OnIncomingMessage { .. } => 3,
            ForeignCall::OnQueueEmpty => 0,
            ForeignCall::OnConnectionInterrupted { .. } => 1,
        }
    }

    /// How many arguments the call passes.
    pub fn arity(&self) -> (n: usize)
        ensures
            n == self.spec_arity(),
    {
        match self {
            ForeignCall::OnIncomingMessage { .. } => 3,
            ForeignCall::OnQueueEmpty => 0,
            ForeignCall::OnConnectionInterrupted { .. } => 1,
        }
    }
}

} // verus!
