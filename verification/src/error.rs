//! The failures that the bridge tells apart.

use vstd::prelude::*;

verus! {

/// A failure at the boundary to the foreign runtime.
///
/// Each variant but the first carries the foreign side's own description of
/// what went wrong, which is only ever logged.
#[derive(Debug, Clone, PartialEq, Eq)]
pub enum BridgeLayerError {
    /// The object offered as a listener has another declared type than the
    /// expected one; `actual` is the type it reported.
    TypeMismatch { actual: String },
    /// The calling thread could not be attached to the foreign runtime.
    Attach(String),
    /// A native value could not be given its foreign representation.
    Conversion(String),
    /// The foreign method raised, or could not be called.
    Invocation(String),
    /// A native error could not be turned into a foreign throwable.
    Translation(String),
}

/// Why a connection ended: a native error, by its tag and its description.
#[derive(Debug, Clone, PartialEq, Eq)]
pub struct DisconnectCause {
    pub tag: u32,
    pub description: String,
}

impl BridgeLayerError {
    /// Only a failed attachment is unrecoverable: it says that the foreign
    /// runtime can no longer be reached.
    pub open spec fn spec_is_fatal(self) -> bool {
        self is Attach
    }

    pub open spec fn spec_detail(self) -> Seq<char> {
        match self {
            BridgeLayerError::TypeMismatch { actual } => actual@,
            BridgeLayerError::Attach(detail) => detail@,
            BridgeLayerError::Conversion(detail) => detail@,
            BridgeLayerError::Invocation(detail) => detail@,
            BridgeLayerError::Translation(detail) => detail@,
        }
    }

    /// The text that the failure carries: the type that was found, or the
    /// foreign side's description.
    pub fn detail(&self) -> (detail: &str)
        ensures
            detail@ == self.spec_detail(),
    {
        match self {
            BridgeLayerError::TypeMismatch { actual } => actual.as_str(),
            BridgeLayerError::Attach(detail) => detail.as_str(),
            BridgeLayerError::Conversion(detail) => detail.as_str(),
            BridgeLayerError::Invocation(detail) => detail.as_str(),
            BridgeLayerError::Translation(detail) => detail.as_str(),
        }
    }

    /// Whether this failure must be surfaced rather than logged.
    pub fn is_fatal(&self) -> (fatal: bool)
        ensures
            fatal == self.spec_is_fatal(),
    {
        match self {
            BridgeLayerError::Attach(_) => true,
            _ => false,
        }
    }
}

} // verus!
