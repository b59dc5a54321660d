//! The envelope abstraction: every interaction between components is a
//! `(sender, action, payload)` triple.  Anything that names an action and
//! encodes its arguments can be published.

use vstd::prelude::*;

use crate::value::SpecValue;
use crate::value::StructValue;

verus! {

/// The unit of communication: who sent it, what it means, and its payload.
/// Envelopes are immutable once queued.
pub struct Envelope {
    pub sender: String,
    pub action: String,
    pub payload: StructValue,
}

/// The mathematical model of an `Envelope`.
#[verifier::ext_equal]
pub ghost struct SpecEnvelope {
    pub sender: Seq<char>,
    pub action: Seq<char>,
    pub payload: SpecValue,
}

impl View for Envelope {
    type V = SpecEnvelope;

    open spec fn view(&self) -> SpecEnvelope {
        SpecEnvelope { sender: self.sender@, action: self.action@, payload: self.payload@ }
    }
}

/// A value that can be encoded as a structured value.  The encoding is
/// total: it never fails on a well-formed input.
pub trait IEncode {
    /// The encoding in model form.
    spec fn spec_enc(&self) -> SpecValue;

    /// Encodes this value; the result models `spec_enc`.
    fn encode(&self) -> (r: StructValue)
        ensures
            r@ == self.spec_enc(),
    ;
}

impl IEncode for StructValue {
    open spec fn spec_enc(&self) -> SpecValue {
        self@
    }

    fn encode(&self) -> (r: StructValue) {
        self.duplicate()
    }
}

/// A publishable command or event: a named action plus encoded arguments.
pub trait ICommand {
    /// The action string in model form.
    spec fn spec_action(&self) -> Seq<char>;

    /// The encoded arguments in model form.
    spec fn spec_args(&self) -> SpecValue;

    /// The dot-namespaced action identifying this command.
    fn action(&self) -> (r: String)
        ensures
            r@ == self.spec_action(),
    ;

    /// The arguments, encoded as a structured value.
    fn args(&self) -> (r: StructValue)
        ensures
            r@ == self.spec_args(),
    ;
}

/// A free-form command: an explicit action string carrying any encodable
/// arguments.
#[derive(Debug)]
pub struct Command<T> {
    pub action: String,
    pub args: T,
}

impl<T: IEncode> ICommand for Command<T> {
    open spec fn spec_action(&self) -> Seq<char> {
        self.action@
    }

    open spec fn spec_args(&self) -> SpecValue {
        self.args.spec_enc()
    }

    fn action(&self) -> (r: String) {
        self.action.clone()
    }

    fn args(&self) -> (r: StructValue) {
        self.args.encode()
    }
}

/// What can go wrong inside the core.  Parse failures of persisted state are
/// recoverable: they surface as an error result, never as an abort.
#[derive(Debug, PartialEq, Eq, Structural)]
pub enum CoreError {
    /// `unsubscribe` named a handler id that is not registered.
    HandlerNotFound,
    /// A persisted snapshot could not be decoded back into plugin state.
    StateDeserializationFailed,
}

} // verus!
