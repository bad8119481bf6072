//! One structured refusal, as it goes out on the wire.

use vstd::prelude::*;

use crate::text::{held, text_view};

verus! {

/// `provider.unavailable`: the system this provider fronts did not answer.
pub const UNAVAILABLE_CODE: &'static str = "Ono-Sendai-E0401";

/// The dotted name of [`UNAVAILABLE_CODE`].
pub const UNAVAILABLE: &'static str = "provider.unavailable";

/// `provider.unsupported`: the cluster serves no such thing, or nothing can be made of what was
/// asked.
pub const UNSUPPORTED_CODE: &'static str = "Ono-Sendai-E0402";

/// The dotted name of [`UNSUPPORTED_CODE`].
pub const UNSUPPORTED: &'static str = "provider.unsupported";

/// `resolve.ambiguous`: a name that several served types share.
pub const AMBIGUOUS_CODE: &'static str = "Ono-Sendai-E0103";

/// The dotted name of [`AMBIGUOUS_CODE`].
pub const AMBIGUOUS: &'static str = "resolve.ambiguous";

/// `runtime.trap`: this package contradicted itself.
pub const TRAP_CODE: &'static str = "Ono-Sendai-K11201";

/// The dotted name of [`TRAP_CODE`].
pub const TRAP: &'static str = "runtime.trap";

/// `runtime.protocol_violation`: the host answered something the protocol does not allow.
pub const PROTOCOL_CODE: &'static str = "Ono-Sendai-K11204";

/// The dotted name of [`PROTOCOL_CODE`].
pub const PROTOCOL: &'static str = "runtime.protocol_violation";

/// `contribution.refused`: this package's own rule about what it will not do or claim.
pub const REFUSED: &'static str = "contribution.refused";

/// Which kind of refusal one is.
#[derive(Debug, Clone, Copy, PartialEq, Eq, Structural)]
pub enum Class {
    Unavailable,
    Unsupported,
    Ambiguous,
    Refused,
    Trap,
    Protocol,
}

impl Class {
    /// The code this kind is published under, where this package spells it out. The code of
    /// [`REFUSED`] is the host's own.
    pub open spec fn spec_code(self) -> Option<Seq<char>> {
        match self {
            Class::Unavailable => Some(UNAVAILABLE_CODE@),
            Class::Unsupported => Some(UNSUPPORTED_CODE@),
            Class::Ambiguous => Some(AMBIGUOUS_CODE@),
            Class::Refused => None,
            Class::Trap => Some(TRAP_CODE@),
            Class::Protocol => Some(PROTOCOL_CODE@),
        }
    }

    /// The dotted name of this kind.
    pub open spec fn spec_name(self) -> Seq<char> {
        match self {
            Class::Unavailable => UNAVAILABLE@,
            Class::Unsupported => UNSUPPORTED@,
            Class::Ambiguous => AMBIGUOUS@,
            Class::Refused => REFUSED@,
            Class::Trap => TRAP@,
            Class::Protocol => PROTOCOL@,
        }
    }

    /// The code this kind is published under, where this package spells it out.
    pub fn code(self) -> (r: Option<String>)
        ensures
            text_view(r) == self.spec_code(),
    {
        match self {
            Class::Unavailable => Some(UNAVAILABLE_CODE.to_owned()),
            Class::Unsupported => Some(UNSUPPORTED_CODE.to_owned()),
            Class::Ambiguous => Some(AMBIGUOUS_CODE.to_owned()),
            Class::Refused => None,
            Class::Trap => Some(TRAP_CODE.to_owned()),
            Class::Protocol => Some(PROTOCOL_CODE.to_owned()),
        }
    }

    /// The dotted name of this kind.
    pub fn name(self) -> (r: String)
        ensures
            r@ == self.spec_name(),
    {
        match self {
            Class::Unavailable => UNAVAILABLE.to_owned(),
            Class::Unsupported => UNSUPPORTED.to_owned(),
            Class::Ambiguous => AMBIGUOUS.to_owned(),
            Class::Refused => REFUSED.to_owned(),
            Class::Trap => TRAP.to_owned(),
            Class::Protocol => PROTOCOL.to_owned(),
        }
    }
}

/// One structured error.
#[derive(Debug, PartialEq, Eq)]
pub struct WireError {
    /// The code it is published under; `None` where the host's vocabulary supplies it.
    pub code: Option<String>,
    /// The dotted name of the code.
    pub name: String,
    /// What happened.
    pub message: String,
    /// What to do about it, or what it does not mean.
    pub help: Option<String>,
}

/// What a structured error says.
pub struct Refusal {
    pub code: Option<Seq<char>>,
    pub name: Seq<char>,
    pub message: Seq<char>,
    pub help: Option<Seq<char>>,
}

impl View for WireError {
    type V = Refusal;

    open spec fn view(&self) -> Refusal {
        Refusal {
            code: text_view(self.code),
            name: self.name@,
            message: self.message@,
            help: text_view(self.help),
        }
    }
}

/// What a refusal of one kind says.
pub open spec fn refusal(class: Class, message: Seq<char>, help: Seq<char>) -> Refusal {
    Refusal { code: class.spec_code(), name: class.spec_name(), message, help: Some(help) }
}

/// One structured error of a kind.
pub fn failure(class: Class, message: String, help: &str) -> (r: WireError)
    ensures
        r@ == refusal(class, message@, help@),
{
    WireError { code: class.code(), name: class.name(), message, help: Some(help.to_owned()) }
}

impl Clone for WireError {
    fn clone(&self) -> (r: WireError)
        ensures
            r@ == self@,
    {
        WireError {
            code: held(&self.code),
            name: self.name.clone(),
            message: self.message.clone(),
            help: held(&self.help),
        }
    }
}

}
