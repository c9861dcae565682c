//! Recoverable actor errors and the terminal abort boundary.
//!
//! Every fallible actor operation returns an [`ActorError`]: an exit code of
//! the host's closed registry together with a diagnostic message. Frames that
//! propagate an error may enrich the message through [`ActorError::wrap`] but
//! never change the exit code. Exactly one frame, the invocation's entry
//! boundary, consumes the error, either returning the exit code or turning it
//! into an [`Abort`] that the host transport hands to the host.

use vstd::prelude::*;
use vstd::string::StringExecFns;
use crate::exit_code::ExitCode;

verus! {

/// Declares `fvm_ipld_encoding::CodecProtocol`, the protocol tag an encoding
/// error carries; this crate only carries such a value through.
#[verifier::external_type_specification]
#[verifier::external_body]
pub struct ExCodecProtocol(fvm_ipld_encoding::CodecProtocol);

/// Declares `fvm_ipld_encoding::Error` with its public fields, so verified
/// code can read the `description` that the encoding subsystem produced.
#[verifier::external_type_specification]
pub struct ExEncodingError(fvm_ipld_encoding::Error);

/// Declares `fvm_sdk::error::StateReadError`, the host's "no such actor
/// state" failure, so verified code can convert it.
#[verifier::external_type_specification]
pub struct ExStateReadError(fvm_sdk::error::StateReadError);

/// Declares `fvm_sdk::error::ActorDeleteError` with its variants, so
/// verified code can match on the kind of a failed actor deletion.
#[verifier::external_type_specification]
pub struct ExActorDeleteError(fvm_sdk::error::ActorDeleteError);

/// The error type that gets returned by actor method calls.
#[derive(Clone, Debug)]
pub struct ActorError {
    /// The exit code for this invocation.
    exit_code: ExitCode,
    /// Message for debugging purposes.
    msg: String,
}

impl ActorError {
    /// The exit code carried by this error.
    pub closed spec fn spec_exit_code(self) -> ExitCode {
        self.exit_code
    }

    /// The diagnostic message carried by this error.
    pub closed spec fn spec_msg(self) -> Seq<char> {
        self.msg@
    }

    /// Constructs a new error from an exit code and a message. Construction
    /// is permissive: an `Okay`-valued code is not rejected here, so generic
    /// conversion paths stay total; [`ActorError::is_ok`] exposes the
    /// classification to callers that need to branch on it.
    pub fn new(exit_code: ExitCode, msg: String) -> (r: Self)
        ensures
            r.spec_exit_code() == exit_code,
            r.spec_msg() == msg@,
    {
        Self { exit_code, msg }
    }

    /// Returns the exit code of the error.
    pub fn exit_code(&self) -> (r: ExitCode)
        ensures
            r == self.spec_exit_code(),
    {
        self.exit_code
    }

    /// Returns true when the exit code is the success sentinel.
    pub fn is_ok(&self) -> (r: bool)
        ensures
            r == (self.spec_exit_code() == ExitCode::Okay),
    {
        self.exit_code.is_ok_code()
    }

    /// Error message of the actor error.
    pub fn msg(&self) -> (r: &str)
        ensures
            r@ == self.spec_msg(),
    {
        self.msg.as_str()
    }

    /// Prefix the error message with a context message, keeping the exit
    /// code unchanged: the result's message is `"{msg}: {original message}"`.
    pub fn wrap(self, msg: &str) -> (r: Self)
        ensures
            r.spec_exit_code() == self.spec_exit_code(),
            r.spec_msg() == msg@ + ": "@ + self.spec_msg(),
    {
        let mut m = String::from_str(msg);
        m.append(": ");
        m.append(self.msg.as_str());
        Self { exit_code: self.exit_code, msg: m }
    }

    /// Converts a raw host-signaled exit code into an error with an empty
    /// message, so syscall outcomes propagate like any other failure.
    pub fn from_exit_code(code: ExitCode) -> (r: Self)
        ensures
            r.spec_exit_code() == code,
            r.spec_msg() == Seq::<char>::empty(),
    {
        Self { exit_code: code, msg: String::new() }
    }

    /// Converts a raw encoding error into a serialization failure, carrying
    /// the encoding subsystem's own description verbatim as the message.
    pub fn from_encoding_error(e: fvm_ipld_encoding::Error) -> (r: Self)
        ensures
            r.spec_exit_code() == ExitCode::UsrSerialization,
            r.spec_msg() == e.description@,
    {
        Self { exit_code: ExitCode::UsrSerialization, msg: e.description }
    }

    /// Converts a no-state error into an error with the illegal-state exit
    /// code, carrying the host's own description of the failure.
    pub fn from_state_read_error(e: fvm_sdk::error::StateReadError) -> (r: Self)
        ensures
            r.spec_exit_code() == ExitCode::UsrIllegalState,
            r.spec_msg() == "actor has been deleted"@,
    {
        let _ = e;
        Self {
            exit_code: ExitCode::UsrIllegalState,
            msg: String::from_str("actor has been deleted"),
        }
    }

    /// Converts an actor deletion error into an error with the exit code
    /// that [`delete_error_exit_code`] fixes for its kind, carrying the
    /// host's own description of the failure.
    pub fn from_actor_delete_error(e: fvm_sdk::error::ActorDeleteError) -> (r: Self)
        ensures
            r.spec_exit_code() == delete_error_exit_code(e),
            r.spec_msg() == delete_error_description(e),
    {
        match e {
            fvm_sdk::error::ActorDeleteError::ReadOnly => Self {
                exit_code: ExitCode::UsrReadOnly,
                msg: String::from_str("cannot self-destruct when read-only"),
            },
            fvm_sdk::error::ActorDeleteError::UnspentFunds => Self {
                exit_code: ExitCode::UsrIllegalArgument,
                msg: String::from_str("actor did not request unspent funds to be burnt"),
            },
        }
    }
}

/// The fixed, exhaustive mapping from the kinds of a failed actor deletion
/// to exit-code categories. The match has no default arm: introducing a new
/// kind upstream fails compilation here instead of silently falling back to
/// a generic code.
pub open spec fn delete_error_exit_code(e: fvm_sdk::error::ActorDeleteError) -> ExitCode {
    match e {
        fvm_sdk::error::ActorDeleteError::ReadOnly => ExitCode::UsrReadOnly,
        fvm_sdk::error::ActorDeleteError::UnspentFunds => ExitCode::UsrIllegalArgument,
    }
}

/// The host's description of each kind of failed actor deletion.
pub open spec fn delete_error_description(e: fvm_sdk::error::ActorDeleteError) -> Seq<char> {
    match e {
        fvm_sdk::error::ActorDeleteError::ReadOnly => "cannot self-destruct when read-only"@,
        fvm_sdk::error::ActorDeleteError::UnspentFunds
            => "actor did not request unspent funds to be burnt"@,
    }
}

impl PartialEq for ActorError {
    /// Two errors are equal when code and message agree; two equivalent
    /// failures may still carry different text and must then be treated as
    /// equivalent outcomes by anything consensus-relevant.
    fn eq(&self, other: &ActorError) -> (r: bool) {
        self.exit_code == other.exit_code && self.msg == other.msg
    }
}

impl vstd::std_specs::cmp::PartialEqSpecImpl for ActorError {
    open spec fn obeys_eq_spec() -> bool {
        true
    }

    open spec fn eq_spec(&self, other: &ActorError) -> bool {
        self.spec_exit_code() == other.spec_exit_code() && self.spec_msg() == other.spec_msg()
    }
}

/// Wrapping preserves the exit code and prefixes the message; wrapping twice
/// nests both prefixes in application order. The hypotheses are exactly the
/// contract of [`ActorError::wrap`] applied twice, with prefixes `p1` then
/// `p2`.
pub proof fn lemma_wrap_twice(
    e: ActorError,
    e1: ActorError,
    e2: ActorError,
    p1: Seq<char>,
    p2: Seq<char>,
)
    requires
        e1.spec_exit_code() == e.spec_exit_code(),
        e1.spec_msg() == p1 + ": "@ + e.spec_msg(),
        e2.spec_exit_code() == e1.spec_exit_code(),
        e2.spec_msg() == p2 + ": "@ + e1.spec_msg(),
    ensures
        e2.spec_exit_code() == e.spec_exit_code(),
        e2.spec_msg() == p2 + ": "@ + p1 + ": "@ + e.spec_msg(),
{
    assert(p2 + ": "@ + (p1 + ": "@ + e.spec_msg()) =~= p2 + ": "@ + p1 + ": "@ + e.spec_msg());
}

/// If the condition is false, returns an error built from the given exit
/// code and message, for the enclosing operation to return early.
pub fn ensure_cond(cond: bool, code: ExitCode, msg: String) -> (r: Result<(), ActorError>)
    ensures
        cond ==> r is Ok,
        !cond ==> (r matches Err(e) && e.spec_exit_code() == code && e.spec_msg() == msg@),
{
    if cond {
        Ok(())
    } else {
        Err(ActorError::new(code, msg))
    }
}

/// [`ensure_cond`] with the illegal-argument exit code.
pub fn ensure_args(cond: bool, msg: String) -> (r: Result<(), ActorError>)
    ensures
        cond ==> r is Ok,
        !cond ==> (r matches Err(e) && e.spec_exit_code() == ExitCode::UsrIllegalArgument
            && e.spec_msg() == msg@),
{
    ensure_cond(cond, ExitCode::UsrIllegalArgument, msg)
}

/// The terminal outcome of an invocation: once produced, the invocation has
/// ended, and the host transport signals `(exit_code, message)` to the host.
///
/// The fields are private and there is no public constructor taking them:
/// the only ways to produce an `Abort` are the sanctioned conversions from an
/// [`ActorError`] or from a serialization failure, so no code outside this
/// boundary can synthesize a trapping value directly.
#[derive(Debug)]
pub struct Abort {
    exit_code: ExitCode,
    msg: String,
}

impl Abort {
    /// The exit code the host will be signaled with.
    pub closed spec fn spec_exit_code(self) -> ExitCode {
        self.exit_code
    }

    /// The message the host will be signaled with.
    pub closed spec fn spec_msg(self) -> Seq<char> {
        self.msg@
    }

    /// The sanctioned conversion from a propagating error: the abort carries
    /// exactly the error's exit code and message.
    pub fn from_actor_error(err: ActorError) -> (r: Self)
        ensures
            r.spec_exit_code() == err.spec_exit_code(),
            r.spec_msg() == err.spec_msg(),
    {
        let ActorError { exit_code, msg } = err;
        Self { exit_code, msg }
    }

    /// The sanctioned conversion from a raw encoding error: a serialization
    /// failure carrying the encoding subsystem's own description.
    pub fn from_encoding_error(e: fvm_ipld_encoding::Error) -> (r: Self)
        ensures
            r.spec_exit_code() == ExitCode::UsrSerialization,
            r.spec_msg() == e.description@,
    {
        Self { exit_code: ExitCode::UsrSerialization, msg: e.description }
    }

    /// The exit code to signal, read by the host transport.
    pub fn exit_code(&self) -> (r: ExitCode)
        ensures
            r == self.spec_exit_code(),
    {
        self.exit_code
    }

    /// The message to signal, read by the host transport.
    pub fn msg(&self) -> (r: &str)
        ensures
            r@ == self.spec_msg(),
    {
        self.msg.as_str()
    }
}

} // verus!
