//! Lifting of foreign failure values into the taxonomy: the boundary where
//! real `std::io::Error` and `nix::Error` values are turned into the plain
//! cause records the taxonomy carries.

use vstd::prelude::*;
use crate::errors::{Error, IoCause, NixCause};

verus! {

/// Declares `std::io::Error` so lifting can take one; the value stays opaque
/// here and only its rendered message is recorded.
#[verifier::external_type_specification]
#[verifier::external_body]
pub struct ExIoError(std::io::Error);

/// Declares `nix::errno::Errno` (the type behind `nix::Error`) so lifting can
/// take one; the value stays opaque here and only its raw number and rendered
/// message are recorded.
#[verifier::external_type_specification]
#[verifier::external_body]
pub struct ExErrno(nix::errno::Errno);

/// The one-line message that `nix::errno::Errno::from_raw(code)` renders for a
/// raw error number.
pub uninterp spec fn errno_text(code: int) -> Seq<char>;

/// Relies on `nix::errno::Errno::from_raw` and `Errno`'s `Display` impl: the
/// rendered message is the variant name followed by `desc()`, both compiled-in
/// tables over the error number alone, so it is a fixed function of `code`.
#[verifier::external_body]
fn errno_message(code: i32) -> (r: String)
    ensures
        r@ == errno_text(code as int),
{
    format!("{}", nix::errno::Errno::from_raw(code))
}

/// Relies on the primitive cast of `nix::Error` (an `i32`-repr enum) to its
/// raw error number.
#[verifier::external_body]
fn errno_code(e: nix::Error) -> (r: i32) {
    e as i32
}

/// Relies on the `Display` impl of `std::io::Error`. The rendered text of an
/// OS error comes from the platform's message tables at run time, so nothing
/// is stated of it.
#[verifier::external_body]
fn io_error_text(e: &std::io::Error) -> (r: String) {
    format!("{}", e)
}

impl NixCause {
    /// The recorded message is exactly what the recorded error number renders
    /// to.
    pub open spec fn wf(self) -> bool {
        self.message@ == errno_text(self.errno as int)
    }
}

/// Builds the system-call cause recorded for a raw error number.
pub fn nix_cause_from_code(code: i32) -> (r: NixCause)
    ensures
        r.errno == code,
        r.message@ == errno_text(code as int),
        r.wf(),
{
    NixCause { errno: code, message: errno_message(code) }
}

/// The cause recorded for a failed system call: its error number and rendered
/// message.
pub fn nix_cause(e: nix::Error) -> (r: NixCause)
    ensures
        r.wf(),
{
    let code = errno_code(e);
    nix_cause_from_code(code)
}

/// The cause recorded for a generic I/O failure: its rendered one-line
/// message.
pub fn io_cause(e: &std::io::Error) -> (r: IoCause) {
    IoCause { message: io_error_text(e) }
}

/// Lifts a generic system-call failure into the taxonomy with no added
/// context: the `Nix` catch-all, whose message is its cause's own message.
pub fn from_nix_error(e: nix::Error) -> (r: Error)
    ensures
        r matches Error::Nix { source } && source.wf(),
        r.message_spec() == r.cause_spec().unwrap(),
{
    Error::Nix { source: nix_cause(e) }
}

/// Lifts a generic I/O failure into the taxonomy with no added context: the
/// `Io` catch-all, whose message is its cause's own message.
pub fn from_io_error(e: &std::io::Error) -> (r: Error)
    ensures
        r is Io,
        r.message_spec() == r.cause_spec().unwrap(),
{
    Error::Io { source: io_cause(e) }
}

} // verus!
