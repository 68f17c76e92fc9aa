//! Decoding caller-supplied path arguments and reporting outcomes.
//!
//! The callable entry point hands its caller a status code and, on request, a
//! message written into a caller-owned buffer. Everything that can be decided
//! about those values is decided here: which argument errors are reported and
//! with what wording, which status each outcome maps to, and the exact bytes
//! of the bounded, nul-terminated buffer image. The unverified shim only
//! copies the finished bytes into the raw buffer.

use vstd::prelude::*;
use vstd::string::StrSliceExecFns;
use vstd::string::StringExecFns;
use vstd::string::StringSliceAdditionalSpecFns;
use vstd::utf8::decode_utf8;
use vstd::utf8::encode_utf8;
use vstd::utf8::valid_utf8;

verus! {

/// How one call of the entry point ended: the conversion completed, it
/// failed with a known cause, or the logic was cut short by an internal
/// fault that the shim contained.
pub enum CallOutcome {
    Completed,
    Failed(String),
    Fault,
}

/// Mathematical image of `CallOutcome`.
pub enum CallOutcomeView {
    Completed,
    Failed(Seq<char>),
    Fault,
}

impl View for CallOutcome {
    type V = CallOutcomeView;

    open spec fn view(&self) -> CallOutcomeView {
        match self {
            CallOutcome::Completed => CallOutcomeView::Completed,
            CallOutcome::Failed(m) => CallOutcomeView::Failed(m@),
            CallOutcome::Fault => CallOutcomeView::Fault,
        }
    }
}

/// The status code each outcome reports: zero for success, one for a known
/// failure, two for a contained fault. No other code exists.
pub open spec fn status_of(o: CallOutcomeView) -> i32 {
    match o {
        CallOutcomeView::Completed => 0,
        CallOutcomeView::Failed(_) => 1,
        CallOutcomeView::Fault => 2,
    }
}

/// The message each outcome reports: empty on success, the cause on a known
/// failure, and a fixed notice on a fault that never exposes fault details.
pub open spec fn message_of(o: CallOutcomeView) -> Seq<char> {
    match o {
        CallOutcomeView::Completed => ""@,
        CallOutcomeView::Failed(m) => m,
        CallOutcomeView::Fault => "ISO conversion panicked"@,
    }
}

/// The exact image of a caller buffer of capacity `len` after a message is
/// reported into it: the message truncated to at most `len - 1` bytes,
/// padded with zeroes to exactly `len` bytes. A zero capacity yields no
/// bytes at all.
pub open spec fn rendered(msg: Seq<u8>, len: nat) -> Seq<u8> {
    if len == 0 {
        Seq::empty()
    } else {
        let copy: nat = if msg.len() <= len - 1 {
            msg.len()
        } else {
            (len - 1) as nat
        };
        msg.take(copy as int) + Seq::new((len - copy) as nat, |i: int| 0u8)
    }
}

/// Whatever the message and however small the buffer, the rendered image
/// fills the capacity exactly and, whenever there is room for any byte at
/// all, ends in a terminating zero.
pub proof fn lemma_rendered_bounded_and_terminated(msg: Seq<u8>, len: nat)
    ensures
        rendered(msg, len).len() == len,
        len > 0 ==> rendered(msg, len)[len - 1] == 0,
{
}

/// A buffer image never holds more of the message than fits before the
/// terminator, and what it holds is the message unchanged.
pub proof fn lemma_rendered_prefix(msg: Seq<u8>, len: nat, i: int)
    requires
        len > 0,
        0 <= i < len - 1,
        i < msg.len(),
    ensures
        rendered(msg, len)[i] == msg[i],
{
}

/// The bytes to place in a caller buffer of capacity `len`.
pub fn render_err_buf(msg: &str, len: usize) -> (out: Vec<u8>)
    ensures
        out@ == rendered(msg.spec_bytes(), len as nat),
{
    let bytes = msg.as_bytes();
    let copy: usize = if len == 0 {
        0
    } else if bytes.len() <= len - 1 {
        bytes.len()
    } else {
        len - 1
    };
    let mut out: Vec<u8> = Vec::new();
    let mut i: usize = 0;
    while i < copy
        invariant
            i <= copy,
            copy <= bytes.len(),
            out@ =~= bytes@.take(i as int),
        decreases copy - i,
    {
        out.push(bytes[i]);
        i = i + 1;
    }
    while i < len
        invariant
            copy <= i <= len,
            copy <= bytes.len(),
            out@.len() == i,
            out@.take(copy as int) =~= bytes@.take(copy as int),
            forall|j: int| copy <= j < i ==> out@[j] == 0,
        decreases len - i,
    {
        out.push(0);
        i = i + 1;
    }
    proof {
        assert(out@ =~= rendered(msg.spec_bytes(), len as nat));
    }
    out
}

/// The status code and the finished buffer image for one outcome, for a
/// caller buffer of capacity `err_buf_len`.
pub fn report(outcome: &CallOutcome, err_buf_len: usize) -> (r: (i32, Vec<u8>))
    ensures
        r.0 == status_of(outcome@),
        r.1@ == rendered(encode_utf8(message_of(outcome@)), err_buf_len as nat),
{
    let status: i32 = match outcome {
        CallOutcome::Completed => 0,
        CallOutcome::Failed(_) => 1,
        CallOutcome::Fault => 2,
    };
    let msg: &str = match outcome {
        CallOutcome::Completed => "",
        CallOutcome::Failed(m) => m.as_str(),
        CallOutcome::Fault => "ISO conversion panicked",
    };
    let buf = render_err_buf(msg, err_buf_len);
    (status, buf)
}

/// Relies on `String::from_utf8`: it succeeds exactly on valid UTF-8 input
/// and yields the string those bytes encode.
#[verifier::external_body]
fn bytes_to_string(bytes: Vec<u8>) -> (r: Option<String>)
    ensures
        r is Some <==> valid_utf8(bytes@),
        r matches Some(s) ==> s@ == decode_utf8(bytes@),
{
    match String::from_utf8(bytes) {
        Ok(s) => Some(s),
        Err(_) => None,
    }
}

/// One decoded path argument of the entry point. A missing (null) argument
/// and one that is not valid text are rejected with a message naming the
/// argument, before any filesystem access happens.
pub fn decode_path_arg(bytes: Option<Vec<u8>>, arg_name: &str) -> (r: Result<String, String>)
    ensures
        bytes is None ==> (r matches Err(m) && m@ == arg_name@ + " was null"@),
        bytes matches Some(b) ==> (if valid_utf8(b@) {
            r matches Ok(s) && s@ == decode_utf8(b@)
        } else {
            r matches Err(m) && m@ == arg_name@ + " was not valid UTF-8"@
        }),
{
    match bytes {
        None => Err(String::from_str(arg_name).concat(" was null")),
        Some(b) => match bytes_to_string(b) {
            Some(s) => Ok(s),
            None => Err(String::from_str(arg_name).concat(" was not valid UTF-8")),
        },
    }
}

} // verus!
