//! The network request bridge: argument validation, serialization, and
//! translation of the host's result.
//!
//! One invocation is a single atomic unit: the arguments are validated,
//! the four request strings are serialized to their raw bytes, the caller
//! performs exactly one synchronous foreign host call with those bytes,
//! and what came back — a 32-bit return code plus two host-populated
//! output cells — is translated into a script-visible success value or an
//! error. The foreign call itself crosses out of this crate: [`prepare_fetch`]
//! decides whether it happens and with which payload, and [`fetch_complete`]
//! decides what its outcome means.

use crate::decimal::append_u32_decimal;
use crate::decimal::dec_str;
use crate::decimal::dec_value;
use crate::decimal::is_dec_digit;
use crate::decimal::lemma_dec_str_prefix_free;
use crate::decimal::lemma_dec_value_round_trip;
use vstd::prelude::*;
use vstd::utf8::encode_utf8;

verus! {

/// The ways a bridge invocation can fail, reported synchronously to the
/// script caller. No failure is retried or deferred.
#[derive(Clone, Copy, Debug, PartialEq, Eq, Structural)]
pub enum BridgeError {
    /// The network bridge received fewer than four arguments; no host call
    /// was attempted.
    ArgumentError,
    /// The logging bridge's underlying stream write failed.
    WriteError,
    /// The foreign host call returned a nonzero status; no partial result is
    /// exposed.
    HostCallError,
}

impl BridgeError {
    /// The text that the script caller sees for this failure.
    pub open spec fn spec_message(self) -> Seq<char> {
        match self {
            BridgeError::ArgumentError => "fetch requires at least four arguments"@,
            BridgeError::WriteError => "write to the bound stream failed"@,
            BridgeError::HostCallError => "fetch failed"@,
        }
    }

    /// The text that the script caller sees for this failure.
    pub fn message(&self) -> (m: &'static str)
        ensures
            m@ == self.spec_message(),
    {
        match self {
            BridgeError::ArgumentError => "fetch requires at least four arguments",
            BridgeError::WriteError => "write to the bound stream failed",
            BridgeError::HostCallError => "fetch failed",
        }
    }
}

/// The serialized request: the four argument strings as raw byte sequences.
/// The foreign boundary accepts only fixed-width numeric parameters, so the
/// caller of the host function passes, for each field, the address and the
/// length of these bytes — in the host's parameter order URL, method,
/// headers, body — and keeps the buffers alive until the call returns.
pub struct HostCallDescriptor {
    /// Bytes of the URL (argument position 0).
    pub url: Vec<u8>,
    /// Bytes of the request method (argument position 1).
    pub method: Vec<u8>,
    /// Bytes of the request body (argument position 2).
    pub body: Vec<u8>,
    /// Bytes of the headers, pre-encoded by the script caller into a single
    /// string that this bridge passes through opaquely (argument position 3).
    pub headers: Vec<u8>,
}

/// The payload of `d` is exactly the UTF-8 bytes of the first four
/// argument texts, taken positionally: URL, method, body, headers.
pub open spec fn descriptor_matches(d: HostCallDescriptor, args: Seq<Seq<char>>) -> bool
    recommends
        args.len() >= 4,
{
    &&& d.url@ == encode_utf8(args[0])
    &&& d.method@ == encode_utf8(args[1])
    &&& d.body@ == encode_utf8(args[2])
    &&& d.headers@ == encode_utf8(args[3])
}

/// Validates and serializes the arguments of one network-bridge invocation.
///
/// With fewer than four arguments the invocation fails immediately with
/// [`BridgeError::ArgumentError`] and no host call may be made. With four or
/// more, the result is the serialized payload for exactly one host call;
/// arguments beyond the first four are ignored.
pub fn prepare_fetch(args: &Vec<String>) -> (r: Result<HostCallDescriptor, BridgeError>)
    ensures
        r is Ok <==> args@.len() >= 4,
        args@.len() < 4 ==> (r matches Err(e) && e == BridgeError::ArgumentError),
        args@.len() >= 4 ==> (r matches Ok(d) && descriptor_matches(d, args.deep_view())),
{
    if args.len() < 4 {
        return Err(BridgeError::ArgumentError);
    }
    let d = HostCallDescriptor {
        url: args[0].as_str().as_bytes_vec(),
        method: args[1].as_str().as_bytes_vec(),
        body: args[2].as_str().as_bytes_vec(),
        headers: args[3].as_str().as_bytes_vec(),
    };
    Ok(d)
}

/// Serialization is stateless: two invocations given identical argument
/// texts hand the host byte-identical payloads.
pub proof fn lemma_serialization_idempotent(
    args: Seq<Seq<char>>,
    d1: HostCallDescriptor,
    d2: HostCallDescriptor,
)
    requires
        args.len() >= 4,
        descriptor_matches(d1, args),
        descriptor_matches(d2, args),
    ensures
        d1.url@ == d2.url@,
        d1.method@ == d2.method@,
        d1.body@ == d2.body@,
        d1.headers@ == d2.headers@,
{
}

/// The 16-bit output cell reserved for the status code: allocated
/// uninitialized immediately before the host call, and holding a value only
/// once the host has written one. Reading it without a success signal from
/// the host is undefined and never happens in this bridge.
pub enum StatusCell {
    /// Reserved storage the host has not (observably) written.
    Uninitialized,
    /// The status code the host wrote during the call.
    Written(u16),
}

/// The 32-bit output cell reserved for the opaque response handle, with the
/// same two-state discipline as [`StatusCell`].
pub enum HandleCell {
    /// Reserved storage the host has not (observably) written.
    Uninitialized,
    /// The response handle the host wrote during the call.
    Written(u32),
}

impl StatusCell {
    /// The value the host wrote, meaningful only in the `Written` state.
    pub open spec fn spec_value(self) -> u16
        recommends
            self is Written,
    {
        match self {
            StatusCell::Written(v) => v,
            StatusCell::Uninitialized => arbitrary(),
        }
    }
}

impl HandleCell {
    /// The value the host wrote, meaningful only in the `Written` state.
    pub open spec fn spec_value(self) -> u32
        recommends
            self is Written,
    {
        match self {
            HandleCell::Written(v) => v,
            HandleCell::Uninitialized => arbitrary(),
        }
    }
}

/// Everything one synchronous host call left behind: its own 32-bit return
/// code and the two output cells it may have populated.
pub struct HostCallResult {
    /// The call's return code; zero signals success.
    pub code: u32,
    /// The status-code output cell.
    pub status: StatusCell,
    /// The response-handle output cell.
    pub handle: HandleCell,
}

impl HostCallResult {
    /// The host's wire contract: a zero return code means the host wrote
    /// both output cells during the call.
    pub open spec fn wf(self) -> bool {
        self.code == 0 ==> self.status is Written && self.handle is Written
    }
}

/// A successful fetch as the script caller sees it: both values the host
/// reported, recoverable individually.
#[derive(Clone, Copy, Debug, PartialEq, Eq, Structural)]
pub struct FetchSuccess {
    /// The 16-bit status code the host wrote.
    pub status_code: u16,
    /// The opaque 32-bit response handle the host wrote; this bridge never
    /// interprets it, only reports it.
    pub response_handle: u32,
}

/// The script-visible text of a successful fetch, reporting the status code
/// and the response handle in decimal.
pub open spec fn success_message(status: u16, handle: u32) -> Seq<char> {
    "fetch result: status code "@ + dec_str(status as nat) + ", response handle "@ + dec_str(
        handle as nat,
    )
}

impl FetchSuccess {
    /// Renders this success value as its script-visible text.
    pub fn message(&self) -> (m: String)
        ensures
            m@ == success_message(self.status_code, self.response_handle),
    {
        let mut m = String::new();
        m.append("fetch result: status code ");
        append_u32_decimal(&mut m, self.status_code as u32);
        m.append(", response handle ");
        append_u32_decimal(&mut m, self.response_handle);
        assert(m@ =~= success_message(self.status_code, self.response_handle));
        m
    }
}

/// Equal sequences stay equal when a shared prefix is removed.
proof fn lemma_cancel_prefix(p: Seq<char>, s: Seq<char>, t: Seq<char>)
    requires
        p + s == p + t,
    ensures
        s == t,
{
    assert((p + s).len() == p.len() + s.len());
    assert((p + t).len() == p.len() + t.len());
    assert(s.len() == t.len());
    assert(s =~= t) by {
        assert forall|i: int| 0 <= i < s.len() implies s[i] == t[i] by {
            assert((p + s)[p.len() + i] == s[i]);
            assert((p + t)[p.len() + i] == t[i]);
        }
    }
}

/// Both fields are recoverable from the success text: two success messages
/// are equal only when they report the same status code and the same
/// response handle.
pub proof fn lemma_success_message_injective(st1: u16, h1: u32, st2: u16, h2: u32)
    requires
        success_message(st1, h1) == success_message(st2, h2),
    ensures
        st1 == st2,
        h1 == h2,
{
    let p = "fetch result: status code "@;
    let q = ", response handle "@;
    let a1 = dec_str(st1 as nat);
    let a2 = dec_str(st2 as nat);
    let b1 = dec_str(h1 as nat);
    let b2 = dec_str(h2 as nat);
    assert(((p + a1) + q) + b1 =~= p + (a1 + (q + b1)));
    assert(((p + a2) + q) + b2 =~= p + (a2 + (q + b2)));
    lemma_cancel_prefix(p, a1 + (q + b1), a2 + (q + b2));
    reveal_strlit(", response handle ");
    assert(q.len() > 0 && q[0] == ',');
    assert(!is_dec_digit(','));
    assert((q + b1)[0] == q[0]);
    assert((q + b2)[0] == q[0]);
    lemma_dec_str_prefix_free(st1 as nat, st2 as nat, q + b1, q + b2);
    lemma_cancel_prefix(q, b1, b2);
    lemma_dec_value_round_trip(h1 as nat);
    lemma_dec_value_round_trip(h2 as nat);
    assert(dec_value(b1) == dec_value(b2));
}

/// Translates what the host call left behind into the invocation's result.
///
/// A nonzero return code is a [`BridgeError::HostCallError`]; the output
/// cells are then never read, so nothing of their contents reaches the
/// caller. A zero return code yields exactly the status code and response
/// handle the host wrote.
pub fn fetch_complete(result: &HostCallResult) -> (out: Result<FetchSuccess, BridgeError>)
    requires
        result.wf(),
    ensures
        out is Ok <==> result.code == 0,
        result.code != 0 ==> (out matches Err(e) && e == BridgeError::HostCallError),
        result.code == 0 ==> (out matches Ok(s) && s.status_code == result.status.spec_value()
            && s.response_handle == result.handle.spec_value()),
{
    if result.code != 0 {
        return Err(BridgeError::HostCallError);
    }
    match (&result.status, &result.handle) {
        (StatusCell::Written(status_code), HandleCell::Written(response_handle)) => Ok(
            FetchSuccess { status_code: *status_code, response_handle: *response_handle },
        ),
        _ => unreached(),
    }
}

} // verus!
