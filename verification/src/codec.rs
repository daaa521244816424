//! The command envelope codec.
//!
//! Outbound, a payload is wrapped in a self-describing JSON envelope that
//! carries the callback identifier the host runtime should answer to, and
//! the envelope is wrapped once more in the script that makes the host
//! either dispatch it immediately or park it in a host-local pending list.
//!
//! Inbound, a host-supplied value arrives as text that is either the
//! structural JSON document itself or a JSON string whose contents are
//! that document — host runtimes differ in which of the two they hand
//! over.  [`decode`] accepts both: strict structural reading first, then
//! the string fallback, and only then an error.  The bridge never
//! interprets the document beyond this framing.

use vstd::prelude::*;
use vstd::string::StringExecFns;

verus! {

/// Whether the text is one well-formed JSON document (surrounding
/// whitespace aside, nothing precedes or follows it).
pub uninterp spec fn json_wellformed(s: Seq<char>) -> bool;

/// The decoded contents of the text when it is one JSON string literal;
/// `None` when it is anything else.
pub uninterp spec fn json_string_content(s: Seq<char>) -> Option<Seq<char>>;

/// Relies on serde_json::from_str::<serde_json::Value>: it returns `Ok`
/// exactly when the whole input is one well-formed JSON document, a fact
/// of the input text alone.
#[verifier::external_body]
fn check_json(s: &str) -> (r: bool)
    ensures
        r == json_wellformed(s@),
{
    serde_json::from_str::<serde_json::Value>(s).is_ok()
}

/// Relies on serde_json::from_str::<String>: it returns `Ok` exactly when
/// the whole input is one JSON string literal, and then yields the
/// literal's decoded contents, a function of the input text alone.
#[verifier::external_body]
fn parse_json_string(s: &str) -> (r: Option<String>)
    ensures
        (r is Some) == (json_string_content(s@) is Some),
        r matches Some(c) ==> json_string_content(s@) == Some(c@),
{
    serde_json::from_str::<String>(s).ok()
}

/// Strict structural reading: the text is itself the JSON document — well
/// formed and not a bare string literal.
pub open spec fn strict_decodes(s: Seq<char>) -> bool {
    json_wellformed(s) && json_string_content(s) is None
}

/// String fallback: the text is a JSON string literal whose contents read
/// strictly.
pub open spec fn fallback_decodes(s: Seq<char>) -> bool {
    json_string_content(s) matches Some(c) && strict_decodes(c)
}

/// What decoding yields: the document itself when it reads strictly, the
/// unwrapped string contents when only the fallback applies, nothing
/// otherwise.
pub open spec fn decode_spec(s: Seq<char>) -> Option<Seq<char>> {
    if strict_decodes(s) {
        Some(s)
    } else if fallback_decodes(s) {
        Some(json_string_content(s).unwrap())
    } else {
        None
    }
}

/// Why a host-supplied value could not be decoded.
#[derive(Clone, Copy, Debug, PartialEq, Eq, Structural)]
pub enum DecodeError {
    /// The value is not well-formed JSON at all.
    NotJson,
    /// The value is a JSON string, but its contents are not a structural
    /// JSON document, so the string fallback failed as well.
    StringNotStructural,
}

/// The error that [`decode`] reports for a given undecodable text.
pub open spec fn decode_error_spec(s: Seq<char>) -> DecodeError {
    if json_string_content(s) is Some {
        DecodeError::StringNotStructural
    } else {
        DecodeError::NotJson
    }
}

/// The description [`DecodeError::describe`] yields for each error.
pub open spec fn decode_error_text(e: DecodeError) -> Seq<char> {
    match e {
        DecodeError::NotJson => "payload is not well-formed JSON"@,
        DecodeError::StringNotStructural => "string payload does not contain a JSON document"@,
    }
}

impl DecodeError {
    /// A human-readable description, for logs and error surfaces.
    pub fn describe(&self) -> (s: String)
        ensures
            s@ == decode_error_text(*self),
    {
        match *self {
            DecodeError::NotJson => "payload is not well-formed JSON".to_owned(),
            DecodeError::StringNotStructural => "string payload does not contain a JSON document".to_owned(),
        }
    }
}

/// Decodes a host-supplied value defensively: strict structural reading
/// first, then the string fallback for hosts that pass serialized text
/// instead of the object itself, and an error only when both fail.
/// Decoding mutates nothing, and decoding an already-decoded document
/// yields it unchanged.
pub fn decode(raw: &str) -> (r: Result<String, DecodeError>)
    ensures
        match r {
            Ok(p) => decode_spec(raw@) == Some(p@),
            Err(e) => decode_spec(raw@) is None && e == decode_error_spec(raw@),
        },
{
    match parse_json_string(raw) {
        Some(content) => {
            // Strict reading is off the table: the value is a bare string.
            // Fall back to its contents, which must themselves read
            // strictly.
            if check_json(content.as_str()) && parse_json_string(content.as_str()).is_none() {
                Ok(content)
            } else {
                Err(DecodeError::StringNotStructural)
            }
        },
        None => {
            if check_json(raw) {
                Ok(raw.to_owned())
            } else {
                Err(DecodeError::NotJson)
            }
        },
    }
}

/// Decode is idempotent: whatever a decode yields, decoding it again
/// yields the same document and reports no error.
pub proof fn lemma_decode_idempotent(s: Seq<char>, p: Seq<char>)
    requires
        decode_spec(s) == Some(p),
    ensures
        decode_spec(p) == Some(p),
{
    assert(strict_decodes(p));
}

/// The envelope placed around a payload: a JSON object carrying the
/// callback identifier to answer to and the payload as its `data` field.
pub open spec fn envelope_of(id: Seq<char>, data: Seq<char>) -> Seq<char> {
    "{\"callback_id\":\""@ + id + "\",\"data\":"@ + data + "}"@
}

/// Builds the wire envelope for `payload` on behalf of `callback_id`.
/// Payload and identifier are embedded verbatim — the bridge does not
/// interpret the payload, and identifiers in the generated shape (see
/// [`crate::ident`]) need no escaping.
pub fn encode_envelope(callback_id: &str, payload: &str) -> (m: String)
    ensures
        m@ == envelope_of(callback_id@, payload@),
{
    let mut m = String::new();
    m.append("{\"callback_id\":\"");
    m.append(callback_id);
    m.append("\",\"data\":");
    m.append(payload);
    m.append("}");
    proof {
        assert(m@ =~= envelope_of(callback_id@, payload@));
    }
    m
}

/// The script the host runtime evaluates for one envelope: dispatch the
/// command immediately when the host's listener is installed, otherwise
/// append it to the host-local pending list for replay once a listener
/// arrives.
pub open spec fn delivery_script_of(envelope: Seq<char>) -> Seq<char> {
    "(function () { const c = "@ + envelope
        + "; if (typeof window.dispatchStageCommand !== 'function') { window._stageCmdQueue = window._stageCmdQueue || []; window._stageCmdQueue.push(c); } else { window.dispatchStageCommand(c); } })();"@
}

/// Wraps an envelope in the queue-or-dispatch script for the host side.
pub fn delivery_script(envelope: &str) -> (s: String)
    ensures
        s@ == delivery_script_of(envelope@),
{
    let mut s = String::new();
    s.append("(function () { const c = ");
    s.append(envelope);
    s.append(
        "; if (typeof window.dispatchStageCommand !== 'function') { window._stageCmdQueue = window._stageCmdQueue || []; window._stageCmdQueue.push(c); } else { window.dispatchStageCommand(c); } })();",
    );
    proof {
        assert(s@ =~= delivery_script_of(envelope@));
    }
    s
}

} // verus!
