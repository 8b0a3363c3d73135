//! The conversion itself: resolve the type, decode, render, and report the
//! outcome as a result whose two texts are always present.
use crate::codec::{decode_failure, decode_to_end, is_type_name, render_json, rendering, resolve_type};
use crate::text::{contains_nul, has_nul, lemma_without_nul_keeps, strip_nul, without_nul};
use vstd::prelude::*;
use vstd::string::StringExecFns;

verus! {

/// Deepest nesting of values that a decode may enter.
pub const MAX_DEPTH: u32 = 500;

/// Most bytes that a decode may read: 32 MiB.
pub const MAX_LEN: usize = 32 * 1024 * 1024;

/// What one conversion hands back: the JSON text on success, the error text on
/// failure. `error` is empty exactly on success; on failure `json` is `{}`.
pub struct ConversionResult {
    pub json: String,
    pub error: String,
}

/// Why a conversion failed.
pub enum ConversionError {
    /// The type name is not in the codec's registry.
    UnknownType { name: String, detail: String },
    /// The bytes are not one complete encoding of the type within the limits.
    Decode { name: String, detail: String },
    /// The decoded value could not be rendered as JSON.
    Render { name: String, detail: String },
    /// The conversion stopped abnormally, with a text message or without one.
    Internal { message: Option<String> },
}

/// The text that every failure message starts with.
pub open spec fn failure_prefix() -> Seq<char> {
    "xdr_to_json() failed: "@
}

/// The message of a failure that has the given description.
pub open spec fn failure_message(detail: Seq<char>) -> Seq<char> {
    failure_prefix() + without_nul(detail)
}

/// Describes a failure in words.
pub open spec fn error_detail(e: ConversionError) -> Seq<char> {
    match e {
        ConversionError::UnknownType { name, detail } => "couldn't match type "@
            + name@ + ": "@ + detail@,
        ConversionError::Decode { name, detail } => "couldn't read "@ + name@ + ": "@
            + detail@,
        ConversionError::Render { name, detail } => "couldn't render "@ + name@
            + ": "@ + detail@,
        ConversionError::Internal { message } => match message {
            Some(m) => m@,
            None => "unknown cause"@,
        },
    }
}

/// What is reported where the rendered JSON text holds a NUL character.
pub open spec fn nul_in_json_detail() -> Seq<char> {
    "rendered JSON holds a NUL character"@
}

/// The result that reports `outcome`.
pub open spec fn reports(r: ConversionResult, outcome: Result<String, ConversionError>) -> bool {
    match outcome {
        Ok(json) => if has_nul(json@) {
            r.json@ == "{}"@ && r.error@ == failure_message(nul_in_json_detail())
        } else {
            r.json@ == json@ && r.error@.len() == 0
        },
        Err(e) => r.json@ == "{}"@ && r.error@ == failure_message(error_detail(e)),
    }
}

/// Both texts can cross a C boundary, and exactly one of them carries the outcome.
pub open spec fn is_boundary_safe(r: ConversionResult) -> bool {
    &&& !has_nul(r.json@)
    &&& !has_nul(r.error@)
    &&& r.error@.len() == 0 || r.json@ == "{}"@
}

/// How converting `bytes` as a value of the type called `name` ends: the JSON
/// text, or the description of the failure. An unknown name fails whatever the
/// bytes; a known one fails where the bytes do not decode within the limits or
/// the value does not render.
pub open spec fn conversion(name: Seq<char>, bytes: Seq<u8>) -> Result<Seq<char>, Seq<char>> {
    if !is_type_name(name) {
        Err("couldn't match type "@ + name + ": "@ + "xdr value invalid"@)
    } else {
        match decode_failure(name, bytes, MAX_DEPTH as nat, MAX_LEN as nat) {
            Some(m) => Err("couldn't read "@ + name + ": "@ + m),
            None => match rendering(name, bytes) {
                Ok(j) => Ok(j),
                Err(m) => Err("couldn't render "@ + name + ": "@ + m),
            },
        }
    }
}

/// Decoding must end exactly at the end of the bytes: where `bytes` decode as
/// a value of the type called `name`, the same bytes with more after them do
/// not, and neither does any strict prefix of them.
pub open spec fn reads_to_end(name: Seq<char>, bytes: Seq<u8>) -> bool {
    decode_failure(name, bytes, MAX_DEPTH as nat, MAX_LEN as nat) is None ==> {
        &&& forall|x: Seq<u8>|
            x.len() > 0 ==> (#[trigger] decode_failure(
                name,
                bytes + x,
                MAX_DEPTH as nat,
                MAX_LEN as nat,
            )) is Some
        &&& forall|k: int|
            0 <= k < bytes.len() ==> (#[trigger] decode_failure(
                name,
                bytes.subrange(0, k),
                MAX_DEPTH as nat,
                MAX_LEN as nat,
            )) is Some
    }
}

/// Whether `outcome` is how converting `bytes` as a value of the type called
/// `name` ends, with the failure told apart by the stage that failed.
pub open spec fn is_outcome_of(
    name: Seq<char>,
    bytes: Seq<u8>,
    outcome: Result<String, ConversionError>,
) -> bool {
    if !is_type_name(name) {
        outcome matches Err(ConversionError::UnknownType { name: n, detail: d }) && n@ == name
            && d@ == "xdr value invalid"@
    } else {
        match decode_failure(name, bytes, MAX_DEPTH as nat, MAX_LEN as nat) {
            Some(m) => outcome matches Err(ConversionError::Decode { name: n, detail: d }) && n@
                == name && d@ == m,
            None => match rendering(name, bytes) {
                Ok(j) => outcome matches Ok(s) && s@ == j,
                Err(m) => outcome matches Err(ConversionError::Render { name: n, detail: d }) && n@
                    == name && d@ == m,
            },
        }
    }
}

/// Whether `r` is the result of converting `bytes` as a value of the type
/// called `name`.
pub open spec fn is_conversion_of(r: ConversionResult, name: Seq<char>, bytes: Seq<u8>) -> bool {
    match conversion(name, bytes) {
        Ok(j) => if has_nul(j) {
            r.json@ == "{}"@ && r.error@ == failure_message(nul_in_json_detail())
        } else {
            r.json@ == j && r.error@.len() == 0
        },
        Err(d) => r.json@ == "{}"@ && r.error@ == failure_message(d),
    }
}

/// The message of a failure, without its common prefix.
pub fn describe(e: &ConversionError) -> (r: String)
    ensures
        r@ == error_detail(*e),
{
    match e {
        ConversionError::UnknownType { name, detail } => {
            let mut r = String::from_str("couldn't match type ");
            r.append(name.as_str());
            r.append(": ");
            r.append(detail.as_str());
            r
        },
        ConversionError::Decode { name, detail } => {
            let mut r = String::from_str("couldn't read ");
            r.append(name.as_str());
            r.append(": ");
            r.append(detail.as_str());
            r
        },
        ConversionError::Render { name, detail } => {
            let mut r = String::from_str("couldn't render ");
            r.append(name.as_str());
            r.append(": ");
            r.append(detail.as_str());
            r
        },
        ConversionError::Internal { message } => match message {
            Some(m) => m.clone(),
            None => String::from_str("unknown cause"),
        },
    }
}

/// A failure result with the given description.
pub fn failure(detail: &str) -> (r: ConversionResult)
    ensures
        r.json@ == "{}"@,
        r.error@ == failure_message(detail@),
        !has_nul(detail@) ==> r.error@ == failure_prefix() + detail@,
        is_boundary_safe(r),
{
    let mut error = String::from_str("xdr_to_json() failed: ");
    let clean = strip_nul(detail);
    error.append(clean.as_str());
    let json = String::from_str("{}");
    proof {
        reveal_strlit("xdr_to_json() failed: ");
        reveal_strlit("{}");
        lemma_no_nul_concat(failure_prefix(), without_nul(detail@));
        assert(!has_nul("{}"@));
        if !has_nul(detail@) {
            lemma_without_nul_keeps(detail@);
        }
    }
    ConversionResult { json, error }
}

/// Two texts without NUL characters make one without them.
pub proof fn lemma_no_nul_concat(a: Seq<char>, b: Seq<char>)
    requires
        !has_nul(a),
        !has_nul(b),
    ensures
        !has_nul(a + b),
{
    assert forall|i: int| 0 <= i < (a + b).len() implies (a + b)[i] != '\0' by {
        if i < a.len() {
            assert((a + b)[i] == a[i]);
        } else {
            assert((a + b)[i] == b[i - a.len()]);
        }
    }
}

/// The result that reports `outcome`: the JSON text on success, the failure's
/// message otherwise. Rendered text that holds a NUL character is reported as
/// a failure, since it cannot cross a C boundary.
pub fn success_or_failure(outcome: Result<String, ConversionError>) -> (r: ConversionResult)
    ensures
        reports(r, outcome),
        is_boundary_safe(r),
        match outcome {
            Err(e) => !has_nul(error_detail(e)) ==> r.error@ == failure_prefix() + error_detail(e),
            Ok(_) => true,
        },
{
    match outcome {
        Ok(json) => {
            if contains_nul(json.as_str()) {
                failure("rendered JSON holds a NUL character")
            } else {
                ConversionResult { json, error: String::new() }
            }
        },
        Err(e) => {
            let detail = describe(&e);
            failure(detail.as_str())
        },
    }
}

/// The result that reports an abnormal stop, with its message where it had one.
pub fn caught_panic_result(message: Option<String>) -> (r: ConversionResult)
    ensures
        reports(r, Err(ConversionError::Internal { message })),
        is_boundary_safe(r),
        r.json@ == "{}"@,
        r.error@.len() > 0,
        message is None ==> r.error@ == failure_prefix() + "unknown cause"@,
        match message {
            Some(m) => !has_nul(m@) ==> r.error@ == failure_prefix() + m@,
            None => true,
        },
{
    let r = success_or_failure(Err(ConversionError::Internal { message }));
    proof {
        reveal_strlit("xdr_to_json() failed: ");
        reveal_strlit("unknown cause");
        if message is None {
            assert(!has_nul("unknown cause"@));
        }
    }
    r
}

/// A failure of any kind is reported with `{}` as the JSON text and a
/// message that is not empty.
pub proof fn lemma_failure_reported(r: ConversionResult, e: ConversionError)
    requires
        reports(r, Err(e)),
    ensures
        r.json@ == "{}"@,
        r.error@.len() > 0,
        r.error@.subrange(0, failure_prefix().len() as int) == failure_prefix(),
{
    reveal_strlit("xdr_to_json() failed: ");
    assert(r.error@.subrange(0, failure_prefix().len() as int) =~= failure_prefix());
}

/// Rendered JSON text without NUL characters is reported as it is, with an
/// empty error text.
pub proof fn lemma_success_reported(r: ConversionResult, json: String)
    requires
        !has_nul(json@),
        reports(r, Ok(json)),
    ensures
        r.json@ == json@,
        r.error@.len() == 0,
{
}

/// Converting the same bytes as the same type twice gives the same texts.
pub proof fn lemma_conversion_is_determined(
    r1: ConversionResult,
    r2: ConversionResult,
    name: Seq<char>,
    bytes: Seq<u8>,
)
    requires
        is_conversion_of(r1, name, bytes),
        is_conversion_of(r2, name, bytes),
    ensures
        r1.json@ == r2.json@,
        r1.error@ == r2.error@,
{
}

/// An unknown type name fails in the same way whatever the bytes, with `{}` as
/// the JSON text and a message that names the type.
pub proof fn lemma_unknown_name_ignores_bytes(
    r1: ConversionResult,
    r2: ConversionResult,
    name: Seq<char>,
    bytes1: Seq<u8>,
    bytes2: Seq<u8>,
)
    requires
        !is_type_name(name),
        is_conversion_of(r1, name, bytes1),
        is_conversion_of(r2, name, bytes2),
    ensures
        r1.json@ == "{}"@,
        r1.json@ == r2.json@,
        r1.error@ == r2.error@,
        r1.error@ == failure_message("couldn't match type "@ + name + ": "@ + "xdr value invalid"@),
        r1.error@.len() > 0,
{
    reveal_strlit("xdr_to_json() failed: ");
}

/// Bytes that decode completely, with more bytes after them, fail to convert:
/// `{}` as the JSON text and a message that is not empty.
pub proof fn lemma_trailing_bytes_fail(
    r: ConversionResult,
    name: Seq<char>,
    bytes: Seq<u8>,
    extra: Seq<u8>,
)
    requires
        is_type_name(name),
        reads_to_end(name, bytes),
        decode_failure(name, bytes, MAX_DEPTH as nat, MAX_LEN as nat) is None,
        extra.len() > 0,
        is_conversion_of(r, name, bytes + extra),
    ensures
        r.json@ == "{}"@,
        r.error@.len() > 0,
{
    reveal_strlit("xdr_to_json() failed: ");
    assert(decode_failure(name, bytes + extra, MAX_DEPTH as nat, MAX_LEN as nat) is Some);
}

/// A strict prefix of bytes that decode completely fails to convert: `{}` as
/// the JSON text and a message that is not empty.
pub proof fn lemma_truncated_bytes_fail(r: ConversionResult, name: Seq<char>, bytes: Seq<u8>, k: int)
    requires
        is_type_name(name),
        reads_to_end(name, bytes),
        decode_failure(name, bytes, MAX_DEPTH as nat, MAX_LEN as nat) is None,
        0 <= k < bytes.len(),
        is_conversion_of(r, name, bytes.subrange(0, k)),
    ensures
        r.json@ == "{}"@,
        r.error@.len() > 0,
{
    reveal_strlit("xdr_to_json() failed: ");
    assert(decode_failure(name, bytes.subrange(0, k), MAX_DEPTH as nat, MAX_LEN as nat) is Some);
}

/// Resolves `name`, decodes `xdr` as one complete value of that type under
/// [`MAX_DEPTH`] and [`MAX_LEN`], and renders it as JSON text.
pub fn convert_decoded(name: &str, xdr: &[u8]) -> (r: Result<String, ConversionError>)
    ensures
        is_outcome_of(name@, xdr@, r),
        xdr@.len() > MAX_LEN ==> r is Err,
        r matches Ok(j) ==> !has_nul(j@),
        is_type_name(name@) ==> reads_to_end(name@, xdr@),
{
    let t = match resolve_type(name) {
        Ok(t) => t,
        Err(detail) => {
            return Err(ConversionError::UnknownType { name: String::from_str(name), detail });
        },
    };
    let d = match decode_to_end(&t, xdr, MAX_DEPTH, MAX_LEN) {
        Ok(d) => d,
        Err(detail) => {
            return Err(ConversionError::Decode { name: String::from_str(name), detail });
        },
    };
    match render_json(&d) {
        Ok(json) => Ok(json),
        Err(detail) => Err(ConversionError::Render { name: String::from_str(name), detail }),
    }
}

/// Converts `xdr`, the encoding of a value of the type called `name`, into
/// JSON text. Never fails as a call: the outcome is in the result's texts.
pub fn convert(name: &str, xdr: &[u8]) -> (r: ConversionResult)
    ensures
        is_conversion_of(r, name@, xdr@),
        is_boundary_safe(r),
        conversion(name@, xdr@) is Ok ==> r.error@.len() == 0,
        is_type_name(name@) ==> reads_to_end(name@, xdr@),
        !is_type_name(name@) ==> r.json@ == "{}"@ && r.error@.len() > 0,
        is_type_name(name@) && decode_failure(name@, xdr@, MAX_DEPTH as nat, MAX_LEN as nat) is Some
            ==> r.json@ == "{}"@ && r.error@.len() > 0,
        xdr@.len() > MAX_LEN ==> r.json@ == "{}"@ && r.error@.len() > 0,
        match conversion(name@, xdr@) {
            Ok(j) => if has_nul(j) {
                r.json@ == "{}"@ && r.error@.len() > 0
            } else {
                r.json@ == j && r.error@.len() == 0
            },
            Err(_) => r.json@ == "{}"@ && r.error@.len() > 0,
        },
{
    let outcome = convert_decoded(name, xdr);
    let ghost o = outcome;
    let r = success_or_failure(outcome);
    proof {
        reveal_strlit("xdr_to_json() failed: ");
        if xdr@.len() > MAX_LEN {
            assert(o is Err);
        }
    }
    r
}

} // verus!
