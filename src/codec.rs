//! The calls into the XDR codec and the JSON serializer, with what is relied on of each.
use crate::text::has_nul;
use std::str::FromStr;
use stellar_xdr::curr::{Limits, Type, TypeVariant};
use vstd::prelude::*;

verus! {

#[verifier::external_type_specification]
#[verifier::external_body]
pub struct ExTypeVariant(TypeVariant);

#[verifier::external_type_specification]
#[verifier::external_body]
pub struct ExType(Type);

/// Whether `name` is, letter for letter, the name of a type in the codec's registry.
pub uninterp spec fn is_type_name(name: Seq<char>) -> bool;

/// How decoding `bytes` as one complete value of the type called `name`, with
/// at most `depth` levels of nesting and `len` bytes read, ends: `None` when it
/// succeeds, else the codec's message.
pub uninterp spec fn decode_failure(name: Seq<char>, bytes: Seq<u8>, depth: nat, len: nat) -> Option<
    Seq<char>,
>;

/// How rendering the value that `bytes` encodes, as a value of the type called
/// `name`, ends: the JSON text, or the serializer's message.
pub uninterp spec fn rendering(name: Seq<char>, bytes: Seq<u8>) -> Result<Seq<char>, Seq<char>>;

/// A type of the registry, together with the name it was resolved from.
pub struct ResolvedType<'a> {
    name: &'a str,
    variant: TypeVariant,
}

impl<'a> ResolvedType<'a> {
    /// The name this type was resolved from.
    pub closed spec fn name(&self) -> Seq<char> {
        self.name@
    }
}

/// A decoded value, together with the type name and the bytes it came from.
pub struct Decoded<'a> {
    name: &'a str,
    bytes: &'a [u8],
    value: Type,
}

impl<'a> Decoded<'a> {
    /// The name of the type the value was decoded as.
    pub closed spec fn name(&self) -> Seq<char> {
        self.name@
    }

    /// The bytes the value was decoded from.
    pub closed spec fn bytes(&self) -> Seq<u8> {
        self.bytes@
    }
}

/// Relies on `<TypeVariant as FromStr>::from_str`: it matches the text exactly
/// against the registry's names, and on any other text fails with
/// `Error::Invalid`, whose message is "xdr value invalid".
#[verifier::external_body]
pub(crate) fn resolve_type<'a>(name: &'a str) -> (r: Result<ResolvedType<'a>, String>)
    ensures
        r is Ok <==> is_type_name(name@),
        r matches Ok(t) ==> t.name() == name@,
        r matches Err(m) ==> m@ == "xdr value invalid"@,
{
    match TypeVariant::from_str(name) {
        Ok(variant) => Ok(ResolvedType { name, variant }),
        Err(e) => Err(e.to_string()),
    }
}

/// Relies on `Type::from_xdr`: it decodes one value of type `t` from `bytes`
/// under the given depth and length limits, and fails where bytes are left
/// over. Every byte it takes counts against `len`, so more than `len` bytes
/// never decode. The outcome depends on the name, the bytes and the limits alone.
/// Decoding reads the bytes in order and must end exactly at their end, so
/// where `bytes` decode, the same bytes with more after them fail, and so does
/// every strict prefix of them. The decoder recurses once per level of nesting;
/// the depth limit is what keeps that recursion within the stack, so it is
/// held to a small bound here.
#[verifier::external_body]
pub(crate) fn decode_to_end<'a>(t: &ResolvedType<'a>, bytes: &'a [u8], depth: u32, len: usize) -> (r:
    Result<Decoded<'a>, String>)
    requires
        depth <= 500,
    ensures
        r is Ok <==> decode_failure(t.name(), bytes@, depth as nat, len as nat) is None,
        r matches Err(m) ==> (decode_failure(t.name(), bytes@, depth as nat, len as nat) matches Some(
            k,
        ) && k == m@),
        r matches Ok(d) ==> d.name() == t.name() && d.bytes() == bytes@,
        r is Ok ==> bytes@.len() <= len,
        r is Ok ==> forall|x: Seq<u8>|
            x.len() > 0 ==> (#[trigger] decode_failure(
                t.name(),
                bytes@ + x,
                depth as nat,
                len as nat,
            )) is Some,
        r is Ok ==> forall|k: int|
            0 <= k < bytes@.len() ==> (#[trigger] decode_failure(
                t.name(),
                bytes@.subrange(0, k),
                depth as nat,
                len as nat,
            )) is Some,
{
    match Type::from_xdr(t.variant, bytes, Limits { depth, len }) {
        Ok(value) => Ok(Decoded { name: t.name, bytes, value }),
        Err(e) => Err(e.to_string()),
    }
}

/// Relies on `serde_json::to_string`: it renders a decoded value as JSON text,
/// escaping every control character, NUL among them. The outcome depends on
/// the value alone.
#[verifier::external_body]
pub(crate) fn render_json(d: &Decoded) -> (r: Result<String, String>)
    ensures
        r matches Ok(j) ==> (rendering(d.name(), d.bytes()) matches Ok(k) && k == j@),
        r matches Ok(j) ==> !has_nul(j@),
        r matches Err(m) ==> (rendering(d.name(), d.bytes()) matches Err(k) && k == m@),
{
    match serde_json::to_string(&d.value) {
        Ok(j) => Ok(j),
        Err(e) => Err(e.to_string()),
    }
}

} // verus!
