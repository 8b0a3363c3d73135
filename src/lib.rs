//! Converts an XDR-encoded value of a named Stellar type into JSON text.
//!
//! The conversion is total: every call yields a [`ConversionResult`] whose
//! `error` text is empty on success, and whose `json` text is `{}` on failure.
//! Neither text ever holds a NUL character, so both can be handed across a
//! C boundary as null-terminated strings.
mod codec;
mod engine;
mod text;

pub use codec::{decode_failure, is_type_name, rendering};
pub use engine::{
    caught_panic_result, convert, convert_decoded, describe, error_detail, failure,
    failure_message, failure_prefix, is_boundary_safe, lemma_failure_reported, lemma_no_nul_concat,
    lemma_success_reported, nul_in_json_detail,
    is_conversion_of, is_outcome_of, conversion, lemma_conversion_is_determined,
    lemma_trailing_bytes_fail, lemma_truncated_bytes_fail,
    lemma_unknown_name_ignores_bytes, reads_to_end, reports, success_or_failure, ConversionError, ConversionResult, MAX_DEPTH,
    MAX_LEN,
};
pub use text::{
    contains_nul, has_nul, lemma_without_nul_has_none, lemma_without_nul_keeps, strip_nul,
    without_nul,
};
