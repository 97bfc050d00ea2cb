//! Extraction of the signature cipher and the n-parameter transform from a player script.
//!
//! A player script is minified JavaScript. Somewhere in it stand a table of string
//! constants, a function that deciphers a signature and a function that transforms the
//! throttling parameter. This library finds the three by their shape and puts them
//! together as one script that declares `DisTubeDecipherFunc` and `DisTubeNTransformFunc`.
//!
//! The shapes are regular expressions ([`catalog`]); two engines search for them
//! ([`engine`], [`matcher`]); the extractors decide, search by search, which text goes into
//! the script ([`sig`]). What holds of every extraction is stated in [`laws`].

use vstd::prelude::*;
use vstd::string::StringExecFns;
use vstd::string::StringSliceAdditionalSpecFns;
use vstd::utf8::{decode_utf8, encode_utf8_decode_utf8, valid_utf8};
use crate::engine::text_of_bytes;
use crate::error::{ExtractError, InputFault};
use crate::matcher::{result_text, std_search};
use crate::sig::{
    decipher_script, extract_decipher_func, extract_n_transform_func, extract_tce_func,
    n_transform_script, table_of, table_pattern,
};

pub mod catalog;
pub mod engine;
pub mod error;
pub mod laws;
pub mod matcher;
pub mod sig;

verus! {

/// The script assembled from `body`: the decipher script with the n-transform script
/// behind it. The constant table is located first, and a failure there is the failure of
/// the whole; then the decipher function decides, then the n-transform function.
pub open spec fn assembled_script(body: Seq<char>) -> Result<Seq<char>, ExtractError> {
    match table_of(std_search(table_pattern(), body)) {
        Err(e) => Err(e),
        Ok(table) => match decipher_script(body, table.code) {
            Err(e) => Err(e),
            Ok(decipher) => match n_transform_script(body, table.name, table.code) {
                Err(e) => Err(e),
                Ok(n_transform) => Ok(decipher + n_transform),
            },
        },
    }
}

/// Extracts both functions from the player script `body` and assembles the script that
/// declares them.
pub fn extract_script(body: &str) -> (r: Result<String, ExtractError>)
    ensures
        result_text(r) == assembled_script(body@),
{
    let table = extract_tce_func(body)?;
    let mut script = extract_decipher_func(body, table.code.as_str())?;
    let n_transform = extract_n_transform_func(body, table.name.as_str(), table.code.as_str())?;
    script.append(n_transform.as_str());
    Ok(script)
}

/// What becomes of an input that may be absent and may not be text.
pub open spec fn decode_outcome(input: Option<Seq<u8>>) -> Result<Seq<char>, ExtractError> {
    match input {
        None => Err(ExtractError::InvalidInput { fault: InputFault::Null }),
        Some(bytes) => if valid_utf8(bytes) {
            assembled_script(decode_utf8(bytes))
        } else {
            Err(ExtractError::InvalidInput { fault: InputFault::Encoding })
        },
    }
}

/// What the caller is handed for an outcome: success with the script, or failure with the
/// diagnostic.
pub open spec fn report_of(outcome: Result<Seq<char>, ExtractError>) -> (bool, Seq<char>) {
    match outcome {
        Ok(script) => (true, script),
        Err(e) => (false, e.message_text()),
    }
}

/// The bytes of an input, if there is one.
pub open spec fn input_bytes(input: Option<&[u8]>) -> Option<Seq<u8>> {
    match input {
        Some(bytes) => Some(bytes@),
        None => None,
    }
}

/// Turns an outcome into what the caller is handed.
pub fn report(outcome: Result<String, ExtractError>) -> (r: (bool, String))
    ensures
        (r.0, r.1@) == report_of(result_text(outcome)),
{
    match outcome {
        Ok(script) => (true, script),
        Err(e) => (false, e.message()),
    }
}

/// The whole extraction as a caller across a process boundary sees it: `input` is the
/// player script as bytes, or nothing where the caller had none. The answer is `true` with
/// the assembled script, or `false` with a diagnostic that names the stage that failed.
pub fn extract_decode_script(input: Option<&[u8]>) -> (r: (bool, String))
    ensures
        (r.0, r.1@) == report_of(decode_outcome(input_bytes(input))),
{
    match input {
        None => report(Err(ExtractError::InvalidInput { fault: InputFault::Null })),
        Some(bytes) => match text_of_bytes(bytes) {
            None => report(Err(ExtractError::InvalidInput { fault: InputFault::Encoding })),
            Some(body) => {
                proof {
                    encode_utf8_decode_utf8(body@);
                }
                report(extract_script(body))
            },
        },
    }
}

} // verus!
