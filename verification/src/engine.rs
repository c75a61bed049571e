//! Trusted boundary to the brotli engine.
//!
//! Everything the sessions know about the engine is stated here, as contracts
//! on thin wrappers around the engine's entry points. The engine state is
//! opaque and history-dependent, so the contracts only state what holds of
//! every outcome: how the cursor pairs move, and what a reported status
//! implies about them. The sessions re-check every protocol decision in
//! verified code.

use vstd::prelude::*;

verus! {

/// Owns the engine's encoder state, exclusively. Verus refuses a declaration
/// of the engine's state type (its generics are bound by the engine crate's
/// own traits), so the state sits opaque in this one field and the trusted
/// wrappers below are the only view of it.
#[verifier::external_body]
pub struct EncoderHandle {
    state: brotli::enc::encode::BrotliEncoderStateStruct<brotli::enc::StandardAlloc>,
}

/// Owns the engine's decoder state, exclusively; opaque for the same reason
/// as `EncoderHandle`.
#[verifier::external_body]
pub struct DecoderHandle {
    state: brotli::BrotliState<
        brotli::enc::StandardAlloc,
        brotli::enc::StandardAlloc,
        brotli::enc::StandardAlloc,
    >,
}

/// What one decoder call reported, with the engine's fault code on failure.
pub enum DecoderVerdict {
    Success,
    NeedsMoreInput,
    NeedsMoreOutput,
    Failure(i32),
}

/// Relies on `BrotliEncoderStateStruct::new`: builds a fresh encoder over the
/// standard allocator; it cannot fail.
#[verifier::external_body]
pub(crate) fn encoder_new() -> EncoderHandle {
    EncoderHandle {
        state: brotli::enc::encode::BrotliEncoderStateStruct::new(
            brotli::enc::StandardAlloc::default(),
        ),
    }
}

/// Relies on `BrotliEncoderStateStruct::set_parameter` with
/// `BROTLI_PARAM_QUALITY`: records the requested quality if encoding has not
/// started yet, and reports whether the parameter was accepted.
#[verifier::external_body]
pub(crate) fn encoder_set_quality(enc: &mut EncoderHandle, quality: u32) -> (accepted: bool) {
    enc.state.set_parameter(
        brotli::enc::encode::BrotliEncoderParameter::BROTLI_PARAM_QUALITY,
        quality,
    )
}

/// Relies on `BrotliEncoderStateStruct::compress_stream` in process mode: on
/// every return it consumes a prefix of the unread input and fills a prefix
/// of the unused output, moving each (offset, remaining) cursor pair in
/// lockstep and never growing either buffer. `true` means the engine accepted
/// the call; which prefixes move is the engine's choice and is not promised.
#[verifier::external_body]
pub(crate) fn encoder_process(
    enc: &mut EncoderHandle,
    available_in: &mut usize,
    input: &Vec<u8>,
    input_offset: &mut usize,
    available_out: &mut usize,
    output: &mut Vec<u8>,
    output_offset: &mut usize,
) -> (ok: bool)
    requires
        *old(input_offset) + *old(available_in) <= input@.len(),
        *old(output_offset) + *old(available_out) <= old(output)@.len(),
    ensures
        *final(available_in) <= *old(available_in),
        *final(input_offset) + *final(available_in) == *old(input_offset) + *old(available_in),
        *final(available_out) <= *old(available_out),
        *final(output_offset) + *final(available_out) == *old(output_offset) + *old(
            available_out,
        ),
        final(output)@.len() == old(output)@.len(),
{
    enc.state.compress_stream(
        brotli::enc::encode::BrotliEncoderOperation::BROTLI_OPERATION_PROCESS,
        available_in, input.as_slice(), input_offset,
        available_out, output.as_mut_slice(), output_offset,
        &mut None, &mut |_, _, _, _| (),
    )
}

/// Relies on `BrotliEncoderStateStruct::compress_stream` in finish mode, with
/// no input: on every return it fills a prefix of the unused output, moving
/// the (offset, remaining) cursor pair in lockstep and never growing the
/// buffer. `true` means the engine accepted the call.
#[verifier::external_body]
pub(crate) fn encoder_finish(
    enc: &mut EncoderHandle,
    available_out: &mut usize,
    output: &mut Vec<u8>,
    output_offset: &mut usize,
) -> (ok: bool)
    requires
        *old(output_offset) + *old(available_out) <= old(output)@.len(),
    ensures
        *final(available_out) <= *old(available_out),
        *final(output_offset) + *final(available_out) == *old(output_offset) + *old(
            available_out,
        ),
        final(output)@.len() == old(output)@.len(),
{
    let mut available_in: usize = 0;
    let mut input_offset: usize = 0;
    enc.state.compress_stream(
        brotli::enc::encode::BrotliEncoderOperation::BROTLI_OPERATION_FINISH,
        &mut available_in, &[], &mut input_offset,
        available_out, output.as_mut_slice(), output_offset,
        &mut None, &mut |_, _, _, _| (),
    )
}

/// Relies on `BrotliEncoderStateStruct::is_finished`: true once the encoder
/// has sealed the stream and holds no pending output.
#[verifier::external_body]
pub(crate) fn encoder_is_finished(enc: &EncoderHandle) -> bool {
    enc.state.is_finished()
}

/// Relies on `BrotliState::new`: builds a fresh decoder over the standard
/// allocator; it cannot fail.
#[verifier::external_body]
pub(crate) fn decoder_new() -> DecoderHandle {
    let alloc = brotli::enc::StandardAlloc::default();
    DecoderHandle {
        state: brotli::BrotliState::new(alloc, alloc, alloc),
    }
}

/// Relies on `brotli::BrotliDecompressStream`: on every return it consumes a
/// prefix of the unread input and fills a prefix of the unused output, moving
/// each (offset, remaining) cursor pair in lockstep and never growing either
/// buffer. On failure the verdict carries the engine's fault code, read from
/// the decoder state where the call stores it; the engine's fault codes are
/// all negative.
#[verifier::external_body]
pub(crate) fn decoder_decompress_stream(
    dec: &mut DecoderHandle,
    available_in: &mut usize,
    input: &Vec<u8>,
    input_offset: &mut usize,
    available_out: &mut usize,
    output: &mut Vec<u8>,
    output_offset: &mut usize,
) -> (verdict: DecoderVerdict)
    requires
        *old(input_offset) + *old(available_in) <= input@.len(),
        *old(output_offset) + *old(available_out) <= old(output)@.len(),
    ensures
        *final(available_in) <= *old(available_in),
        *final(input_offset) + *final(available_in) == *old(input_offset) + *old(available_in),
        *final(available_out) <= *old(available_out),
        *final(output_offset) + *final(available_out) == *old(output_offset) + *old(
            available_out,
        ),
        final(output)@.len() == old(output)@.len(),
        verdict matches DecoderVerdict::Failure(code) ==> code < 0,
{
    let mut total_out: usize = 0;
    match brotli::BrotliDecompressStream(
        available_in, input_offset, input.as_slice(),
        available_out, output_offset, output.as_mut_slice(),
        &mut total_out, &mut dec.state,
    ) {
        brotli::BrotliResult::ResultSuccess => DecoderVerdict::Success,
        brotli::BrotliResult::NeedsMoreInput => DecoderVerdict::NeedsMoreInput,
        brotli::BrotliResult::NeedsMoreOutput => DecoderVerdict::NeedsMoreOutput,
        brotli::BrotliResult::ResultFailure => DecoderVerdict::Failure(dec.state.error_code as i32),
    }
}

} // verus!
