//! Incremental brotli compression and decompression sessions.
//!
//! The heart of the crate is the streaming session protocol in [`stream`]:
//! how one long compress or decompress run is split across repeated calls,
//! how consumed-input and produced-output accounting stays consistent, and
//! how "need more input" is kept apart from "need more output" and from the
//! engine's fatal faults. The engine itself is an outside collaborator,
//! reached only through the trusted boundary of the engine module.
//!
//! The one-shot [`compress`] and [`decompress`] entry points are thin loops
//! composed from the same session primitives.

mod engine;
pub mod stream;

use vstd::prelude::*;

use crate::stream::{BrotliStreamResultCode, CompressStream, DecompressStream, StreamError};

verus! {

/// Options for the one-shot [`compress`] entry point.
pub struct Options {
    /// The encoder's effort/ratio parameter. The engine clamps it to its own
    /// supported range; 11 asks for the densest output.
    pub quality: i32,
}

impl Default for Options {
    /// The default asks for the densest output.
    fn default() -> (r: Options)
        ensures
            r.quality == 11,
    {
        Options { quality: 11 }
    }
}

/// Copy of the suffix of `v` that starts at `from`.
fn tail_copy(v: &Vec<u8>, from: usize) -> (r: Vec<u8>)
    requires
        from <= v@.len(),
    ensures
        r@ == v@.subrange(from as int, v@.len() as int),
{
    let mut r: Vec<u8> = Vec::new();
    let mut i: usize = from;
    while i < v.len()
        invariant
            from <= i <= v@.len(),
            r@ == v@.subrange(from as int, i as int),
        decreases v@.len() - i,
    {
        let b = v[i];
        r.push(b);
        i = i + 1;
        proof {
            assert(v@.subrange(from as int, i as int) =~= v@.subrange(
                from as int,
                i - 1,
            ).push(v@[i - 1]));
        }
    }
    r
}

/// One-shot compression: opens a session with the requested quality, feeds
/// it the whole buffer with an output capacity sized to the input (growing
/// the collected output as the engine asks), then finishes the stream. The
/// result is the engine-defined compressed form of `buf`.
///
/// Every error of the underlying session is passed through; `SessionClosed`
/// cannot occur, since the session is driven to its terminal state exactly
/// once.
pub fn compress(buf: &Vec<u8>, options: &Options) -> (r: Result<Vec<u8>, StreamError>)
    ensures
        !(r matches Err(StreamError::SessionClosed)),
        !(r matches Err(StreamError::ConfigurationError)),
        r matches Err(StreamError::EngineError(code)) ==> code is None,
{
    // The engine clamps quality to its own range; only the cast needs the
    // negative values folded away.
    let quality: u32 = if options.quality < 0 {
        0u32
    } else {
        options.quality as u32
    };
    let mut session = CompressStream::new(Some(quality));
    let cap: usize = if buf.len() < 64 {
        64
    } else {
        buf.len()
    };
    let mut out: Vec<u8> = Vec::new();
    let mut offset: usize = 0;
    while offset < buf.len()
        invariant
            session.wf(),
            !session.is_closed(),
            offset <= buf@.len(),
            cap >= 64,
            session.total_out_spec() <= usize::MAX,
        decreases buf@.len() - offset, usize::MAX as int - session.total_out_spec(),
    {
        let t = session.total_out();
        if t > usize::MAX - cap {
            // The engine emitted more than the address space can account.
            return Err(StreamError::ContractViolation);
        }
        let chunk = tail_copy(buf, offset);
        let step = match session.compress(Some(chunk), cap) {
            Ok(s) => s,
            Err(e) => { return Err(e) },
        };
        let mut produced = step.buf;
        out.append(&mut produced);
        offset = offset + step.input_offset;
    }
    loop
        invariant
            session.wf(),
            !session.is_closed(),
            cap >= 64,
            session.total_out_spec() <= usize::MAX,
        decreases usize::MAX as int - session.total_out_spec(),
    {
        let t = session.total_out();
        if t > usize::MAX - cap {
            return Err(StreamError::ContractViolation);
        }
        let step = match session.compress(None, cap) {
            Ok(s) => s,
            Err(e) => { return Err(e) },
        };
        let mut produced = step.buf;
        out.append(&mut produced);
        if step.code == BrotliStreamResultCode::ResultSuccess {
            return Ok(out);
        }
    }
}

/// One-shot decompression: opens a session and feeds it the whole buffer,
/// growing the collected output as the engine asks, until the stream is
/// fully decoded. The result is the engine-defined decoded form of `buf`.
///
/// A malformed stream surfaces as `EngineError` with the engine's fault
/// code; an input that ends before the stream does surfaces as `EngineError`
/// without a code. `SessionClosed` cannot occur, since the session is driven
/// to its terminal state exactly once.
pub fn decompress(buf: &Vec<u8>) -> (r: Result<Vec<u8>, StreamError>)
    ensures
        !(r matches Err(StreamError::SessionClosed)),
        !(r matches Err(StreamError::ConfigurationError)),
        r matches Err(StreamError::EngineError(Some(code))) ==> code < 0,
{
    let mut session = DecompressStream::new();
    let cap: usize = if buf.len() < 64 {
        64
    } else {
        buf.len()
    };
    let mut out: Vec<u8> = Vec::new();
    let mut offset: usize = 0;
    loop
        invariant
            session.wf(),
            !session.is_closed(),
            offset <= buf@.len(),
            buf@.len() <= usize::MAX,
            cap >= 64,
            session.total_out_spec() <= usize::MAX,
        decreases buf@.len() - offset, usize::MAX as int - session.total_out_spec(),
    {
        let t = session.total_out();
        if t > usize::MAX - cap {
            // The engine emitted more than the address space can account.
            return Err(StreamError::ContractViolation);
        }
        let chunk = tail_copy(buf, offset);
        let step = match session.decompress(chunk, cap) {
            Ok(s) => s,
            Err(e) => { return Err(e) },
        };
        let mut produced = step.buf;
        out.append(&mut produced);
        offset = offset + step.input_offset;
        match step.code {
            BrotliStreamResultCode::ResultSuccess => { return Ok(out) },
            BrotliStreamResultCode::NeedsMoreInput => {
                // The whole remainder was consumed and the stream is still
                // unfinished: the input ends before the stream does.
                return Err(StreamError::EngineError(None));
            },
            BrotliStreamResultCode::NeedsMoreOutput => {},
        }
    }
}

} // verus!
