//! Streaming compression and decompression sessions.
//!
//! A session owns one engine handle and a running output counter, and is
//! driven by repeated `step`-style calls: each call hands the engine one
//! bounded input chunk (or the end-of-stream signal) and one bounded output
//! buffer, and reports how much of each the engine used. Once a call returns
//! `ResultSuccess` or an error the session is closed and every later call is
//! rejected with `SessionClosed`.

use vstd::prelude::*;

use crate::engine::{
    decoder_decompress_stream, decoder_new, encoder_finish, encoder_is_finished, encoder_new,
    encoder_process, encoder_set_quality, DecoderHandle, EncoderHandle,
};

pub use crate::engine::DecoderVerdict;

verus! {

/// The three-way outcome of a non-fatal streaming step. A fatal outcome is
/// not a code: it is reported as a [`StreamError`] instead.
#[derive(Copy, Clone, Debug, PartialEq, Eq, Structural)]
pub enum BrotliStreamResultCode {
    /// The stream is complete; the session is closed.
    ResultSuccess,
    /// The supplied chunk was consumed whole; the engine wants the next one.
    NeedsMoreInput,
    /// The output buffer was filled; call again with fresh output capacity.
    NeedsMoreOutput,
}

/// Returned by every successful (de)compression step.
#[derive(Debug, PartialEq, Eq)]
pub struct BrotliStreamResult {
    /// Result code; see [`BrotliStreamResultCode`].
    pub code: BrotliStreamResultCode,
    /// The bytes produced by this step, never longer than the capacity the
    /// caller asked for.
    pub buf: Vec<u8>,
    /// How many bytes of the supplied input chunk the engine consumed.
    pub input_offset: usize,
}

/// A fatal outcome of a session operation. Every variant closes the session.
#[derive(Copy, Clone, Debug, PartialEq, Eq)]
pub enum StreamError {
    /// The engine could not be set up. No session exists.
    ConfigurationError,
    /// The engine reported a fault. Decompression carries the engine's own
    /// fault code, always negative; compression has no granular code.
    EngineError(Option<i32>),
    /// The engine reported a combination of consumed input, produced output
    /// and status that the step protocol rules out.
    ContractViolation,
    /// The session already returned `ResultSuccess` or an error and must not
    /// be stepped again.
    SessionClosed,
}

/// Sum of a history of per-step output lengths.
pub open spec fn sum_outputs(s: Seq<int>) -> int
    decreases s.len(),
{
    if s.len() == 0 {
        0
    } else {
        sum_outputs(s.drop_last()) + s.last()
    }
}

/// Maps what one process-mode encoder call reported to the step outcome.
///
/// The cursors describe the call's buffers: `input_offset` bytes of a
/// `chunk_len`-byte chunk were consumed with `available_in` left unread, and
/// `output_offset` bytes of the `cap`-byte buffer `output` were written with
/// `available_out` left unused. The contract fixes the outcome of every
/// case: engine refusal is the generic compression fault; a fully consumed
/// chunk is `NeedsMoreInput` carrying exactly the written prefix; a full
/// buffer with input left over is `NeedsMoreOutput` carrying the whole
/// buffer; anything else is a contract violation.
pub fn classify_process(
    ok: bool,
    available_in: usize,
    available_out: usize,
    input_offset: usize,
    output: Vec<u8>,
    output_offset: usize,
    chunk_len: usize,
    cap: usize,
) -> (r: Result<BrotliStreamResult, StreamError>)
    requires
        input_offset + available_in == chunk_len,
        output_offset + available_out == cap,
        output@.len() == cap,
    ensures
        !ok ==> r matches Err(StreamError::EngineError(None)),
        ok && available_in == 0 ==> (r matches Ok(res) && res.code is NeedsMoreInput
            && res.buf@ == output@.subrange(0, output_offset as int) && res.input_offset
            == input_offset),
        ok && available_in > 0 && available_out == 0 ==> (r matches Ok(res) && res.code
            is NeedsMoreOutput && res.buf@ == output@ && res.input_offset == input_offset),
        ok && available_in > 0 && available_out > 0 ==> r matches Err(
            StreamError::ContractViolation,
        ),
{
    if !ok {
        return Err(StreamError::EngineError(None));
    }
    if available_in == 0 {
        let mut buf = output;
        buf.truncate(output_offset);
        Ok(BrotliStreamResult { code: BrotliStreamResultCode::NeedsMoreInput, buf, input_offset })
    } else if available_out == 0 {
        Ok(
            BrotliStreamResult {
                code: BrotliStreamResultCode::NeedsMoreOutput,
                buf: output,
                input_offset,
            },
        )
    } else {
        // The engine neither consumed the chunk nor filled the buffer:
        // outside the step protocol.
        Err(StreamError::ContractViolation)
    }
}

/// Maps what one finish-mode encoder call reported to the fate of the
/// finishing loop: engine refusal is the generic compression fault; a call
/// that neither finished the stream nor moved the output cursor would loop
/// forever and is a contract violation; anything else lets the loop go on.
pub fn classify_finish_call(
    ok: bool,
    finished: bool,
    prev_avail: usize,
    available_out: usize,
) -> (r: Result<(), StreamError>)
    ensures
        !ok ==> r matches Err(StreamError::EngineError(None)),
        ok && !finished && available_out >= prev_avail ==> r matches Err(
            StreamError::ContractViolation,
        ),
        ok && (finished || available_out < prev_avail) ==> r is Ok,
{
    if !ok {
        Err(StreamError::EngineError(None))
    } else if !finished && available_out >= prev_avail {
        Err(StreamError::ContractViolation)
    } else {
        Ok(())
    }
}

/// Maps the state of the output buffer after the finishing loop to the step
/// outcome: an exhausted buffer is `NeedsMoreOutput` carrying the whole
/// buffer; otherwise the stream completed and `ResultSuccess` carries
/// exactly the written prefix. A finish step consumes no input.
pub fn classify_finish(
    available_out: usize,
    output: Vec<u8>,
    output_offset: usize,
    cap: usize,
) -> (r: BrotliStreamResult)
    requires
        output_offset + available_out == cap,
        output@.len() == cap,
    ensures
        available_out == 0 ==> (r.code is NeedsMoreOutput && r.buf@ == output@),
        available_out > 0 ==> (r.code is ResultSuccess && r.buf@ == output@.subrange(
            0,
            output_offset as int,
        )),
        r.input_offset == 0,
{
    if available_out == 0 {
        BrotliStreamResult {
            code: BrotliStreamResultCode::NeedsMoreOutput,
            buf: output,
            input_offset: 0,
        }
    } else {
        let mut buf = output;
        buf.truncate(output_offset);
        BrotliStreamResult { code: BrotliStreamResultCode::ResultSuccess, buf, input_offset: 0 }
    }
}

/// Maps what one decoder call reported to the step outcome.
///
/// The cursors are as in [`classify_process`]. The contract fixes the
/// outcome of every case: an engine fault keeps its code; a completed
/// stream is `ResultSuccess` carrying exactly the written prefix and the
/// true consumption; `NeedsMoreInput` with bytes unread or `NeedsMoreOutput`
/// with space unused is a contract violation; otherwise those statuses carry
/// the written prefix, resp. the whole buffer.
pub fn classify_decode(
    verdict: DecoderVerdict,
    available_in: usize,
    available_out: usize,
    input_offset: usize,
    output: Vec<u8>,
    output_offset: usize,
    chunk_len: usize,
    cap: usize,
) -> (r: Result<BrotliStreamResult, StreamError>)
    requires
        input_offset + available_in == chunk_len,
        output_offset + available_out == cap,
        output@.len() == cap,
    ensures
        verdict matches DecoderVerdict::Failure(c) ==> (r matches Err(
            StreamError::EngineError(code),
        ) && code == Some(c)),
        verdict is Success ==> (r matches Ok(res) && res.code is ResultSuccess && res.buf@
            == output@.subrange(0, output_offset as int) && res.input_offset == input_offset),
        verdict is NeedsMoreInput && available_in == 0 ==> (r matches Ok(res) && res.code
            is NeedsMoreInput && res.buf@ == output@.subrange(0, output_offset as int)
            && res.input_offset == input_offset),
        verdict is NeedsMoreInput && available_in > 0 ==> r matches Err(
            StreamError::ContractViolation,
        ),
        verdict is NeedsMoreOutput && available_out == 0 ==> (r matches Ok(res) && res.code
            is NeedsMoreOutput && res.buf@ == output@ && res.input_offset == input_offset),
        verdict is NeedsMoreOutput && available_out > 0 ==> r matches Err(
            StreamError::ContractViolation,
        ),
{
    match verdict {
        DecoderVerdict::Failure(c) => Err(StreamError::EngineError(Some(c))),
        DecoderVerdict::Success => {
            let mut buf = output;
            buf.truncate(output_offset);
            Ok(
                BrotliStreamResult {
                    code: BrotliStreamResultCode::ResultSuccess,
                    buf,
                    input_offset,
                },
            )
        },
        DecoderVerdict::NeedsMoreInput => {
            if available_in != 0 {
                // The engine asked for more input while bytes of the chunk
                // are still unread: outside the step protocol.
                return Err(StreamError::ContractViolation);
            }
            let mut buf = output;
            buf.truncate(output_offset);
            Ok(
                BrotliStreamResult {
                    code: BrotliStreamResultCode::NeedsMoreInput,
                    buf,
                    input_offset,
                },
            )
        },
        DecoderVerdict::NeedsMoreOutput => {
            if available_out != 0 {
                // The engine asked for more output space while part of the
                // buffer is still unused: outside the step protocol.
                return Err(StreamError::ContractViolation);
            }
            Ok(
                BrotliStreamResult {
                    code: BrotliStreamResultCode::NeedsMoreOutput,
                    buf: output,
                    input_offset,
                },
            )
        },
    }
}

/// Streaming compression session: an encoder engine plus the running count
/// of output bytes handed back so far.
pub struct CompressStream {
    state: EncoderHandle,
    total_out: usize,
    closed: bool,
    out_lens: Ghost<Seq<int>>,
}

impl CompressStream {
    /// The length of each output buffer returned by the successful steps of
    /// this session, oldest first.
    pub closed spec fn outputs(&self) -> Seq<int> {
        self.out_lens@
    }

    /// The running output counter.
    pub closed spec fn total_out_spec(&self) -> int {
        self.total_out as int
    }

    /// Whether the session reached a terminal state (`ResultSuccess` or an
    /// error) and now rejects every step.
    pub closed spec fn is_closed(&self) -> bool {
        self.closed
    }

    /// Session invariant: the counter equals the sum of the recorded output
    /// lengths, and every recorded length is a byte count.
    pub closed spec fn wf(&self) -> bool {
        &&& self.total_out as int == sum_outputs(self.out_lens@)
        &&& forall|i: int| 0 <= i < self.out_lens@.len() ==> #[trigger] self.out_lens@[i] >= 0
    }

    /// Monotonic accounting: the value reported by `total_out` always equals
    /// the sum of the lengths of the output buffers returned by every step
    /// made on this session so far.
    pub proof fn lemma_total_out_is_sum_of_outputs(&self)
        requires
            self.wf(),
        ensures
            self.total_out_spec() == sum_outputs(self.outputs()),
    {
    }

    /// Opens a session over a fresh encoder; a given quality configures the
    /// engine's effort parameter before any data is processed.
    pub fn new(quality: Option<u32>) -> (s: CompressStream)
        ensures
            s.wf(),
            !s.is_closed(),
            s.total_out_spec() == 0,
            s.outputs() == Seq::<int>::empty(),
    {
        let mut state = encoder_new();
        match quality {
            None => {},
            Some(q) => {
                let _ = encoder_set_quality(&mut state, q);
            },
        }
        CompressStream { state, total_out: 0, closed: false, out_lens: Ghost(Seq::empty()) }
    }

    /// One step of the session. A `Some` chunk is fed to the encoder in
    /// process mode; `None` is the end-of-stream signal and drives the
    /// encoder in finish mode until it completes or the output buffer fills.
    pub fn compress(&mut self, input_opt: Option<Vec<u8>>, output_size: usize) -> (r: Result<
        BrotliStreamResult,
        StreamError,
    >)
        requires
            old(self).wf(),
            old(self).total_out_spec() + output_size <= usize::MAX,
        ensures
            final(self).wf(),
            old(self).total_out_spec() <= final(self).total_out_spec(),
            (r matches Err(StreamError::SessionClosed)) <==> old(self).is_closed(),
            old(self).is_closed() ==> *final(self) == *old(self),
            r is Err ==> final(self).is_closed(),
            r is Err ==> final(self).total_out_spec() == old(self).total_out_spec()
                && final(self).outputs() == old(self).outputs(),
            r matches Err(StreamError::EngineError(code)) ==> code is None,
            !(r matches Err(StreamError::ConfigurationError)),
            r matches Ok(res) ==> {
                &&& res.buf@.len() <= output_size
                &&& final(self).total_out_spec() == old(self).total_out_spec() + res.buf@.len()
                &&& final(self).outputs() == old(self).outputs().push(res.buf@.len() as int)
                &&& final(self).is_closed() == (res.code is ResultSuccess)
                &&& match input_opt {
                    Some(chunk) => {
                        &&& res.input_offset <= chunk@.len()
                        &&& (res.code is NeedsMoreInput || res.code is NeedsMoreOutput)
                        &&& (res.code is NeedsMoreInput ==> res.input_offset == chunk@.len())
                        &&& (res.code is NeedsMoreOutput ==> res.buf@.len() == output_size)
                        &&& (res.code is NeedsMoreOutput ==> res.input_offset < chunk@.len())
                    },
                    None => {
                        &&& res.input_offset == 0
                        &&& (res.code is ResultSuccess || res.code is NeedsMoreOutput)
                        &&& (res.code is NeedsMoreOutput ==> res.buf@.len() == output_size)
                    },
                }
            },
            !old(self).is_closed() && input_opt is None && output_size == 0 ==> (r matches Ok(res)
                && res.code is NeedsMoreOutput && res.buf@.len() == 0),
    {
        if self.closed {
            return Err(StreamError::SessionClosed);
        }
        let mut output: Vec<u8> = Vec::new();
        output.resize(output_size, 0u8);
        let mut available_out: usize = output_size;
        let mut output_offset: usize = 0;
        match input_opt {
            Some(input) => {
                let mut available_in: usize = input.len();
                let mut input_offset: usize = 0;
                let ok = encoder_process(
                    &mut self.state,
                    &mut available_in,
                    &input,
                    &mut input_offset,
                    &mut available_out,
                    &mut output,
                    &mut output_offset,
                );
                match classify_process(
                    ok,
                    available_in,
                    available_out,
                    input_offset,
                    output,
                    output_offset,
                    input.len(),
                    output_size,
                ) {
                    Ok(res) => {
                        self.record_output(&res.buf);
                        Ok(res)
                    },
                    Err(e) => {
                        self.closed = true;
                        Err(e)
                    },
                }
            },
            None => {
                let mut finished = encoder_is_finished(&self.state);
                loop
                    invariant
                        !old(self).closed,
                        self.wf(),
                        !self.closed,
                        self.total_out == old(self).total_out,
                        self.out_lens@ == old(self).out_lens@,
                        self.total_out + output_size <= usize::MAX,
                        output_offset + available_out == output_size,
                        output@.len() == output_size,
                    ensures
                        self.wf(),
                        !self.closed,
                        self.total_out == old(self).total_out,
                        self.out_lens@ == old(self).out_lens@,
                        output_offset + available_out == output_size,
                        output@.len() == output_size,
                        finished || available_out == 0,
                    decreases available_out,
                {
                    if finished || available_out == 0 {
                        break ;
                    }
                    let prev_avail = available_out;
                    let ok = encoder_finish(
                        &mut self.state,
                        &mut available_out,
                        &mut output,
                        &mut output_offset,
                    );
                    finished = encoder_is_finished(&self.state);
                    match classify_finish_call(ok, finished, prev_avail, available_out) {
                        Ok(()) => {},
                        Err(e) => {
                            self.closed = true;
                            return Err(e);
                        },
                    }
                    if finished {
                        break ;
                    }
                }
                let res = classify_finish(available_out, output, output_offset, output_size);
                self.record_output(&res.buf);
                if res.code == BrotliStreamResultCode::ResultSuccess {
                    self.closed = true;
                }
                Ok(res)
            },
        }
    }

    /// Counts one returned output buffer into the session's accounting.
    fn record_output(&mut self, buf: &Vec<u8>)
        requires
            old(self).wf(),
            old(self).total_out_spec() + buf@.len() <= usize::MAX,
        ensures
            final(self).wf(),
            final(self).total_out_spec() == old(self).total_out_spec() + buf@.len(),
            final(self).outputs() == old(self).outputs().push(buf@.len() as int),
            final(self).is_closed() == old(self).is_closed(),
            final(self).state == old(self).state,
            final(self).closed == old(self).closed,
    {
        self.total_out = self.total_out + buf.len();
        proof {
            assert(self.out_lens@.push(buf@.len() as int).drop_last() =~= self.out_lens@);
        }
        self.out_lens = Ghost(self.out_lens@.push(buf@.len() as int));
    }

    /// The total number of output bytes this session has returned so far.
    pub fn total_out(&self) -> (n: usize)
        ensures
            n == self.total_out_spec(),
    {
        self.total_out
    }
}

/// Streaming decompression session: a decoder engine plus the running count
/// of output bytes handed back so far.
pub struct DecompressStream {
    state: DecoderHandle,
    total_out: usize,
    closed: bool,
    out_lens: Ghost<Seq<int>>,
}

impl DecompressStream {
    /// The length of each output buffer returned by the successful steps of
    /// this session, oldest first.
    pub closed spec fn outputs(&self) -> Seq<int> {
        self.out_lens@
    }

    /// The running output counter.
    pub closed spec fn total_out_spec(&self) -> int {
        self.total_out as int
    }

    /// Whether the session reached a terminal state (`ResultSuccess` or an
    /// error) and now rejects every step.
    pub closed spec fn is_closed(&self) -> bool {
        self.closed
    }

    /// Session invariant: the counter equals the sum of the recorded output
    /// lengths, and every recorded length is a byte count.
    pub closed spec fn wf(&self) -> bool {
        &&& self.total_out as int == sum_outputs(self.out_lens@)
        &&& forall|i: int| 0 <= i < self.out_lens@.len() ==> #[trigger] self.out_lens@[i] >= 0
    }

    /// Monotonic accounting: the value reported by `total_out` always equals
    /// the sum of the lengths of the output buffers returned by every step
    /// made on this session so far.
    pub proof fn lemma_total_out_is_sum_of_outputs(&self)
        requires
            self.wf(),
        ensures
            self.total_out_spec() == sum_outputs(self.outputs()),
    {
    }

    /// Opens a session over a fresh decoder; it takes no parameters.
    pub fn new() -> (s: DecompressStream)
        ensures
            s.wf(),
            !s.is_closed(),
            s.total_out_spec() == 0,
            s.outputs() == Seq::<int>::empty(),
    {
        DecompressStream {
            state: decoder_new(),
            total_out: 0,
            closed: false,
            out_lens: Ghost(Seq::empty()),
        }
    }

    /// One step of the session: feeds the chunk to the decoder, which
    /// consumes a prefix of it and emits up to `output_size` bytes.
    pub fn decompress(&mut self, input: Vec<u8>, output_size: usize) -> (r: Result<
        BrotliStreamResult,
        StreamError,
    >)
        requires
            old(self).wf(),
            old(self).total_out_spec() + output_size <= usize::MAX,
        ensures
            final(self).wf(),
            old(self).total_out_spec() <= final(self).total_out_spec(),
            (r matches Err(StreamError::SessionClosed)) <==> old(self).is_closed(),
            old(self).is_closed() ==> *final(self) == *old(self),
            r is Err ==> final(self).is_closed(),
            r is Err ==> final(self).total_out_spec() == old(self).total_out_spec()
                && final(self).outputs() == old(self).outputs(),
            r matches Err(StreamError::EngineError(code)) ==> (code matches Some(c) && c < 0),
            !(r matches Err(StreamError::ConfigurationError)),
            r matches Ok(res) ==> {
                &&& res.buf@.len() <= output_size
                &&& res.input_offset <= input@.len()
                &&& final(self).total_out_spec() == old(self).total_out_spec() + res.buf@.len()
                &&& final(self).outputs() == old(self).outputs().push(res.buf@.len() as int)
                &&& final(self).is_closed() == (res.code is ResultSuccess)
                &&& (res.code is NeedsMoreInput ==> res.input_offset == input@.len())
                &&& (res.code is NeedsMoreOutput ==> res.buf@.len() == output_size)
            },
    {
        if self.closed {
            return Err(StreamError::SessionClosed);
        }
        let mut output: Vec<u8> = Vec::new();
        output.resize(output_size, 0u8);
        let mut available_in: usize = input.len();
        let mut input_offset: usize = 0;
        let mut available_out: usize = output_size;
        let mut output_offset: usize = 0;
        let verdict = decoder_decompress_stream(
            &mut self.state,
            &mut available_in,
            &input,
            &mut input_offset,
            &mut available_out,
            &mut output,
            &mut output_offset,
        );
        match classify_decode(
            verdict,
            available_in,
            available_out,
            input_offset,
            output,
            output_offset,
            input.len(),
            output_size,
        ) {
            Ok(res) => {
                self.record_output(&res.buf);
                if res.code == BrotliStreamResultCode::ResultSuccess {
                    self.closed = true;
                }
                Ok(res)
            },
            Err(e) => {
                self.closed = true;
                Err(e)
            },
        }
    }

    /// Counts one returned output buffer into the session's accounting.
    fn record_output(&mut self, buf: &Vec<u8>)
        requires
            old(self).wf(),
            old(self).total_out_spec() + buf@.len() <= usize::MAX,
        ensures
            final(self).wf(),
            final(self).total_out_spec() == old(self).total_out_spec() + buf@.len(),
            final(self).outputs() == old(self).outputs().push(buf@.len() as int),
            final(self).is_closed() == old(self).is_closed(),
            final(self).state == old(self).state,
            final(self).closed == old(self).closed,
    {
        self.total_out = self.total_out + buf.len();
        proof {
            assert(self.out_lens@.push(buf@.len() as int).drop_last() =~= self.out_lens@);
        }
        self.out_lens = Ghost(self.out_lens@.push(buf@.len() as int));
    }

    /// The total number of output bytes this session has returned so far.
    pub fn total_out(&self) -> (n: usize)
        ensures
            n == self.total_out_spec(),
    {
        self.total_out
    }
}

} // verus!
