//! The boundary between the session and an untrusted guest.
//!
//! The guest names memory by 32-bit offset and length. Every such pair is
//! held against the size of the guest's memory before a byte of it is
//! read or written, and every outcome of a call is one of a few stable
//! status codes or a fault that ends the call.

use vstd::prelude::*;
use vstd::slice::slice_subrange;
use vstd::string::StringSliceAdditionalSpecFns;
use vstd::utf8::{decode_utf8, encode_utf8_decode_utf8, valid_utf8};
use crate::config::Version;
use crate::error::{BuildError, InferError, RetrievalError};
use crate::tts::{GPTSovitsRuntime, Synthesis};

verus! {

/// Status of `get_output` after a copy.
pub const STATUS_OK: i32 = 0;

/// Status of a call that failed by itself: text that is not UTF-8, an
/// unknown speaker, a failure of the engine, a destination of the wrong
/// length.
pub const STATUS_FAILED: i32 = -1;

/// Status of any call to a host without a session.
pub const STATUS_UNAVAILABLE: i32 = -2;

/// Name under which the host functions are exported.
pub const MODULE_NAME: &'static str = "gpt_sovits";

/// A value that crosses the boundary. Floats are held by their bits.
#[derive(Clone, Copy, Debug, PartialEq, Eq, Structural)]
pub enum WasmValue {
    I32(i32),
    I64(i64),
    F32(u32),
    F64(u64),
    V128(i128),
    Unknown,
}

/// A violation of the boundary itself. It ends the call and is reported
/// to the guest's execution environment, not to the guest.
#[derive(Clone, Copy, Debug, PartialEq, Eq, Structural)]
pub enum BoundaryFault {
    /// A range that the guest named is not contained in its memory.
    MemoryOutOfBounds,
    /// The arguments do not have the shape that the function is exported
    /// with.
    FuncTypeMismatch,
}

/// The functions that the guest can call.
#[derive(Clone, Copy, Debug, PartialEq, Eq, Structural)]
pub enum HostFunction {
    /// `infer(speaker_ptr, speaker_len, text_ptr, text_len) -> status`
    Infer,
    /// `get_output(dest_ptr, dest_len) -> status`
    GetOutput,
    /// `is_ok() -> status`
    IsOk,
}

impl HostFunction {
    /// Number of parameters of the function; each is a 32-bit integer, and
    /// so is its one result.
    pub open spec fn spec_params(self) -> usize {
        match self {
            HostFunction::Infer => 4,
            HostFunction::GetOutput => 2,
            HostFunction::IsOk => 0,
        }
    }

    /// Number of parameters of the function; each is a 32-bit integer, and
    /// so is its one result.
    #[verifier::when_used_as_spec(spec_params)]
    pub fn params(self) -> (count: usize)
        ensures
            count == self.spec_params(),
    {
        match self {
            HostFunction::Infer => 4,
            HostFunction::GetOutput => 2,
            HostFunction::IsOk => 0,
        }
    }

    /// Name under which the function is exported.
    pub fn name(self) -> (name: &'static str)
        ensures
            name@ == match self {
                HostFunction::Infer => "infer"@,
                HostFunction::GetOutput => "get_output"@,
                HostFunction::IsOk => "is_ok"@,
            },
    {
        match self {
            HostFunction::Infer => "infer",
            HostFunction::GetOutput => "get_output",
            HostFunction::IsOk => "is_ok",
        }
    }

    /// Whether `args` begin with the parameters of the function.
    pub open spec fn spec_accepts(self, args: Seq<WasmValue>) -> bool {
        &&& args.len() >= self.spec_params()
        &&& forall|k: int| 0 <= k < self.spec_params() ==> args[k] is I32
    }

    /// Whether `args` begin with the parameters of the function.
    pub fn accepts(self, args: &Vec<WasmValue>) -> (accepted: bool)
        ensures
            accepted == self.spec_accepts(args@),
    {
        let count = self.params();
        if args.len() < count {
            return false;
        }
        let mut k: usize = 0;
        while k < count
            invariant
                k <= count <= args.len(),
                count == self.spec_params(),
                forall|j: int| 0 <= j < k ==> args@[j] is I32,
            decreases count - k,
        {
            match args[k] {
                WasmValue::I32(_) => {},
                _ => {
                    return false;
                },
            }
            k += 1;
        }
        true
    }
}

/// The functions to export, in the order of their registration.
pub fn exports() -> (functions: Vec<HostFunction>)
    ensures
        functions@ == seq![HostFunction::Infer, HostFunction::GetOutput, HostFunction::IsOk],
{
    let mut functions = Vec::new();
    functions.push(HostFunction::Infer);
    functions.push(HostFunction::GetOutput);
    functions.push(HostFunction::IsOk);
    functions
}

/// The 32-bit integer that is argument `k`.
pub open spec fn argument(args: Seq<WasmValue>, k: int) -> i32
    recommends
        0 <= k < args.len(),
        args[k] is I32,
{
    args[k]->I32_0
}

fn argument_at(args: &Vec<WasmValue>, k: usize) -> (value: i32)
    requires
        k < args.len(),
        args[k as int] is I32,
    ensures
        value == argument(args@, k as int),
{
    match args[k] {
        WasmValue::I32(value) => value,
        _ => 0,
    }
}

/// The one 32-bit integer that a host function returns.
pub open spec fn reply(status: i32) -> Seq<WasmValue> {
    seq![WasmValue::I32(status)]
}

fn reply_with(status: i32) -> (values: Vec<WasmValue>)
    ensures
        values@ == reply(status),
{
    let mut values = Vec::new();
    values.push(WasmValue::I32(status));
    values
}

/// The offset or length that the guest means by a 32-bit integer: its
/// bits, read without a sign.
pub open spec fn guest_address(value: i32) -> int {
    if value >= 0 {
        value as int
    } else {
        value + 0x1_0000_0000
    }
}

fn address(value: i32) -> (a: u64)
    ensures
        a == guest_address(value),
{
    if value >= 0 {
        value as u64
    } else {
        (value as i64 + 0x1_0000_0000) as u64
    }
}

/// Whether the `len` bytes at `ptr` lie within a guest memory of `size`
/// bytes.
pub open spec fn in_memory(size: nat, ptr: i32, len: i32) -> bool {
    guest_address(ptr) + guest_address(len) <= size
}

/// The `len` bytes at `ptr` of the guest's memory.
pub open spec fn guest_bytes(memory: Seq<u8>, ptr: i32, len: i32) -> Seq<u8>
    recommends
        in_memory(memory.len(), ptr, len),
{
    memory.subrange(guest_address(ptr), guest_address(ptr) + guest_address(len))
}

/// The guest's memory with the `len` bytes at `ptr` replaced by `bytes`.
pub open spec fn guest_write(memory: Seq<u8>, ptr: i32, len: i32, bytes: Seq<u8>) -> Seq<u8>
    recommends
        in_memory(memory.len(), ptr, len),
        bytes.len() == guest_address(len),
{
    memory.subrange(0, guest_address(ptr)) + bytes + memory.subrange(
        guest_address(ptr) + guest_address(len),
        memory.len() as int,
    )
}

/// The `len` bytes at `ptr` of the guest's memory, if they lie within it.
fn guest_slice<'a>(memory: &'a [u8], ptr: i32, len: i32) -> (bytes: Option<&'a [u8]>)
    ensures
        match bytes {
            Some(bytes) => in_memory(memory@.len(), ptr, len) && bytes@ == guest_bytes(
                memory@,
                ptr,
                len,
            ),
            None => !in_memory(memory@.len(), ptr, len),
        },
{
    let start = address(ptr);
    let count = address(len);
    if start + count <= memory.len() as u64 {
        Some(slice_subrange(memory, start as usize, (start + count) as usize))
    } else {
        None
    }
}

/// The error of `core::str::from_utf8`.
#[verifier::external_type_specification]
#[verifier::external_body]
pub struct ExUtf8Error(core::str::Utf8Error);

/// `core::str::from_utf8` accepts exactly the byte sequences that are
/// valid UTF-8, and the string it returns has the bytes it was given.
pub assume_specification<'a>[ core::str::from_utf8 ](v: &'a [u8]) -> (r: Result<
    &'a str,
    core::str::Utf8Error,
>)
    ensures
        r is Ok <==> valid_utf8(v@),
        r matches Ok(s) ==> s.spec_bytes() == v@,
;

/// The text that `bytes` encode. Bytes that are not valid UTF-8 encode
/// none.
pub fn decode<'a>(bytes: &'a [u8]) -> (text: Result<&'a str, InferError>)
    ensures
        match text {
            Ok(text) => valid_utf8(bytes@) && text@ == decode_utf8(bytes@),
            Err(error) => !valid_utf8(bytes@) && error == InferError::InvalidText,
        },
{
    match core::str::from_utf8(bytes) {
        Ok(text) => {
            proof {
                encode_utf8_decode_utf8(text@);
            }
            Ok(text)
        },
        Err(_) => Err(InferError::InvalidText),
    }
}

/// What the host keeps for the guest: the session, or the reason why
/// there is none. Which of the two it is never changes.
pub struct HostData(Result<GPTSovitsRuntime, BuildError>);

impl HostData {
    /// How the construction of the session ended.
    pub closed spec fn outcome(&self) -> Result<GPTSovitsRuntime, BuildError> {
        self.0
    }

    /// Whether there is a session.
    pub open spec fn available(&self) -> bool {
        self.outcome() is Ok
    }

    /// The session, where there is one.
    pub open spec fn session(&self) -> GPTSovitsRuntime
        recommends
            self.available(),
    {
        self.outcome()->Ok_0
    }

    /// Keeps the outcome of constructing the session, a failure as well.
    pub fn new(outcome: Result<GPTSovitsRuntime, BuildError>) -> (data: Self)
        ensures
            data.outcome() == outcome,
    {
        HostData(outcome)
    }

    /// The session, where there is one, and else the reason why not.
    pub fn runtime(&self) -> (outcome: &Result<GPTSovitsRuntime, BuildError>)
        ensures
            *outcome == self.outcome(),
    {
        &self.0
    }
}

/// How a call of `infer` goes on once its arguments are read.
pub enum InferCall {
    /// The call ends with a fault.
    Fault(BoundaryFault),
    /// The call ends with this status.
    Reply(i32),
    /// The engine is asked to synthesize `text` in the voice of `speaker`,
    /// a registered speaker of generation `version`.
    Synthesize { version: Version, speaker: Seq<char>, text: Seq<char> },
}

/// How a call of `infer` with `args` goes on, for a guest with `memory`
/// and a host that holds `session`.
///
/// Arguments of another shape than the exported one are a fault. Without
/// a session the call is answered as unavailable. A speaker name or a
/// text outside the guest's memory is a fault. A speaker name or a text
/// that is not UTF-8, and a speaker that is not registered, fail the
/// call. Anything else goes to the engine.
pub open spec fn infer_call(
    session: Result<GPTSovitsRuntime, BuildError>,
    memory: Seq<u8>,
    args: Seq<WasmValue>,
) -> InferCall {
    if !HostFunction::Infer.spec_accepts(args) {
        InferCall::Fault(BoundaryFault::FuncTypeMismatch)
    } else if session is Err {
        InferCall::Reply(STATUS_UNAVAILABLE)
    } else if !in_memory(memory.len(), argument(args, 0), argument(args, 1)) || !in_memory(
        memory.len(),
        argument(args, 2),
        argument(args, 3),
    ) {
        InferCall::Fault(BoundaryFault::MemoryOutOfBounds)
    } else {
        let speaker = guest_bytes(memory, argument(args, 0), argument(args, 1));
        let text = guest_bytes(memory, argument(args, 2), argument(args, 3));
        if !valid_utf8(speaker) || !valid_utf8(text) {
            InferCall::Reply(STATUS_FAILED)
        } else if !session->Ok_0.speakers@.contains_key(decode_utf8(speaker)) {
            InferCall::Reply(STATUS_FAILED)
        } else {
            InferCall::Synthesize {
                version: session->Ok_0.speakers@[decode_utf8(speaker)],
                speaker: decode_utf8(speaker),
                text: decode_utf8(text),
            }
        }
    }
}

/// What the host does next on a call of `infer`.
pub enum InferStep {
    /// The call is over: return this to the guest's execution environment.
    Done(Result<Vec<WasmValue>, BoundaryFault>),
    /// Have the engine synthesize, encode what it returns, and report
    /// with [`complete_infer`].
    Synthesize(Synthesis),
}

impl InferStep {
    /// Whether this step carries out `call`.
    pub open spec fn carries_out(&self, call: InferCall) -> bool {
        match call {
            InferCall::Fault(fault) => self matches InferStep::Done(Err(f)) && f == fault,
            InferCall::Reply(status) => self matches InferStep::Done(Ok(values)) && values@
                == reply(status),
            InferCall::Synthesize { version, speaker, text } => self matches InferStep::Synthesize(
                request,
            ) && request.is_request(version, speaker, text),
        }
    }
}

/// The host function `infer`, up to the point where the engine is needed.
///
/// The call only reads the host's data: whatever it answers, the staged
/// audio is what it was.
pub fn infer(data: &HostData, memory: &[u8], args: &Vec<WasmValue>) -> (step: InferStep)
    ensures
        step.carries_out(infer_call(data.outcome(), memory@, args@)),
{
    if !HostFunction::Infer.accepts(args) {
        return InferStep::Done(Err(BoundaryFault::FuncTypeMismatch));
    }
    let runtime = match &data.0 {
        Ok(runtime) => runtime,
        Err(_) => {
            return InferStep::Done(Ok(reply_with(STATUS_UNAVAILABLE)));
        },
    };
    let speaker = guest_slice(memory, argument_at(args, 0), argument_at(args, 1));
    let text = guest_slice(memory, argument_at(args, 2), argument_at(args, 3));
    let (speaker, text) = match (speaker, text) {
        (Some(speaker), Some(text)) => (speaker, text),
        _ => {
            return InferStep::Done(Err(BoundaryFault::MemoryOutOfBounds));
        },
    };
    let (speaker, text) = match (decode(speaker), decode(text)) {
        (Ok(speaker), Ok(text)) => (speaker, text),
        _ => {
            return InferStep::Done(Ok(reply_with(STATUS_FAILED)));
        },
    };
    match runtime.infer(speaker, text) {
        Ok(request) => InferStep::Synthesize(request),
        Err(_) => InferStep::Done(Ok(reply_with(STATUS_FAILED))),
    }
}

/// The status that ends a call of `infer` whose synthesis ended with
/// `outcome`: the length of the audio, or the status of a failed call
/// where there is no audio or its length is no status.
pub open spec fn infer_status(outcome: Result<Vec<u8>, InferError>) -> i32 {
    match outcome {
        Ok(wav) => if wav.len() <= i32::MAX {
            wav.len() as i32
        } else {
            STATUS_FAILED
        },
        Err(_) => STATUS_FAILED,
    }
}

/// What the host holds after a synthesis ended with `outcome`: a session
/// stages audio whose length is a status, in place of what was staged;
/// nothing else changes anything.
pub open spec fn after_infer(
    session: Result<GPTSovitsRuntime, BuildError>,
    outcome: Result<Vec<u8>, InferError>,
) -> Result<GPTSovitsRuntime, BuildError> {
    match (session, outcome) {
        (Ok(runtime), Ok(wav)) => if wav.len() <= i32::MAX {
            Ok(GPTSovitsRuntime { speakers: runtime.speakers, output_wav: wav })
        } else {
            session
        },
        _ => session,
    }
}

/// Ends a call of `infer` that went to the engine, with the encoded audio
/// or the reason why there is none.
pub fn complete_infer(data: &mut HostData, outcome: Result<Vec<u8>, InferError>) -> (values: Vec<
    WasmValue,
>)
    ensures
        final(data).outcome() == after_infer(old(data).outcome(), outcome),
        values@ == reply(
            if old(data).available() {
                infer_status(outcome)
            } else {
                STATUS_UNAVAILABLE
            },
        ),
{
    match &mut data.0 {
        Ok(runtime) => match outcome {
            Ok(wav) => {
                if wav.len() <= i32::MAX as usize {
                    let len = runtime.stage(wav);
                    reply_with(len as i32)
                } else {
                    reply_with(STATUS_FAILED)
                }
            },
            Err(_) => reply_with(STATUS_FAILED),
        },
        Err(_) => reply_with(STATUS_UNAVAILABLE),
    }
}

/// How a call of `get_output` with `args` ends, for a guest with a memory
/// of `size` bytes and a host that holds `session`.
///
/// Arguments of another shape than the exported one are a fault. Without
/// a session the call is answered as unavailable. A destination outside
/// the guest's memory is a fault. A destination of another length than
/// the staged audio fails the call.
pub open spec fn output_call(
    session: Result<GPTSovitsRuntime, BuildError>,
    size: nat,
    args: Seq<WasmValue>,
) -> Result<i32, BoundaryFault> {
    if !HostFunction::GetOutput.spec_accepts(args) {
        Err(BoundaryFault::FuncTypeMismatch)
    } else if session is Err {
        Ok(STATUS_UNAVAILABLE)
    } else if !in_memory(size, argument(args, 0), argument(args, 1)) {
        Err(BoundaryFault::MemoryOutOfBounds)
    } else if session->Ok_0.retrieved(guest_address(argument(args, 1)) as nat) is Err {
        Ok(STATUS_FAILED)
    } else {
        Ok(STATUS_OK)
    }
}

/// The guest's memory after a call of `get_output` with `args`: the
/// destination holds the staged audio where the call succeeds, and
/// nothing is written where it does not.
pub open spec fn output_memory(
    session: Result<GPTSovitsRuntime, BuildError>,
    memory: Seq<u8>,
    args: Seq<WasmValue>,
) -> Seq<u8> {
    if output_call(session, memory.len(), args) == Ok::<i32, BoundaryFault>(STATUS_OK) {
        guest_write(memory, argument(args, 0), argument(args, 1), session->Ok_0.output_wav@)
    } else {
        memory
    }
}

/// The host function `get_output`: copies the staged audio to the
/// destination that the guest names, which has to be exactly as long.
pub fn get_output(data: &HostData, memory: &mut [u8], args: &Vec<WasmValue>) -> (r: Result<
    Vec<WasmValue>,
    BoundaryFault,
>)
    ensures
        match output_call(data.outcome(), old(memory)@.len(), args@) {
            Ok(status) => r matches Ok(values) && values@ == reply(status),
            Err(fault) => r matches Err(f) && f == fault,
        },
        final(memory)@ == output_memory(data.outcome(), old(memory)@, args@),
{
    if !HostFunction::GetOutput.accepts(args) {
        return Err(BoundaryFault::FuncTypeMismatch);
    }
    let runtime = match &data.0 {
        Ok(runtime) => runtime,
        Err(_) => {
            return Ok(reply_with(STATUS_UNAVAILABLE));
        },
    };
    let start = address(argument_at(args, 0));
    let count = address(argument_at(args, 1));
    if start + count > memory.len() as u64 {
        return Err(BoundaryFault::MemoryOutOfBounds);
    }
    let (_, tail) = memory.split_at_mut(start as usize);
    let (dest, _) = tail.split_at_mut(count as usize);
    let copied = runtime.get_output(dest);
    proof {
        let before = old(memory)@;
        let head = before.subrange(0, start as int);
        let rest = before.subrange(start + count, before.len() as int);
        assert(before.subrange(start as int, before.len() as int).subrange(
            count as int,
            before.len() - start,
        ) =~= rest);
        assert(before.subrange(start as int, before.len() as int).subrange(0, count as int)
            =~= before.subrange(start as int, start + count));
        assert(memory@ =~= head + dest@ + rest);
        assert(before =~= head + before.subrange(start as int, start + count) + rest);
    }
    match copied {
        Ok(_) => Ok(reply_with(STATUS_OK)),
        Err(_) => Ok(reply_with(STATUS_FAILED)),
    }
}

/// The host function `is_ok`: 1 where there is a session, 0 where not.
/// It takes no arguments and never fails.
pub fn is_ok(data: &HostData) -> (r: Result<Vec<WasmValue>, BoundaryFault>)
    ensures
        r matches Ok(values) && values@ == reply(
            if data.available() {
                1
            } else {
                0
            },
        ),
{
    match &data.0 {
        Ok(_) => Ok(reply_with(1)),
        Err(_) => Ok(reply_with(0)),
    }
}

/// What the host holds after the syntheses of several calls of `infer`
/// ended with `outcomes`, one after the other.
pub open spec fn after_all(
    session: Result<GPTSovitsRuntime, BuildError>,
    outcomes: Seq<Result<Vec<u8>, InferError>>,
) -> Result<GPTSovitsRuntime, BuildError>
    decreases outcomes.len(),
{
    if outcomes.len() == 0 {
        session
    } else {
        after_infer(after_all(session, outcomes.drop_last()), outcomes.last())
    }
}

/// Whether there is a session is settled when the host data is made: no
/// call turns a failed construction into a session or a session into a
/// failure. A failure is kept as it is, and a session keeps its speakers.
pub proof fn availability_never_changes(
    session: Result<GPTSovitsRuntime, BuildError>,
    outcomes: Seq<Result<Vec<u8>, InferError>>,
)
    ensures
        after_all(session, outcomes) is Ok <==> session is Ok,
        session is Err ==> after_all(session, outcomes) == session,
        session is Ok ==> after_all(session, outcomes)->Ok_0.speakers == session->Ok_0.speakers,
    decreases outcomes.len(),
{
    if outcomes.len() > 0 {
        availability_never_changes(session, outcomes.drop_last());
    }
}

/// After a call of `infer` that returned a length, `get_output` with a
/// destination of that length inside the guest's memory succeeds and
/// leaves exactly the encoded audio there. Asked again, it leaves the
/// same bytes again.
pub proof fn staged_audio_reaches_the_guest(
    session: GPTSovitsRuntime,
    outcome: Result<Vec<u8>, InferError>,
    memory: Seq<u8>,
    args: Seq<WasmValue>,
)
    requires
        infer_status(outcome) >= 0,
        HostFunction::GetOutput.spec_accepts(args),
        argument(args, 1) == infer_status(outcome),
        in_memory(memory.len(), argument(args, 0), argument(args, 1)),
    ensures
        outcome is Ok,
        ({
            let staged = after_infer(Ok(session), outcome);
            let written = output_memory(staged, memory, args);
            &&& output_call(staged, memory.len(), args) == Ok::<i32, BoundaryFault>(STATUS_OK)
            &&& written.len() == memory.len()
            &&& guest_bytes(written, argument(args, 0), argument(args, 1)) == outcome->Ok_0@
            &&& output_call(staged, written.len(), args) == Ok::<i32, BoundaryFault>(STATUS_OK)
            &&& output_memory(staged, written, args) == written
        }),
{
    let staged = after_infer(Ok(session), outcome);
    let written = output_memory(staged, memory, args);
    let wav = outcome->Ok_0@;
    assert(guest_bytes(written, argument(args, 0), argument(args, 1)) =~= wav);
    assert(output_memory(staged, written, args) =~= written);
}

/// After a call of `infer` that returned a length, a destination of any
/// other length is refused with a length mismatch, and a call of
/// `get_output` that names one writes nothing to the guest's memory.
pub proof fn other_length_copies_nothing(
    session: GPTSovitsRuntime,
    outcome: Result<Vec<u8>, InferError>,
    memory: Seq<u8>,
    args: Seq<WasmValue>,
)
    requires
        infer_status(outcome) >= 0,
        HostFunction::GetOutput.spec_accepts(args),
        argument(args, 1) != infer_status(outcome),
    ensures
        ({
            let staged = after_infer(Ok(session), outcome);
            &&& staged is Ok
            &&& forall|len: nat|
                len != infer_status(outcome) ==> staged->Ok_0.retrieved(len) == Err::<
                    Seq<u8>,
                    RetrievalError,
                >(RetrievalError::LengthMismatch)
            &&& output_call(staged, memory.len(), args) != Ok::<i32, BoundaryFault>(STATUS_OK)
            &&& output_memory(staged, memory, args) == memory
        }),
{
}

/// A call of `infer` that names a speaker who is not registered ends with
/// the status of a failed call. The engine is not asked, and nothing is
/// staged: the call ends before anything could be.
pub proof fn unknown_speaker_fails_the_call(
    session: GPTSovitsRuntime,
    memory: Seq<u8>,
    args: Seq<WasmValue>,
)
    requires
        HostFunction::Infer.spec_accepts(args),
        in_memory(memory.len(), argument(args, 0), argument(args, 1)),
        in_memory(memory.len(), argument(args, 2), argument(args, 3)),
        valid_utf8(guest_bytes(memory, argument(args, 0), argument(args, 1))),
        !session.speakers@.contains_key(
            decode_utf8(guest_bytes(memory, argument(args, 0), argument(args, 1))),
        ),
    ensures
        infer_call(Ok(session), memory, args) == InferCall::Reply(STATUS_FAILED),
{
}

/// A call of `infer` whose speaker name or text is not valid UTF-8 ends
/// with the status of a failed call, and the engine is not asked.
pub proof fn invalid_text_fails_the_call(
    session: GPTSovitsRuntime,
    memory: Seq<u8>,
    args: Seq<WasmValue>,
)
    requires
        HostFunction::Infer.spec_accepts(args),
        in_memory(memory.len(), argument(args, 0), argument(args, 1)),
        in_memory(memory.len(), argument(args, 2), argument(args, 3)),
        !valid_utf8(guest_bytes(memory, argument(args, 0), argument(args, 1))) || !valid_utf8(
            guest_bytes(memory, argument(args, 2), argument(args, 3)),
        ),
    ensures
        infer_call(Ok(session), memory, args) == InferCall::Reply(STATUS_FAILED),
{
}

} // verus!
