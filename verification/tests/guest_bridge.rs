use gpt_sovits_plugin::bridge::{
    complete_infer, decode, exports, get_output, infer, is_ok, BoundaryFault, HostData,
    HostFunction, InferStep, WasmValue, MODULE_NAME, STATUS_FAILED, STATUS_OK,
    STATUS_UNAVAILABLE,
};
use gpt_sovits_plugin::config::{Config, RuntimeDevice, SpeakerConfig, Version};
use gpt_sovits_plugin::error::{BuildError, ConfigError, InferError};
use gpt_sovits_plugin::tts::{BuildStep, GPTSovitsRuntime, Resample};

fn host(speakers: &[(&str, Version)]) -> HostData {
    let config = Config {
        bert_model_path: None,
        g2pw_model_path: None,
        ssl_model_path: "ssl.pt".to_string(),
        mini_bart_g2p_path: "g2p.pt".to_string(),
        device: RuntimeDevice::Cpu,
        speaker: speakers
            .iter()
            .map(|(name, version)| SpeakerConfig {
                name: name.to_string(),
                gpt_sovits_path: "weights.pt".to_string(),
                ref_audio_path: "ref.wav".to_string(),
                ref_text: "hello".to_string(),
                version: *version,
            })
            .collect(),
    };
    let mut step = GPTSovitsRuntime::new(&config);
    loop {
        step = match step {
            BuildStep::Engine(build) => build.resolve(Ok(())),
            BuildStep::Register(registration) => registration.resolve(Ok(())),
            BuildStep::Ready(runtime) => return HostData::new(Ok(runtime)),
            BuildStep::Failed(error) => panic!("no session: {error:?}"),
        };
    }
}

fn failed_host() -> HostData {
    HostData::new(Err(BuildError::Engine("no weights".to_string())))
}

fn staged(data: &HostData) -> Vec<u8> {
    data.runtime().as_ref().unwrap().output_wav.clone()
}

fn i32s(values: &[i32]) -> Vec<WasmValue> {
    values.iter().map(|v| WasmValue::I32(*v)).collect()
}

/// A guest memory of `size` bytes with `speaker` at offset 16 and `text`
/// at offset 64, and the arguments that name them.
fn guest(size: usize, speaker: &[u8], text: &[u8]) -> (Vec<u8>, Vec<WasmValue>) {
    let mut memory = vec![0xeeu8; size];
    memory[16..16 + speaker.len()].copy_from_slice(speaker);
    memory[64..64 + text.len()].copy_from_slice(text);
    (memory, i32s(&[16, speaker.len() as i32, 64, text.len() as i32]))
}

fn status(step: InferStep) -> i32 {
    match step {
        InferStep::Done(Ok(values)) => match values.as_slice() {
            [WasmValue::I32(status)] => *status,
            other => panic!("not one status: {other:?}"),
        },
        InferStep::Done(Err(fault)) => panic!("fault: {fault:?}"),
        InferStep::Synthesize(request) => panic!("went to the engine: {request:?}"),
    }
}

fn fault(step: InferStep) -> BoundaryFault {
    match step {
        InferStep::Done(Err(fault)) => fault,
        InferStep::Done(Ok(values)) => panic!("answered: {values:?}"),
        InferStep::Synthesize(request) => panic!("went to the engine: {request:?}"),
    }
}

#[test]
fn status_codes_are_stable() {
    assert_eq!(STATUS_OK, 0);
    assert_eq!(STATUS_FAILED, -1);
    assert_eq!(STATUS_UNAVAILABLE, -2);
}

#[test]
fn exported_functions_and_their_shapes() {
    assert_eq!(MODULE_NAME, "gpt_sovits");
    assert_eq!(exports(), vec![HostFunction::Infer, HostFunction::GetOutput, HostFunction::IsOk]);
    assert_eq!(HostFunction::Infer.name(), "infer");
    assert_eq!(HostFunction::GetOutput.name(), "get_output");
    assert_eq!(HostFunction::IsOk.name(), "is_ok");
    assert_eq!(HostFunction::Infer.params(), 4);
    assert_eq!(HostFunction::GetOutput.params(), 2);
    assert_eq!(HostFunction::IsOk.params(), 0);
}

#[test]
fn arguments_are_accepted_by_their_leading_shape() {
    assert!(HostFunction::Infer.accepts(&i32s(&[1, 2, 3, 4])));
    assert!(HostFunction::Infer.accepts(&i32s(&[1, 2, 3, 4, 5])));
    assert!(!HostFunction::Infer.accepts(&i32s(&[1, 2, 3])));
    assert!(!HostFunction::Infer.accepts(&vec![
        WasmValue::I32(1),
        WasmValue::I32(2),
        WasmValue::I64(3),
        WasmValue::I32(4),
    ]));
    assert!(HostFunction::GetOutput.accepts(&i32s(&[1, 2])));
    assert!(!HostFunction::GetOutput.accepts(&i32s(&[1])));
    assert!(!HostFunction::GetOutput.accepts(&vec![WasmValue::I32(1), WasmValue::F32(0)]));
    assert!(HostFunction::IsOk.accepts(&Vec::new()));
    assert!(HostFunction::IsOk.accepts(&vec![WasmValue::Unknown]));
}

#[test]
fn decode_accepts_exactly_utf8() {
    assert_eq!(decode(b"hello"), Ok("hello"));
    assert_eq!(decode("你好".as_bytes()), Ok("你好"));
    assert_eq!(decode(&[]), Ok(""));
    assert_eq!(decode(&[0xf0, 0x9f, 0x98, 0x80]), Ok("\u{1f600}"));
    assert_eq!(decode(&[0xff]), Err(InferError::InvalidText));
    assert_eq!(decode(&[b'a', 0x80]), Err(InferError::InvalidText));
    assert_eq!(decode(&[0xed, 0xa0, 0x80]), Err(InferError::InvalidText));
    assert_eq!(decode(&[0xf0, 0x9f, 0x98]), Err(InferError::InvalidText));
}

#[test]
fn a_failed_call_has_one_status_whatever_the_cause() {
    for cause in [
        InferError::UnknownSpeaker,
        InferError::InvalidText,
        InferError::Engine("no audio generated".to_string()),
    ] {
        let mut data = host(&[("voice1", Version::V2)]);
        assert_eq!(complete_infer(&mut data, Err(cause)), i32s(&[-1]));
        assert_eq!(staged(&data), Vec::<u8>::new());
    }
}

#[test]
fn infer_goes_to_the_engine_with_the_decoded_request() {
    let data = host(&[("voice1", Version::V3)]);
    let (memory, args) = guest(128, b"voice1", "héllo".as_bytes());
    match infer(&data, &memory, &args) {
        InferStep::Synthesize(request) => {
            assert_eq!(request.speaker, "voice1");
            assert_eq!(request.text, "héllo");
            assert_eq!(request.split_chunk_size, 50);
            assert_eq!(request.resample, Some(Resample { from: 24000, to: 32000 }));
        }
        InferStep::Done(result) => panic!("ended early: {result:?}"),
    }
}

#[test]
fn infer_reads_up_to_the_last_byte_of_memory() {
    let data = host(&[("v", Version::V2)]);
    let mut memory = vec![0u8; 8];
    memory[0] = b'v';
    memory[5..8].copy_from_slice(b"abc");
    match infer(&data, &memory, &i32s(&[0, 1, 5, 3])) {
        InferStep::Synthesize(request) => {
            assert_eq!(request.speaker, "v");
            assert_eq!(request.text, "abc");
            assert_eq!(request.split_chunk_size, 100);
        }
        InferStep::Done(result) => panic!("ended early: {result:?}"),
    }
    match infer(&data, &memory, &i32s(&[0, 1, 8, 0])) {
        InferStep::Synthesize(request) => assert_eq!(request.text, ""),
        InferStep::Done(result) => panic!("ended early: {result:?}"),
    }
}

#[test]
fn infer_with_arguments_of_another_shape_is_a_fault() {
    let data = host(&[("voice1", Version::V2)]);
    let (memory, _) = guest(128, b"voice1", b"hello");
    assert_eq!(fault(infer(&data, &memory, &i32s(&[16, 6]))), BoundaryFault::FuncTypeMismatch);
    assert_eq!(fault(infer(&data, &memory, &Vec::new())), BoundaryFault::FuncTypeMismatch);
    let mixed = vec![
        WasmValue::I32(16),
        WasmValue::I32(6),
        WasmValue::I32(64),
        WasmValue::I64(5),
    ];
    assert_eq!(fault(infer(&data, &memory, &mixed)), BoundaryFault::FuncTypeMismatch);
    assert_eq!(
        fault(infer(&failed_host(), &memory, &i32s(&[16, 6]))),
        BoundaryFault::FuncTypeMismatch
    );
}

#[test]
fn infer_without_session_is_unavailable() {
    let data = failed_host();
    let (memory, args) = guest(128, b"voice1", b"hello");
    assert_eq!(status(infer(&data, &memory, &args)), -2);
    assert_eq!(status(infer(&data, &memory, &i32s(&[1000, 6, 64, 5]))), -2);
}

#[test]
fn infer_outside_the_guest_memory_is_a_fault() {
    let data = host(&[("voice1", Version::V2)]);
    let (memory, _) = guest(128, b"voice1", b"hello");
    for args in [
        [16, 6, 124, 5],
        [123, 6, 64, 5],
        [16, 6, 128, 1],
        [16, 6, 129, 0],
        [-1, 1, 64, 5],
        [16, -1, 64, 5],
        [16, 6, i32::MAX, 5],
        [16, 6, 64, i32::MIN],
    ] {
        assert_eq!(
            fault(infer(&data, &memory, &i32s(&args))),
            BoundaryFault::MemoryOutOfBounds,
            "{args:?}"
        );
    }
}

#[test]
fn infer_with_text_that_is_not_utf8_fails_the_call() {
    let data = host(&[("voice1", Version::V2)]);
    let (memory, args) = guest(128, b"voice1", &[b'h', 0xff, b'i']);
    assert_eq!(status(infer(&data, &memory, &args)), -1);
    let (memory, args) = guest(128, b"voice1", &[0xe4, 0xbd]);
    assert_eq!(status(infer(&data, &memory, &args)), -1);
}

#[test]
fn infer_with_a_speaker_name_that_is_not_utf8_fails_the_call() {
    let data = host(&[("voice1", Version::V2)]);
    let (memory, args) = guest(128, &[0xc0, 0x80], b"hello");
    assert_eq!(status(infer(&data, &memory, &args)), -1);
}

#[test]
fn infer_with_an_unknown_speaker_fails_the_call_and_keeps_the_audio() {
    let mut data = host(&[("voice1", Version::V2)]);
    assert_eq!(complete_infer(&mut data, Ok(vec![1, 2, 3])), i32s(&[3]));
    let (memory, args) = guest(128, b"voice2", b"hello");
    assert_eq!(status(infer(&data, &memory, &args)), -1);
    assert_eq!(staged(&data), vec![1, 2, 3]);
}

#[test]
fn completed_inference_returns_the_length_it_staged() {
    let mut data = host(&[("voice1", Version::V2)]);
    assert_eq!(complete_infer(&mut data, Ok(vec![7; 1000])), i32s(&[1000]));
    assert_eq!(staged(&data), vec![7; 1000]);
    assert_eq!(complete_infer(&mut data, Ok(Vec::new())), i32s(&[0]));
    assert_eq!(staged(&data), Vec::<u8>::new());
}

#[test]
fn failed_inference_keeps_the_staged_audio() {
    let mut data = host(&[("voice1", Version::V2)]);
    assert_eq!(complete_infer(&mut data, Ok(vec![1, 2, 3])), i32s(&[3]));
    let failure = Err(InferError::Engine("no audio generated".to_string()));
    assert_eq!(complete_infer(&mut data, failure), i32s(&[-1]));
    assert_eq!(staged(&data), vec![1, 2, 3]);
}

#[test]
fn completed_inference_without_session_is_unavailable() {
    let mut data = failed_host();
    assert_eq!(complete_infer(&mut data, Ok(vec![1, 2, 3])), i32s(&[-2]));
    assert_eq!(
        data.runtime().as_ref().err(),
        Some(&BuildError::Engine("no weights".to_string()))
    );
}

#[test]
fn get_output_copies_exactly_the_staged_audio() {
    let mut data = host(&[("voice1", Version::V2)]);
    let wav = vec![10u8, 20, 30, 40, 50];
    let len = match complete_infer(&mut data, Ok(wav.clone())).as_slice() {
        [WasmValue::I32(len)] => *len,
        other => panic!("not one status: {other:?}"),
    };
    let mut memory = vec![0xeeu8; 32];
    assert_eq!(get_output(&data, &mut memory, &i32s(&[8, len])), Ok(i32s(&[0])));
    assert_eq!(&memory[8..13], wav.as_slice());
    assert!(memory[..8].iter().all(|b| *b == 0xee));
    assert!(memory[13..].iter().all(|b| *b == 0xee));

    let once = memory.clone();
    assert_eq!(get_output(&data, &mut memory, &i32s(&[8, len])), Ok(i32s(&[0])));
    assert_eq!(memory, once);
    assert_eq!(staged(&data), wav);

    let mut other = vec![0u8; 5];
    assert_eq!(get_output(&data, &mut other, &i32s(&[0, len, 99])), Ok(i32s(&[0])));
    assert_eq!(other, wav);
}

#[test]
fn get_output_with_another_length_copies_nothing() {
    let mut data = host(&[("voice1", Version::V2)]);
    complete_infer(&mut data, Ok(vec![10, 20, 30]));
    for len in [0, 1, 2, 4, 24] {
        let mut memory = vec![0xeeu8; 32];
        assert_eq!(get_output(&data, &mut memory, &i32s(&[8, len])), Ok(i32s(&[-1])), "{len}");
        assert_eq!(memory, vec![0xee; 32], "{len}");
    }
}

#[test]
fn get_output_outside_the_guest_memory_is_a_fault() {
    let mut data = host(&[("voice1", Version::V2)]);
    complete_infer(&mut data, Ok(vec![10, 20, 30]));
    for args in [[30, 3], [33, 0], [-4, 3], [8, -3], [8, 25]] {
        let mut memory = vec![0xeeu8; 32];
        assert_eq!(
            get_output(&data, &mut memory, &i32s(&args)),
            Err(BoundaryFault::MemoryOutOfBounds),
            "{args:?}"
        );
        assert_eq!(memory, vec![0xee; 32], "{args:?}");
    }
}

#[test]
fn get_output_with_arguments_of_another_shape_is_a_fault() {
    let data = host(&[("voice1", Version::V2)]);
    let mut memory = vec![0xeeu8; 32];
    assert_eq!(
        get_output(&data, &mut memory, &i32s(&[8])),
        Err(BoundaryFault::FuncTypeMismatch)
    );
    assert_eq!(
        get_output(&data, &mut memory, &vec![WasmValue::I64(8), WasmValue::I32(0)]),
        Err(BoundaryFault::FuncTypeMismatch)
    );
    assert_eq!(
        get_output(&failed_host(), &mut memory, &Vec::new()),
        Err(BoundaryFault::FuncTypeMismatch)
    );
    assert_eq!(memory, vec![0xee; 32]);
}

#[test]
fn get_output_without_session_is_unavailable() {
    let data = failed_host();
    let mut memory = vec![0xeeu8; 32];
    assert_eq!(get_output(&data, &mut memory, &i32s(&[8, 3])), Ok(i32s(&[-2])));
    assert_eq!(get_output(&data, &mut memory, &i32s(&[100, 3])), Ok(i32s(&[-2])));
    assert_eq!(memory, vec![0xee; 32]);
}

#[test]
fn get_output_before_any_inference_copies_the_empty_audio() {
    let data = host(&[("voice1", Version::V2)]);
    let mut memory = vec![0xeeu8; 32];
    assert_eq!(get_output(&data, &mut memory, &i32s(&[8, 0])), Ok(i32s(&[0])));
    assert_eq!(get_output(&data, &mut memory, &i32s(&[32, 0])), Ok(i32s(&[0])));
    assert_eq!(get_output(&data, &mut memory, &i32s(&[8, 1])), Ok(i32s(&[-1])));
    assert_eq!(memory, vec![0xee; 32]);
}

#[test]
fn is_ok_stays_true_for_a_session() {
    let mut data = host(&[("voice1", Version::V2)]);
    assert_eq!(is_ok(&data), Ok(i32s(&[1])));
    complete_infer(&mut data, Ok(vec![1, 2, 3]));
    assert_eq!(is_ok(&data), Ok(i32s(&[1])));
    complete_infer(&mut data, Err(InferError::Engine("failed".to_string())));
    assert_eq!(is_ok(&data), Ok(i32s(&[1])));
    let (memory, args) = guest(128, b"nobody", b"hello");
    infer(&data, &memory, &args);
    let mut memory = vec![0u8; 8];
    let _ = get_output(&data, &mut memory, &i32s(&[0, 3]));
    let _ = get_output(&data, &mut memory, &i32s(&[0, 9]));
    assert_eq!(is_ok(&data), Ok(i32s(&[1])));
}

#[test]
fn is_ok_stays_false_without_session() {
    let mut data = HostData::new(Err(BuildError::Config(ConfigError::Malformed(
        "expected value at line 1".to_string(),
    ))));
    assert_eq!(is_ok(&data), Ok(i32s(&[0])));
    complete_infer(&mut data, Ok(vec![1, 2, 3]));
    assert_eq!(is_ok(&data), Ok(i32s(&[0])));
    let (memory, args) = guest(128, b"voice1", b"hello");
    infer(&data, &memory, &args);
    let mut memory = vec![0u8; 8];
    let _ = get_output(&data, &mut memory, &i32s(&[0, 3]));
    assert_eq!(is_ok(&data), Ok(i32s(&[0])));
    assert_eq!(
        data.runtime().as_ref().err(),
        Some(&BuildError::Config(ConfigError::Malformed("expected value at line 1".to_string())))
    );
}
