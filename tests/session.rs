use voicevox_dyn::{
    encode_tts_text, finish_tts, AccelerationMode, Error, InitOptions, InitStep, ReleaseGuard,
    ResultCode, Session, TtsOptions,
};

/// Runs one initialization against a stand-in engine that reports `code`,
/// counting its calls.
fn init_with(session: &mut Session, code: ResultCode, calls: &mut u32) -> Result<(), Error> {
    match session.begin_init() {
        InitStep::AlreadyInitialized => Ok(()),
        InitStep::CallForeign => {
            *calls += 1;
            session.finish_init(code)
        }
    }
}

#[test]
fn init_twice_calls_engine_once() {
    let mut s = Session::new();
    assert!(!s.is_initialized());
    let mut calls = 0;
    assert_eq!(init_with(&mut s, ResultCode::Success, &mut calls), Ok(()));
    assert!(s.is_initialized());
    assert_eq!(init_with(&mut s, ResultCode::Success, &mut calls), Ok(()));
    assert!(s.is_initialized());
    assert_eq!(calls, 1);
}

#[test]
fn failed_init_can_be_retried() {
    let mut s = Session::new();
    let mut calls = 0;
    assert_eq!(
        init_with(&mut s, ResultCode::NotLoadedOpenjtalkDictError, &mut calls),
        Err(Error::Foreign(ResultCode::NotLoadedOpenjtalkDictError))
    );
    assert!(!s.is_initialized());
    assert_eq!(init_with(&mut s, ResultCode::Success, &mut calls), Ok(()));
    assert_eq!(calls, 2);
}

#[test]
fn text_with_null_byte_is_rejected() {
    assert_eq!(encode_tts_text("a\0b"), Err(Error::InvalidTextEncoding));
    assert_eq!(encode_tts_text("\0"), Err(Error::InvalidTextEncoding));
}

#[test]
fn text_is_null_terminated() {
    let mut want = "こんにちは".as_bytes().to_vec();
    want.push(0);
    assert_eq!(encode_tts_text("こんにちは"), Ok(want));
    assert_eq!(encode_tts_text(""), Ok(vec![0]));
}

#[test]
fn synthesis_outcome() {
    let g = finish_tts(ResultCode::Success, 44).unwrap();
    assert_eq!(g.len(), 44);
    assert!(!g.is_released());
    assert!(matches!(
        finish_tts(ResultCode::InvalidSpeakerIdError, 0),
        Err(ResultCode::InvalidSpeakerIdError)
    ));
}

#[test]
fn wrapped_buffers_are_freed_once_each() {
    let n = 25;
    let mut frees = 0;
    for k in 0..n {
        let mut g = ReleaseGuard::new(k);
        for _ in 0..(1 + k % 3) {
            if g.release() {
                frees += 1;
            }
        }
        assert!(g.is_released());
        assert_eq!(g.len(), k);
    }
    assert_eq!(frees, n);
}

#[test]
fn init_options_in_engine_encoding() {
    let o = InitOptions::new(AccelerationMode::Gpu, 4, true, "/opt/dic").unwrap();
    assert_eq!(o.acceleration_mode(), 2);
    assert_eq!(o.cpu_num_threads(), 4);
    assert!(o.load_all_models());
    assert_eq!(o.open_jtalk_dict_dir(), &b"/opt/dic\0".to_vec());
    assert_eq!(AccelerationMode::Auto.raw(), 0);
    assert_eq!(AccelerationMode::Cpu.raw(), 1);
}

#[test]
fn init_options_reject_null_in_path() {
    assert!(matches!(
        InitOptions::new(AccelerationMode::Auto, 1, false, "/a\0b"),
        Err(Error::PathResolutionError(_))
    ));
}

#[test]
fn tts_options_default_to_false() {
    let o = TtsOptions::default();
    assert!(!o.kana);
    assert!(!o.enable_interrogative_upspeak);
}
