use voicevox_dyn::{finish_load_model, ResultCode};

#[test]
fn uninitialized_code_describes_itself() {
    let c = ResultCode::from_raw(6).unwrap();
    assert_eq!(c, ResultCode::UninitializedStatusError);
    assert_eq!(c.description(), "Status is uninitialized");
    assert_eq!(c.to_string(), "Status is uninitialized".to_string());
}

#[test]
fn load_model_passes_uninitialized_status_through() {
    let c = ResultCode::from_raw(6).unwrap();
    assert_eq!(finish_load_model(c), Err(ResultCode::UninitializedStatusError));
    assert_eq!(finish_load_model(ResultCode::Success), Ok(()));
}

#[test]
fn every_code_round_trips() {
    for raw in 0..14 {
        let c = ResultCode::from_raw(raw).unwrap();
        assert_eq!(c.code(), raw);
    }
}

#[test]
fn unknown_codes_are_rejected() {
    assert_eq!(ResultCode::from_raw(14), None);
    assert_eq!(ResultCode::from_raw(-1), None);
    assert_eq!(ResultCode::from_raw(i32::MAX), None);
}

#[test]
fn descriptions_of_first_and_last() {
    assert_eq!(ResultCode::from_raw(0).unwrap().description(), "Success");
    assert_eq!(
        ResultCode::from_raw(1).unwrap().description(),
        "Failed to load Open JTalk dictionary file"
    );
    assert_eq!(
        ResultCode::from_raw(13).unwrap(),
        ResultCode::InvalidAudioQueryError
    );
    assert_eq!(ResultCode::InvalidAudioQueryError.description(), "Invalid AudioQuery");
    assert_eq!(ResultCode::GpuSupportError.code(), 4);
}

#[test]
fn into_result_splits_success_from_failure() {
    assert_eq!(ResultCode::Success.into_result(), Ok(()));
    assert_eq!(
        ResultCode::InferenceError.into_result(),
        Err(ResultCode::InferenceError)
    );
}
