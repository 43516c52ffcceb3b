use operit::local_model_provider::{
    hostExecutedPlatformError, localTtsOutputPath, sherpaSttArguments, sherpaTtsBaseArguments,
    ttsRequestSpeaker, LocalModelProviderError,
};

#[test]
fn synthesis_requests_need_wav_and_a_numeric_speaker() {
    assert_eq!(ttsRequestSpeaker(" WAV ", " 3 "), Ok(3));
    assert_eq!(
        ttsRequestSpeaker("mp3", "3"),
        Err(LocalModelProviderError::InvalidRequest("local Sherpa TTS output format must be wav".to_string()))
    );
    assert_eq!(
        ttsRequestSpeaker("wav", "alto"),
        Err(LocalModelProviderError::InvalidRequest(
            "local TTS voice must be a numeric speaker id: invalid digit found in string".to_string()
        ))
    );
    assert_eq!(
        ttsRequestSpeaker("wav", " "),
        Err(LocalModelProviderError::InvalidRequest(
            "local TTS voice must be a numeric speaker id: cannot parse integer from empty string".to_string()
        ))
    );
}

#[test]
fn host_executed_platforms_are_refused() {
    assert_eq!(
        hostExecutedPlatformError(true).message(),
        "local driver does not support this request: platform speech recognition is executed by LocalInferenceHost"
    );
    assert_eq!(
        hostExecutedPlatformError(false),
        LocalModelProviderError::UnsupportedDriver("platform speech synthesis is executed by LocalInferenceHost".to_string())
    );
}

#[test]
fn recognition_arguments_list_files_then_settings_then_audio() {
    assert_eq!(
        sherpaSttArguments("/m/enc.onnx", "/m/dec.onnx", "/m/join.onnx", "/m/tokens.txt", "zipformer2", "/a/in.wav"),
        vec![
            "--encoder=/m/enc.onnx",
            "--decoder=/m/dec.onnx",
            "--joiner=/m/join.onnx",
            "--tokens=/m/tokens.txt",
            "--model-type=zipformer2",
            "--provider=cpu",
            "--num-threads=2",
            "--decoding-method=greedy_search",
            "--print-args=false",
            "/a/in.wav",
        ]
    );
}

#[test]
fn synthesis_arguments_and_output_path() {
    assert_eq!(
        sherpaTtsBaseArguments(-1, "1.5", "/r/out.wav"),
        vec!["--sid=-1", "--speed=1.5", "--provider=cpu", "--num-threads=2", "--print-args=false", "--output-filename=/r/out.wav"]
    );
    assert_eq!(
        localTtsOutputPath("C:\\runtime\\root", 42, 7),
        "C:/runtime/root/temp/clean_on_exit/local-tts-42-7.wav"
    );
}
