use capture_pipeline::errors::PipelineError;

#[test]
fn fatal_start_failures_carry_their_messages() {
    assert_eq!(
        PipelineError::DeviceUnavailable.message(),
        "No input device found"
    );
    assert_eq!(
        PipelineError::StreamSetupFailed.message(),
        "Failed to build input stream"
    );
    assert_eq!(
        PipelineError::StreamPlayFailed.message(),
        "Failed to play stream"
    );
    assert_eq!(
        PipelineError::SpawnFailed.message(),
        "Failed to spawn sidecar"
    );
}

#[test]
fn steady_state_failures_carry_their_messages() {
    assert_eq!(
        PipelineError::ForwardWriteFailed.message(),
        "Failed to forward audio block"
    );
    assert_eq!(
        PipelineError::StreamRuntimeError.message(),
        "an error occurred on stream"
    );
}
