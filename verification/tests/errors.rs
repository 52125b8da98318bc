use sndio_host::error::{
    backend_specific_error, BackendSpecificError, BuildStreamError, DefaultStreamConfigError,
    PauseStreamError, SndioError, StreamError,
};

fn broken() -> SndioError {
    backend_specific_error("broken".to_string())
}

#[test]
fn backend_specific_error_keeps_the_description() {
    match broken() {
        SndioError::BackendSpecific(BackendSpecificError { description }) => {
            assert_eq!(description, "broken")
        }
        e => panic!("unexpected {:?}", e),
    }
}

#[test]
fn messages_are_shown() {
    assert_eq!(
        SndioError::DeviceNotAvailable.message(),
        "The requested device is no longer available. For example, it has been unplugged."
    );
    assert_eq!(broken().message(), "broken");
}

#[test]
fn clones_say_the_same() {
    assert_eq!(broken().clone().message(), "broken");
    assert!(matches!(
        SndioError::DeviceNotAvailable.clone(),
        SndioError::DeviceNotAvailable
    ));
    match StreamError::from(broken()).clone() {
        StreamError::BackendSpecific { err } => assert_eq!(err.clone().description, "broken"),
        e => panic!("unexpected {:?}", e),
    }
}

#[test]
fn conversion_keeps_an_unavailable_device() {
    assert!(matches!(
        BuildStreamError::from(SndioError::DeviceNotAvailable),
        BuildStreamError::DeviceNotAvailable
    ));
    assert!(matches!(
        DefaultStreamConfigError::from(SndioError::DeviceNotAvailable),
        DefaultStreamConfigError::DeviceNotAvailable
    ));
    assert!(matches!(
        PauseStreamError::from(SndioError::DeviceNotAvailable),
        PauseStreamError::DeviceNotAvailable
    ));
    assert!(matches!(
        StreamError::from(SndioError::DeviceNotAvailable),
        StreamError::DeviceNotAvailable
    ));
}

#[test]
fn conversion_keeps_a_description() {
    match BuildStreamError::from(broken()) {
        BuildStreamError::BackendSpecific { err } => assert_eq!(err.description, "broken"),
        e => panic!("unexpected {:?}", e),
    }
    match DefaultStreamConfigError::from(broken()) {
        DefaultStreamConfigError::BackendSpecific { err } => assert_eq!(err.description, "broken"),
        e => panic!("unexpected {:?}", e),
    }
    match PauseStreamError::from(broken()) {
        PauseStreamError::BackendSpecific { err } => assert_eq!(err.description, "broken"),
        e => panic!("unexpected {:?}", e),
    }
    match StreamError::from(broken()) {
        StreamError::BackendSpecific { err } => assert_eq!(err.description, "broken"),
        e => panic!("unexpected {:?}", e),
    }
}
