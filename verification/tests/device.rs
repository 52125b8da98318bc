use sndio_host::config::{
    BufferSize, SampleFormat, SampleRate, StreamConfig, SupportedBufferSize, SupportedStreamConfig,
};
use sndio_host::device::Device as InnerDevice;
use sndio_host::error::{BuildStreamError, DefaultStreamConfigError, PauseStreamError};
use sndio_host::host::{Devices, Host};
use sndio_host::negotiation::{ConfigEvent, ConfigStep};
use sndio_host::par::{BufferXrunBehavior, Endian, SioPar};
use sndio_host::state::Status;

type Device = InnerDevice<u32, &'static str, &'static str, &'static str>;

fn initial() -> SioPar {
    SioPar {
        bits: u32::MAX,
        bps: u32::MAX,
        sig: u32::MAX,
        le: u32::MAX,
        msb: u32::MAX,
        rchan: u32::MAX,
        pchan: u32::MAX,
        rate: u32::MAX,
        bufsz: u32::MAX,
        xrun: u32::MAX,
        round: u32::MAX,
        appbufsz: u32::MAX,
    }
}

fn settled() -> SioPar {
    SioPar {
        bits: 16,
        bps: 2,
        sig: 1,
        le: 1,
        msb: 1,
        rchan: 1,
        pchan: 1,
        rate: 48000,
        bufsz: 8640,
        xrun: 1,
        round: 480,
        appbufsz: 7680,
    }
}

fn config(buffer_size: BufferSize) -> StreamConfig {
    StreamConfig {
        channels: 1,
        sample_rate: SampleRate(48000),
        buffer_size,
    }
}

fn finished(step: ConfigStep) -> Result<SupportedStreamConfig, DefaultStreamConfigError> {
    match step {
        ConfigStep::Finished { result } => result,
        _ => panic!("the negotiation goes on"),
    }
}

fn config_failure(step: ConfigStep) -> String {
    match finished(step) {
        Err(DefaultStreamConfigError::BackendSpecific { err }) => err.description,
        _ => panic!("no such failure"),
    }
}

fn build_failure<T>(res: Result<T, BuildStreamError>) -> String {
    match res {
        Err(BuildStreamError::BackendSpecific { err }) => err.description,
        _ => panic!("no such failure"),
    }
}

fn initialised(endian: Endian) -> ConfigEvent<u32> {
    ConfigEvent::Initialised {
        initial: initial(),
        endian,
    }
}

fn opened() -> Device {
    let mut device = Device::new();
    device.default_output_config_after(ConfigEvent::Opened {
        hdl: Some(7),
        par: initial(),
    });
    device
}

fn configured_with(par: SioPar) -> Device {
    let mut device = opened();
    let step = device.default_output_config_after(ConfigEvent::Retrieved { status: 1, par });
    assert!(finished(step).is_ok());
    device
}

fn configured() -> Device {
    configured_with(settled())
}

#[test]
fn the_host_has_one_device() {
    let host = Host::new().unwrap();
    assert!(Host::is_available());
    let mut devices = host.devices().unwrap();
    let first: Option<Device> = devices.next();
    assert!(first.is_some());
    for _ in 0..3 {
        let other: Option<Device> = devices.next();
        assert!(other.is_none());
    }
    let again: Option<Device> = Devices::new().next();
    assert!(again.is_some());
}

#[test]
fn default_devices_are_new() {
    let output: Option<Device> = Host::default_output_device();
    let input: Option<Device> = Host.default_input_device();
    for device in [output.unwrap(), input.unwrap()] {
        assert_eq!(device.behavior, BufferXrunBehavior::Sync);
        assert_eq!(device.inner_state.hdl, None);
        assert_eq!(device.inner_state.status, Status::Stopped);
    }
}

#[test]
fn the_device_has_a_name() {
    assert_eq!(Device::new().name().unwrap(), "sndio default device");
}

#[test]
fn the_default_parameters_are_requested() {
    let mut device = Device::new();
    assert!(matches!(
        device.default_output_config(),
        ConfigStep::Initialise
    ));
    match device.default_output_config_after(initialised(Endian::LE)) {
        ConfigStep::Open { par } => assert_eq!(
            par,
            SioPar {
                bits: 16,
                sig: 1,
                le: 1,
                rchan: 1,
                pchan: 1,
                rate: 48000,
                xrun: 1,
                ..initial()
            }
        ),
        _ => panic!("the device has to be opened first"),
    }
}

#[test]
fn byte_order_and_behavior_are_requested() {
    for (behavior, xrun) in [
        (BufferXrunBehavior::Ignore, 0),
        (BufferXrunBehavior::Sync, 1),
        (BufferXrunBehavior::Error, 2),
    ] {
        let mut device = opened();
        device.set_xrun_behavior(behavior.clone());
        assert_eq!(device.behavior, behavior);
        match device.default_output_config_after(initialised(Endian::BE)) {
            ConfigStep::Request { par } => {
                assert_eq!(par.xrun, xrun);
                assert_eq!(par.le, 0);
            }
            _ => panic!("an open device is asked at once"),
        }
    }
}

#[test]
fn a_negotiation_succeeds() {
    let mut device = Device::new();
    assert!(matches!(
        device.default_output_config(),
        ConfigStep::Initialise
    ));
    let par = match device.default_output_config_after(initialised(Endian::LE)) {
        ConfigStep::Open { par } => par,
        _ => panic!("the device has to be opened first"),
    };
    let par = match device.default_output_config_after(ConfigEvent::Opened { hdl: Some(7), par }) {
        ConfigStep::Request { par } => par,
        _ => panic!("parameters have to be requested"),
    };
    assert_eq!(par.rate, 48000);
    let step = device.default_output_config_after(ConfigEvent::Requested { status: 1, par });
    assert!(matches!(step, ConfigStep::Retrieve { .. }));
    let step = device.default_output_config_after(ConfigEvent::Retrieved {
        status: 1,
        par: settled(),
    });
    let expected = SupportedStreamConfig {
        channels: 1,
        sample_rate: SampleRate(48000),
        buffer_size: SupportedBufferSize::Range {
            min: 480,
            max: 7680,
        },
        sample_format: SampleFormat::I16,
    };
    assert_eq!(finished(step).unwrap(), expected);
    assert_eq!(device.inner_state.config, Some(expected));
    assert_eq!(device.inner_state.par, Some(settled()));
    assert_eq!(device.inner_state.hdl, Some(7));

    // The device is not addressed again.
    let again = finished(device.default_output_config()).unwrap();
    assert_eq!(
        again,
        SupportedStreamConfig {
            buffer_size: SupportedBufferSize::Range {
                min: 7680,
                max: 7680
            },
            ..expected
        }
    );
}

#[test]
fn a_failed_negotiation_can_be_tried_again() {
    let mut device = opened();
    device.default_output_config_after(ConfigEvent::Requested {
        status: 0,
        par: initial(),
    });
    assert!(matches!(
        device.default_output_config(),
        ConfigStep::Initialise
    ));
    assert!(matches!(
        device.default_output_config_after(initialised(Endian::LE)),
        ConfigStep::Request { .. }
    ));
    let step = device.default_output_config_after(ConfigEvent::Retrieved {
        status: 1,
        par: settled(),
    });
    assert!(finished(step).is_ok());
}

#[test]
fn channels_keep_their_low_bits() {
    let par = SioPar {
        pchan: 0x3_0002,
        ..settled()
    };
    let device = configured_with(par);
    assert_eq!(device.inner_state.config.unwrap().channels, 2);
}

#[test]
fn a_device_that_cannot_be_opened_is_not_available() {
    let mut device = Device::new();
    let step = device.default_output_config_after(ConfigEvent::Opened {
        hdl: None,
        par: initial(),
    });
    assert!(matches!(
        finished(step),
        Err(DefaultStreamConfigError::DeviceNotAvailable)
    ));
    assert_eq!(device.inner_state.hdl, None);
}

#[test]
fn a_failed_request_ends_the_negotiation() {
    let mut device = opened();
    let step = device.default_output_config_after(ConfigEvent::Requested {
        status: 0,
        par: initial(),
    });
    assert_eq!(
        config_failure(step),
        "failed to request parameters with sio_setpar"
    );
    assert_eq!(device.inner_state.hdl, Some(7));
    assert_eq!(device.inner_state.config, None);
}

#[test]
fn a_failed_retrieval_ends_the_negotiation() {
    let mut device = opened();
    let step = device.default_output_config_after(ConfigEvent::Retrieved {
        status: 0,
        par: settled(),
    });
    assert_eq!(
        config_failure(step),
        "failed to get device-supported parameters with sio_getpar"
    );
    assert_eq!(device.inner_state.config, None);
    assert_eq!(device.inner_state.par, None);
}

#[test]
fn other_sample_sizes_are_refused() {
    for (bits, bps, text) in [
        (
            24,
            4,
            "unexpected sample size (not 16bit): bits/sample: 24, bytes/sample: 4)",
        ),
        (
            16,
            10,
            "unexpected sample size (not 16bit): bits/sample: 16, bytes/sample: 10)",
        ),
        (
            8,
            2,
            "unexpected sample size (not 16bit): bits/sample: 8, bytes/sample: 2)",
        ),
    ] {
        let step = opened().default_output_config_after(ConfigEvent::Retrieved {
            status: 1,
            par: SioPar {
                bits,
                bps,
                ..settled()
            },
        });
        assert_eq!(config_failure(step), text);
    }
}

#[test]
fn unsigned_samples_are_refused() {
    let step = opened().default_output_config_after(ConfigEvent::Retrieved {
        status: 1,
        par: SioPar {
            sig: 0,
            ..settled()
        },
    });
    assert_eq!(
        config_failure(step),
        "sndio device does not support I16 but we need it to"
    );
}

#[test]
fn a_stream_needs_a_configured_device() {
    let mut device = opened();
    let c = config(BufferSize::Default);
    assert_eq!(
        build_failure(device.build_output_stream_raw(&c, SampleFormat::I16, "out", "runner")),
        "device not configured"
    );
    assert_eq!(
        build_failure(device.build_input_stream_raw(&c, SampleFormat::I16, "in", "runner")),
        "device not configured"
    );
    assert_eq!(device.inner_state.buffer_size, None);
}

#[test]
fn another_configuration_is_refused() {
    let mut device = configured();
    let stereo = StreamConfig {
        channels: 2,
        ..config(BufferSize::Default)
    };
    let slow = StreamConfig {
        sample_rate: SampleRate(44100),
        ..config(BufferSize::Default)
    };
    assert_eq!(
        build_failure(device.build_output_stream_raw(&stereo, SampleFormat::I16, "out", "runner")),
        "configs don't match"
    );
    assert_eq!(
        build_failure(device.build_input_stream_raw(&slow, SampleFormat::I16, "in", "runner")),
        "configs don't match"
    );
    assert_eq!(device.inner_state.buffer_size, None);
}

#[test]
fn another_sample_format_is_refused_but_settles_the_size() {
    let mut device = configured();
    let c = config(BufferSize::Fixed(1000));
    assert_eq!(
        build_failure(device.build_output_stream_raw(&c, SampleFormat::U16, "out", "runner")),
        "unexpected sample format U16, expected I16"
    );
    assert_eq!(device.inner_state.buffer_size, Some(1440));
    assert_eq!(
        build_failure(device.build_input_stream_raw(&c, SampleFormat::F32, "in", "runner")),
        "unexpected sample format F32, expected I16"
    );
    assert!(device.inner_state.output_callbacks.is_empty());
    assert!(device.inner_state.input_callbacks.is_empty());
    assert_eq!(device.inner_state.status, Status::Stopped);
}

#[test]
fn the_first_stream_starts_the_runner() {
    let mut device = configured();
    let c = config(BufferSize::Fixed(1000));
    let first = device
        .build_output_stream_raw(&c, SampleFormat::I16, "out", "runner")
        .unwrap();
    assert!(first.spawn_runner);
    assert!(!first.wakeup);
    assert!(first.stream.is_output);
    assert_eq!(first.stream.index, 0);
    assert_eq!(device.inner_state.status, Status::Running);
    assert_eq!(device.inner_state.output_callbacks, vec![Some("out")]);

    let second = device
        .build_input_stream_raw(&c, SampleFormat::I16, "in", "runner")
        .unwrap();
    assert!(!second.spawn_runner);
    assert!(!second.stream.is_output);
    assert_eq!(second.stream.index, 0);
    assert_eq!(device.inner_state.input_callbacks, vec![Some("in")]);
}

#[test]
fn all_streams_have_one_buffer_size() {
    let mut device = configured();
    let build = |device: &mut Device, size| {
        device.build_output_stream_raw(&config(size), SampleFormat::I16, "out", "runner")
    };
    assert!(build(&mut device, BufferSize::Fixed(1000)).is_ok());
    assert_eq!(device.inner_state.buffer_size, Some(1440));
    assert!(build(&mut device, BufferSize::Fixed(1440)).is_ok());
    assert!(build(&mut device, BufferSize::Default).is_ok());
    assert_eq!(
        build_failure(build(&mut device, BufferSize::Fixed(1441))),
        "buffer sizes don't match"
    );
    assert_eq!(
        build_failure(build(&mut device, BufferSize::Fixed(0))),
        "buffer sizes don't match"
    );
    assert_eq!(device.inner_state.buffer_size, Some(1440));
    assert_eq!(device.inner_state.output_callbacks.len(), 3);
}

#[test]
fn the_default_buffer_holds_two_rounds() {
    let mut device = configured();
    let c = config(BufferSize::Default);
    assert!(device
        .build_input_stream_raw(&c, SampleFormat::I16, "in", "runner")
        .is_ok());
    assert_eq!(device.inner_state.buffer_size, Some(960));
}

#[test]
fn no_frames_come_to_one_round() {
    let mut device = configured();
    let c = config(BufferSize::Fixed(0));
    assert!(device
        .build_input_stream_raw(&c, SampleFormat::I16, "in", "runner")
        .is_ok());
    assert_eq!(device.inner_state.buffer_size, Some(480));
}

#[test]
fn rounding_to_no_frames_is_told_beforehand() {
    let device = configured_with(SioPar {
        round: 0,
        ..settled()
    });
    let state = &device.inner_state;
    assert!(!state.has_buffer_size_for(&config(BufferSize::Fixed(1))));
    assert!(state.has_buffer_size_for(&config(BufferSize::Fixed(0))));
    assert!(state.has_buffer_size_for(&config(BufferSize::Default)));
    let stereo = StreamConfig {
        channels: 2,
        ..config(BufferSize::Fixed(1))
    };
    assert!(state.has_buffer_size_for(&stereo));
    assert!(Device::new()
        .inner_state
        .has_buffer_size_for(&config(BufferSize::Fixed(1))));
    assert!(configured()
        .inner_state
        .has_buffer_size_for(&config(BufferSize::Fixed(1))));
}

#[test]
fn releasing_the_last_stream_wakes_the_runner() {
    let mut device = configured();
    let c = config(BufferSize::Default);
    let output = device
        .build_output_stream_raw(&c, SampleFormat::I16, "out", "first")
        .unwrap();
    assert!(!output.wakeup);
    assert!(output.spawn_runner);
    let input = device
        .build_input_stream_raw(&c, SampleFormat::I16, "in", "second")
        .unwrap();
    assert!(!input.wakeup);
    assert!(!input.spawn_runner);
    assert!(!device.release());
    assert!(!output.stream.release(&mut device.inner_state));
    assert_eq!(device.inner_state.input_callbacks, vec![Some("in")]);
    assert!(input.stream.release(&mut device.inner_state));
    assert!(device.inner_state.input_callbacks.is_empty());
    assert!(device.release());
    assert_eq!(device.inner_state.buffer_size, Some(960));
    assert_eq!(device.inner_state.status, Status::Running);

    // The next stream wakes the runner that is waiting.
    let next = device
        .build_input_stream_raw(&c, SampleFormat::I16, "in", "third")
        .unwrap();
    assert!(next.wakeup);
    assert!(!next.spawn_runner);
}

#[test]
fn the_sender_is_that_of_the_runner() {
    let mut device = configured();
    let c = config(BufferSize::Default);
    assert_eq!(device.inner_state.wakeup_sender, None);
    let refused = device.build_output_stream_raw(&c, SampleFormat::U16, "out", "refused");
    assert!(refused.is_err());
    assert_eq!(device.inner_state.wakeup_sender, None);

    let built = device.build_output_stream_raw(&c, SampleFormat::I16, "out", "first");
    assert!(built.unwrap().spawn_runner);
    assert_eq!(device.inner_state.wakeup_sender, Some("first"));

    let built = device.build_input_stream_raw(&c, SampleFormat::I16, "in", "second");
    assert!(!built.unwrap().spawn_runner);
    assert_eq!(device.inner_state.wakeup_sender, Some("first"));

    // The runner has ended, and another one is started.
    device.inner_state.status = Status::Stopped;
    let built = device.build_input_stream_raw(&c, SampleFormat::I16, "in", "third");
    assert!(built.unwrap().spawn_runner);
    assert_eq!(device.inner_state.wakeup_sender, Some("third"));
}

#[test]
fn streams_keep_their_index() {
    let mut device = configured();
    let c = config(BufferSize::Default);
    let a = device
        .build_output_stream_raw(&c, SampleFormat::I16, "a", "runner")
        .unwrap();
    let b = device
        .build_output_stream_raw(&c, SampleFormat::I16, "b", "runner")
        .unwrap();
    a.stream.release(&mut device.inner_state);
    assert_eq!(device.inner_state.output_callbacks, vec![None, Some("b")]);
    let c2 = device
        .build_output_stream_raw(&c, SampleFormat::I16, "c", "runner")
        .unwrap();
    assert_eq!(c2.stream.index, 0);
    assert_eq!(b.stream.index, 1);
    b.stream.release(&mut device.inner_state);
    assert_eq!(device.inner_state.output_callbacks, vec![Some("c")]);
}

#[test]
fn streams_play_and_do_not_pause() {
    let mut device = configured();
    let built = device
        .build_output_stream_raw(&config(BufferSize::Default), SampleFormat::I16, "out", "runner")
        .unwrap();
    assert!(built.stream.play().is_ok());
    match built.stream.pause() {
        Err(PauseStreamError::BackendSpecific { err }) => {
            assert_eq!(err.description, "pausing is not implemented")
        }
        _ => panic!("a stream cannot be paused"),
    }
}
