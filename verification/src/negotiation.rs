//! Negotiating the parameters of a device, step by step.
//!
//! A negotiation takes parameters as sndio initialises them, opens the device,
//! requests parameters, retrieves those that the device settled on, and checks them. The device itself is addressed by
//! the caller: each step says what to do next, and each event says what came of it.

use vstd::prelude::*;
use vstd::string::StringExecFns;

use crate::config::{SampleFormat, SupportedBufferSize, SupportedStreamConfig};
use crate::decimal::{append_decimal, decimal};
use crate::error::{
    backend_specific_error, DefaultStreamConfigError, Failure, SndioError,
};
use crate::par::{
    config_from_par, config_of, is_i16, request_par, requested_par, BufferXrunBehavior, Endian,
    SioPar,
};
use crate::state::{InnerState, StateView};

verus! {

/// What is to be done next in a negotiation.
pub enum ConfigStep {
    /// Have sndio initialise parameters.
    Initialise,
    /// Open the device.
    Open { par: SioPar },
    /// Request `par` of the device.
    Request { par: SioPar },
    /// Retrieve the parameters of the device.
    Retrieve { par: SioPar },
    /// Nothing: the negotiation is over.
    Finished { result: Result<SupportedStreamConfig, DefaultStreamConfigError> },
}

/// A step as a mathematical value.
pub enum StepView {
    Initialise,
    Open { par: SioPar },
    Request { par: SioPar },
    Retrieve { par: SioPar },
    Finished { result: Result<SupportedStreamConfig, Failure> },
}

impl View for ConfigStep {
    type V = StepView;

    open spec fn view(&self) -> StepView {
        match self {
            ConfigStep::Initialise => StepView::Initialise,
            ConfigStep::Open { par } => StepView::Open { par: *par },
            ConfigStep::Request { par } => StepView::Request { par: *par },
            ConfigStep::Retrieve { par } => StepView::Retrieve { par: *par },
            ConfigStep::Finished { result } => StepView::Finished {
                result: match result {
                    Ok(config) => Ok(*config),
                    Err(e) => Err(e@),
                },
            },
        }
    }
}

/// What came of a step.
pub enum ConfigEvent<H> {
    /// sndio gave `initial`; `endian` is the byte order of the machine.
    Initialised { initial: SioPar, endian: Endian },
    /// The attempt to open the device gave `hdl`; `par` is that of the step.
    Opened { hdl: Option<H>, par: SioPar },
    /// The request ended with `status`; `par` is what it left of the parameters.
    Requested { status: i32, par: SioPar },
    /// The retrieval ended with `status` and gave `par`.
    Retrieved { status: i32, par: SioPar },
}

/// The answer of a device that has its configuration already.
pub open spec fn configured_answer(config: SupportedStreamConfig, par: SioPar) -> SupportedStreamConfig {
    SupportedStreamConfig {
        channels: config.channels,
        sample_rate: config.sample_rate,
        buffer_size: SupportedBufferSize::Range { min: par.appbufsz, max: par.appbufsz },
        sample_format: SampleFormat::I16,
    }
}

/// The first step of a negotiation.
pub open spec fn first_step<H, I, O, W>(s: StateView<H, I, O, W>) -> StepView {
    match (s.config, s.par) {
        (Some(config), Some(par)) => StepView::Finished {
            result: Ok(configured_answer(config, par)),
        },
        _ => StepView::Initialise,
    }
}

/// Why samples of another size than 16 bits are refused.
pub open spec fn sample_size_text(par: SioPar) -> Seq<char> {
    "unexpected sample size (not 16bit): bits/sample: "@ + decimal(par.bits as nat)
        + ", bytes/sample: "@ + decimal(par.bps as nat) + ")"@
}

/// What a retrieval that ended with `status` and gave `par` means.
pub open spec fn retrieved(status: i32, par: SioPar) -> Result<SupportedStreamConfig, Failure> {
    if status != 1 {
        Err(
            Failure::BackendSpecific(
                "failed to get device-supported parameters with sio_getpar"@,
            ),
        )
    } else if par.bits != 16 || par.bps != 2 {
        Err(Failure::BackendSpecific(sample_size_text(par)))
    } else if par.sig != 1 {
        Err(Failure::BackendSpecific("sndio device does not support I16 but we need it to"@))
    } else {
        Ok(config_of(par))
    }
}

/// The step that follows on `event`.
pub open spec fn step_after<H, I, O, W>(
    s: StateView<H, I, O, W>,
    behavior: BufferXrunBehavior,
    event: ConfigEvent<H>,
) -> StepView {
    match event {
        ConfigEvent::Initialised { initial, endian } => if s.hdl is Some {
            StepView::Request { par: requested_par(initial, behavior, endian) }
        } else {
            StepView::Open { par: requested_par(initial, behavior, endian) }
        },
        ConfigEvent::Opened { hdl, par } => if s.opened(hdl).hdl is Some {
            StepView::Request { par }
        } else {
            StepView::Finished { result: Err(Failure::DeviceNotAvailable) }
        },
        ConfigEvent::Requested { status, par } => if status == 1 {
            StepView::Retrieve { par }
        } else {
            StepView::Finished {
                result: Err(
                    Failure::BackendSpecific("failed to request parameters with sio_setpar"@),
                ),
            }
        },
        ConfigEvent::Retrieved { status, par } => StepView::Finished {
            result: retrieved(status, par),
        },
    }
}

/// The state that follows on `event`.
pub open spec fn state_after<H, I, O, W>(
    s: StateView<H, I, O, W>,
    event: ConfigEvent<H>,
) -> StateView<H, I, O, W> {
    match event {
        ConfigEvent::Initialised { .. } => s,
        ConfigEvent::Opened { hdl, par } => s.opened(hdl),
        ConfigEvent::Requested { status, par } => s,
        ConfigEvent::Retrieved { status, par } => match retrieved(status, par) {
            Ok(config) => StateView { config: Some(config), par: Some(par), ..s },
            Err(_) => s,
        },
    }
}

/// A negotiation is under way, and what `event` tells of can have happened: a
/// configured device is not negotiated with, and only an open one is addressed.
pub open spec fn can_happen<H, I, O, W>(s: StateView<H, I, O, W>, event: ConfigEvent<H>) -> bool {
    &&& s.config is None
    &&& event is Requested || event is Retrieved ==> s.hdl is Some
}

fn sample_size_error(par: &SioPar) -> (e: SndioError)
    ensures
        e@ == Failure::BackendSpecific(sample_size_text(*par)),
{
    let mut text = "unexpected sample size (not 16bit): bits/sample: ".to_owned();
    append_decimal(&mut text, par.bits);
    text.append(", bytes/sample: ");
    append_decimal(&mut text, par.bps);
    text.append(")");
    backend_specific_error(text)
}

fn failed(e: SndioError) -> (step: ConfigStep)
    ensures
        step@ == (StepView::Finished { result: Err(e@) }),
{
    ConfigStep::Finished { result: Err(DefaultStreamConfigError::from(e)) }
}

impl<H, I, O, W> InnerState<H, I, O, W> {
    /// Begins a negotiation.
    pub fn begin_negotiation(&self) -> (step: ConfigStep)
        ensures
            step@ == first_step(self@),
    {
        if let (Some(config), Some(par)) = (&self.config, &self.par) {
            return ConfigStep::Finished {
                result: Ok(
                    SupportedStreamConfig {
                        channels: config.channels,
                        sample_rate: config.sample_rate,
                        buffer_size: SupportedBufferSize::Range {
                            min: par.appbufsz,
                            max: par.appbufsz,
                        },
                        sample_format: SampleFormat::I16,
                    },
                ),
            };
        }
        ConfigStep::Initialise
    }

    /// Goes on with a negotiation once `event` has happened.
    pub fn advance_negotiation(
        &mut self,
        behavior: &BufferXrunBehavior,
        event: ConfigEvent<H>,
    ) -> (step: ConfigStep)
        requires
            old(self)@.wf(),
            can_happen(old(self)@, event),
        ensures
            step@ == step_after(old(self)@, *behavior, event),
            final(self)@ == state_after(old(self)@, event),
            final(self)@.wf(),
    {
        match event {
            ConfigEvent::Initialised { initial, endian } => {
                let par = request_par(initial, behavior, endian);
                if self.hdl.is_some() {
                    ConfigStep::Request { par }
                } else {
                    ConfigStep::Open { par }
                }
            },
            ConfigEvent::Opened { hdl, par } => {
                match self.open(hdl) {
                    Ok(()) => ConfigStep::Request { par },
                    Err(e) => failed(e),
                }
            },
            ConfigEvent::Requested { status, par } => {
                if status != 1 {
                    return failed(
                        backend_specific_error(
                            "failed to request parameters with sio_setpar".to_owned(),
                        ),
                    );
                }
                ConfigStep::Retrieve { par }
            },
            ConfigEvent::Retrieved { status, par } => {
                if status != 1 {
                    return failed(
                        backend_specific_error(
                            "failed to get device-supported parameters with sio_getpar".to_owned(),
                        ),
                    );
                }
                if par.bits != 16 || par.bps != 2 {
                    // We have to check both because of the possibility of padding (usually an
                    // issue with 24 bits, not 16, though).
                    return failed(sample_size_error(&par));
                }
                if par.sig != 1 {
                    return failed(
                        backend_specific_error(
                            "sndio device does not support I16 but we need it to".to_owned(),
                        ),
                    );
                }
                let config = config_from_par(&par);
                // These parameters are set on the device now. Save them for future use.
                self.config = Some(config);
                self.par = Some(par);
                ConfigStep::Finished { result: Ok(config) }
            },
        }
    }
}

/// `event` tells what came of `step`.
pub open spec fn answers<H>(event: ConfigEvent<H>, step: StepView) -> bool {
    match (step, event) {
        (StepView::Initialise, ConfigEvent::Initialised { .. }) => true,
        (StepView::Open { par }, ConfigEvent::Opened { hdl, par: same }) => par == same,
        (StepView::Request { .. }, ConfigEvent::Requested { .. }) => true,
        (StepView::Retrieve { .. }, ConfigEvent::Retrieved { .. }) => true,
        _ => false,
    }
}

/// The number of steps that a negotiation can still take.
pub open spec fn steps_left(step: StepView) -> nat {
    match step {
        StepView::Initialise => 4,
        StepView::Open { .. } => 3,
        StepView::Request { .. } => 2,
        StepView::Retrieve { .. } => 1,
        StepView::Finished { .. } => 0,
    }
}

/// `step` is a step of a negotiation that a device in state `s` is in.
pub open spec fn is_due<H, I, O, W>(s: StateView<H, I, O, W>, step: StepView) -> bool {
    match step {
        StepView::Initialise => s.config is None,
        StepView::Open { .. } => s.config is None,
        StepView::Request { .. } => s.config is None && s.hdl is Some,
        StepView::Retrieve { .. } => s.config is None && s.hdl is Some,
        StepView::Finished { .. } => true,
    }
}

/// A negotiation begins with a step that is due.
pub proof fn law_negotiation_begins<H, I, O, W>(s: StateView<H, I, O, W>)
    requires
        s.wf(),
    ensures
        is_due(s, first_step(s)),
        steps_left(first_step(s)) <= 4,
{
}

/// Whatever comes of a step that is due can be taken by the state, leads to a
/// step that is due again, and brings the end nearer: a negotiation addresses
/// the device three times at most, once to open it, once to request and once to
/// retrieve its parameters.
pub proof fn law_negotiation_goes_on<H, I, O, W>(
    s: StateView<H, I, O, W>,
    behavior: BufferXrunBehavior,
    step: StepView,
    event: ConfigEvent<H>,
)
    requires
        s.wf(),
        is_due(s, step),
        answers(event, step),
    ensures
        can_happen(s, event),
        is_due(state_after(s, event), step_after(s, behavior, event)),
        steps_left(step_after(s, behavior, event)) < steps_left(step),
{
}

/// The answer of a negotiation in full: the handle that there is once opening
/// the device was seen to, and how the request and the retrieval ended, decide it.
pub open spec fn negotiated<H>(
    hdl: Option<H>,
    request_status: i32,
    retrieve_status: i32,
    par: SioPar,
) -> Result<SupportedStreamConfig, Failure> {
    if hdl is None {
        Err(Failure::DeviceNotAvailable)
    } else if request_status != 1 {
        Err(Failure::BackendSpecific("failed to request parameters with sio_setpar"@))
    } else {
        retrieved(retrieve_status, par)
    }
}

/// From the first step to the last, a negotiation with a device that is not
/// configured opens the device unless it is open already, requests the default
/// parameters, ends with the answer that the device's replies decide, keeps the
/// handle whatever the answer, and keeps configuration and parameters exactly
/// where it succeeds.
pub proof fn law_whole_negotiation<H, I, O, W>(
    s: StateView<H, I, O, W>,
    behavior: BufferXrunBehavior,
    initial: SioPar,
    endian: Endian,
    hdl: Option<H>,
    request_status: i32,
    left: SioPar,
    retrieve_status: i32,
    par: SioPar,
)
    requires
        s.wf(),
        s.config is None,
    ensures
        ({
            let asked = requested_par(initial, behavior, endian);
            let initialised = ConfigEvent::<H>::Initialised { initial, endian };
            let opened = ConfigEvent::Opened { hdl, par: asked };
            let requested = ConfigEvent::<H>::Requested { status: request_status, par: left };
            let got = ConfigEvent::<H>::Retrieved { status: retrieve_status, par };
            let s1 = s.opened(hdl);
            let answer = negotiated(s1.hdl, request_status, retrieve_status, par);
            &&& first_step(s) == StepView::Initialise
            &&& state_after(s, initialised) == s
            &&& if s.hdl is Some {
                &&& step_after(s, behavior, initialised) == (StepView::Request { par: asked })
                &&& s1 == s
            } else {
                &&& step_after(s, behavior, initialised) == (StepView::Open { par: asked })
                &&& state_after(s, opened) == s1
                &&& s1 == (StateView { hdl, ..s })
                &&& step_after(s, behavior, opened) == (if hdl is Some {
                    StepView::Request { par: asked }
                } else {
                    StepView::Finished { result: answer }
                })
            }
            &&& s1.hdl is Some ==> {
                &&& state_after(s1, requested) == s1
                &&& step_after(s1, behavior, requested) == (if request_status == 1 {
                    StepView::Retrieve { par: left }
                } else {
                    StepView::Finished { result: answer }
                })
            }
            &&& s1.hdl is Some && request_status == 1 ==> {
                &&& step_after(s1, behavior, got) == (StepView::Finished { result: answer })
                &&& state_after(s1, got) == (match answer {
                    Ok(config) => StateView { config: Some(config), par: Some(par), ..s1 },
                    Err(_) => s1,
                })
            }
        }),
{
}

/// A negotiation that fails leaves the state as it is, an opened device open:
/// the next one does not open it again.
pub proof fn law_open_device_is_not_opened_again<H, I, O, W>(
    s: StateView<H, I, O, W>,
    behavior: BufferXrunBehavior,
    event: ConfigEvent<H>,
    initial: SioPar,
    endian: Endian,
)
    requires
        s.wf(),
        can_happen(s, event),
        step_after(s, behavior, event) matches StepView::Finished { result } && result is Err,
    ensures
        state_after(s, event) == s,
        first_step(s) == StepView::Initialise,
        s.hdl is Some ==> step_after(
            s,
            behavior,
            ConfigEvent::<H>::Initialised { initial, endian },
        ) == (StepView::Request { par: requested_par(initial, behavior, endian) }),
{
}

/// A negotiation succeeds only on a device with signed 16 bit samples.
pub proof fn law_only_i16_is_accepted(status: i32, par: SioPar)
    ensures
        retrieved(status, par) is Ok <==> status == 1 && is_i16(par),
{
}

/// Once a negotiation has succeeded, the device is not addressed again: the
/// next one ends at once, with the channels, the rate and the format of the
/// first answer, and with the size of the application's buffer as the only
/// buffer size.
pub proof fn law_answer_is_kept<H, I, O, W>(
    s: StateView<H, I, O, W>,
    par: SioPar,
)
    requires
        s.wf(),
        can_happen(s, ConfigEvent::<H>::Retrieved { status: 1, par }),
        is_i16(par),
    ensures
        ({
            let after = state_after(s, ConfigEvent::<H>::Retrieved { status: 1, par });
            first_step(after) == (StepView::Finished {
                result: Ok(
                    SupportedStreamConfig {
                        buffer_size: SupportedBufferSize::Range {
                            min: par.appbufsz,
                            max: par.appbufsz,
                        },
                        ..config_of(par)
                    },
                ),
            })
        }),
{
}

/// The view of a step shows what the step holds.
pub proof fn law_step_view_shows_the_step(
    par: SioPar,
    config: SupportedStreamConfig,
    e: DefaultStreamConfigError,
)
    ensures
        ConfigStep::Initialise@ == StepView::Initialise,
        (ConfigStep::Open { par })@ == (StepView::Open { par }),
        (ConfigStep::Request { par })@ == (StepView::Request { par }),
        (ConfigStep::Retrieve { par })@ == (StepView::Retrieve { par }),
        (ConfigStep::Finished { result: Ok(config) })@ == (StepView::Finished {
            result: Ok(config),
        }),
        (ConfigStep::Finished { result: Err(e) })@ == (StepView::Finished { result: Err(e@) }),
{
}

/// A device that has its configuration answers at once, whatever its handle,
/// its buffer size, its runner and its streams: with the channels and the rate
/// that were kept, the application's buffer as the only size, and I16.
pub proof fn law_configured_device_answers_at_once<H, I, O, W>(
    s: StateView<H, I, O, W>,
    config: SupportedStreamConfig,
    par: SioPar,
)
    requires
        s.config == Some(config),
        s.par == Some(par),
    ensures
        first_step(s) matches StepView::Finished { result: Ok(answer) } && {
            &&& answer.channels == config.channels
            &&& answer.sample_rate.0 == config.sample_rate.0
            &&& answer.buffer_size matches SupportedBufferSize::Range { min, max }
            &&& min == par.appbufsz
            &&& max == par.appbufsz
            &&& answer.sample_format == SampleFormat::I16
        },
{
}

/// What a configured device answers is what its own parameters say.
pub proof fn law_configured_answer_is_that_of_the_device<H, I, O, W>(s: StateView<H, I, O, W>)
    requires
        s.wf(),
        s.config is Some,
    ensures
        first_step(s) matches StepView::Finished { result: Ok(answer) } && {
            &&& answer.sample_rate.0 == s.par.unwrap().rate
            &&& answer.channels as int == s.par.unwrap().pchan as int % 65536
        },
{
}

/// A device without a configuration or without parameters is negotiated with.
pub proof fn law_unconfigured_device_is_negotiated_with<H, I, O, W>(s: StateView<H, I, O, W>)
    requires
        s.config is None || s.par is None,
    ensures
        first_step(s) == StepView::Initialise,
{
}

/// On the parameters that sndio initialised follows the request itself if the
/// device is open, and opening it if not; what is requested follows the
/// behaviour and the byte order field by field, and the state is left as it is.
pub proof fn law_request_follows_behavior_and_byte_order<H, I, O, W>(
    s: StateView<H, I, O, W>,
    behavior: BufferXrunBehavior,
    initial: SioPar,
    endian: Endian,
)
    ensures
        ({
            let event = ConfigEvent::<H>::Initialised { initial, endian };
            let step = step_after(s, behavior, event);
            let par = match step {
                StepView::Open { par } => par,
                StepView::Request { par } => par,
                _ => arbitrary(),
            };
            &&& state_after(s, event) == s
            &&& s.hdl is Some ==> step is Request
            &&& s.hdl is None ==> step is Open
            &&& par.bits == 16 && par.sig == 1
            &&& par.rchan == 1 && par.pchan == 1 && par.rate == 48000
            &&& behavior == BufferXrunBehavior::Ignore ==> par.xrun == 0
            &&& behavior == BufferXrunBehavior::Sync ==> par.xrun == 1
            &&& behavior == BufferXrunBehavior::Error ==> par.xrun == 2
            &&& endian == Endian::BE ==> par.le == 0
            &&& endian == Endian::LE ==> par.le == 1
            &&& par.bps == initial.bps && par.msb == initial.msb && par.bufsz == initial.bufsz
            &&& par.round == initial.round && par.appbufsz == initial.appbufsz
        }),
{
}

/// Once opening was tried, the parameters of the step are requested if there is
/// a handle, and the device is not available if there is none. The state gets
/// the handle and nothing else.
pub proof fn law_opening_leads_to_the_request<H, I, O, W>(
    s: StateView<H, I, O, W>,
    behavior: BufferXrunBehavior,
    hdl: Option<H>,
    par: SioPar,
)
    ensures
        ({
            let event = ConfigEvent::Opened { hdl, par };
            let step = step_after(s, behavior, event);
            &&& s.hdl is Some || hdl is Some ==> step == (StepView::Request { par })
            &&& s.hdl is None && hdl is None ==> step == (StepView::Finished {
                result: Err(Failure::DeviceNotAvailable),
            }) && state_after(s, event) == s
            &&& s.hdl is None ==> state_after(s, event) == (StateView { hdl, ..s })
            &&& s.hdl is Some ==> state_after(s, event) == s
        }),
{
}

/// A request that ended with 1 leads to the retrieval, any other to the
/// failure; the state is left as it is.
pub proof fn law_request_leads_to_the_retrieval<H, I, O, W>(
    s: StateView<H, I, O, W>,
    behavior: BufferXrunBehavior,
    status: i32,
    par: SioPar,
)
    ensures
        ({
            let event = ConfigEvent::<H>::Requested { status, par };
            let step = step_after(s, behavior, event);
            &&& state_after(s, event) == s
            &&& status == 1 ==> step == (StepView::Retrieve { par })
            &&& status != 1 ==> step == (StepView::Finished {
                result: Err(
                    Failure::BackendSpecific("failed to request parameters with sio_setpar"@),
                ),
            })
        }),
{
}

/// Where the retrieval succeeds on a device with signed 16 bit samples, what is
/// answered and kept is what the device settled on, not what was requested of it.
pub proof fn law_answer_is_what_the_device_settled_on<H, I, O, W>(
    s: StateView<H, I, O, W>,
    behavior: BufferXrunBehavior,
    par: SioPar,
)
    requires
        par.bits == 16,
        par.bps == 2,
        par.sig == 1,
    ensures
        ({
            let event = ConfigEvent::<H>::Retrieved { status: 1, par };
            let after = state_after(s, event);
            &&& step_after(s, behavior, event) matches StepView::Finished { result: Ok(answer) }
            &&& answer.sample_rate.0 == par.rate
            &&& answer.channels as int == par.pchan as int % 65536
            &&& answer.buffer_size == (SupportedBufferSize::Range {
                min: par.round,
                max: par.appbufsz,
            })
            &&& answer.sample_format == SampleFormat::I16
            &&& after == (StateView { config: Some(answer), par: Some(par), ..s })
        }),
{
}

/// Where the retrieval fails or the samples are not signed 16 bit ones, the
/// answer says which, in this order: the failure, the size, the sign. Nothing is kept.
pub proof fn law_refused_parameters_are_not_kept<H, I, O, W>(
    s: StateView<H, I, O, W>,
    behavior: BufferXrunBehavior,
    status: i32,
    par: SioPar,
)
    requires
        status != 1 || par.bits != 16 || par.bps != 2 || par.sig != 1,
    ensures
        ({
            let event = ConfigEvent::<H>::Retrieved { status, par };
            &&& state_after(s, event) == s
            &&& step_after(s, behavior, event) matches StepView::Finished { result: Err(failure) }
            &&& status != 1 ==> failure == Failure::BackendSpecific(
                "failed to get device-supported parameters with sio_getpar"@,
            )
            &&& status == 1 && (par.bits != 16 || par.bps != 2) ==> failure
                == Failure::BackendSpecific(
                "unexpected sample size (not 16bit): bits/sample: "@ + decimal(par.bits as nat)
                    + ", bytes/sample: "@ + decimal(par.bps as nat) + ")"@,
            )
            &&& status == 1 && par.bits == 16 && par.bps == 2 ==> failure
                == Failure::BackendSpecific("sndio device does not support I16 but we need it to"@)
        }),
{
}

/// On a device without a configuration, parameters can be initialised and
/// opening can be tried at any time, and the rest once the device is open.
pub proof fn law_what_can_happen<H, I, O, W>(
    s: StateView<H, I, O, W>,
    hdl: Option<H>,
    status: i32,
    par: SioPar,
    endian: Endian,
)
    ensures
        can_happen(s, ConfigEvent::<H>::Initialised { initial: par, endian }) <==> s.config is None,
        can_happen(s, ConfigEvent::Opened { hdl, par }) <==> s.config is None,
        can_happen(s, ConfigEvent::<H>::Requested { status, par }) <==> s.config is None
            && s.hdl is Some,
        can_happen(s, ConfigEvent::<H>::Retrieved { status, par }) <==> s.config is None
            && s.hdl is Some,
{
}

} // verus!
