//! The default device, and the streams that are built on it.

use vstd::arithmetic::div_mod::lemma_mod_multiples_basic;
use vstd::prelude::*;
use vstd::string::StringExecFns;

use crate::callbacks::{is_first_free, law_take_undoes_place};
use crate::config::{BufferSize, SampleFormat, StreamConfig};
use crate::error::{
    backend_specific_error, BuildStreamError, DeviceNameError, Failure, SndioError,
};
use crate::negotiation::{
    can_happen, first_step, state_after, step_after, ConfigEvent, ConfigStep,
};
use crate::par::BufferXrunBehavior;
use crate::rounding::{
    can_round, can_round_frame_count, is_multiple, law_rounded_count_in_numbers,
    law_rounded_count_is_the_only_one, law_rounding_is_the_next_multiple,
    law_when_a_request_can_be_rounded, round_frame_count, rounded_frame_count,
    DEFAULT_ROUND_MULTIPLE,
};
use crate::state::{InnerState, StateView, Status};
use crate::stream::{
    has_same_callbacks, is_live, law_add_keeps_the_others, released, Stream,
};

verus! {

/// The sndio device, with the state that it shares with its streams.
pub struct Device<H, I, O, W> {
    pub inner_state: InnerState<H, I, O, W>,
    /// What to request of the device for an under- or overrun.
    pub behavior: BufferXrunBehavior,
}

/// A stream that has been built, and what is still to be done for it.
pub struct BuiltStream {
    pub stream: Stream,
    /// Whether to wake through the sender that was there before the stream was built.
    pub wakeup: bool,
    /// Whether the runner thread is to be started.
    pub spawn_runner: bool,
}

/// The device is configured as `config` asks for, but for the buffer size.
pub open spec fn is_configured_for<H, I, O, W>(s: StateView<H, I, O, W>, config: StreamConfig) -> bool {
    &&& s.config matches Some(supported)
    &&& supported.channels == config.channels
    &&& supported.sample_rate == config.sample_rate
}

/// The buffer size that `config` comes to on a configured device: the requested
/// size rounded up, or, where the choice is open, the size in use if there is
/// one and a multiple of the device's `round` parameter if not.
pub open spec fn buffer_size_for<H, I, O, W>(s: StateView<H, I, O, W>, config: StreamConfig) -> nat {
    let round = s.par.unwrap().round as nat;
    match (config.buffer_size, s.buffer_size) {
        (BufferSize::Fixed(requested), _) => rounded_frame_count(requested as nat, round),
        (BufferSize::Default, Some(frames)) => frames as nat,
        (BufferSize::Default, None) => DEFAULT_ROUND_MULTIPLE as nat * round,
    }
}

/// The buffer size that `config` comes to can be computed, should it be looked at.
pub open spec fn has_buffer_size<H, I, O, W>(s: StateView<H, I, O, W>, config: StreamConfig) -> bool {
    is_configured_for(s, config) ==> match (config.buffer_size, s.buffer_size) {
        (BufferSize::Fixed(requested), _) => can_round(
            requested as nat,
            s.par.unwrap().round as nat,
        ),
        (BufferSize::Default, Some(_)) => true,
        (BufferSize::Default, None) => DEFAULT_ROUND_MULTIPLE * s.par.unwrap().round <= usize::MAX,
    }
}

/// The buffer size that `config` comes to is not another one than that in use.
pub open spec fn agrees_on_size<H, I, O, W>(s: StateView<H, I, O, W>, config: StreamConfig) -> bool {
    s.buffer_size matches Some(frames) ==> frames == buffer_size_for(s, config)
}

/// Why a stream with `config` and `sample_format` is refused, if it is.
pub open spec fn refusal<H, I, O, W>(
    s: StateView<H, I, O, W>,
    config: StreamConfig,
    sample_format: SampleFormat,
) -> Option<Failure> {
    if s.config is None {
        Some(Failure::BackendSpecific("device not configured"@))
    } else if !is_configured_for(s, config) {
        Some(Failure::BackendSpecific("configs don't match"@))
    } else if !agrees_on_size(s, config) {
        Some(Failure::BackendSpecific("buffer sizes don't match"@))
    } else if sample_format != SampleFormat::I16 {
        Some(
            Failure::BackendSpecific(
                "unexpected sample format "@ + sample_format.spec_name() + ", expected I16"@,
            ),
        )
    } else {
        None
    }
}

/// The state once the buffer size for `config` has been settled. It is settled
/// before the sample format is looked at, so a refused format leaves it behind.
pub open spec fn sized<H, I, O, W>(s: StateView<H, I, O, W>, config: StreamConfig) -> StateView<
    H,
    I,
    O,
    W,
> {
    if is_configured_for(s, config) && agrees_on_size(s, config) {
        StateView { buffer_size: Some(buffer_size_for(s, config) as usize), ..s }
    } else {
        s
    }
}

/// The state once a stream has been built whose callbacks `s` holds already: a
/// runner thread that is running stays, with its sender, and one that is yet to
/// be started is to be woken through `wakeup_sender`.
pub open spec fn running<H, I, O, W>(s: StateView<H, I, O, W>, wakeup_sender: W) -> StateView<
    H,
    I,
    O,
    W,
> {
    StateView {
        status: Status::Running,
        wakeup_sender: if s.status == Status::Running {
            s.wakeup_sender
        } else {
            Some(wakeup_sender)
        },
        ..s
    }
}

/// The state once an input stream has been built at `index`.
pub open spec fn with_built_input<H, I, O, W>(
    s: StateView<H, I, O, W>,
    config: StreamConfig,
    index: usize,
    callbacks: I,
    wakeup_sender: W,
) -> StateView<H, I, O, W> {
    running(sized(s, config).with_input(index as int, callbacks), wakeup_sender)
}

/// The state once an output stream has been built at `index`.
pub open spec fn with_built_output<H, I, O, W>(
    s: StateView<H, I, O, W>,
    config: StreamConfig,
    index: usize,
    callbacks: O,
    wakeup_sender: W,
) -> StateView<H, I, O, W> {
    running(sized(s, config).with_output(index as int, callbacks), wakeup_sender)
}

proof fn lemma_chosen_size_is_a_multiple<H, I, O, W>(s: StateView<H, I, O, W>, config: StreamConfig)
    requires
        s.wf(),
        is_configured_for(s, config),
        has_buffer_size(s, config),
    ensures
        is_multiple(buffer_size_for(s, config) as int, s.par.unwrap().round as int),
        buffer_size_for(s, config) >= s.par.unwrap().round,
{
    let round = s.par.unwrap().round as nat;
    match (config.buffer_size, s.buffer_size) {
        (BufferSize::Fixed(requested), _) => {
            if round > 0 {
                law_rounding_is_the_next_multiple(requested as nat, round, 0);
            }
        },
        (BufferSize::Default, Some(_)) => {},
        (BufferSize::Default, None) => {
            if round > 0 {
                lemma_mod_multiples_basic(DEFAULT_ROUND_MULTIPLE as int, round as int);
            }
        },
    }
}

fn sample_format_error(sample_format: SampleFormat) -> (e: SndioError)
    ensures
        e@ == Failure::BackendSpecific(
            "unexpected sample format "@ + sample_format.spec_name() + ", expected I16"@,
        ),
{
    let mut text = "unexpected sample format ".to_owned();
    text.append(sample_format.name());
    text.append(", expected I16");
    backend_specific_error(text)
}

impl<H, I, O, W> InnerState<H, I, O, W> {
    /// Whether the buffer size that `config` comes to can be computed, should it be looked at.
    pub fn has_buffer_size_for(&self, config: &StreamConfig) -> (res: bool)
        requires
            self@.wf(),
        ensures
            res == has_buffer_size(self@, *config),
    {
        match (&self.config, &self.par) {
            (Some(supported), Some(par)) => {
                if supported.channels != config.channels || supported.sample_rate
                    != config.sample_rate {
                    return true;
                }
                match (config.buffer_size, self.buffer_size) {
                    (BufferSize::Fixed(requested), _) => can_round_frame_count(
                        requested,
                        par.round,
                    ),
                    (BufferSize::Default, Some(_)) => true,
                    (BufferSize::Default, None) => par.round as usize <= usize::MAX
                        / DEFAULT_ROUND_MULTIPLE,
                }
            },
            _ => true,
        }
    }

    /// Checks whether a stream with `config` and `sample_format` can be built,
    /// and settles the buffer size.
    fn prepare_stream(&mut self, config: &StreamConfig, sample_format: SampleFormat) -> (res: Result<
        (),
        SndioError,
    >)
        requires
            old(self)@.wf(),
            has_buffer_size(old(self)@, *config),
        ensures
            res is Ok <==> refusal(old(self)@, *config, sample_format) is None,
            res matches Err(e) ==> refusal(old(self)@, *config, sample_format) == Some(e@),
            final(self)@ == sized(old(self)@, *config),
            final(self)@.wf(),
    {
        let (supported, par) = match (&self.config, &self.par) {
            (Some(supported), Some(par)) => (supported, par),
            _ => return Err(backend_specific_error("device not configured".to_owned())),
        };
        // The configuration of the device itself happens when its default configuration is
        // negotiated.
        if supported.channels != config.channels || supported.sample_rate != config.sample_rate {
            return Err(backend_specific_error("configs don't match".to_owned()));
        }
        // Round up the buffer size the user selected to the next multiple of par.round. If there
        // was already a stream created with a different buffer size, return an error (sorry).
        let round: usize = par.round as usize;
        let frames: usize = match config.buffer_size {
            BufferSize::Fixed(requested) => {
                let rounded: usize = round_frame_count(requested, round);
                if let Some(in_use) = self.buffer_size {
                    if in_use != rounded {
                        return Err(backend_specific_error("buffer sizes don't match".to_owned()));
                    }
                }
                rounded
            },
            BufferSize::Default => match self.buffer_size {
                Some(in_use) => in_use,
                None => DEFAULT_ROUND_MULTIPLE * round,
            },
        };
        proof {
            lemma_chosen_size_is_a_multiple(self@, *config);
        }
        self.buffer_size = Some(frames);
        if sample_format != SampleFormat::I16 {
            return Err(sample_format_error(sample_format));
        }
        Ok(())
    }
}

impl<H, I, O, W> Device<H, I, O, W> {
    /// A device that nobody has used yet. It is to catch up after an under- or overrun.
    pub fn new() -> (device: Self)
        ensures
            device.inner_state@ == StateView::<H, I, O, W>::fresh(),
            device.inner_state@.wf(),
            device.behavior == BufferXrunBehavior::Sync,
    {
        Device { inner_state: InnerState::new(), behavior: BufferXrunBehavior::Sync }
    }

    /// Chooses what is requested of the device for an under- or overrun.
    pub fn set_xrun_behavior(&mut self, behavior: BufferXrunBehavior)
        ensures
            final(self).behavior == behavior,
            final(self).inner_state == old(self).inner_state,
    {
        self.behavior = behavior;
    }

    /// The name of the device.
    pub fn name(&self) -> (res: Result<String, DeviceNameError>)
        ensures
            res matches Ok(name) && name@ == "sndio default device"@,
    {
        Ok("sndio default device".to_owned())
    }

    /// Begins to find the default configuration of the device, which is one of
    /// input and output both.
    pub fn default_output_config(&self) -> (step: ConfigStep)
        ensures
            step@ == first_step(self.inner_state@),
    {
        self.inner_state.begin_negotiation()
    }

    /// Goes on to find the default configuration once `event` has happened.
    pub fn default_output_config_after(&mut self, event: ConfigEvent<H>) -> (step: ConfigStep)
        requires
            old(self).inner_state@.wf(),
            can_happen(old(self).inner_state@, event),
        ensures
            step@ == step_after(old(self).inner_state@, old(self).behavior, event),
            final(self).inner_state@ == state_after(old(self).inner_state@, event),
            final(self).inner_state@.wf(),
            final(self).behavior == old(self).behavior,
    {
        self.inner_state.advance_negotiation(&self.behavior, event)
    }

    /// Builds an input stream. Where the runner thread is yet to be started, it is to
    /// be woken through `wakeup_sender` from now on.
    pub fn build_input_stream_raw(
        &mut self,
        config: &StreamConfig,
        sample_format: SampleFormat,
        callbacks: I,
        wakeup_sender: W,
    ) -> (res: Result<BuiltStream, BuildStreamError>)
        requires
            old(self).inner_state@.wf(),
            has_buffer_size(old(self).inner_state@, *config),
        ensures
            final(self).inner_state@.wf(),
            final(self).behavior == old(self).behavior,
            res is Ok <==> refusal(old(self).inner_state@, *config, sample_format) is None,
            res matches Err(e) ==> {
                &&& refusal(old(self).inner_state@, *config, sample_format) == Some(e@)
                &&& final(self).inner_state@ == sized(old(self).inner_state@, *config)
            },
            res matches Ok(built) ==> {
                let s = old(self).inner_state@;
                &&& !built.stream.is_output
                &&& is_first_free(s.input_callbacks, built.stream.index as int)
                &&& final(self).inner_state@ == with_built_input(
                    s,
                    *config,
                    built.stream.index,
                    callbacks,
                    wakeup_sender,
                )
                &&& built.wakeup == s.wakes_on_add()
                &&& built.spawn_runner == (s.status != Status::Running)
            },
    {
        match self.inner_state.prepare_stream(config, sample_format) {
            Ok(()) => {},
            Err(e) => return Err(BuildStreamError::from(e)),
        }
        let added = self.inner_state.add_input_callbacks(callbacks);
        let spawn_runner = self.inner_state.status != Status::Running;
        if spawn_runner {
            self.inner_state.wakeup_sender = Some(wakeup_sender);
            self.inner_state.status = Status::Running;
        }
        Ok(
            BuiltStream {
                stream: Stream { is_output: false, index: added.index },
                wakeup: added.wakeup,
                spawn_runner,
            },
        )
    }

    /// Builds an output stream. Where the runner thread is yet to be started, it is to
    /// be woken through `wakeup_sender` from now on.
    pub fn build_output_stream_raw(
        &mut self,
        config: &StreamConfig,
        sample_format: SampleFormat,
        callbacks: O,
        wakeup_sender: W,
    ) -> (res: Result<BuiltStream, BuildStreamError>)
        requires
            old(self).inner_state@.wf(),
            has_buffer_size(old(self).inner_state@, *config),
        ensures
            final(self).inner_state@.wf(),
            final(self).behavior == old(self).behavior,
            res is Ok <==> refusal(old(self).inner_state@, *config, sample_format) is None,
            res matches Err(e) ==> {
                &&& refusal(old(self).inner_state@, *config, sample_format) == Some(e@)
                &&& final(self).inner_state@ == sized(old(self).inner_state@, *config)
            },
            res matches Ok(built) ==> {
                let s = old(self).inner_state@;
                &&& built.stream.is_output
                &&& is_first_free(s.output_callbacks, built.stream.index as int)
                &&& final(self).inner_state@ == with_built_output(
                    s,
                    *config,
                    built.stream.index,
                    callbacks,
                    wakeup_sender,
                )
                &&& built.wakeup == s.wakes_on_add()
                &&& built.spawn_runner == (s.status != Status::Running)
            },
    {
        match self.inner_state.prepare_stream(config, sample_format) {
            Ok(()) => {},
            Err(e) => return Err(BuildStreamError::from(e)),
        }
        let added = self.inner_state.add_output_callbacks(callbacks);
        let spawn_runner = self.inner_state.status != Status::Running;
        if spawn_runner {
            self.inner_state.wakeup_sender = Some(wakeup_sender);
            self.inner_state.status = Status::Running;
        }
        Ok(
            BuiltStream {
                stream: Stream { is_output: true, index: added.index },
                wakeup: added.wakeup,
                spawn_runner,
            },
        )
    }

    /// Whether the runner thread is to be woken when a handle of the device is
    /// dropped: it is if no stream is left for it.
    pub fn release(&self) -> (wakeup: bool)
        ensures
            wakeup == self.inner_state@.wakes_on_release(),
    {
        self.inner_state.wakes_idle_runner()
    }
}

/// Once a buffer size has been settled, no request changes it.
pub proof fn law_buffer_size_is_settled_once<H, I, O, W>(
    s: StateView<H, I, O, W>,
    config: StreamConfig,
)
    requires
        s.buffer_size is Some,
    ensures
        sized(s, config).buffer_size == s.buffer_size,
{
}

/// A refused request leaves the state as it was, unless it is the sample
/// format for which it is refused: then the buffer size has been settled.
pub proof fn law_refusal_leaves_the_streams_alone<H, I, O, W>(
    s: StateView<H, I, O, W>,
    config: StreamConfig,
    sample_format: SampleFormat,
)
    requires
        refusal(s, config, sample_format) is Some,
    ensures
        sized(s, config) == (StateView { buffer_size: sized(s, config).buffer_size, ..s }),
        sized(s, config) != s ==> sample_format != SampleFormat::I16 && refusal(
            s,
            config,
            SampleFormat::I16,
        ) is None,
{
}

/// On a configured device a stream with its channels and its rate is built,
/// whatever the buffer size, unless another buffer size is in use.
pub proof fn law_own_configuration_is_accepted<H, I, O, W>(
    s: StateView<H, I, O, W>,
    buffer_size: BufferSize,
)
    requires
        s.config is Some,
        s.buffer_size is None || buffer_size == BufferSize::Default,
    ensures
        refusal(
            s,
            StreamConfig {
                channels: s.config.unwrap().channels,
                sample_rate: s.config.unwrap().sample_rate,
                buffer_size,
            },
            SampleFormat::I16,
        ) is None,
{
}

/// What was accepted once is accepted again: after a stream has been built,
/// another one of either kind with the same configuration is not refused, and
/// has the same buffer size.
pub proof fn law_same_request_is_accepted_again<H, I, O, W>(
    s: StateView<H, I, O, W>,
    config: StreamConfig,
    index: usize,
    input: I,
    output: O,
    sender: W,
)
    requires
        s.wf(),
        has_buffer_size(s, config),
        refusal(s, config, SampleFormat::I16) is None,
    ensures
        ({
            let after = with_built_input(s, config, index, input, sender);
            &&& refusal(after, config, SampleFormat::I16) is None
            &&& has_buffer_size(after, config)
            &&& sized(after, config) == after
        }),
        ({
            let after = with_built_output(s, config, index, output, sender);
            &&& refusal(after, config, SampleFormat::I16) is None
            &&& has_buffer_size(after, config)
            &&& sized(after, config) == after
        }),
{
}

/// Releasing a stream undoes building it, but for the buffer size, which stays
/// settled, and for the runner thread, which stays started and can still be woken.
pub proof fn law_release_undoes_build<H, I, O, W>(
    s: StateView<H, I, O, W>,
    config: StreamConfig,
    input: I,
    input_index: usize,
    output: O,
    output_index: usize,
    sender: W,
)
    requires
        s.wf(),
        is_first_free(s.input_callbacks, input_index as int),
        is_first_free(s.output_callbacks, output_index as int),
    ensures
        released(
            with_built_input(s, config, input_index, input, sender),
            Stream { is_output: false, index: input_index },
        ) == running(sized(s, config), sender),
        released(
            with_built_output(s, config, output_index, output, sender),
            Stream { is_output: true, index: output_index },
        ) == running(sized(s, config), sender),
{
    law_take_undoes_place(s.input_callbacks, input_index as int, input);
    law_take_undoes_place(s.output_callbacks, output_index as int, output);
}

/// A stream that has been built is live and was not before; every other stream
/// is live exactly if it was, and has its callbacks where they were.
pub proof fn law_built_stream_is_live<H, I, O, W>(
    s: StateView<H, I, O, W>,
    config: StreamConfig,
    input: I,
    input_index: usize,
    output: O,
    output_index: usize,
    sender: W,
    other: Stream,
)
    requires
        s.wf(),
        is_first_free(s.input_callbacks, input_index as int),
        is_first_free(s.output_callbacks, output_index as int),
    ensures
        ({
            let built = Stream { is_output: false, index: input_index };
            let after = with_built_input(s, config, input_index, input, sender);
            &&& !is_live(s, built)
            &&& is_live(after, built)
            &&& other != built ==> (is_live(after, other) <==> is_live(s, other))
            &&& is_live(s, other) ==> has_same_callbacks(s, after, other)
        }),
        ({
            let built = Stream { is_output: true, index: output_index };
            let after = with_built_output(s, config, output_index, output, sender);
            &&& !is_live(s, built)
            &&& is_live(after, built)
            &&& other != built ==> (is_live(after, other) <==> is_live(s, other))
            &&& is_live(s, other) ==> has_same_callbacks(s, after, other)
        }),
{
    law_add_keeps_the_others(s, input, input_index, output, output_index, other);
}

/// Once a stream has been built, there is a runner thread that has been started
/// and can be woken.
pub proof fn law_runner_can_be_woken_after_build<H, I, O, W>(
    s: StateView<H, I, O, W>,
    config: StreamConfig,
    index: usize,
    input: I,
    output: O,
    sender: W,
)
    requires
        s.wf(),
    ensures
        with_built_input(s, config, index, input, sender).status == Status::Running,
        with_built_input(s, config, index, input, sender).wakeup_sender is Some,
        with_built_output(s, config, index, output, sender).status == Status::Running,
        with_built_output(s, config, index, output, sender).wakeup_sender is Some,
{
}

/// A stream that is accepted has the channels and the rate of the device, which
/// is configured, and I16 samples.
pub proof fn law_accepted_stream_is_that_of_the_device<H, I, O, W>(
    s: StateView<H, I, O, W>,
    config: StreamConfig,
    sample_format: SampleFormat,
)
    requires
        refusal(s, config, sample_format) is None,
    ensures
        s.config is Some,
        config.channels == s.config.unwrap().channels,
        config.sample_rate.0 == s.config.unwrap().sample_rate.0,
        sample_format == SampleFormat::I16,
{
}

/// Other channels or another rate than the device's, more or less, are refused
/// whatever else is asked for, and leave the state as it is.
pub proof fn law_other_channels_or_rate_are_refused<H, I, O, W>(
    s: StateView<H, I, O, W>,
    config: StreamConfig,
    sample_format: SampleFormat,
)
    requires
        s.config is Some,
        config.channels != s.config.unwrap().channels || config.sample_rate.0
            != s.config.unwrap().sample_rate.0,
    ensures
        refusal(s, config, sample_format) == Some(Failure::BackendSpecific("configs don't match"@)),
        sized(s, config) == s,
        has_buffer_size(s, config),
{
}

/// On a device that runs at the rate and with the channels that its parameters
/// say, nothing else is ever accepted.
pub proof fn law_streams_run_at_the_rate_of_the_device<H, I, O, W>(
    s: StateView<H, I, O, W>,
    config: StreamConfig,
    sample_format: SampleFormat,
)
    requires
        s.wf(),
        refusal(s, config, sample_format) is None,
    ensures
        config.sample_rate.0 == s.par.unwrap().rate,
        config.channels as int == s.par.unwrap().pchan as int % 65536,
{
}

/// A device without a configuration refuses every stream and is left as it is.
pub proof fn law_unconfigured_device_refuses<H, I, O, W>(
    s: StateView<H, I, O, W>,
    config: StreamConfig,
    sample_format: SampleFormat,
)
    requires
        s.config is None,
    ensures
        refusal(s, config, sample_format) == Some(
            Failure::BackendSpecific("device not configured"@),
        ),
        sized(s, config) == s,
        has_buffer_size(s, config),
{
}

/// The buffer size that a request comes to can be computed unless some frames
/// are asked for in rounds of none, or it is more than the machine can count.
pub proof fn law_when_there_is_a_buffer_size<H, I, O, W>(
    s: StateView<H, I, O, W>,
    config: StreamConfig,
)
    requires
        s.config is Some,
        s.par is Some,
        config.channels == s.config.unwrap().channels,
        config.sample_rate.0 == s.config.unwrap().sample_rate.0,
    ensures
        ({
            let round = s.par.unwrap().round as int;
            match config.buffer_size {
                BufferSize::Fixed(requested) => {
                    &&& requested == 0 ==> has_buffer_size(s, config)
                    &&& requested > 0 && round == 0 ==> !has_buffer_size(s, config)
                    &&& requested > 0 && round > 0 ==> (has_buffer_size(s, config) <==> requested - 1
                        - (requested - 1) % round + round <= usize::MAX)
                },
                BufferSize::Default => has_buffer_size(s, config) <==> s.buffer_size is Some || 2
                    * round <= usize::MAX,
            }
        }),
{
    match config.buffer_size {
        BufferSize::Fixed(requested) => {
            law_when_a_request_can_be_rounded(requested as nat, s.par.unwrap().round as nat);
        },
        BufferSize::Default => {},
    }
}

/// Whether a stream with the channels and the rate of the device is accepted:
/// the buffer size in use, if there is one, has to be what a fixed request
/// comes to, and the samples have to be I16. The size is looked at first.
pub proof fn law_when_a_matching_stream_is_accepted<H, I, O, W>(
    s: StateView<H, I, O, W>,
    config: StreamConfig,
    sample_format: SampleFormat,
)
    requires
        s.wf(),
        has_buffer_size(s, config),
        s.config is Some,
        config.channels == s.config.unwrap().channels,
        config.sample_rate.0 == s.config.unwrap().sample_rate.0,
    ensures
        ({
            let round = s.par.unwrap().round as int;
            let agrees = match (s.buffer_size, config.buffer_size) {
                (Some(frames), BufferSize::Fixed(requested)) => if requested == 0 {
                    frames == round
                } else {
                    frames as int % round == 0 && requested <= frames < requested + round
                },
                _ => true,
            };
            &&& !agrees ==> refusal(s, config, sample_format) == Some(
                Failure::BackendSpecific("buffer sizes don't match"@),
            ) && sized(s, config) == s
            &&& agrees && sample_format == SampleFormat::I16 ==> refusal(s, config, sample_format)
                is None
            &&& agrees && sample_format == SampleFormat::U16 ==> refusal(s, config, sample_format)
                == Some(
                Failure::BackendSpecific(
                    "unexpected sample format "@ + "U16"@ + ", expected I16"@,
                ),
            )
            &&& agrees && sample_format == SampleFormat::F32 ==> refusal(s, config, sample_format)
                == Some(
                Failure::BackendSpecific(
                    "unexpected sample format "@ + "F32"@ + ", expected I16"@,
                ),
            )
        }),
{
    let round = s.par.unwrap().round as nat;
    match (s.buffer_size, config.buffer_size) {
        (Some(frames), BufferSize::Fixed(requested)) => {
            law_rounded_count_in_numbers(requested as nat, round);
            if requested > 0 && frames as int % round as int == 0 && requested <= frames < requested
                + round {
                law_rounded_count_is_the_only_one(requested as nat, round, frames as nat);
            }
        },
        _ => {},
    }
}

/// The buffer size once a request has come as far as settling it: what a fixed
/// request comes to, in whole rounds that reach it by less than one; and where
/// the choice is open, the size in use, or two rounds where there is none.
pub proof fn law_settled_size_is_what_was_asked_for<H, I, O, W>(
    s: StateView<H, I, O, W>,
    config: StreamConfig,
)
    requires
        s.wf(),
        has_buffer_size(s, config),
        refusal(s, config, SampleFormat::I16) is None,
    ensures
        ({
            let round = s.par.unwrap().round as int;
            &&& sized(s, config).buffer_size matches Some(frames)
            &&& config.buffer_size matches BufferSize::Fixed(requested) ==> if requested == 0 {
                frames == round
            } else {
                frames as int % round == 0 && requested <= frames < requested + round
            }
            &&& config.buffer_size == BufferSize::Default ==> frames == (match s.buffer_size {
                Some(in_use) => in_use as int,
                None => 2 * round,
            })
        }),
{
    match config.buffer_size {
        BufferSize::Fixed(requested) => {
            law_rounded_count_in_numbers(requested as nat, s.par.unwrap().round as nat);
        },
        BufferSize::Default => {},
    }
}

/// Settling the buffer size touches nothing else.
pub proof fn law_settling_the_size_touches_nothing_else<H, I, O, W>(
    s: StateView<H, I, O, W>,
    config: StreamConfig,
)
    ensures
        sized(s, config).hdl == s.hdl,
        sized(s, config).config == s.config,
        sized(s, config).par == s.par,
        sized(s, config).status == s.status,
        sized(s, config).wakeup_sender == s.wakeup_sender,
        sized(s, config).input_callbacks == s.input_callbacks,
        sized(s, config).output_callbacks == s.output_callbacks,
{
}

/// What an accepted stream leaves behind: the buffer size that was asked for,
/// a runner that is running and has a sender, the new one unless it was running
/// already, and the stream's callbacks at its index; handle, configuration,
/// parameters and all other callbacks stay.
pub proof fn law_what_a_built_stream_leaves_behind<H, I, O, W>(
    s: StateView<H, I, O, W>,
    config: StreamConfig,
    index: usize,
    input: I,
    output: O,
    sender: W,
    other: int,
)
    requires
        s.wf(),
        has_buffer_size(s, config),
        refusal(s, config, SampleFormat::I16) is None,
    ensures
        ({
            let t = with_built_input(s, config, index, input, sender);
            let round = s.par.unwrap().round as int;
            &&& t.hdl == s.hdl && t.config == s.config && t.par == s.par
            &&& t.status == Status::Running
            &&& s.status == Status::Running ==> t.wakeup_sender == s.wakeup_sender
            &&& s.status == Status::Stopped ==> t.wakeup_sender == Some(sender)
            &&& t.buffer_size matches Some(frames)
            &&& s.buffer_size is Some ==> t.buffer_size == s.buffer_size
            &&& config.buffer_size matches BufferSize::Fixed(requested) ==> if requested == 0 {
                frames == round
            } else {
                frames as int % round == 0 && requested <= frames < requested + round
            }
            &&& config.buffer_size == BufferSize::Default && s.buffer_size is None ==> frames == 2
                * round
            &&& t.output_callbacks == s.output_callbacks
            &&& index <= s.input_callbacks.len() ==> {
                &&& t.input_callbacks[index as int] == Some(input)
                &&& t.input_callbacks.len() == (if index < s.input_callbacks.len() {
                    s.input_callbacks.len()
                } else {
                    s.input_callbacks.len() + 1
                })
                &&& 0 <= other < s.input_callbacks.len() && other != index
                    ==> t.input_callbacks[other] == s.input_callbacks[other]
            }
        }),
        ({
            let t = with_built_output(s, config, index, output, sender);
            let round = s.par.unwrap().round as int;
            &&& t.hdl == s.hdl && t.config == s.config && t.par == s.par
            &&& t.status == Status::Running
            &&& s.status == Status::Running ==> t.wakeup_sender == s.wakeup_sender
            &&& s.status == Status::Stopped ==> t.wakeup_sender == Some(sender)
            &&& t.buffer_size matches Some(frames)
            &&& s.buffer_size is Some ==> t.buffer_size == s.buffer_size
            &&& config.buffer_size matches BufferSize::Fixed(requested) ==> if requested == 0 {
                frames == round
            } else {
                frames as int % round == 0 && requested <= frames < requested + round
            }
            &&& config.buffer_size == BufferSize::Default && s.buffer_size is None ==> frames == 2
                * round
            &&& t.input_callbacks == s.input_callbacks
            &&& index <= s.output_callbacks.len() ==> {
                &&& t.output_callbacks[index as int] == Some(output)
                &&& t.output_callbacks.len() == (if index < s.output_callbacks.len() {
                    s.output_callbacks.len()
                } else {
                    s.output_callbacks.len() + 1
                })
                &&& 0 <= other < s.output_callbacks.len() && other != index
                    ==> t.output_callbacks[other] == s.output_callbacks[other]
            }
        }),
{
    law_settled_size_is_what_was_asked_for(s, config);
}

} // verus!
