//! The state that a device and its streams share.

use vstd::prelude::*;

use crate::callbacks::{
    ends_taken, is_first_free, is_taken, law_take_empties_one_slot, law_take_keeps_the_others,
    place, placed, removed, take,
};
use crate::config::{SampleFormat, SupportedBufferSize, SupportedStreamConfig};
use crate::error::{backend_specific_error, Failure, SndioError, StreamError};
use crate::par::{config_of, is_i16, SioPar};
use crate::rounding::is_multiple;

verus! {

/// Whether the thread that moves the samples has been started.
#[derive(Debug, Copy, Clone, Eq, PartialEq, Structural)]
pub enum Status {
    /// No thread is running. Building a stream starts one.
    Stopped,
    /// The thread is running, unless it met an error.
    Running,
}

/// The state that a device and its streams share.
///
/// `H` is an open handle of the device, `I` and `O` are the callbacks of an
/// input and of an output stream, and `W` is the sending end of the channel
/// that wakes the runner thread.
pub struct InnerState<H, I, O, W> {
    /// The handle of the device, once it has been opened.
    pub hdl: Option<H>,
    /// The configuration of the device, once it has been configured.
    pub config: Option<SupportedStreamConfig>,
    /// The buffer size in frames, once one has been chosen.
    pub buffer_size: Option<usize>,
    /// The parameters of the device, once it has been configured.
    pub par: Option<SioPar>,
    /// Whether the runner thread has been started.
    pub status: Status,
    /// The callbacks of each input stream, at the index that the stream holds.
    /// The last element is never `None`.
    pub input_callbacks: Vec<Option<I>>,
    /// The callbacks of each output stream, at the index that the stream holds.
    /// The last element is never `None`.
    pub output_callbacks: Vec<Option<O>>,
    /// Wakes the runner thread when there is something for it to do. `None`
    /// only where there is no such thread.
    pub wakeup_sender: Option<W>,
}

/// The state as a mathematical value.
#[verifier::ext_equal]
pub struct StateView<H, I, O, W> {
    pub hdl: Option<H>,
    pub config: Option<SupportedStreamConfig>,
    pub buffer_size: Option<usize>,
    pub par: Option<SioPar>,
    pub status: Status,
    pub input_callbacks: Seq<Option<I>>,
    pub output_callbacks: Seq<Option<O>>,
    pub wakeup_sender: Option<W>,
}

impl<H, I, O, W> StateView<H, I, O, W> {
    /// The state of a device that nobody has used yet.
    pub open spec fn fresh() -> Self {
        StateView {
            hdl: None,
            config: None,
            buffer_size: None,
            par: None,
            status: Status::Stopped,
            input_callbacks: Seq::empty(),
            output_callbacks: Seq::empty(),
            wakeup_sender: None,
        }
    }

    /// What holds of the state at all times: a configured device is open and
    /// has exactly the configuration that goes with its parameters, a buffer
    /// size is one of a configured device and a multiple of its `round`
    /// parameter that is no less than it, the last slot of each kind is taken,
    /// and a runner thread that has been started can be woken.
    pub open spec fn wf(self) -> bool {
        &&& self.config is Some <==> self.par is Some
        &&& self.par matches Some(par) ==> {
            &&& self.hdl is Some
            &&& is_i16(par)
            &&& self.config == Some(config_of(par))
        }
        &&& self.buffer_size matches Some(frames) ==> {
            &&& self.par matches Some(par)
            &&& is_multiple(frames as int, par.round as int)
            &&& frames >= par.round
        }
        &&& ends_taken(self.input_callbacks)
        &&& ends_taken(self.output_callbacks)
        &&& self.status == Status::Running ==> self.wakeup_sender is Some
    }

    /// No stream has its callbacks here.
    pub open spec fn is_idle(self) -> bool {
        self.input_callbacks.len() == 0 && self.output_callbacks.len() == 0
    }

    /// The first stream is about to come, and there is a runner to be told.
    pub open spec fn wakes_on_add(self) -> bool {
        self.is_idle() && self.wakeup_sender is Some
    }

    /// The last stream has gone, and there is a running runner to be told.
    pub open spec fn wakes_on_release(self) -> bool {
        self.is_idle() && self.status == Status::Running && self.wakeup_sender is Some
    }

    /// The state once an attempt to open the device gave `hdl`.
    pub open spec fn opened(self, hdl: Option<H>) -> Self {
        StateView {
            hdl: if self.hdl is Some {
                self.hdl
            } else {
                hdl
            },
            ..self
        }
    }

    /// The state with the callbacks of an input stream at `index`.
    pub open spec fn with_input(self, index: int, callbacks: I) -> Self {
        StateView {
            input_callbacks: placed(self.input_callbacks, index, callbacks),
            ..self
        }
    }

    /// The state with the callbacks of an output stream at `index`.
    pub open spec fn with_output(self, index: int, callbacks: O) -> Self {
        StateView {
            output_callbacks: placed(self.output_callbacks, index, callbacks),
            ..self
        }
    }

    /// The state without the callbacks of the input stream at `index`.
    pub open spec fn without_input(self, index: int) -> Self {
        StateView {
            input_callbacks: removed(self.input_callbacks, index),
            ..self
        }
    }

    /// The state without the callbacks of the output stream at `index`.
    pub open spec fn without_output(self, index: int) -> Self {
        StateView {
            output_callbacks: removed(self.output_callbacks, index),
            ..self
        }
    }
}

/// What came of adding the callbacks of a stream.
pub struct Added {
    /// The index at which the callbacks are kept.
    pub index: usize,
    /// Whether the runner thread is to be woken.
    pub wakeup: bool,
}

/// An error that is to be handed to the error callback of one stream.
pub struct Notification {
    /// Whether the stream is an output stream.
    pub is_output: bool,
    /// The index of the stream's callbacks.
    pub index: usize,
    pub error: StreamError,
}

/// One notification for each slot that is taken, in the order of the slots.
pub open spec fn notifications<T>(
    slots: Seq<Option<T>>,
    is_output: bool,
    error: StreamError,
) -> Seq<Notification>
    decreases slots.len(),
{
    if slots.len() == 0 {
        Seq::empty()
    } else if slots.last() is Some {
        notifications(slots.drop_last(), is_output, error).push(
            Notification { is_output, index: (slots.len() - 1) as usize, error },
        )
    } else {
        notifications(slots.drop_last(), is_output, error)
    }
}

/// Appends to `list` one notification for each slot that is taken.
fn notify<T>(
    list: &mut Vec<Notification>,
    slots: &Vec<Option<T>>,
    is_output: bool,
    error: &StreamError,
)
    ensures
        final(list)@ == old(list)@ + notifications(slots@, is_output, *error),
{
    let mut i: usize = 0;
    while i < slots.len()
        invariant
            i <= slots@.len(),
            list@ == old(list)@ + notifications(slots@.take(i as int), is_output, *error),
        decreases slots@.len() - i,
    {
        assert(slots@.take(i + 1).drop_last() == slots@.take(i as int));
        if slots[i].is_some() {
            list.push(Notification { is_output, index: i, error: error.clone() });
        }
        i += 1;
    }
    assert(slots@.take(i as int) == slots@);
}

impl<H, I, O, W> View for InnerState<H, I, O, W> {
    type V = StateView<H, I, O, W>;

    open spec fn view(&self) -> StateView<H, I, O, W> {
        StateView {
            hdl: self.hdl,
            config: self.config,
            buffer_size: self.buffer_size,
            par: self.par,
            status: self.status,
            input_callbacks: self.input_callbacks@,
            output_callbacks: self.output_callbacks@,
            wakeup_sender: self.wakeup_sender,
        }
    }
}

impl<H, I, O, W> InnerState<H, I, O, W> {
    /// The state of a device that nobody has used yet.
    pub fn new() -> (state: Self)
        ensures
            state@ == StateView::<H, I, O, W>::fresh(),
            state@.wf(),
    {
        InnerState {
            hdl: None,
            config: None,
            buffer_size: None,
            par: None,
            status: Status::Stopped,
            input_callbacks: Vec::new(),
            output_callbacks: Vec::new(),
            wakeup_sender: None,
        }
    }

    /// Takes what an attempt to open the device gave: its handle, or `None`
    /// where it is not to be had. A device that is open already stays as it is.
    pub fn open(&mut self, hdl: Option<H>) -> (res: Result<(), SndioError>)
        ensures
            final(self)@ == old(self)@.opened(hdl),
            old(self)@.wf() ==> final(self)@.wf(),
            res is Ok <==> final(self)@.hdl is Some,
            res matches Err(e) ==> e@ == Failure::DeviceNotAvailable,
    {
        if self.hdl.is_some() {
            // Already open
            return Ok(());
        }
        if hdl.is_none() {
            return Err(SndioError::DeviceNotAvailable);
        }
        self.hdl = hdl;
        Ok(())
    }

    /// What an attempt to start the device means that ended with `status`.
    pub fn start(&self, status: i32) -> (res: Result<(), SndioError>)
        requires
            self.hdl is Some,
        ensures
            res is Ok <==> status == 1,
            res matches Err(e) ==> e@ == Failure::BackendSpecific("failed to start stream"@),
    {
        if status != 1 {
            return Err(backend_specific_error("failed to start stream".to_owned()));
        }
        Ok(())
    }

    /// What an attempt to stop the device means that ended with `status`.
    pub fn stop(&self, status: i32) -> (res: Result<(), SndioError>)
        requires
            self.hdl is Some,
        ensures
            res is Ok <==> status == 1,
            res matches Err(e) ==> e@ == Failure::BackendSpecific("error calling sio_stop"@),
    {
        if status != 1 {
            return Err(backend_specific_error("error calling sio_stop".to_owned()));
        }
        Ok(())
    }

    /// Puts the callbacks of an output stream into the first free position, or at the end.
    pub fn add_output_callbacks(&mut self, callbacks: O) -> (added: Added)
        ensures
            is_first_free(old(self)@.output_callbacks, added.index as int),
            final(self)@ == old(self)@.with_output(added.index as int, callbacks),
            added.wakeup == old(self)@.wakes_on_add(),
            old(self)@.wf() ==> final(self)@.wf(),
    {
        // If there were previously no callbacks, wake the runner thread.
        let wakeup = self.input_callbacks.len() == 0 && self.output_callbacks.len() == 0
            && self.wakeup_sender.is_some();
        let index: usize = place(&mut self.output_callbacks, callbacks);
        Added { index, wakeup }
    }

    /// Removes the callbacks of the output stream at `index` and returns them.
    pub fn remove_output_callbacks(&mut self, index: usize) -> (callbacks: O)
        requires
            is_taken(old(self)@.output_callbacks, index as int),
        ensures
            old(self)@.output_callbacks[index as int] == Some(callbacks),
            final(self)@ == old(self)@.without_output(index as int),
            old(self)@.wf() ==> final(self)@.wf(),
    {
        proof {
            law_take_keeps_the_others(self.output_callbacks@, index as int);
        }
        take(&mut self.output_callbacks, index)
    }

    /// Puts the callbacks of an input stream into the first free position, or at the end.
    pub fn add_input_callbacks(&mut self, callbacks: I) -> (added: Added)
        ensures
            is_first_free(old(self)@.input_callbacks, added.index as int),
            final(self)@ == old(self)@.with_input(added.index as int, callbacks),
            added.wakeup == old(self)@.wakes_on_add(),
            old(self)@.wf() ==> final(self)@.wf(),
    {
        // If there were previously no callbacks, wake the runner thread.
        let wakeup = self.input_callbacks.len() == 0 && self.output_callbacks.len() == 0
            && self.wakeup_sender.is_some();
        let index: usize = place(&mut self.input_callbacks, callbacks);
        Added { index, wakeup }
    }

    /// Removes the callbacks of the input stream at `index` and returns them.
    pub fn remove_input_callbacks(&mut self, index: usize) -> (callbacks: I)
        requires
            is_taken(old(self)@.input_callbacks, index as int),
        ensures
            old(self)@.input_callbacks[index as int] == Some(callbacks),
            final(self)@ == old(self)@.without_input(index as int),
            old(self)@.wf() ==> final(self)@.wf(),
    {
        proof {
            law_take_keeps_the_others(self.input_callbacks@, index as int);
        }
        take(&mut self.input_callbacks, index)
    }

    /// The error callbacks that `e` is to be handed to: those of all input and
    /// then of all output streams.
    pub fn error(&self, e: StreamError) -> (list: Vec<Notification>)
        ensures
            list@ == notifications(self@.input_callbacks, false, e) + notifications(
                self@.output_callbacks,
                true,
                e,
            ),
    {
        let mut list: Vec<Notification> = Vec::new();
        notify(&mut list, &self.input_callbacks, false, &e);
        notify(&mut list, &self.output_callbacks, true, &e);
        list
    }

    /// Ends the state and returns the handle that is to be closed, if the device is open.
    pub fn close(self) -> (hdl: Option<H>)
        ensures
            hdl == self@.hdl,
    {
        self.hdl
    }

    /// Whether the runner thread is to be woken because there is no stream any more.
    pub fn wakes_idle_runner(&self) -> (wakeup: bool)
        ensures
            wakeup == self@.wakes_on_release(),
    {
        self.input_callbacks.len() == 0 && self.output_callbacks.len() == 0 && self.status
            == Status::Running && self.wakeup_sender.is_some()
    }
}

/// An error reaches every stream of a kind exactly once, in the order of the
/// indices, and nothing else.
pub proof fn law_error_reaches_every_stream_once<T>(
    slots: Seq<Option<T>>,
    is_output: bool,
    error: StreamError,
)
    requires
        slots.len() <= usize::MAX,
    ensures
        forall|k: int|
            #![trigger notifications(slots, is_output, error)[k]]
            0 <= k < notifications(slots, is_output, error).len() ==> {
                let note = notifications(slots, is_output, error)[k];
                is_taken(slots, note.index as int) && note.is_output == is_output && note.error
                    == error
            },
        forall|j: int, k: int|
            #![trigger notifications(slots, is_output, error)[j], notifications(slots, is_output, error)[k]]
            0 <= j < k < notifications(slots, is_output, error).len() ==> notifications(
                slots,
                is_output,
                error,
            )[j].index < notifications(slots, is_output, error)[k].index,
        forall|i: int|
            #[trigger] is_taken(slots, i) ==> exists|k: int|
                0 <= k < notifications(slots, is_output, error).len() && (
                #[trigger] notifications(slots, is_output, error)[k]).index == i,
    decreases slots.len(),
{
    if slots.len() > 0 {
        let rest = slots.drop_last();
        let before = notifications(rest, is_output, error);
        let all = notifications(slots, is_output, error);
        law_error_reaches_every_stream_once(rest, is_output, error);
        assert forall|k: int| 0 <= k < before.len() implies all[k] == #[trigger] before[k] by {}
        assert forall|i: int| #[trigger] is_taken(slots, i) implies exists|k: int|
            0 <= k < all.len() && (#[trigger] all[k]).index == i by {
            if i < rest.len() {
                assert(is_taken(rest, i));
                let k = choose|k: int| 0 <= k < before.len() && (#[trigger] before[k]).index == i;
                assert(all[k].index == i);
            } else {
                assert(all[all.len() - 1].index == i);
            }
        }
        assert forall|k: int| 0 <= k < all.len() implies {
            let note = #[trigger] all[k];
            is_taken(slots, note.index as int) && note.is_output == is_output && note.error == error
        } by {
            if k < before.len() {
                assert(is_taken(rest, before[k].index as int));
            }
        }
        assert forall|j: int, k: int| 0 <= j < k < all.len() implies (#[trigger] all[j]).index < (
        #[trigger] all[k]).index by {
            assert(is_taken(rest, before[j].index as int));
            if k < before.len() {
                assert(before[j].index < before[k].index);
            }
        }
    }
}

/// A new state has no handle, no configuration, no parameters, no buffer size,
/// no runner, no sender and no streams.
pub proof fn law_new_state_has_nothing<H, I, O, W>()
    ensures
        StateView::<H, I, O, W>::fresh().hdl == None::<H>,
        StateView::<H, I, O, W>::fresh().config == None::<SupportedStreamConfig>,
        StateView::<H, I, O, W>::fresh().par == None::<SioPar>,
        StateView::<H, I, O, W>::fresh().buffer_size == None::<usize>,
        StateView::<H, I, O, W>::fresh().status == Status::Stopped,
        StateView::<H, I, O, W>::fresh().wakeup_sender == None::<W>,
        StateView::<H, I, O, W>::fresh().input_callbacks.len() == 0,
        StateView::<H, I, O, W>::fresh().output_callbacks.len() == 0,
{
}

/// The view of a state shows each of its fields.
pub proof fn law_view_shows_every_field<H, I, O, W>(state: InnerState<H, I, O, W>)
    ensures
        state@.hdl == state.hdl,
        state@.config == state.config,
        state@.par == state.par,
        state@.buffer_size == state.buffer_size,
        state@.status == state.status,
        state@.wakeup_sender == state.wakeup_sender,
        state@.input_callbacks == state.input_callbacks@,
        state@.output_callbacks == state.output_callbacks@,
{
}

/// A device that is configured is open, has signed 16 bit samples, and is kept
/// with the rate, the channels and the sizes that its own parameters give.
pub proof fn law_kept_configuration_is_that_of_the_parameters<H, I, O, W>(
    s: StateView<H, I, O, W>,
)
    requires
        s.wf(),
    ensures
        s.config is Some <==> s.par is Some,
        s.config matches Some(config) ==> {
            let par = s.par.unwrap();
            &&& s.hdl is Some
            &&& par.bits == 16 && par.bps == 2 && par.sig == 1
            &&& config.sample_rate.0 == par.rate
            &&& config.channels as int == par.pchan as int % 65536
            &&& config.sample_format == SampleFormat::I16
            &&& config.buffer_size == (SupportedBufferSize::Range {
                min: par.round,
                max: par.appbufsz,
            })
        },
{
}

/// A buffer size is settled on a configured device only, in whole rounds and
/// at least one of them.
pub proof fn law_settled_size_is_in_whole_rounds<H, I, O, W>(s: StateView<H, I, O, W>)
    requires
        s.wf(),
    ensures
        s.buffer_size matches Some(frames) ==> {
            let round = s.par.unwrap().round;
            &&& s.par is Some
            &&& frames >= round
            &&& round > 0 ==> frames as int % round as int == 0
            &&& round == 0 ==> frames == 0
        },
{
}

/// Nothing else is asked of a state than that configuration, parameters and
/// handle go together, the buffer size is in whole rounds, the last slots are
/// taken and a runner can be woken.
pub proof fn law_when_a_state_is_well_formed<H, I, O, W>(s: StateView<H, I, O, W>)
    requires
        s.config is Some <==> s.par is Some,
        s.config matches Some(config) ==> {
            let par = s.par.unwrap();
            &&& s.hdl is Some
            &&& par.bits == 16 && par.bps == 2 && par.sig == 1
            &&& config.sample_rate.0 == par.rate
            &&& config.channels as int == par.pchan as int % 65536
            &&& config.sample_format == SampleFormat::I16
            &&& config.buffer_size == (SupportedBufferSize::Range {
                min: par.round,
                max: par.appbufsz,
            })
        },
        s.buffer_size matches Some(frames) ==> {
            let round = s.par.unwrap().round;
            &&& s.par is Some
            &&& frames >= round
            &&& round > 0 ==> frames as int % round as int == 0
            &&& round == 0 ==> frames == 0
        },
        s.input_callbacks.len() > 0 ==> s.input_callbacks[s.input_callbacks.len() - 1] is Some,
        s.output_callbacks.len() > 0 ==> s.output_callbacks[s.output_callbacks.len() - 1] is Some,
        s.status == Status::Running ==> s.wakeup_sender is Some,
    ensures
        s.wf(),
{
}

/// A well-formed state has no empty slot at its end, and a runner that has been
/// started can be woken.
pub proof fn law_slots_end_with_a_stream<H, I, O, W>(s: StateView<H, I, O, W>)
    requires
        s.wf(),
    ensures
        s.input_callbacks.len() > 0 ==> s.input_callbacks[s.input_callbacks.len() - 1] is Some,
        s.output_callbacks.len() > 0 ==> s.output_callbacks[s.output_callbacks.len() - 1] is Some,
        s.status == Status::Running ==> s.wakeup_sender is Some,
{
}

/// The runner is woken only through a sender and only while there is no slot of
/// either kind; at the end of a stream it also has to be running.
pub proof fn law_when_the_runner_is_woken<H, I, O, W>(s: StateView<H, I, O, W>)
    ensures
        s.wakes_on_add() <==> s.wakeup_sender is Some && s.input_callbacks.len() == 0
            && s.output_callbacks.len() == 0,
        s.wakes_on_release() <==> s.wakes_on_add() && s.status == Status::Running,
        s.is_idle() <==> s.input_callbacks.len() + s.output_callbacks.len() == 0,
{
}

/// Opening gives a closed device the handle that came of it, leaves an open one
/// its own, and touches nothing else.
pub proof fn law_opening_changes_the_handle_only<H, I, O, W>(
    s: StateView<H, I, O, W>,
    hdl: Option<H>,
)
    ensures
        s.hdl is Some ==> s.opened(hdl) == s,
        s.hdl is None ==> s.opened(hdl).hdl == hdl,
        s.opened(hdl).config == s.config,
        s.opened(hdl).par == s.par,
        s.opened(hdl).buffer_size == s.buffer_size,
        s.opened(hdl).status == s.status,
        s.opened(hdl).wakeup_sender == s.wakeup_sender,
        s.opened(hdl).input_callbacks == s.input_callbacks,
        s.opened(hdl).output_callbacks == s.output_callbacks,
{
}

/// Adding the callbacks of a stream puts them at its index among those of its
/// kind, and leaves everything else as it is.
pub proof fn law_adding_changes_one_slot<H, I, O, W>(
    s: StateView<H, I, O, W>,
    index: int,
    input: I,
    output: O,
    other: int,
)
    ensures
        ({
            let t = s.with_input(index, input);
            &&& t.hdl == s.hdl && t.config == s.config && t.par == s.par
            &&& t.buffer_size == s.buffer_size && t.status == s.status
            &&& t.wakeup_sender == s.wakeup_sender
            &&& t.output_callbacks == s.output_callbacks
            &&& 0 <= index <= s.input_callbacks.len() ==> {
                &&& t.input_callbacks[index] == Some(input)
                &&& t.input_callbacks.len() == (if index < s.input_callbacks.len() {
                    s.input_callbacks.len()
                } else {
                    s.input_callbacks.len() + 1
                })
                &&& 0 <= other < s.input_callbacks.len() && other != index
                    ==> t.input_callbacks[other] == s.input_callbacks[other]
            }
        }),
        ({
            let t = s.with_output(index, output);
            &&& t.hdl == s.hdl && t.config == s.config && t.par == s.par
            &&& t.buffer_size == s.buffer_size && t.status == s.status
            &&& t.wakeup_sender == s.wakeup_sender
            &&& t.input_callbacks == s.input_callbacks
            &&& 0 <= index <= s.output_callbacks.len() ==> {
                &&& t.output_callbacks[index] == Some(output)
                &&& t.output_callbacks.len() == (if index < s.output_callbacks.len() {
                    s.output_callbacks.len()
                } else {
                    s.output_callbacks.len() + 1
                })
                &&& 0 <= other < s.output_callbacks.len() && other != index
                    ==> t.output_callbacks[other] == s.output_callbacks[other]
            }
        }),
{
}

/// Removing the callbacks of a stream leaves those of every other stream of its
/// kind at their index, those of the other kind alone, and everything else as it is.
pub proof fn law_removing_empties_one_slot<H, I, O, W>(
    s: StateView<H, I, O, W>,
    index: int,
    other: int,
)
    ensures
        ({
            let t = s.without_input(index);
            &&& t.hdl == s.hdl && t.config == s.config && t.par == s.par
            &&& t.buffer_size == s.buffer_size && t.status == s.status
            &&& t.wakeup_sender == s.wakeup_sender
            &&& t.output_callbacks == s.output_callbacks
            &&& 0 <= index < s.input_callbacks.len() ==> {
                &&& t.input_callbacks.len() <= s.input_callbacks.len()
                &&& t.input_callbacks.len() > 0
                    ==> t.input_callbacks[t.input_callbacks.len() - 1] is Some
                &&& index < t.input_callbacks.len() ==> t.input_callbacks[index] is None
                &&& 0 <= other < s.input_callbacks.len() && other != index
                    && s.input_callbacks[other] is Some ==> other < t.input_callbacks.len()
                &&& 0 <= other < t.input_callbacks.len() && other != index
                    ==> t.input_callbacks[other] == s.input_callbacks[other]
            }
        }),
        ({
            let t = s.without_output(index);
            &&& t.hdl == s.hdl && t.config == s.config && t.par == s.par
            &&& t.buffer_size == s.buffer_size && t.status == s.status
            &&& t.wakeup_sender == s.wakeup_sender
            &&& t.input_callbacks == s.input_callbacks
            &&& 0 <= index < s.output_callbacks.len() ==> {
                &&& t.output_callbacks.len() <= s.output_callbacks.len()
                &&& t.output_callbacks.len() > 0
                    ==> t.output_callbacks[t.output_callbacks.len() - 1] is Some
                &&& index < t.output_callbacks.len() ==> t.output_callbacks[index] is None
                &&& 0 <= other < s.output_callbacks.len() && other != index
                    && s.output_callbacks[other] is Some ==> other < t.output_callbacks.len()
                &&& 0 <= other < t.output_callbacks.len() && other != index
                    ==> t.output_callbacks[other] == s.output_callbacks[other]
            }
        }),
{
    if 0 <= index < s.input_callbacks.len() {
        law_take_empties_one_slot(s.input_callbacks, index);
    }
    if 0 <= index < s.output_callbacks.len() {
        law_take_empties_one_slot(s.output_callbacks, index);
    }
}

/// Every notification names a slot that holds callbacks and carries the error
/// itself, and every slot that holds callbacks is named.
pub proof fn law_notifications_name_the_streams<T>(
    slots: Seq<Option<T>>,
    is_output: bool,
    error: StreamError,
    k: int,
    i: int,
)
    requires
        slots.len() <= usize::MAX,
    ensures
        0 <= k < notifications(slots, is_output, error).len() ==> {
            let note = notifications(slots, is_output, error)[k];
            &&& note.index < slots.len()
            &&& slots[note.index as int] != None::<T>
            &&& note.is_output == is_output
            &&& note.error == error
        },
        0 <= i < slots.len() && slots[i] != None::<T> ==> exists|j: int|
            0 <= j < notifications(slots, is_output, error).len() && (#[trigger] notifications(
                slots,
                is_output,
                error,
            )[j]).index == i,
        notifications(slots, is_output, error).len() <= slots.len(),
    decreases slots.len(),
{
    law_error_reaches_every_stream_once(slots, is_output, error);
    if 0 <= k < notifications(slots, is_output, error).len() {
        assert(is_taken(slots, notifications(slots, is_output, error)[k].index as int));
    }
    if 0 <= i < slots.len() && slots[i] != None::<T> {
        assert(is_taken(slots, i));
    }
    if slots.len() > 0 {
        law_notifications_name_the_streams(slots.drop_last(), is_output, error, -1, -1);
    }
}

} // verus!
