//! Streams of a device.

use vstd::prelude::*;

use crate::callbacks::{
    is_first_free, is_taken, law_place_keeps_the_others, law_take_keeps_the_others,
    law_take_shortens, law_take_undoes_place,
};
use crate::error::{backend_specific_error, Failure, PauseStreamError, PlayStreamError};
use crate::state::{law_removing_empties_one_slot, InnerState, StateView, Status};

verus! {

/// A stream of a device: the place of its callbacks in the state of the device.
pub struct Stream {
    /// True if this is an output stream; false if it is an input stream.
    pub is_output: bool,
    /// Index of the stream's callbacks among those of its kind.
    pub index: usize,
}

/// The callbacks of `stream` are in the state.
pub open spec fn is_live<H, I, O, W>(s: StateView<H, I, O, W>, stream: Stream) -> bool {
    if stream.is_output {
        is_taken(s.output_callbacks, stream.index as int)
    } else {
        is_taken(s.input_callbacks, stream.index as int)
    }
}

/// The callbacks of `stream` are the same in both states.
pub open spec fn has_same_callbacks<H, I, O, W>(
    s: StateView<H, I, O, W>,
    t: StateView<H, I, O, W>,
    stream: Stream,
) -> bool {
    if stream.is_output {
        s.output_callbacks[stream.index as int] == t.output_callbacks[stream.index as int]
    } else {
        s.input_callbacks[stream.index as int] == t.input_callbacks[stream.index as int]
    }
}

/// The state once `stream` is gone.
pub open spec fn released<H, I, O, W>(s: StateView<H, I, O, W>, stream: Stream) -> StateView<
    H,
    I,
    O,
    W,
> {
    if stream.is_output {
        s.without_output(stream.index as int)
    } else {
        s.without_input(stream.index as int)
    }
}

impl Stream {
    /// Plays the stream. There is nothing to do: a stream plays from when it is built.
    pub fn play(&self) -> (res: Result<(), PlayStreamError>)
        ensures
            res is Ok,
    {
        Ok(())
    }

    /// Pauses the stream, which sndio does not support.
    pub fn pause(&self) -> (res: Result<(), PauseStreamError>)
        ensures
            res matches Err(e) && e@ == Failure::BackendSpecific("pausing is not implemented"@),
    {
        Err(
            PauseStreamError::from(
                backend_specific_error("pausing is not implemented".to_owned()),
            ),
        )
    }

    /// Takes the callbacks of the stream out of the state, and returns whether
    /// the runner thread is to be woken because this was the last stream.
    pub fn release<H, I, O, W>(&self, inner_state: &mut InnerState<H, I, O, W>) -> (wakeup: bool)
        requires
            is_live(old(inner_state)@, *self),
        ensures
            final(inner_state)@ == released(old(inner_state)@, *self),
            wakeup == final(inner_state)@.wakes_on_release(),
            old(inner_state)@.wf() ==> final(inner_state)@.wf(),
    {
        if self.is_output {
            let _ = inner_state.remove_output_callbacks(self.index);
        } else {
            let _ = inner_state.remove_input_callbacks(self.index);
        }
        inner_state.wakes_idle_runner()
    }
}

/// A stream that has been released is no longer live; every other stream is
/// live exactly if it was, and has its callbacks where they were.
pub proof fn law_release_keeps_the_others<H, I, O, W>(
    s: StateView<H, I, O, W>,
    stream: Stream,
    other: Stream,
)
    requires
        is_live(s, stream),
        stream != other,
    ensures
        !is_live(released(s, stream), stream),
        is_live(released(s, stream), other) <==> is_live(s, other),
        is_live(s, other) ==> has_same_callbacks(s, released(s, stream), other),
{
    if stream.is_output {
        law_take_keeps_the_others(s.output_callbacks, stream.index as int);
    } else {
        law_take_keeps_the_others(s.input_callbacks, stream.index as int);
    }
}

/// Adding the callbacks of a stream makes it live, which it was not before;
/// every other stream is live exactly if it was, and has its callbacks where
/// they were.
pub proof fn law_add_keeps_the_others<H, I, O, W>(
    s: StateView<H, I, O, W>,
    input: I,
    input_index: usize,
    output: O,
    output_index: usize,
    other: Stream,
)
    requires
        s.wf(),
        is_first_free(s.input_callbacks, input_index as int),
        is_first_free(s.output_callbacks, output_index as int),
    ensures
        ({
            let added = Stream { is_output: false, index: input_index };
            let after = s.with_input(input_index as int, input);
            &&& !is_live(s, added)
            &&& is_live(after, added)
            &&& other != added ==> (is_live(after, other) <==> is_live(s, other))
            &&& is_live(s, other) ==> has_same_callbacks(s, after, other)
        }),
        ({
            let added = Stream { is_output: true, index: output_index };
            let after = s.with_output(output_index as int, output);
            &&& !is_live(s, added)
            &&& is_live(after, added)
            &&& other != added ==> (is_live(after, other) <==> is_live(s, other))
            &&& is_live(s, other) ==> has_same_callbacks(s, after, other)
        }),
{
    law_place_keeps_the_others(s.input_callbacks, input_index as int, input);
    law_place_keeps_the_others(s.output_callbacks, output_index as int, output);
}

/// Releasing a stream undoes adding its callbacks.
pub proof fn law_release_undoes_add<H, I, O, W>(
    s: StateView<H, I, O, W>,
    input: I,
    input_index: usize,
    output: O,
    output_index: usize,
)
    requires
        s.wf(),
        is_first_free(s.input_callbacks, input_index as int),
        is_first_free(s.output_callbacks, output_index as int),
    ensures
        released(
            s.with_input(input_index as int, input),
            Stream { is_output: false, index: input_index },
        ) == s,
        released(
            s.with_output(output_index as int, output),
            Stream { is_output: true, index: output_index },
        ) == s,
{
    law_take_undoes_place(s.input_callbacks, input_index as int, input);
    law_take_undoes_place(s.output_callbacks, output_index as int, output);
}

/// There is no live stream exactly where there are no slots at all.
pub proof fn law_idle_means_no_live_stream<H, I, O, W>(s: StateView<H, I, O, W>)
    requires
        s.wf(),
        s.input_callbacks.len() <= usize::MAX,
        s.output_callbacks.len() <= usize::MAX,
    ensures
        s.is_idle() <==> forall|stream: Stream| !is_live(s, stream),
{
    if !s.is_idle() {
        if s.input_callbacks.len() > 0 {
            let last = Stream {
                is_output: false,
                index: (s.input_callbacks.len() - 1) as usize,
            };
            assert(is_live(s, last));
        } else {
            let last = Stream {
                is_output: true,
                index: (s.output_callbacks.len() - 1) as usize,
            };
            assert(is_live(s, last));
        }
    }
}

/// The runner thread is woken for the first stream and for the end of the last
/// one only: while a stream is live, neither adding nor releasing another wakes it.
pub proof fn law_runner_is_not_woken_in_between<H, I, O, W>(
    s: StateView<H, I, O, W>,
    stream: Stream,
)
    requires
        is_live(s, stream),
    ensures
        !s.wakes_on_add(),
        !s.wakes_on_release(),
{
}

/// A runner thread that has been started is woken by the first stream that
/// comes where there is none.
pub proof fn law_first_stream_wakes_the_runner<H, I, O, W>(s: StateView<H, I, O, W>)
    requires
        s.wf(),
        s.status == Status::Running,
        s.is_idle(),
    ensures
        s.wakes_on_add(),
{
}

/// The release of a stream wakes the runner thread exactly if that was the last
/// live stream and the thread has been started.
pub proof fn law_last_release_wakes_the_runner<H, I, O, W>(
    s: StateView<H, I, O, W>,
    stream: Stream,
)
    requires
        s.wf(),
        s.input_callbacks.len() <= usize::MAX,
        s.output_callbacks.len() <= usize::MAX,
        is_live(s, stream),
    ensures
        released(s, stream).wakes_on_release() <==> s.status == Status::Running && (forall|
            other: Stream,
        |
            is_live(s, other) ==> other == stream),
{
    let after = released(s, stream);
    if stream.is_output {
        law_take_keeps_the_others(s.output_callbacks, stream.index as int);
        law_take_shortens(s.output_callbacks, stream.index as int);
    } else {
        law_take_keeps_the_others(s.input_callbacks, stream.index as int);
        law_take_shortens(s.input_callbacks, stream.index as int);
    }
    law_idle_means_no_live_stream(after);
    assert forall|other: Stream| other != stream implies is_live(after, other) == is_live(
        s,
        other,
    ) by {
        law_release_keeps_the_others(s, stream, other);
    }
}

/// A stream is live if there are callbacks at its index among those of its kind.
pub proof fn law_live_streams_have_callbacks<H, I, O, W>(s: StateView<H, I, O, W>, index: usize)
    ensures
        is_live(s, Stream { is_output: true, index }) <==> index < s.output_callbacks.len()
            && s.output_callbacks[index as int] != None::<O>,
        is_live(s, Stream { is_output: false, index }) <==> index < s.input_callbacks.len()
            && s.input_callbacks[index as int] != None::<I>,
{
}

/// Releasing a stream touches the callbacks of its kind only, and of these
/// leaves those of every other stream at their index.
pub proof fn law_release_empties_one_slot<H, I, O, W>(
    s: StateView<H, I, O, W>,
    stream: Stream,
    other: int,
)
    requires
        is_live(s, stream),
    ensures
        ({
            let t = released(s, stream);
            &&& t.hdl == s.hdl && t.config == s.config && t.par == s.par
            &&& t.buffer_size == s.buffer_size && t.status == s.status
            &&& t.wakeup_sender == s.wakeup_sender
            &&& stream.is_output ==> {
                &&& t.input_callbacks == s.input_callbacks
                &&& t.output_callbacks.len() <= s.output_callbacks.len()
                &&& t.output_callbacks.len() > 0
                    ==> t.output_callbacks[t.output_callbacks.len() - 1] is Some
                &&& stream.index < t.output_callbacks.len()
                    ==> t.output_callbacks[stream.index as int] is None
                &&& 0 <= other < s.output_callbacks.len() && other != stream.index
                    && s.output_callbacks[other] is Some ==> other < t.output_callbacks.len()
                &&& 0 <= other < t.output_callbacks.len() && other != stream.index
                    ==> t.output_callbacks[other] == s.output_callbacks[other]
            }
            &&& !stream.is_output ==> {
                &&& t.output_callbacks == s.output_callbacks
                &&& t.input_callbacks.len() <= s.input_callbacks.len()
                &&& t.input_callbacks.len() > 0
                    ==> t.input_callbacks[t.input_callbacks.len() - 1] is Some
                &&& stream.index < t.input_callbacks.len()
                    ==> t.input_callbacks[stream.index as int] is None
                &&& 0 <= other < s.input_callbacks.len() && other != stream.index
                    && s.input_callbacks[other] is Some ==> other < t.input_callbacks.len()
                &&& 0 <= other < t.input_callbacks.len() && other != stream.index
                    ==> t.input_callbacks[other] == s.input_callbacks[other]
            }
        }),
{
    law_removing_empties_one_slot(s, stream.index as int, other);
}

} // verus!
