use sndio_host::callbacks::{place, take};
use sndio_host::error::{backend_specific_error, SndioError, StreamError};
use sndio_host::state::{InnerState, Status};

type State = InnerState<u32, &'static str, &'static str, ()>;

fn description(e: SndioError) -> String {
    match e {
        SndioError::BackendSpecific(err) => err.description,
        e => panic!("unexpected {:?}", e),
    }
}

#[test]
fn a_new_state_is_empty() {
    let state = State::new();
    assert_eq!(state.hdl, None);
    assert_eq!(state.config, None);
    assert_eq!(state.par, None);
    assert_eq!(state.buffer_size, None);
    assert_eq!(state.status, Status::Stopped);
    assert!(state.input_callbacks.is_empty());
    assert!(state.output_callbacks.is_empty());
    assert!(state.wakeup_sender.is_none());
}

#[test]
fn the_first_free_slot_is_taken() {
    let mut slots = vec![Some('a'), None, Some('c'), None, Some('e')];
    assert_eq!(place(&mut slots, 'b'), 1);
    assert_eq!(place(&mut slots, 'd'), 3);
    assert_eq!(place(&mut slots, 'f'), 5);
    assert_eq!(
        slots,
        vec![Some('a'), Some('b'), Some('c'), Some('d'), Some('e'), Some('f')]
    );
}

#[test]
fn empty_slots_at_the_end_go() {
    let mut slots = vec![Some('a'), Some('b'), Some('c')];
    assert_eq!(take(&mut slots, 1), 'b');
    assert_eq!(slots, vec![Some('a'), None, Some('c')]);
    assert_eq!(take(&mut slots, 2), 'c');
    assert_eq!(slots, vec![Some('a')]);
    assert_eq!(take(&mut slots, 0), 'a');
    assert!(slots.is_empty());
}

#[test]
fn removing_undoes_adding() {
    let mut state = State::new();
    state.add_output_callbacks("a");
    state.add_output_callbacks("b");
    state.remove_output_callbacks(0);
    let before = state.output_callbacks.clone();
    let added = state.add_output_callbacks("c");
    assert_eq!(added.index, 0);
    assert_eq!(state.remove_output_callbacks(added.index), "c");
    assert_eq!(state.output_callbacks, before);

    let added = state.add_input_callbacks("d");
    assert_eq!(state.input_callbacks, vec![Some("d")]);
    assert_eq!(state.remove_input_callbacks(added.index), "d");
    assert!(state.input_callbacks.is_empty());
}

#[test]
fn the_runner_is_woken_for_the_first_stream() {
    let mut state = State::new();
    assert!(!state.add_output_callbacks("nobody to wake").wakeup);
    state.remove_output_callbacks(0);
    state.wakeup_sender = Some(());
    assert!(state.add_output_callbacks("a").wakeup);
    assert!(!state.add_output_callbacks("b").wakeup);
    assert!(!state.add_input_callbacks("c").wakeup);
    state.remove_output_callbacks(0);
    assert!(!state.add_output_callbacks("d").wakeup);
}

#[test]
fn an_idle_running_runner_is_woken() {
    let mut state = State::new();
    assert!(!state.wakes_idle_runner());
    state.wakeup_sender = Some(());
    assert!(!state.wakes_idle_runner());
    state.status = Status::Running;
    assert!(state.wakes_idle_runner());
    state.add_input_callbacks("a");
    assert!(!state.wakes_idle_runner());
}

#[test]
fn opening_keeps_the_first_handle() {
    let mut state = State::new();
    assert!(matches!(
        state.open(None),
        Err(SndioError::DeviceNotAvailable)
    ));
    assert_eq!(state.hdl, None);
    assert!(state.open(Some(1)).is_ok());
    assert!(state.open(Some(2)).is_ok());
    assert!(state.open(None).is_ok());
    assert_eq!(state.hdl, Some(1));
    assert_eq!(state.close(), Some(1));
}

#[test]
fn a_closed_device_needs_no_closing() {
    assert_eq!(State::new().close(), None);
}

#[test]
fn starting_and_stopping_succeed_with_one() {
    let mut state = State::new();
    state.open(Some(1)).unwrap();
    assert!(state.start(1).is_ok());
    assert!(state.stop(1).is_ok());
    assert_eq!(
        description(state.start(0).unwrap_err()),
        "failed to start stream"
    );
    assert_eq!(
        description(state.stop(-1).unwrap_err()),
        "error calling sio_stop"
    );
}

#[test]
fn an_error_reaches_every_stream() {
    let mut state = State::new();
    for name in ["a", "b", "c"] {
        state.add_input_callbacks(name);
        state.add_output_callbacks(name);
    }
    state.remove_input_callbacks(1);
    state.remove_output_callbacks(0);
    let e = StreamError::from(backend_specific_error("poll failed".to_string()));
    let reached: Vec<(bool, usize)> = state
        .error(e)
        .into_iter()
        .map(|note| {
            match note.error {
                StreamError::BackendSpecific { err } => assert_eq!(err.description, "poll failed"),
                e => panic!("unexpected {:?}", e),
            }
            (note.is_output, note.index)
        })
        .collect();
    assert_eq!(
        reached,
        vec![(false, 0), (false, 2), (true, 1), (true, 2)]
    );
    assert!(State::new().error(StreamError::DeviceNotAvailable).is_empty());
}
