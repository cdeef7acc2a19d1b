use keybow::backend::ScriptedBackend;
use keybow::backend::ScriptedInput;
use keybow::errors::KeypadError;
use keybow::keypad::KeyHandle;
use keybow::keypad::KeypadRegistry;
use keybow::keypad::PollOutcome;
use keybow::keypad::RecordingCallback;
use keybow::pins::DeviceVariant;

fn scripted_registry(
    variant: DeviceVariant,
    scripts: Vec<(u32, Vec<bool>)>,
) -> KeypadRegistry<ScriptedBackend, RecordingCallback> {
    let mut backend = ScriptedBackend::new();
    for (pin, levels) in scripts {
        backend.add_script(pin, levels);
    }
    KeypadRegistry::new(variant, backend)
}

fn log_of(reg: &KeypadRegistry<ScriptedBackend, RecordingCallback>, key: usize) -> Vec<bool> {
    reg.keys[key].callback.as_ref().unwrap().log.clone()
}

#[test]
fn callback_fires_once_per_transition() {
    let input = ScriptedInput::new(vec![false, false, true, true, false]);
    let mut handle = KeyHandle::new(20, input, Some(RecordingCallback::new()));

    assert_eq!(handle.poll_once(), Ok(PollOutcome::NoChange));
    assert_eq!(handle.poll_once(), Ok(PollOutcome::NoChange));
    assert_eq!(handle.poll_once(), Ok(PollOutcome::Transition(true)));
    assert_eq!(handle.poll_once(), Ok(PollOutcome::NoChange));
    assert_eq!(handle.poll_once(), Ok(PollOutcome::Transition(false)));

    assert_eq!(handle.callback.as_ref().unwrap().log, vec![true, false]);
    assert_eq!(handle.last_state, false);
}

#[test]
fn no_callback_still_updates_cache() {
    let input = ScriptedInput::new(vec![true, true, false]);
    let mut handle: KeyHandle<ScriptedInput, RecordingCallback> = KeyHandle::new(20, input, None);

    assert_eq!(handle.poll_once(), Ok(PollOutcome::Transition(true)));
    assert_eq!(handle.last_state, true);
    assert_eq!(handle.poll_once(), Ok(PollOutcome::NoChange));
    assert_eq!(handle.last_state, true);
    assert_eq!(handle.poll_once(), Ok(PollOutcome::Transition(false)));
    assert_eq!(handle.last_state, false);
    assert!(handle.callback.is_none());
}

#[test]
fn register_same_index_on_two_registries_succeeds() {
    let mut first = scripted_registry(DeviceVariant::Mini, vec![(20, vec![])]);
    let mut second = scripted_registry(DeviceVariant::Mini, vec![(20, vec![])]);

    assert_eq!(first.register(0, Some(RecordingCallback::new())), Ok(()));
    assert_eq!(second.register(0, Some(RecordingCallback::new())), Ok(()));
    assert_eq!(first.keys.len(), 1);
    assert_eq!(second.keys.len(), 1);
    assert_eq!(first.keys[0].pin, 20);
    assert_eq!(second.keys[0].pin, 20);
}

#[test]
fn register_rejects_invalid_index() {
    let mut reg = scripted_registry(DeviceVariant::Mini, vec![(20, vec![])]);
    assert_eq!(
        reg.register(3, Some(RecordingCallback::new())),
        Err(KeypadError::InvalidIndex)
    );
    assert_eq!(reg.keys.len(), 0);

    let mut full = scripted_registry(DeviceVariant::Full, vec![]);
    assert_eq!(
        full.register(12, Some(RecordingCallback::new())),
        Err(KeypadError::InvalidIndex)
    );
    assert_eq!(full.keys.len(), 0);
}

#[test]
fn register_same_pin_twice_fails_at_backend() {
    let mut reg = scripted_registry(DeviceVariant::Mini, vec![(20, vec![])]);
    assert_eq!(reg.register(0, Some(RecordingCallback::new())), Ok(()));
    assert_eq!(
        reg.register(0, Some(RecordingCallback::new())),
        Err(KeypadError::BackendOpen)
    );
    assert_eq!(reg.keys.len(), 1);
}

#[test]
fn poll_all_stops_at_first_failure() {
    // Full variant, keys 0..4 on pins 20, 6, 22, 17; the third key's pin
    // has an empty script, so its very first read fails.
    let mut reg = scripted_registry(
        DeviceVariant::Full,
        vec![
            (20, vec![true]),
            (6, vec![true]),
            (22, vec![]),
            (17, vec![true]),
        ],
    );
    for index in 0..4 {
        assert_eq!(reg.register(index, Some(RecordingCallback::new())), Ok(()));
    }

    assert_eq!(reg.poll_all(), Err(KeypadError::Io));

    // Keys before the failure were polled: callbacks fired, cache updated.
    assert_eq!(log_of(&reg, 0), vec![true]);
    assert_eq!(reg.keys[0].last_state, true);
    assert_eq!(log_of(&reg, 1), vec![true]);
    assert_eq!(reg.keys[1].last_state, true);
    // The failing key and everything after it are untouched.
    assert_eq!(log_of(&reg, 2), Vec::<bool>::new());
    assert_eq!(reg.keys[2].last_state, false);
    assert_eq!(log_of(&reg, 3), Vec::<bool>::new());
    assert_eq!(reg.keys[3].last_state, false);
    // The fourth key's backend was never even read.
    assert_eq!(reg.keys[3].input.pos, 0);
}

#[test]
fn second_pass_with_no_level_change_fires_nothing() {
    let mut reg = scripted_registry(
        DeviceVariant::Mini,
        vec![(20, vec![true, true]), (17, vec![false, false])],
    );
    assert_eq!(reg.register(0, Some(RecordingCallback::new())), Ok(()));
    assert_eq!(reg.register(1, Some(RecordingCallback::new())), Ok(()));

    assert_eq!(reg.poll_all(), Ok(()));
    assert_eq!(log_of(&reg, 0), vec![true]);
    assert_eq!(log_of(&reg, 1), Vec::<bool>::new());

    assert_eq!(reg.poll_all(), Ok(()));
    assert_eq!(log_of(&reg, 0), vec![true]);
    assert_eq!(log_of(&reg, 1), Vec::<bool>::new());
    assert_eq!(reg.keys[0].last_state, true);
    assert_eq!(reg.keys[1].last_state, false);
}

#[test]
fn mini_end_to_end_scenario() {
    let mut reg = scripted_registry(
        DeviceVariant::Mini,
        vec![(20, vec![false, true, true]), (17, vec![false, false, true])],
    );
    assert_eq!(reg.register(0, Some(RecordingCallback::new())), Ok(()));
    assert_eq!(reg.register(1, Some(RecordingCallback::new())), Ok(()));
    assert_eq!(reg.keys[0].pin, 20);
    assert_eq!(reg.keys[1].pin, 17);

    // Pass 1: both pins still read false, matching the initial cache.
    assert_eq!(reg.poll_all(), Ok(()));
    assert_eq!(log_of(&reg, 0), Vec::<bool>::new());
    assert_eq!(log_of(&reg, 1), Vec::<bool>::new());

    // Pass 2: only key 0 transitions to pressed.
    assert_eq!(reg.poll_all(), Ok(()));
    assert_eq!(log_of(&reg, 0), vec![true]);
    assert_eq!(log_of(&reg, 1), Vec::<bool>::new());

    // Pass 3: only key 1 transitions to pressed.
    assert_eq!(reg.poll_all(), Ok(()));
    assert_eq!(log_of(&reg, 0), vec![true]);
    assert_eq!(log_of(&reg, 1), vec![true]);
}

#[test]
fn scripted_input_errors_when_exhausted() {
    let input = ScriptedInput::new(vec![true]);
    let mut handle: KeyHandle<ScriptedInput, RecordingCallback> = KeyHandle::new(24, input, None);
    assert_eq!(handle.poll_once(), Ok(PollOutcome::Transition(true)));
    assert!(handle.poll_once().is_err());
    // A failed read leaves the cached state alone.
    assert_eq!(handle.last_state, true);
}
