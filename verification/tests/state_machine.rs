use statig::{
    InitializedStateMachine, IntoStateMachine, IntoStateMachineExt, Request, StateMachine,
    UninitializedStateMachine, Work,
};

#[derive(Debug, Default, Clone, PartialEq, Eq)]
pub struct Blinky {
    pub led: bool,
    pub entries: u32,
}

#[derive(Debug, Clone, Copy, PartialEq, Eq)]
pub enum LedState {
    On,
    Off,
}

impl IntoStateMachine for Blinky {
    type State = LedState;

    const INITIAL: LedState = LedState::On;
}

/// Drive one request to its end the way an asynchronous caller does, with
/// synchronous stand-ins for the entry actions and the event handler.
fn drive(sm: &mut StateMachine<Blinky>, request: Request) -> Vec<Work> {
    let mut performed = Vec::new();
    let mut work = sm.next_work(request);
    while let Some(w) = work {
        {
            let (storage, state) = sm.parts_mut();
            match w {
                Work::Init => storage.entries += 1,
                Work::Handle => {
                    *state = match *state {
                        LedState::On => LedState::Off,
                        LedState::Off => LedState::On,
                    };
                    storage.led = *state == LedState::On;
                }
            }
        }
        performed.push(w);
        work = sm.finish_work(request, w);
    }
    performed
}

#[test]
fn new_machine_starts_in_initial_state() {
    let sm = Blinky { led: true, entries: 0 }.state_machine();
    assert_eq!(*sm.state(), LedState::On);
    assert!(sm.led);
    assert_eq!(sm.next_work(Request::Init), Some(Work::Init));
    assert_eq!(sm.next_work(Request::Handle), Some(Work::Init));
}

#[test]
fn handle_initializes_first() {
    let mut sm = Blinky::default().state_machine();
    assert_eq!(drive(&mut sm, Request::Handle), vec![Work::Init, Work::Handle]);
    assert_eq!(sm.entries, 1);
    assert_eq!(*sm.state(), LedState::Off);
}

#[test]
fn handle_after_init_only_dispatches() {
    let mut sm = Blinky::default().state_machine();
    assert_eq!(drive(&mut sm, Request::Init), vec![Work::Init]);
    assert_eq!(drive(&mut sm, Request::Handle), vec![Work::Handle]);
    assert_eq!(drive(&mut sm, Request::Handle), vec![Work::Handle]);
    assert_eq!(sm.entries, 1);
    assert_eq!(*sm.state(), LedState::On);
    assert!(sm.led);
}

#[test]
fn init_is_noop_when_initialized() {
    let mut sm = Blinky::default().state_machine();
    assert_eq!(drive(&mut sm, Request::Handle), vec![Work::Init, Work::Handle]);
    assert_eq!(drive(&mut sm, Request::Init), Vec::<Work>::new());
    assert_eq!(sm.next_work(Request::Init), None);
    assert_eq!(sm.entries, 1);
}

#[test]
fn series_of_requests_runs_entry_actions_once() {
    let mut sm = Blinky::default().state_machine();
    let mut all = Vec::new();
    for r in [Request::Init, Request::Handle, Request::Init, Request::Handle, Request::Handle] {
        all.extend(drive(&mut sm, r));
    }
    assert_eq!(all, vec![Work::Init, Work::Handle, Work::Handle, Work::Handle]);
    assert_eq!(sm.entries, 1);
}

#[test]
fn finish_work_sequence() {
    let mut sm = Blinky::default().state_machine();
    assert_eq!(sm.finish_work(Request::Handle, Work::Init), Some(Work::Handle));
    assert_eq!(sm.next_work(Request::Handle), Some(Work::Handle));
    assert_eq!(sm.finish_work(Request::Handle, Work::Handle), None);
    assert_eq!(sm.finish_work(Request::Init, Work::Init), None);
}

#[test]
fn handle_work_does_not_initialize() {
    let mut sm = Blinky::default().state_machine();
    assert_eq!(sm.finish_work(Request::Handle, Work::Handle), None);
    assert_eq!(sm.next_work(Request::Handle), Some(Work::Init));
}

#[test]
fn from_parts_is_uninitialized() {
    let mut sm = Blinky::default().state_machine();
    drive(&mut sm, Request::Handle);
    let rebuilt = StateMachine::from_parts((*sm).clone(), *sm.state());
    assert_eq!(*rebuilt.state(), LedState::Off);
    assert_eq!(rebuilt.next_work(Request::Init), Some(Work::Init));
}

#[test]
fn clone_keeps_initialized_flag() {
    let mut sm = Blinky::default().state_machine();
    drive(&mut sm, Request::Init);
    let copy = sm.clone();
    assert_eq!(copy.next_work(Request::Init), None);
    assert!(copy == sm);
}

#[test]
fn eq_compares_initialized_flag() {
    // Two machines whose storage and state agree, one initialized without
    // entry actions that change anything, differ only in the flag.
    let a = Blinky::default().state_machine();
    let mut b = Blinky::default().state_machine();
    assert!(a == b);
    assert_eq!(b.next_work(Request::Init), Some(Work::Init));
    assert_eq!(b.finish_work(Request::Init, Work::Init), None);
    assert!(a != b);
    let mut c = Blinky::default().state_machine();
    assert_eq!(c.finish_work(Request::Init, Work::Init), None);
    assert!(b == c);
    c.entries = 7;
    assert!(b != c);
}

#[test]
fn default_machine() {
    let sm: StateMachine<Blinky> = StateMachine::default();
    assert_eq!(*sm.state(), LedState::On);
    assert_eq!(*sm, Blinky::default());
    assert_eq!(sm.next_work(Request::Handle), Some(Work::Init));
}

#[test]
fn deref_mut_changes_storage_only() {
    let mut sm = Blinky::default().state_machine();
    sm.finish_work(Request::Init, Work::Init);
    sm.led = true;
    sm.entries = 3;
    assert!(sm.led);
    assert_eq!(sm.entries, 3);
    assert_eq!(*sm.state(), LedState::On);
    assert_eq!(sm.next_work(Request::Init), None);
}

#[test]
fn uninitialized_into_initialized_keeps_parts() {
    let uninit = Blinky { led: true, entries: 2 }.uninitialized_state_machine();
    assert_eq!(uninit.entries, 2);
    let copy = uninit.clone();
    assert!(copy == uninit);
    let init = uninit.into_initialized();
    assert_eq!(*init.state(), LedState::On);
    assert_eq!(init.entries, 2);
    assert!(init.led);
}

#[test]
fn initialized_machine_handles() {
    let mut init = Blinky::default().uninitialized_state_machine().into_initialized();
    {
        let (storage, state) = init.parts_mut();
        storage.entries += 1;
        *state = LedState::Off;
    }
    assert_eq!(*init.state(), LedState::Off);
    assert_eq!(init.entries, 1);
    let copy = init.clone();
    assert!(copy == init);
    let other = Blinky::default().uninitialized_state_machine().into_initialized();
    assert!(other != init);
}

#[test]
fn uninitialized_from_parts() {
    let uninit = UninitializedStateMachine::from_parts(Blinky { led: false, entries: 5 }, LedState::Off);
    let init: InitializedStateMachine<Blinky> = uninit.into_initialized();
    assert_eq!(*init.state(), LedState::Off);
    assert_eq!(init.entries, 5);
}

#[test]
fn debug_output_names_fields() {
    let init = Blinky::default().uninitialized_state_machine().into_initialized();
    let text = format!("{:?}", init);
    assert!(text.starts_with("InitializedStateMachine"));
    assert!(text.contains("shared_storage"));
    assert!(text.contains("state: On"));
    let uninit = Blinky::default().uninitialized_state_machine();
    let text = format!("{:?}", uninit);
    assert!(text.starts_with("UninitializedStateMachine {"));
    assert!(text.contains("shared_storage"));
    assert!(text.contains("state: On"));
}

#[test]
fn uninitialized_eq_compares_storage_and_state() {
    let a = UninitializedStateMachine::from_parts(Blinky::default(), LedState::On);
    let b = UninitializedStateMachine::from_parts(Blinky::default(), LedState::Off);
    let c = Blinky::default().uninitialized_state_machine();
    assert!(a != b);
    assert!(a == c);
    assert_eq!(*c.state(), LedState::On);
}

#[test]
fn default_storage_is_default() {
    let sm: StateMachine<Blinky> = Default::default();
    assert_eq!(sm.entries, 0);
    assert!(!sm.led);
}
