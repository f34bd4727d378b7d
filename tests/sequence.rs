use lookup_trigger::sequence::{
    Action, DelayPolicy, Event, KeyPress, Sequencer, RECORD_KEY_CODE, RESTORE_KEY_CODE,
};

fn record() -> KeyPress {
    KeyPress { command: true, option: true, control: true, key_code: RECORD_KEY_CODE }
}

fn restore() -> KeyPress {
    KeyPress { command: true, option: true, control: true, key_code: RESTORE_KEY_CODE }
}

fn focus() -> KeyPress {
    KeyPress { command: true, option: true, control: false, key_code: RECORD_KEY_CODE }
}

/// Runs a request through, reporting `outcome` for every step after the
/// capture, and collects every action handed out.
fn drive(seq: &mut Sequencer, request: &str, outcome: Event) -> Vec<Action> {
    let mut actions = vec![seq.begin(request)];
    if actions[0] != Action::QueryPointer {
        return actions;
    }
    actions.push(seq.step(Event::Pointer(640, 360)));
    while !seq.is_idle() {
        actions.push(seq.step(outcome));
    }
    actions
}

#[test]
fn standard_delays() {
    let d = DelayPolicy::standard();
    assert_eq!(d.settle, 1);
    assert_eq!(d.linger, 7);
}

#[test]
fn single_word_request_takes_short_path() {
    let mut seq = Sequencer::new(DelayPolicy::standard());
    let actions = drive(&mut seq, "GET /?text=hello HTTP/1.1", Event::Done);
    assert_eq!(
        actions,
        vec![
            Action::QueryPointer,
            Action::PressKeys(record()),
            Action::OpenUri("easydict://query?text=hello".to_string()),
            Action::Wait(1),
            Action::PressKeys(restore()),
            Action::MovePointer(640, 360),
            Action::Respond(200),
        ]
    );
}

#[test]
fn two_word_request_takes_slow_path() {
    let mut seq = Sequencer::new(DelayPolicy::standard());
    let actions = drive(&mut seq, "GET /?text=hello%20world HTTP/1.1", Event::Done);
    assert_eq!(
        actions,
        vec![
            Action::QueryPointer,
            Action::PressKeys(record()),
            Action::OpenUri("easydict://query?text=hello%20world".to_string()),
            Action::Wait(1),
            Action::ActivateTarget(focus()),
            Action::Wait(7),
            Action::PressKeys(restore()),
            Action::MovePointer(640, 360),
            Action::Respond(200),
        ]
    );
}

#[test]
fn request_without_query_is_rejected_with_no_automation() {
    let mut seq = Sequencer::new(DelayPolicy::standard());
    assert_eq!(seq.begin("GET / HTTP/1.1"), Action::Respond(400));
    assert!(seq.is_idle());
    assert_eq!(seq.step(Event::Done), Action::Nothing);
    assert_eq!(seq.step(Event::Pointer(1, 2)), Action::Nothing);
}

#[test]
fn empty_text_is_rejected() {
    let mut seq = Sequencer::new(DelayPolicy::standard());
    assert_eq!(seq.begin("GET /?text= HTTP/1.1"), Action::Respond(400));
    assert_eq!(seq.start(None), Action::Respond(400));
}

#[test]
fn padded_single_word_stays_on_short_path() {
    let mut seq = Sequencer::new(DelayPolicy::standard());
    let actions = drive(&mut seq, "GET /?text=%20hello%20 HTTP/1.1", Event::Done);
    assert!(!actions.contains(&Action::ActivateTarget(focus())));
    assert!(!actions.contains(&Action::Wait(7)));
    assert_eq!(actions.last(), Some(&Action::Respond(200)));
}

#[test]
fn failures_do_not_stop_the_restore() {
    let mut seq = Sequencer::new(DelayPolicy::standard());
    let actions = drive(&mut seq, "GET /?text=a+b HTTP/1.1", Event::Failed);
    assert_eq!(actions.len(), 9);
    assert_eq!(actions[6], Action::PressKeys(restore()));
    assert_eq!(actions[7], Action::MovePointer(640, 360));
    assert_eq!(actions[8], Action::Respond(200));
}

#[test]
fn capture_failure_abandons_before_any_change() {
    let mut seq = Sequencer::new(DelayPolicy::standard());
    assert_eq!(seq.begin("GET /?text=hello HTTP/1.1"), Action::QueryPointer);
    assert_eq!(seq.step(Event::CaptureFailed), Action::Abandon);
    assert!(seq.is_idle());
    assert_eq!(seq.step(Event::Done), Action::Nothing);
}

#[test]
fn second_request_waits_for_the_first_to_finish() {
    let mut seq = Sequencer::new(DelayPolicy::standard());
    assert_eq!(seq.begin("GET /?text=one HTTP/1.1"), Action::QueryPointer);
    assert_eq!(seq.step(Event::Pointer(5, 6)), Action::PressKeys(record()));
    assert_eq!(seq.begin("GET /?text=two HTTP/1.1"), Action::Nothing);
    assert_eq!(seq.start(Some("three")), Action::Nothing);
    assert_eq!(seq.step(Event::Done), Action::OpenUri("easydict://query?text=one".to_string()));
    assert_eq!(seq.step(Event::Done), Action::Wait(1));
    assert_eq!(seq.step(Event::Done), Action::PressKeys(restore()));
    assert_eq!(seq.begin("GET /?text=two HTTP/1.1"), Action::Nothing);
    assert_eq!(seq.step(Event::Done), Action::MovePointer(5, 6));
    assert_eq!(seq.step(Event::Done), Action::Respond(200));
    assert_eq!(seq.begin("GET /?text=two HTTP/1.1"), Action::QueryPointer);
}

#[test]
fn custom_delays_are_used() {
    let mut seq = Sequencer::new(DelayPolicy { settle: 0, linger: 2 });
    let actions = drive(&mut seq, "GET /?text=x%20y HTTP/1.1", Event::Done);
    assert_eq!(actions[3], Action::Wait(0));
    assert_eq!(actions[5], Action::Wait(2));
}

#[test]
fn start_with_text_directly() {
    let mut seq = Sequencer::new(DelayPolicy::standard());
    assert_eq!(seq.start(Some("two words")), Action::QueryPointer);
    assert_eq!(seq.step(Event::Pointer(-3, 9)), Action::PressKeys(record()));
    assert_eq!(seq.step(Event::Done), Action::OpenUri("easydict://query?text=two%20words".to_string()));
    assert_eq!(seq.step(Event::Done), Action::Wait(1));
    assert_eq!(seq.step(Event::Done), Action::ActivateTarget(focus()));
}
