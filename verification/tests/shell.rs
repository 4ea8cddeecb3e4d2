use desk_shell::injector::{Action, Event, Injector, Phase, FOCUS_DELAY_MS};
use desk_shell::launcher::LaunchRequest;
use desk_shell::{dispatch, Command, Work};

fn drive(inj: &mut Injector) -> Vec<Action> {
    let mut actions: Vec<Action> = Vec::new();
    loop {
        let a = inj.next_action();
        if a == Action::Done {
            break;
        }
        actions.push(a);
        let ev = match a {
            Action::RequestMinimize => Event::MinimizeAttempted,
            Action::WaitMillis(_) => Event::DelayElapsed,
            Action::InitInput => Event::InputReady,
            Action::EmitText => Event::EmitAttempted,
            Action::Done => unreachable!(),
        };
        inj.step(ev);
    }
    actions
}

#[test]
fn launcher_accepts_example_url() {
    let w = dispatch(Command::OpenUrl(String::from("https://example.com")));
    match w {
        Work::Launch(r) => assert_eq!(r.url().as_str(), "https://example.com"),
        Work::Inject(_) => panic!("open-url must dispatch to the launcher"),
    }
}

#[test]
fn launcher_accepts_empty_url() {
    let r = LaunchRequest::new(String::from(""));
    assert_eq!(r.url().as_str(), "");
}

#[test]
fn launcher_accepts_malformed_url() {
    let r = LaunchRequest::new(String::from("not a url \u{1F600}\n\t"));
    assert_eq!(r.url().as_str(), "not a url \u{1F600}\n\t");
}

#[test]
fn injector_runs_in_order_for_hello() {
    let w = dispatch(Command::TypeText(String::from("hello")));
    let mut inj = match w {
        Work::Inject(i) => i,
        Work::Launch(_) => panic!("type-text must dispatch to the injector"),
    };
    assert_eq!(inj.phase(), Phase::MinimizePending);
    assert_eq!(inj.text().as_str(), "hello");
    let actions = drive(&mut inj);
    assert_eq!(
        actions,
        vec![
            Action::RequestMinimize,
            Action::WaitMillis(FOCUS_DELAY_MS),
            Action::InitInput,
            Action::EmitText,
        ]
    );
    assert_eq!(inj.phase(), Phase::Finished);
    assert_eq!(inj.text().as_str(), "hello");
}

#[test]
fn injector_delay_is_150_ms() {
    let mut inj = Injector::new(String::from("x"));
    inj.step(Event::MinimizeAttempted);
    assert_eq!(inj.next_action(), Action::WaitMillis(150));
}

#[test]
fn injector_minimizes_even_for_empty_text() {
    let mut inj = Injector::new(String::from(""));
    assert_eq!(inj.next_action(), Action::RequestMinimize);
    let actions = drive(&mut inj);
    assert_eq!(actions[0], Action::RequestMinimize);
    assert_eq!(actions[1], Action::WaitMillis(FOCUS_DELAY_MS));
    // The run still reaches the emission step; with an empty text there is
    // nothing to emit, and that is not an error.
    assert_eq!(actions[3], Action::EmitText);
    assert_eq!(inj.text().len(), 0);
    assert_eq!(inj.phase(), Phase::Finished);
}

#[test]
fn injector_abandons_run_when_input_unavailable() {
    let mut inj = Injector::new(String::from("abc"));
    inj.step(Event::MinimizeAttempted);
    inj.step(Event::DelayElapsed);
    assert_eq!(inj.next_action(), Action::InitInput);
    inj.step(Event::InputUnavailable);
    // The failure is swallowed: the run just finishes, no emission happens.
    assert_eq!(inj.phase(), Phase::Finished);
    assert_eq!(inj.next_action(), Action::Done);
}

#[test]
fn injector_ignores_event_out_of_turn() {
    let mut inj = Injector::new(String::from("abc"));
    inj.step(Event::DelayElapsed);
    inj.step(Event::EmitAttempted);
    assert_eq!(inj.phase(), Phase::MinimizePending);
    inj.step(Event::MinimizeAttempted);
    inj.step(Event::InputReady);
    assert_eq!(inj.phase(), Phase::DelayPending);
}

#[test]
fn injector_accepts_non_ascii_and_control_text() {
    let text = "caf\u{e9}\t\u{7}\u{1F600}";
    let mut inj = Injector::new(String::from(text));
    let actions = drive(&mut inj);
    assert_eq!(actions.len(), 4);
    assert_eq!(inj.text().as_str(), text);
}

#[test]
fn two_runs_progress_independently() {
    let mut first = Injector::new(String::from("first"));
    let mut second = Injector::new(String::from("second"));
    first.step(Event::MinimizeAttempted);
    assert_eq!(first.phase(), Phase::DelayPending);
    assert_eq!(second.phase(), Phase::MinimizePending);
    second.step(Event::MinimizeAttempted);
    first.step(Event::DelayElapsed);
    assert_eq!(first.phase(), Phase::InitPending);
    assert_eq!(second.phase(), Phase::DelayPending);
    second.step(Event::DelayElapsed);
    second.step(Event::InputReady);
    second.step(Event::EmitAttempted);
    assert_eq!(second.phase(), Phase::Finished);
    assert_eq!(first.phase(), Phase::InitPending);
    assert_eq!(first.text().as_str(), "first");
    assert_eq!(second.text().as_str(), "second");
}
