use vwisper::injection::chord_plan;
use vwisper::injection::init_text_injector;
use vwisper::injection::inject_text;
use vwisper::injection::is_text_injector_initialized;
use vwisper::injection::test_text_injection;
use vwisper::injection::typing_failure_message;
use vwisper::injection::typing_plan;
use vwisper::injection::Direction;
use vwisper::injection::Injection;
use vwisper::injection::InjectionCommand;
use vwisper::injection::InjectionError;
use vwisper::injection::InjectionEvent;
use vwisper::injection::InputStep;
use vwisper::injection::Key;
use vwisper::injection::PasteModifier;
use vwisper::injection::Phase;
use vwisper::injection::Strategy;
use vwisper::injection::TextInjector;

const PASTE: Strategy = Strategy::ClipboardPaste { modifier: PasteModifier::Control };

fn ready() -> TextInjector {
    let mut injector = TextInjector::new();
    init_text_injector(&mut injector, Ok(())).unwrap();
    injector
}

fn sleep(ms: u64) -> InputStep {
    InputStep::Sleep { ms }
}

fn click(key: Key) -> InputStep {
    InputStep::Key { key, direction: Direction::Click }
}

fn failed(step: usize, reason: &str) -> InjectionEvent {
    InjectionEvent::Failed { step, reason: reason.to_string() }
}

fn chord(modifier: Key) -> Vec<InputStep> {
    vec![
        sleep(300),
        InputStep::Key { key: modifier, direction: Direction::Press },
        sleep(50),
        click(Key::Unicode('v')),
        sleep(50),
        InputStep::Key { key: modifier, direction: Direction::Release },
        sleep(100),
    ]
}

/// Carries an injection out against a clipboard that holds `clipboard`,
/// failing the commands whose number, counted from 0, is in `failing`.
/// Returns the commands, the result and what the clipboard holds at the end.
fn run(
    mut injection: Injection,
    mut clipboard: Option<String>,
    failing: &[usize],
) -> (Vec<InjectionCommand>, Result<(), InjectionError>, Option<String>) {
    let mut commands = Vec::new();
    loop {
        let number = commands.len();
        assert!(number < 20);
        let command = injection.command();
        let fails = failing.contains(&number);
        let event = match &command {
            InjectionCommand::Finish(_) => {
                assert!(injection.is_done());
                let result = match command {
                    InjectionCommand::Finish(result) => result,
                    _ => unreachable!(),
                };
                return (commands, result, clipboard);
            }
            InjectionCommand::ReadClipboard => {
                if fails {
                    InjectionEvent::ClipboardUnavailable("no clipboard".to_string())
                } else {
                    InjectionEvent::Clipboard(clipboard.clone())
                }
            }
            InjectionCommand::WriteClipboard(text) => {
                if fails {
                    failed(0, "write refused")
                } else {
                    clipboard = Some(text.clone());
                    InjectionEvent::Done
                }
            }
            InjectionCommand::Input(_) | InjectionCommand::TypeText(_) => {
                if fails {
                    failed(2, "backend error")
                } else {
                    InjectionEvent::Done
                }
            }
        };
        commands.push(command);
        injection.advance(event);
    }
}

#[test]
fn injector_starts_uninitialized() {
    let injector = TextInjector::new();
    assert!(!is_text_injector_initialized(&injector));
}

#[test]
fn init_makes_the_injector_ready() {
    let mut injector = TextInjector::new();
    assert!(init_text_injector(&mut injector, Ok(())).is_ok());
    assert!(is_text_injector_initialized(&injector));
}

#[test]
fn failed_init_leaves_the_injector_as_it_was() {
    let mut injector = TextInjector::new();
    assert_eq!(
        init_text_injector(&mut injector, Err("no display".to_string())),
        Err(InjectionError::InjectionFailed("Failed to create Enigo instance: no display".to_string()))
    );
    assert!(!is_text_injector_initialized(&injector));
    let mut injector = ready();
    assert!(init_text_injector(&mut injector, Err("again".to_string())).is_err());
    assert!(is_text_injector_initialized(&injector));
}

#[test]
fn inject_before_init_is_not_initialized() {
    let injector = TextInjector::new();
    for strategy in [PASTE, Strategy::CharByChar, Strategy::WholeText] {
        match inject_text(&injector, "hello", strategy) {
            Err(error) => assert_eq!(error, InjectionError::NotInitialized),
            Ok(_) => panic!("an injector that is not ready must refuse"),
        }
        match inject_text(&injector, "", strategy) {
            Err(error) => assert_eq!(error, InjectionError::NotInitialized),
            Ok(_) => panic!("an injector that is not ready must refuse"),
        }
    }
}

#[test]
fn empty_text_is_empty_input_and_sends_nothing() {
    let injector = ready();
    for strategy in [PASTE, Strategy::CharByChar, Strategy::WholeText] {
        match inject_text(&injector, "", strategy) {
            Err(error) => assert_eq!(error, InjectionError::EmptyInput),
            Ok(_) => panic!("there is nothing to inject"),
        }
    }
}

#[test]
fn error_messages() {
    assert_eq!(
        InjectionError::NotInitialized.message(),
        "Text injector not initialized. Please restart the application."
    );
    assert_eq!(InjectionError::EmptyInput.message(), "Cannot inject empty text");
    assert_eq!(InjectionError::InjectionFailed("boom".to_string()).message(), "boom");
    assert_eq!(
        InjectionError::InjectionFailed("boom".to_string()).duplicate(),
        InjectionError::InjectionFailed("boom".to_string())
    );
    assert_eq!(InjectionError::EmptyInput.duplicate(), InjectionError::EmptyInput);
}

#[test]
fn typing_plan_maps_newline_and_tab() {
    let text: Vec<char> = "a\nb\té".chars().collect();
    assert_eq!(
        typing_plan(&text, 6),
        vec![
            InputStep::Char('a'),
            sleep(6),
            click(Key::Return),
            sleep(6),
            InputStep::Char('b'),
            sleep(6),
            click(Key::Tab),
            sleep(6),
            InputStep::Char('é'),
            sleep(6),
        ]
    );
    assert_eq!(typing_plan(&Vec::new(), 6), vec![]);
}

#[test]
fn chord_plan_by_modifier() {
    assert_eq!(chord_plan(PasteModifier::Control), chord(Key::Control));
    assert_eq!(chord_plan(PasteModifier::Meta), chord(Key::Meta));
}

#[test]
fn typing_failure_messages() {
    let text: Vec<char> = "a\n\tb".chars().collect();
    assert_eq!(
        typing_failure_message(Strategy::CharByChar, &text, 0, "denied"),
        "Failed to inject char 'a': denied"
    );
    assert_eq!(
        typing_failure_message(PASTE, &text, 0, "denied"),
        "Failed to inject character 'a': denied"
    );
    assert_eq!(
        typing_failure_message(Strategy::CharByChar, &text, 2, "denied"),
        "Failed to inject newline: denied"
    );
    assert_eq!(
        typing_failure_message(PASTE, &text, 4, "denied"),
        "Failed to inject tab: denied"
    );
    assert_eq!(
        typing_failure_message(PASTE, &text, 7, "denied"),
        "Failed to inject character 'b': denied"
    );
    assert_eq!(
        typing_failure_message(PASTE, &text, 8, "denied"),
        "Failed to inject text: denied"
    );
}

#[test]
fn char_by_char_injection() {
    let injection = inject_text(&ready(), "hi\n", Strategy::CharByChar).unwrap();
    assert_eq!(injection.phase(), Phase::Settling);
    let (commands, result, clipboard) = run(injection, Some("kept".to_string()), &[]);
    assert_eq!(
        commands,
        vec![
            InjectionCommand::Input(vec![sleep(200)]),
            InjectionCommand::Input(vec![
                InputStep::Char('h'),
                sleep(6),
                InputStep::Char('i'),
                sleep(6),
                click(Key::Return),
                sleep(6),
            ]),
        ]
    );
    assert_eq!(result, Ok(()));
    assert_eq!(clipboard, Some("kept".to_string()));
}

#[test]
fn char_by_char_failure_names_the_character() {
    let injection = inject_text(&ready(), "hi\n", Strategy::CharByChar).unwrap();
    let (commands, result, _) = run(injection, None, &[1]);
    assert_eq!(commands.len(), 2);
    assert_eq!(
        result,
        Err(InjectionError::InjectionFailed("Failed to inject char 'i': backend error".to_string()))
    );
}

#[test]
fn whole_text_injection() {
    let injection = inject_text(&ready(), "hello", Strategy::WholeText).unwrap();
    let (commands, result, _) = run(injection, None, &[]);
    assert_eq!(
        commands,
        vec![
            InjectionCommand::Input(vec![sleep(200), sleep(50)]),
            InjectionCommand::TypeText("hello".to_string()),
            InjectionCommand::Input(vec![sleep(50)]),
        ]
    );
    assert_eq!(result, Ok(()));
}

#[test]
fn whole_text_failure() {
    let injection = inject_text(&ready(), "hello", Strategy::WholeText).unwrap();
    let (commands, result, _) = run(injection, None, &[1]);
    assert_eq!(commands.len(), 2);
    assert_eq!(
        result,
        Err(InjectionError::InjectionFailed("Failed to inject text: backend error".to_string()))
    );
}

#[test]
fn clipboard_paste_puts_the_clipboard_back() {
    let injection = inject_text(&ready(), "hello world", PASTE).unwrap();
    let (commands, result, clipboard) = run(injection, Some("mine".to_string()), &[]);
    assert_eq!(
        commands,
        vec![
            InjectionCommand::Input(vec![sleep(200)]),
            InjectionCommand::ReadClipboard,
            InjectionCommand::WriteClipboard("hello world".to_string()),
            InjectionCommand::Input(chord(Key::Control)),
            InjectionCommand::WriteClipboard("mine".to_string()),
        ]
    );
    assert_eq!(result, Ok(()));
    assert_eq!(clipboard, Some("mine".to_string()));
}

#[test]
fn clipboard_paste_with_the_meta_key() {
    let strategy = Strategy::ClipboardPaste { modifier: PasteModifier::Meta };
    let injection = inject_text(&ready(), "x", strategy).unwrap();
    let (commands, result, _) = run(injection, Some(String::new()), &[]);
    assert_eq!(commands[3], InjectionCommand::Input(chord(Key::Meta)));
    assert_eq!(result, Ok(()));
}

#[test]
fn clipboard_paste_puts_back_an_empty_clipboard_too() {
    let injection = inject_text(&ready(), "hello", PASTE).unwrap();
    let (commands, result, clipboard) = run(injection, Some(String::new()), &[]);
    assert_eq!(commands.last(), Some(&InjectionCommand::WriteClipboard(String::new())));
    assert_eq!(result, Ok(()));
    assert_eq!(clipboard, Some(String::new()));
}

#[test]
fn failed_chord_falls_back_to_typing_and_puts_the_clipboard_back() {
    let injection = inject_text(&ready(), "a\tb", PASTE).unwrap();
    let (commands, result, clipboard) = run(injection, Some("mine".to_string()), &[3]);
    assert_eq!(
        commands,
        vec![
            InjectionCommand::Input(vec![sleep(200)]),
            InjectionCommand::ReadClipboard,
            InjectionCommand::WriteClipboard("a\tb".to_string()),
            InjectionCommand::Input(chord(Key::Control)),
            InjectionCommand::Input(vec![
                InputStep::Char('a'),
                sleep(10),
                click(Key::Tab),
                sleep(10),
                InputStep::Char('b'),
                sleep(10),
            ]),
            InjectionCommand::WriteClipboard("mine".to_string()),
        ]
    );
    assert_eq!(result, Ok(()));
    assert_eq!(clipboard, Some("mine".to_string()));
}

#[test]
fn failed_fallback_still_puts_the_clipboard_back() {
    let injection = inject_text(&ready(), "a\tb", PASTE).unwrap();
    let (commands, result, clipboard) = run(injection, Some("mine".to_string()), &[3, 4]);
    assert_eq!(commands.len(), 6);
    assert_eq!(commands[5], InjectionCommand::WriteClipboard("mine".to_string()));
    assert_eq!(
        result,
        Err(InjectionError::InjectionFailed("Failed to inject tab: backend error".to_string()))
    );
    assert_eq!(clipboard, Some("mine".to_string()));
}

#[test]
fn failed_placing_is_an_error_and_the_clipboard_is_put_back() {
    let injection = inject_text(&ready(), "hello", PASTE).unwrap();
    let (commands, result, clipboard) = run(injection, Some("mine".to_string()), &[2]);
    assert_eq!(
        commands,
        vec![
            InjectionCommand::Input(vec![sleep(200)]),
            InjectionCommand::ReadClipboard,
            InjectionCommand::WriteClipboard("hello".to_string()),
            InjectionCommand::WriteClipboard("mine".to_string()),
        ]
    );
    assert_eq!(
        result,
        Err(InjectionError::InjectionFailed(
            "Failed to set clipboard content: write refused".to_string()
        ))
    );
    assert_eq!(clipboard, Some("mine".to_string()));
}

#[test]
fn unavailable_clipboard_is_an_error_before_any_key() {
    let injection = inject_text(&ready(), "hello", PASTE).unwrap();
    let (commands, result, clipboard) = run(injection, Some("mine".to_string()), &[1]);
    assert_eq!(
        commands,
        vec![InjectionCommand::Input(vec![sleep(200)]), InjectionCommand::ReadClipboard]
    );
    assert_eq!(
        result,
        Err(InjectionError::InjectionFailed(
            "Failed to initialize clipboard: no clipboard".to_string()
        ))
    );
    assert_eq!(clipboard, Some("mine".to_string()));
}

#[test]
fn unreadable_clipboard_is_not_put_back() {
    let injection = inject_text(&ready(), "hello", PASTE).unwrap();
    let (commands, result, clipboard) = run(injection, None, &[]);
    assert_eq!(
        commands,
        vec![
            InjectionCommand::Input(vec![sleep(200)]),
            InjectionCommand::ReadClipboard,
            InjectionCommand::WriteClipboard("hello".to_string()),
            InjectionCommand::Input(chord(Key::Control)),
        ]
    );
    assert_eq!(result, Ok(()));
    assert_eq!(clipboard, Some("hello".to_string()));
}

#[test]
fn failed_restore_is_remembered_and_does_not_fail_the_injection() {
    let mut injection = inject_text(&ready(), "hello", PASTE).unwrap();
    injection.advance(InjectionEvent::Done);
    injection.advance(InjectionEvent::Clipboard(Some("mine".to_string())));
    injection.advance(InjectionEvent::Done);
    injection.advance(InjectionEvent::Done);
    assert_eq!(injection.phase(), Phase::Restoring);
    assert!(!injection.restore_failed());
    injection.advance(failed(0, "clipboard busy"));
    assert!(injection.is_done());
    assert!(injection.restore_failed());
    assert_eq!(injection.command(), InjectionCommand::Finish(Ok(())));
}

#[test]
fn events_that_answer_nothing_are_dropped() {
    let mut injection = inject_text(&ready(), "hello", PASTE).unwrap();
    injection.advance(InjectionEvent::Clipboard(Some("early".to_string())));
    injection.advance(InjectionEvent::ClipboardUnavailable("early".to_string()));
    assert_eq!(injection.phase(), Phase::Settling);
    injection.advance(InjectionEvent::Done);
    assert_eq!(injection.phase(), Phase::Reading);
    injection.advance(InjectionEvent::Done);
    injection.advance(failed(0, "not an answer"));
    assert_eq!(injection.phase(), Phase::Reading);
    assert_eq!(injection.command(), InjectionCommand::ReadClipboard);
    injection.advance(InjectionEvent::Clipboard(Some("mine".to_string())));
    assert_eq!(injection.phase(), Phase::Placing);
    injection.advance(InjectionEvent::Clipboard(Some("other".to_string())));
    assert_eq!(injection.phase(), Phase::Placing);
}

#[test]
fn a_finished_injection_stays_finished() {
    let mut injection = inject_text(&ready(), "x", Strategy::CharByChar).unwrap();
    injection.advance(InjectionEvent::Done);
    injection.advance(InjectionEvent::Done);
    assert!(injection.is_done());
    injection.advance(InjectionEvent::Done);
    injection.advance(failed(0, "late"));
    injection.advance(InjectionEvent::Clipboard(None));
    assert!(injection.is_done());
    assert_eq!(injection.command(), InjectionCommand::Finish(Ok(())));
}

#[test]
fn a_failed_settle_ends_the_injection() {
    let mut injection = inject_text(&ready(), "x", Strategy::CharByChar).unwrap();
    injection.advance(failed(0, "interrupted"));
    assert_eq!(
        injection.command(),
        InjectionCommand::Finish(Err(InjectionError::InjectionFailed("interrupted".to_string())))
    );
}

#[test]
fn the_settle_delay_comes_before_everything() {
    for strategy in [PASTE, Strategy::CharByChar, Strategy::WholeText] {
        let injection = inject_text(&ready(), "hello", strategy).unwrap();
        match injection.command() {
            InjectionCommand::Input(steps) => {
                assert_eq!(steps[0], sleep(200));
                assert!(steps.iter().all(|step| matches!(step, InputStep::Sleep { .. })));
            }
            _ => panic!("an injection begins with a wait"),
        }
    }
}

#[test]
fn sample_injection_types_the_sample_text() {
    let injection = test_text_injection(&ready(), Strategy::WholeText).unwrap();
    let (commands, result, _) = run(injection, None, &[]);
    assert_eq!(commands[1], InjectionCommand::TypeText("VWisper test".to_string()));
    assert_eq!(result, Ok(()));
    match test_text_injection(&TextInjector::new(), Strategy::WholeText) {
        Err(error) => assert_eq!(error, InjectionError::NotInitialized),
        Ok(_) => panic!("an injector that is not ready must refuse"),
    }
}
