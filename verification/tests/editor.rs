use hecto::editor::event::{Event, KeyCode, KeyEvent, KeyModifiers};
use hecto::editor::terminal::{Command, Position, Size};
use hecto::editor::{Editor, Location};
use std::io;

fn screen(width: usize, height: usize) -> io::Result<Size> {
    Ok(Size { width, height })
}

fn no_screen() -> io::Result<Size> {
    Err(io::Error::new(io::ErrorKind::Other, "not a terminal"))
}

fn key(code: KeyCode) -> Event {
    Event::Key(KeyEvent { code, modifiers: KeyModifiers::none() })
}

fn chord(code: KeyCode, modifiers: KeyModifiers) -> Event {
    Event::Key(KeyEvent { code, modifiers })
}

fn editor_on(width: usize, height: usize) -> Editor {
    Editor::new(screen(width, height), None)
}

fn press(editor: &mut Editor, codes: &[KeyCode], width: usize, height: usize) {
    for code in codes {
        editor.evaluate_event(&key(*code), screen(width, height));
    }
}

fn at(x: usize, y: usize) -> Location {
    Location { x, y }
}

fn drawn_row(at: u16, text: &str) -> Vec<Command> {
    vec![
        Command::MoveTo { col: 0, row: at },
        Command::ClearLine,
        Command::Print(text.to_string()),
    ]
}

#[test]
fn new_editor_starts_at_the_origin() {
    let editor = editor_on(80, 24);
    assert_eq!(editor.location(), at(0, 0));
    assert!(!editor.should_quit());
    assert!(editor.viewport().needs_redraw());
    assert!(editor.viewport().buffer().is_empty());
    assert_eq!(editor.viewport().size(), Size { width: 80, height: 24 });
}

#[test]
fn new_editor_loads_the_file_it_is_given() {
    let editor = Editor::new(screen(80, 24), Some(Ok("one\ntwo\n".to_string())));
    assert_eq!(editor.viewport().buffer().lines, vec!["one", "two"]);
    assert!(editor.viewport().needs_redraw());
}

#[test]
fn new_editor_survives_an_unreadable_file() {
    let failure = io::Error::new(io::ErrorKind::NotFound, "/nonexistent/path");
    let editor = Editor::new(screen(80, 24), Some(Err(failure)));
    assert!(editor.viewport().buffer().is_empty());
    assert!(editor.viewport().needs_redraw());
    assert_eq!(editor.location(), at(0, 0));
}

#[test]
fn new_editor_without_a_known_size_has_no_area() {
    let editor = Editor::new(no_screen(), None);
    assert_eq!(editor.viewport().size(), Size { width: 0, height: 0 });
}

#[test]
fn first_frame_starts_with_a_fresh_screen() {
    let mut editor = Editor::new(screen(10, 2), Some(Ok("hi".to_string())));
    let mut expected = vec![
        Command::ClearScreen,
        Command::MoveTo { col: 0, row: 0 },
        Command::HideCaret,
    ];
    expected.extend(drawn_row(0, "hi"));
    expected.extend(drawn_row(1, "~"));
    expected.push(Command::MoveTo { col: 0, row: 0 });
    expected.push(Command::ShowCaret);
    assert_eq!(editor.refresh_screen(), expected);
    assert!(!editor.viewport().needs_redraw());
}

#[test]
fn later_frames_only_place_the_caret() {
    let mut editor = Editor::new(screen(10, 2), Some(Ok("hi".to_string())));
    editor.refresh_screen();
    press(&mut editor, &[KeyCode::Right, KeyCode::Right, KeyCode::Down], 10, 2);
    assert_eq!(
        editor.refresh_screen(),
        vec![
            Command::HideCaret,
            Command::MoveTo { col: 2, row: 1 },
            Command::ShowCaret,
        ]
    );
    assert_eq!(
        editor.refresh_screen(),
        vec![
            Command::HideCaret,
            Command::MoveTo { col: 2, row: 1 },
            Command::ShowCaret,
        ]
    );
}

#[test]
fn frame_after_a_resize_redraws() {
    let mut editor = Editor::new(screen(10, 2), Some(Ok("hello world".to_string())));
    editor.refresh_screen();
    editor.evaluate_event(&Event::Resize(5, 1), screen(5, 1));
    assert!(editor.viewport().needs_redraw());
    assert_eq!(editor.viewport().size(), Size { width: 5, height: 1 });
    let mut expected = vec![Command::HideCaret];
    expected.extend(drawn_row(0, "hello"));
    expected.push(Command::MoveTo { col: 0, row: 0 });
    expected.push(Command::ShowCaret);
    assert_eq!(editor.refresh_screen(), expected);
}

#[test]
fn arrows_move_by_one() {
    let mut editor = editor_on(80, 24);
    press(&mut editor, &[KeyCode::Right, KeyCode::Right, KeyCode::Right], 80, 24);
    assert_eq!(editor.location(), at(3, 0));
    press(&mut editor, &[KeyCode::Down, KeyCode::Down], 80, 24);
    assert_eq!(editor.location(), at(3, 2));
    press(&mut editor, &[KeyCode::Left], 80, 24);
    assert_eq!(editor.location(), at(2, 2));
    press(&mut editor, &[KeyCode::Up], 80, 24);
    assert_eq!(editor.location(), at(2, 1));
}

#[test]
fn vi_keys_move_like_arrows() {
    let mut editor = editor_on(80, 24);
    press(&mut editor, &[KeyCode::Char('l'), KeyCode::Char('l'), KeyCode::Char('j')], 80, 24);
    assert_eq!(editor.location(), at(2, 1));
    press(&mut editor, &[KeyCode::Char('h'), KeyCode::Char('k')], 80, 24);
    assert_eq!(editor.location(), at(1, 0));
    press(&mut editor, &[KeyCode::Char('h'), KeyCode::Char('h'), KeyCode::Char('k')], 80, 24);
    assert_eq!(editor.location(), at(0, 0));
}

#[test]
fn vi_keys_move_whatever_the_modifiers() {
    let mut editor = editor_on(80, 24);
    editor.evaluate_event(&chord(KeyCode::Char('l'), KeyModifiers::control()), screen(80, 24));
    assert_eq!(editor.location(), at(1, 0));
    assert!(!editor.should_quit());
}

#[test]
fn caret_stops_at_the_edges() {
    let mut editor = editor_on(3, 2);
    press(&mut editor, &[KeyCode::Left, KeyCode::Up], 3, 2);
    assert_eq!(editor.location(), at(0, 0));
    for step in 1..=10 {
        press(&mut editor, &[KeyCode::Right, KeyCode::Down], 3, 2);
        let location = editor.location();
        assert_eq!(location, at(step.min(3), step.min(2)));
        assert!(location.x <= 3 && location.y <= 2);
    }
    for step in 1..=10 {
        press(&mut editor, &[KeyCode::Left, KeyCode::Up], 3, 2);
        assert_eq!(editor.location(), at(3usize.saturating_sub(step), 2usize.saturating_sub(step)));
    }
}

#[test]
fn caret_stays_on_the_screen_along_a_mixed_sequence() {
    let codes = [
        KeyCode::End,
        KeyCode::Right,
        KeyCode::PageDown,
        KeyCode::Down,
        KeyCode::Down,
        KeyCode::Char('l'),
        KeyCode::Char('j'),
        KeyCode::Home,
        KeyCode::Left,
        KeyCode::PageUp,
        KeyCode::Up,
        KeyCode::Char('x'),
        KeyCode::Other,
        KeyCode::End,
        KeyCode::Char('h'),
    ];
    let mut editor = editor_on(7, 4);
    let expected = [
        at(7, 0),
        at(7, 0),
        at(7, 3),
        at(7, 4),
        at(7, 4),
        at(7, 4),
        at(7, 4),
        at(0, 4),
        at(0, 4),
        at(0, 0),
        at(0, 0),
        at(0, 0),
        at(0, 0),
        at(7, 0),
        at(6, 0),
    ];
    for (code, location) in codes.iter().zip(expected.iter()) {
        press(&mut editor, &[*code], 7, 4);
        assert_eq!(editor.location(), *location, "after {:?}", code);
        assert!(editor.location().x <= 7 && editor.location().y <= 4);
    }
}

#[test]
fn home_and_end_regardless_of_history() {
    let mut editor = editor_on(80, 24);
    press(&mut editor, &[KeyCode::End], 80, 24);
    assert_eq!(editor.location(), at(80, 0));
    press(&mut editor, &[KeyCode::Home], 80, 24);
    assert_eq!(editor.location(), at(0, 0));
    press(&mut editor, &[KeyCode::Right, KeyCode::Down, KeyCode::Right, KeyCode::End], 80, 24);
    assert_eq!(editor.location(), at(80, 1));
    press(&mut editor, &[KeyCode::Left, KeyCode::Left, KeyCode::Home], 80, 24);
    assert_eq!(editor.location(), at(0, 1));
}

#[test]
fn page_keys_jump_to_first_and_last_row() {
    let mut editor = editor_on(80, 24);
    press(&mut editor, &[KeyCode::Right, KeyCode::PageDown], 80, 24);
    assert_eq!(editor.location(), at(1, 23));
    press(&mut editor, &[KeyCode::PageUp], 80, 24);
    assert_eq!(editor.location(), at(1, 0));
}

#[test]
fn page_down_on_a_screen_without_rows_stays_at_zero() {
    let mut editor = editor_on(80, 0);
    press(&mut editor, &[KeyCode::PageDown], 80, 0);
    assert_eq!(editor.location(), at(0, 0));
}

#[test]
fn movement_uses_the_size_of_the_moment() {
    let mut editor = editor_on(80, 24);
    press(&mut editor, &[KeyCode::End, KeyCode::PageDown], 80, 24);
    assert_eq!(editor.location(), at(80, 23));
    press(&mut editor, &[KeyCode::Right, KeyCode::Down], 10, 5);
    assert_eq!(editor.location(), at(10, 5));
}

#[test]
fn failed_size_query_counts_as_no_area() {
    let mut editor = editor_on(80, 24);
    press(&mut editor, &[KeyCode::Right, KeyCode::Right, KeyCode::Down], 80, 24);
    assert_eq!(editor.location(), at(2, 1));
    editor.evaluate_event(&key(KeyCode::Right), no_screen());
    assert_eq!(editor.location(), at(0, 1));
    editor.evaluate_event(&key(KeyCode::Down), no_screen());
    assert_eq!(editor.location(), at(0, 0));
    editor.evaluate_event(&key(KeyCode::End), no_screen());
    assert_eq!(editor.location(), at(0, 0));
    editor.evaluate_event(&key(KeyCode::PageDown), no_screen());
    assert_eq!(editor.location(), at(0, 0));
}

#[test]
fn resize_leaves_the_caret_where_it_is() {
    let mut editor = editor_on(80, 24);
    press(&mut editor, &[KeyCode::End, KeyCode::PageDown], 80, 24);
    editor.evaluate_event(&Event::Resize(10, 5), screen(10, 5));
    assert_eq!(editor.location(), at(80, 23));
    assert_eq!(editor.viewport().size(), Size { width: 10, height: 5 });
    press(&mut editor, &[KeyCode::Left], 10, 5);
    assert_eq!(editor.location(), at(10, 23));
    press(&mut editor, &[KeyCode::Right], 10, 5);
    assert_eq!(editor.location(), at(10, 23));
    press(&mut editor, &[KeyCode::Down], 10, 5);
    assert_eq!(editor.location(), at(10, 5));
}

#[test]
fn every_directional_key_brings_a_stale_caret_back() {
    let keys = [
        (KeyCode::Left, at(10, 23)),
        (KeyCode::Char('h'), at(10, 23)),
        (KeyCode::Right, at(10, 23)),
        (KeyCode::Char('l'), at(10, 23)),
        (KeyCode::Up, at(80, 5)),
        (KeyCode::Char('k'), at(80, 5)),
        (KeyCode::Down, at(80, 5)),
        (KeyCode::Char('j'), at(80, 5)),
    ];
    for (code, expected) in keys {
        let mut editor = editor_on(80, 24);
        press(&mut editor, &[KeyCode::End, KeyCode::PageDown], 80, 24);
        editor.evaluate_event(&Event::Resize(10, 5), screen(10, 5));
        assert_eq!(editor.location(), at(80, 23));
        press(&mut editor, &[code], 10, 5);
        assert_eq!(editor.location(), expected, "after {:?}", code);
    }
}

#[test]
fn stepping_back_from_just_beyond_the_screen_moves_on_it() {
    let mut editor = editor_on(80, 24);
    press(&mut editor, &[KeyCode::End, KeyCode::PageDown], 80, 24);
    press(&mut editor, &[KeyCode::Left, KeyCode::Up], 200, 100);
    assert_eq!(editor.location(), at(79, 22));
    press(&mut editor, &[KeyCode::Left, KeyCode::Up], 79, 22);
    assert_eq!(editor.location(), at(78, 21));
    press(&mut editor, &[KeyCode::Left, KeyCode::Up], 77, 20);
    assert_eq!(editor.location(), at(77, 20));
    press(&mut editor, &[KeyCode::Left, KeyCode::Up], 0, 0);
    assert_eq!(editor.location(), at(0, 0));
}

#[test]
fn resize_is_taken_from_the_event() {
    let mut editor = editor_on(80, 24);
    editor.refresh_screen();
    editor.evaluate_event(&Event::Resize(u16::MAX, 1), screen(3, 3));
    assert_eq!(editor.viewport().size(), Size { width: 65_535, height: 1 });
    assert!(editor.viewport().needs_redraw());
}

#[test]
fn quit_chord_asks_to_quit() {
    let mut editor = editor_on(80, 24);
    editor.evaluate_event(&chord(KeyCode::Char('q'), KeyModifiers::control()), screen(80, 24));
    assert!(editor.should_quit());
    assert_eq!(editor.location(), at(0, 0));
}

#[test]
fn q_without_control_is_ignored() {
    let mut editor = editor_on(80, 24);
    editor.evaluate_event(&key(KeyCode::Char('q')), screen(80, 24));
    assert!(!editor.should_quit());
    let shift = KeyModifiers { shift: true, ..KeyModifiers::none() };
    editor.evaluate_event(&chord(KeyCode::Char('q'), shift), screen(80, 24));
    assert!(!editor.should_quit());
}

#[test]
fn q_with_control_and_more_is_ignored() {
    let mut editor = editor_on(80, 24);
    let extras = [
        KeyModifiers { shift: true, ..KeyModifiers::control() },
        KeyModifiers { alt: true, ..KeyModifiers::control() },
        KeyModifiers { super_key: true, ..KeyModifiers::control() },
        KeyModifiers { hyper: true, ..KeyModifiers::control() },
        KeyModifiers { meta: true, ..KeyModifiers::control() },
    ];
    for modifiers in extras {
        assert!(!modifiers.is_only_control());
        editor.evaluate_event(&chord(KeyCode::Char('q'), modifiers), screen(80, 24));
        assert!(!editor.should_quit());
    }
    assert!(KeyModifiers::control().is_only_control());
    assert!(!KeyModifiers::none().is_only_control());
}

#[test]
fn control_with_another_key_does_not_quit() {
    let mut editor = editor_on(80, 24);
    editor.evaluate_event(&chord(KeyCode::Char('Q'), KeyModifiers::control()), screen(80, 24));
    editor.evaluate_event(&chord(KeyCode::Char('c'), KeyModifiers::control()), screen(80, 24));
    editor.evaluate_event(&chord(KeyCode::Other, KeyModifiers::control()), screen(80, 24));
    assert!(!editor.should_quit());
    assert_eq!(editor.location(), at(0, 0));
}

#[test]
fn other_input_changes_nothing() {
    let mut editor = Editor::new(screen(80, 24), Some(Ok("text".to_string())));
    editor.refresh_screen();
    press(&mut editor, &[KeyCode::Right, KeyCode::Down], 80, 24);
    editor.evaluate_event(&Event::Other, screen(80, 24));
    editor.evaluate_event(&key(KeyCode::Other), screen(80, 24));
    editor.evaluate_event(&key(KeyCode::Char('x')), screen(80, 24));
    editor.evaluate_event(&key(KeyCode::Char('H')), screen(80, 24));
    assert_eq!(editor.location(), at(1, 1));
    assert!(!editor.should_quit());
    assert!(!editor.viewport().needs_redraw());
    assert_eq!(editor.viewport().buffer().lines, vec!["text"]);
}

#[test]
fn key_events_reach_the_caret_directly_too() {
    let mut editor = editor_on(80, 24);
    let event = KeyEvent { code: KeyCode::Down, modifiers: KeyModifiers::none() };
    editor.evaluate_key_event(&event, screen(80, 24));
    assert_eq!(editor.location(), at(0, 1));
    editor.move_point(KeyCode::End, screen(80, 24));
    assert_eq!(editor.location(), at(80, 1));
    editor.move_point(KeyCode::Char('q'), screen(80, 24));
    assert_eq!(editor.location(), at(80, 1));
}

#[test]
fn quitting_finishes_the_frame_first() {
    let mut editor = Editor::new(screen(10, 1), Some(Ok("hi".to_string())));
    editor.refresh_screen();
    editor.evaluate_event(&Event::Resize(10, 1), screen(10, 1));
    editor.evaluate_event(&chord(KeyCode::Char('q'), KeyModifiers::control()), screen(10, 1));
    assert!(editor.should_quit());
    let mut expected = vec![Command::HideCaret];
    expected.extend(drawn_row(0, "hi"));
    expected.push(Command::MoveTo { col: 0, row: 0 });
    expected.push(Command::ShowCaret);
    assert_eq!(editor.refresh_screen(), expected);
}

#[test]
fn farewell_after_the_quit_chord() {
    let mut editor = editor_on(10, 1);
    editor.refresh_screen();
    editor.evaluate_event(&chord(KeyCode::Char('q'), KeyModifiers::control()), screen(10, 1));
    editor.refresh_screen();
    assert_eq!(
        editor.farewell(),
        vec![Command::ClearScreen, Command::Print("Goodbye.\r\n".to_string())]
    );
    assert_eq!(editor.refresh_screen().len(), 3);
}

#[test]
fn no_farewell_without_the_quit_chord() {
    let mut editor = editor_on(10, 1);
    editor.refresh_screen();
    assert_eq!(editor.farewell(), Vec::<Command>::new());
}

#[test]
fn farewell_hands_out_what_was_still_queued() {
    let mut editor = editor_on(10, 1);
    assert_eq!(
        editor.farewell(),
        vec![Command::ClearScreen, Command::MoveTo { col: 0, row: 0 }]
    );
}

#[test]
fn location_converts_to_a_position() {
    assert_eq!(Position::from(at(3, 9)), Position { col: 3, row: 9 });
    assert_eq!(Location::default(), at(0, 0));
}
