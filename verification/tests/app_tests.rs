use tropical_pm::app::{Action, App, Event, InputMode, KeyCode};
use tropical_pm::project::{Project, RepoScan};

fn project(name: &str) -> Project {
    Project::from_scan(
        RepoScan {
            name: name.to_string(),
            path: name.to_string(),
            branch: None,
            head_commit: None,
            ahead_behind: None,
            statuses: vec![],
        },
        None,
    )
}

fn loaded(n: usize) -> App {
    let mut app = App::new();
    app.receive_projects((0..n).map(|i| project(&format!("p{}", i))).collect());
    app
}

fn press(code: KeyCode) -> Event {
    Event::Key { code, press: true }
}

fn key(c: char) -> Event {
    press(KeyCode::Char(c))
}

#[test]
fn new_app_starts_a_scan() {
    let app = App::new();
    assert!(app.is_loading);
    assert!(app.projects.is_empty());
    assert_eq!(app.selected, None);
    assert_eq!(app.input_mode, InputMode::Normal);
    assert_eq!(app.input_buffer, "");
    assert_eq!(app.spinner_tick, 0);
}

#[test]
fn receiving_projects_selects_the_first() {
    let app = loaded(3);
    assert!(!app.is_loading);
    assert_eq!(app.selected, Some(0));
    let mut empty = App::new();
    empty.receive_projects(vec![]);
    assert_eq!(empty.selected, None);
    let mut kept = loaded(3);
    kept.selected = Some(2);
    kept.receive_projects(vec![project("x")]);
    assert_eq!(kept.selected, Some(2));
}

#[test]
fn next_wraps_around() {
    let mut app = loaded(3);
    app.next();
    assert_eq!(app.selected, Some(1));
    app.next();
    assert_eq!(app.selected, Some(2));
    app.next();
    assert_eq!(app.selected, Some(0));
    app.selected = None;
    app.next();
    assert_eq!(app.selected, Some(0));
    app.selected = Some(7);
    app.next();
    assert_eq!(app.selected, Some(0));
}

#[test]
fn previous_wraps_around() {
    let mut app = loaded(3);
    app.previous();
    assert_eq!(app.selected, Some(2));
    app.previous();
    assert_eq!(app.selected, Some(1));
    app.selected = None;
    app.previous();
    assert_eq!(app.selected, Some(0));
    app.selected = Some(7);
    app.previous();
    assert_eq!(app.selected, Some(6));
}

#[test]
fn moving_in_an_empty_list_keeps_selection() {
    let mut app = App::new();
    app.receive_projects(vec![]);
    app.next();
    assert_eq!(app.selected, None);
    app.previous();
    assert_eq!(app.selected, None);
    app.selected = Some(4);
    app.next();
    assert_eq!(app.selected, Some(4));
}

#[test]
fn previous_undoes_next_and_back() {
    for n in 1..5 {
        for i in 0..n {
            let mut app = loaded(n);
            app.selected = Some(i);
            app.next();
            app.previous();
            assert_eq!(app.selected, Some(i));
            app.previous();
            app.next();
            assert_eq!(app.selected, Some(i));
        }
    }
}

#[test]
fn next_cycles_through_the_list() {
    let mut app = loaded(4);
    app.selected = Some(1);
    for _ in 0..4 {
        app.next();
    }
    assert_eq!(app.selected, Some(1));
}

#[test]
fn select_index_within_bounds() {
    let mut app = loaded(3);
    app.select_index(2);
    assert_eq!(app.selected, Some(2));
    app.select_index(3);
    assert_eq!(app.selected, Some(2));
}

#[test]
fn navigation_keys() {
    let mut app = loaded(3);
    assert!(matches!(app.handle_event(press(KeyCode::Down)), Action::Nothing));
    assert_eq!(app.selected, Some(1));
    app.handle_event(key('j'));
    assert_eq!(app.selected, Some(2));
    app.handle_event(key('k'));
    app.handle_event(press(KeyCode::Up));
    assert_eq!(app.selected, Some(0));
    app.handle_event(Event::ScrollDown);
    assert_eq!(app.selected, Some(1));
    app.handle_event(Event::ScrollUp);
    assert_eq!(app.selected, Some(0));
    app.handle_event(Event::Key { code: KeyCode::Down, press: false });
    assert_eq!(app.selected, Some(0));
}

#[test]
fn quitting() {
    let mut app = loaded(1);
    assert!(matches!(app.handle_event(key('q')), Action::Quit));
    assert!(matches!(app.handle_event(press(KeyCode::Esc)), Action::Quit));
    assert!(matches!(app.handle_event(Event::Key { code: KeyCode::Char('q'), press: false }), Action::Nothing));
    app.handle_event(key('c'));
    assert!(matches!(app.handle_event(key('q')), Action::Nothing));
    assert_eq!(app.input_buffer, "q");
}

#[test]
fn one_scan_at_a_time() {
    let mut app = loaded(1);
    assert!(matches!(app.handle_event(key('r')), Action::StartScan));
    assert!(app.is_loading);
    assert!(matches!(app.handle_event(key('r')), Action::Nothing));
    assert!(!app.scan_projects());
}

#[test]
fn clicking_selects_a_row() {
    let mut app = loaded(5);
    app.handle_event(Event::LeftClick { row: 3 });
    assert_eq!(app.selected, Some(2));
    app.list_offset = 2;
    app.handle_event(Event::LeftClick { row: 1 });
    assert_eq!(app.selected, Some(2));
    app.handle_event(Event::LeftClick { row: 0 });
    assert_eq!(app.selected, Some(2));
    app.handle_event(Event::LeftClick { row: 4 });
    assert_eq!(app.selected, Some(2));
    app.list_offset = usize::MAX;
    app.handle_event(Event::LeftClick { row: 3 });
    assert_eq!(app.selected, Some(2));
}

#[test]
fn typing_a_new_project_name() {
    let mut app = loaded(2);
    app.input_buffer = "old".to_string();
    app.handle_event(key('c'));
    assert_eq!(app.input_mode, InputMode::CreatingProject);
    assert_eq!(app.input_buffer, "");
    for c in "  my app ".chars() {
        app.handle_event(key(c));
    }
    assert_eq!(app.input_buffer, "  my app ");
    app.handle_event(press(KeyCode::Down));
    app.handle_event(Event::ScrollDown);
    app.handle_event(Event::LeftClick { row: 2 });
    assert_eq!(app.selected, Some(0));
    match app.handle_event(press(KeyCode::Enter)) {
        Action::CreateProject { name, rescan } => {
            assert_eq!(name, "my app");
            assert!(rescan);
        },
        _ => panic!("expected a project to be created"),
    }
    assert_eq!(app.input_mode, InputMode::Normal);
    assert!(app.is_loading);
    assert_eq!(app.input_buffer, "  my app ");
}

#[test]
fn creating_while_scanning_does_not_rescan() {
    let mut app = App::new();
    app.handle_event(key('c'));
    app.handle_event(key('x'));
    match app.handle_event(press(KeyCode::Enter)) {
        Action::CreateProject { name, rescan } => {
            assert_eq!(name, "x");
            assert!(!rescan);
        },
        _ => panic!("expected a project to be created"),
    }
}

#[test]
fn blank_name_creates_nothing() {
    let mut app = loaded(1);
    app.handle_event(key('c'));
    app.handle_event(key(' '));
    assert!(matches!(app.handle_event(press(KeyCode::Enter)), Action::Nothing));
    assert_eq!(app.input_mode, InputMode::Normal);
    assert!(!app.is_loading);
}

#[test]
fn erasing_and_cancelling() {
    let mut app = loaded(1);
    app.handle_event(key('c'));
    app.handle_event(key('a'));
    app.handle_event(key('b'));
    app.handle_event(press(KeyCode::Backspace));
    assert_eq!(app.input_buffer, "a");
    app.handle_event(key('é'));
    app.handle_event(press(KeyCode::Backspace));
    assert_eq!(app.input_buffer, "a");
    app.handle_event(press(KeyCode::Backspace));
    app.handle_event(press(KeyCode::Backspace));
    assert_eq!(app.input_buffer, "");
    app.handle_event(press(KeyCode::Esc));
    assert_eq!(app.input_mode, InputMode::Normal);
}

#[test]
fn ticks_wrap() {
    let mut app = loaded(1);
    app.handle_event(Event::Tick);
    assert_eq!(app.spinner_tick, 1);
    app.spinner_tick = 255;
    app.handle_event(Event::Tick);
    assert_eq!(app.spinner_tick, 0);
    app.handle_event(Event::Other);
    assert_eq!(app.spinner_tick, 0);
}
