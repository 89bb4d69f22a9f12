use upcloud_migrate::app::{build_tf_context, Action, App, AppMessage, GenStep, Key, TodoItem, TodoStatus, View};

fn app() -> App {
    App::new(vec!["fi-hel1".to_string(), "de-fra1".to_string(), "pl-waw1".to_string()], Some("k".to_string()), "/work".to_string())
}

fn todo(status: TodoStatus, suggestion: Option<&str>) -> TodoItem {
    TodoItem {
        file: "main.tf".to_string(),
        line_no: 3,
        line_content: "x = <TODO>".to_string(),
        placeholder: "<TODO>".to_string(),
        context: vec![],
        status,
        ai_suggestion: suggestion.map(str::to_string),
        resolution: None,
    }
}

#[test]
fn new_app_starts_on_splash_with_default_zone() {
    let a = app();
    assert_eq!(a.view, View::Splash);
    assert_eq!(a.target_zone, "de-fra1");
    assert_eq!(a.zone_idx, 1);
    assert_eq!(a.table_selected, Some(0));
    assert_eq!(a.chat_scroll, 9999);
}

#[test]
fn splash_typing_then_enter_starts_scan_of_trimmed_path() {
    let mut a = app();
    for c in " ./infra ".chars() {
        assert!(matches!(a.handle_key(Key::Char(c)), Action::Idle));
    }
    match a.handle_key(Key::Enter) {
        Action::StartScan(p) => assert_eq!(p, "./infra"),
        _ => panic!("expected a scan"),
    }
    assert_eq!(a.view, View::Scanner);
    assert_eq!(a.scan_path.as_deref(), Some("./infra"));
    assert_eq!(a.input_buf, "");
}

#[test]
fn splash_q_quits_only_with_empty_input() {
    let mut a = app();
    a.handle_key(Key::Char('x'));
    a.handle_key(Key::Char('q'));
    assert!(!a.should_quit);
    assert_eq!(a.input_buf, "xq");
    a.handle_key(Key::Backspace);
    a.handle_key(Key::Backspace);
    a.handle_key(Key::Char('q'));
    assert!(a.should_quit);
}

#[test]
fn file_browser_lists_parent_dirs_case_insensitively_then_tf_files() {
    let mut a = app();
    assert!(matches!(a.handle_key(Key::Char('f')), Action::ListDir));
    assert_eq!(a.view, View::FileBrowser);
    a.show_listing("/work".to_string(), true, vec![
        ("b.tf".to_string(), false),
        ("Zeta".to_string(), true),
        (".git".to_string(), true),
        ("alpha".to_string(), true),
        ("notes.md".to_string(), false),
        ("a.tf".to_string(), false),
    ]);
    let names: Vec<(&str, bool)> = a.fb_entries.iter().map(|(n, d)| (n.as_str(), *d)).collect();
    assert_eq!(names, vec![("[..]", true), ("alpha", true), ("Zeta", true), ("a.tf", false), ("b.tf", false)]);
    assert_eq!(a.fb_selected, Some(0));
    a.handle_key(Key::Up);
    assert_eq!(a.fb_selected, Some(4));
    a.handle_key(Key::Down);
    assert_eq!(a.fb_selected, Some(0));
    a.handle_key(Key::Down);
    match a.handle_key(Key::Enter) {
        Action::OpenDir(n) => assert_eq!(n, "alpha"),
        _ => panic!("expected to open a directory"),
    }
}

#[test]
fn generator_zone_pick_then_output_dir_starts_generation() {
    let mut a = app();
    a.view = View::Generator;
    a.handle_key(Key::Down);
    a.handle_key(Key::Down);
    assert_eq!(a.zone_idx, 2);
    a.handle_key(Key::Enter);
    assert_eq!(a.target_zone, "pl-waw1");
    assert_eq!(a.gen_step, GenStep::AskOutputDir);
    for c in "out".chars() {
        a.handle_key(Key::Char(c));
    }
    match a.handle_key(Key::Enter) {
        Action::Generate { output_dir, zone, source_dir } => {
            assert_eq!(output_dir, "out");
            assert_eq!(zone, "pl-waw1");
            assert_eq!(source_dir, None);
        }
        _ => panic!("expected generation"),
    }
    assert_eq!(a.gen_log, vec![">> Zone: pl-waw1".to_string(), ">> Generating to: out".to_string()]);
    assert!(a.is_generating);
    a.handle_message(AppMessage::GenerateDone(3, vec![]));
    assert!(a.gen_complete);
    assert_eq!(a.gen_step, GenStep::Done);
    assert_eq!(a.gen_files_count, 3);
}

#[test]
fn todo_review_next_pending_skip_and_resolution() {
    let mut a = app();
    a.view = View::TodoReview;
    a.output_path = Some("out".to_string());
    a.set_todos(vec![
        todo(TodoStatus::Resolved, None),
        todo(TodoStatus::Skipped, None),
        todo(TodoStatus::Pending, Some(" `10.0.0.1` ")),
    ]);
    a.handle_key(Key::Char('n'));
    assert_eq!(a.todo_idx, 2);
    a.handle_key(Key::Enter);
    assert!(a.todo_input_active);
    match a.handle_key(Key::Enter) {
        Action::ApplyResolution { idx, output_dir, resolution } => {
            assert_eq!((idx, output_dir.as_str(), resolution.as_str()), (2, "out", "10.0.0.1"));
        }
        _ => panic!("expected a resolution"),
    }
    assert_eq!(a.todos[2].status, TodoStatus::Resolved);
    assert_eq!(a.todos[2].resolution.as_deref(), Some("10.0.0.1"));
    assert!(!a.todo_input_active);
    assert_eq!(a.todo_idx, 2);
    a.handle_key(Key::Up);
    a.handle_key(Key::Char('s'));
    assert_eq!(a.todos[1].status, TodoStatus::Skipped);
    assert_eq!(a.todo_idx, 2);
    a.handle_key(Key::Down);
    assert_eq!(a.todo_idx, 0);
    assert!(matches!(a.handle_key(Key::Char('a')), Action::RequestSuggestion(0)));
    assert_eq!(a.todos[0].status, TodoStatus::Loading);
    a.handle_message(AppMessage::AiError(0, "timeout".to_string()));
    assert_eq!(a.todos[0].ai_suggestion.as_deref(), Some("[AI error: timeout]"));
    assert_eq!(a.todos[0].status, TodoStatus::Pending);
}

#[test]
fn chat_enter_sends_trimmed_message_and_scrolls() {
    let mut a = app();
    assert!(matches!(a.enter_chat_view("ctx".to_string()), Action::SendChat));
    assert_eq!(a.chat_messages.len(), 1);
    assert!(a.chat_loading);
    a.handle_message(AppMessage::ChatResponse("hi".to_string()));
    assert!(!a.chat_loading);
    for c in "  why? ".chars() {
        a.handle_key(Key::Char(c));
    }
    assert!(matches!(a.handle_key(Key::Enter), Action::SendChat));
    assert_eq!(a.chat_messages.last().unwrap().content, "why?");
    assert!(a.chat_messages.last().unwrap().is_user);
    a.chat_scroll_max = 10;
    a.chat_loading = false;
    a.handle_key(Key::Up);
    assert_eq!(a.chat_scroll, 7);
    a.handle_key(Key::Down);
    assert_eq!(a.chat_scroll, 10);
    a.handle_key(Key::Down);
    assert_eq!(a.chat_scroll, 9999);
}

#[test]
fn scanner_moves_to_resources_on_twentieth_tick_after_scan() {
    let mut a = app();
    a.view = View::Scanner;
    a.handle_message(AppMessage::ScanComplete(vec![], vec![]));
    for _ in 0..19 {
        a.on_tick();
        assert_eq!(a.view, View::Scanner);
    }
    a.on_tick();
    assert_eq!(a.view, View::Resources);
}

#[test]
fn tf_context_sorted_by_name_and_capped() {
    let ctx = build_tf_context(vec![("b.tf".to_string(), "B".to_string()), ("a.tf".to_string(), "A".to_string())]);
    assert_eq!(ctx, "# --- a.tf ---\nA\n# --- b.tf ---\nB\n");
    let big = "x".repeat(19990);
    let ctx = build_tf_context(vec![("a.tf".to_string(), "A".to_string()), ("b.tf".to_string(), big)]);
    assert_eq!(ctx, "# --- a.tf ---\nA\n");
}
