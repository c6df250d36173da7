use kronos::app::App;
use kronos::config::{parse_hex_color, Config, Icons, RgbColor, Theme};
use kronos::mode::AppMode;
use kronos::persist::{LoadError, PersistedState};
use kronos::task::{Priority, TaskCategory};
use kronos::textutil::{is_ascii_digit, parse_digits, str_eq, u64_to_string};
use kronos::timer::{Timer, TimerState};

#[test]
fn digits_parse_to_their_base_ten_value() {
    assert_eq!(parse_digits(&vec!['2', '5']), Some(25));
    assert_eq!(parse_digits(&vec!['0', '0', '7']), Some(7));
    assert_eq!(parse_digits(&vec!['0']), Some(0));
    assert_eq!(parse_digits(&vec![]), None);
    assert_eq!(parse_digits(&vec!['2', 'x']), None);
    // eighteen digits are accepted, nineteen are not
    let long: Vec<char> = "999999999999999999".chars().collect();
    assert_eq!(parse_digits(&long), Some(999_999_999_999_999_999));
    let too_long: Vec<char> = "1000000000000000000".chars().collect();
    assert_eq!(parse_digits(&too_long), None);
}

#[test]
fn digit_test_is_ascii_only() {
    assert!(is_ascii_digit('0'));
    assert!(is_ascii_digit('9'));
    assert!(!is_ascii_digit('a'));
    assert!(!is_ascii_digit('٣'));
}

#[test]
fn numbers_render_in_decimal() {
    assert_eq!(u64_to_string(0), "0");
    assert_eq!(u64_to_string(7), "7");
    assert_eq!(u64_to_string(12345), "12345");
    assert_eq!(u64_to_string(u64::MAX), "18446744073709551615");
}

#[test]
fn string_equality_compares_characters() {
    assert!(str_eq("Pomodoro", "Pomodoro"));
    assert!(!str_eq("Pomodoro", "Pomodor"));
    assert!(!str_eq("", "x"));
    assert!(str_eq("", ""));
    assert!(str_eq("⟪ █ ⟫", "⟪ █ ⟫"));
}

#[test]
fn hex_colors_parse_exactly_when_well_formed() {
    assert_eq!(parse_hex_color("#ff00aa"), Some(RgbColor { r: 255, g: 0, b: 170 }));
    assert_eq!(parse_hex_color("#FF00AA"), Some(RgbColor { r: 255, g: 0, b: 170 }));
    assert_eq!(parse_hex_color("#090e13"), Some(RgbColor { r: 9, g: 14, b: 19 }));
    assert_eq!(parse_hex_color("ff00aa"), None);
    assert_eq!(parse_hex_color("#ff00a"), None);
    assert_eq!(parse_hex_color("#ff00aaa"), None);
    assert_eq!(parse_hex_color("#ff00ag"), None);
    assert_eq!(parse_hex_color(""), None);
}

#[test]
fn default_theme_and_icons_match_the_built_ins() {
    let theme = Theme::default();
    assert_eq!(theme.background, RgbColor { r: 9, g: 14, b: 19 });
    assert_eq!(theme.selection, RgbColor { r: 230, g: 195, b: 132 });
    assert_eq!(theme.green, RgbColor { r: 138, g: 154, b: 123 });
    let icons = Icons::default();
    assert_eq!(icons.global_timer, "Δ");
    assert_eq!(icons.play, "▶");
    assert_eq!(icons.done, "☑");
    assert_eq!(icons.header_left, "⟪ ");
}

fn varied_core() -> App {
    let mut app = App::new(Config::default(), 10);
    app.add_task("write".to_string(), 5);
    app.add_task("run".to_string(), 6);
    app.add_task("study".to_string(), 7);
    app.set_task_category(0, TaskCategory::Work);
    app.set_task_category(1, TaskCategory::Exercise);
    app.set_task_duration(1, 45);
    app.toggle_selected_timer_at(100);  // selection is task 0: running
    app.selected_task = 1;
    app.toggle_selected_timer_at(100);
    app.toggle_selected_timer_at(400);  // task 1: paused with 300s
    app.toggle_selected_task_completion(400, 10);  // task 1 completed
    app.global_timer.toggle_at(50);
    app
}

#[test]
fn persistence_round_trips_every_stored_field() {
    let mut app = varied_core();
    app.mode = AppMode::ShowStats;
    app.input_buffer.push('4');
    app.notifications_sent.push(2);
    app.should_quit = true;
    let snapshot = app.to_persisted();
    let restored = App::from_persisted(snapshot, Config::default()).expect("a live core's snapshot must load");
    // persisted data is identical
    assert_eq!(restored.tasks.len(), app.tasks.len());
    for (a, b) in app.tasks.iter().zip(restored.tasks.iter()) {
        assert_eq!(a.id, b.id);
        assert_eq!(a.description, b.description);
        assert_eq!(a.timer, b.timer);
        assert_eq!(a.completed, b.completed);
        assert_eq!(a.category, b.category);
        assert_eq!(a.priority, b.priority);
        assert_eq!(a.created_at, b.created_at);
        assert_eq!(a.completed_at, b.completed_at);
    }
    assert_eq!(restored.selected_task, app.selected_task);
    assert_eq!(restored.next_task_id, app.next_task_id);
    assert_eq!(restored.global_timer, app.global_timer);
    assert_eq!(restored.presets.len(), app.presets.len());
    for (a, b) in app.presets.iter().zip(restored.presets.iter()) {
        assert_eq!(a.name, b.name);
        assert_eq!(a.minutes, b.minutes);
    }
    assert_eq!(restored.stats.total_completed, app.stats.total_completed);
    assert_eq!(restored.stats.total_time_worked, app.stats.total_time_worked);
    assert_eq!(restored.stats.daily_streak, app.stats.daily_streak);
    assert_eq!(restored.stats.last_active_date, app.stats.last_active_date);
    assert_eq!(restored.stats.tasks_by_category.len(), app.stats.tasks_by_category.len());
    // transient state comes back as defaults
    assert_eq!(restored.mode, AppMode::Normal);
    assert_eq!(restored.input_buffer.len(), 0);
    assert_eq!(restored.notifications_sent.len(), 0);
    assert!(!restored.should_quit);
}

fn plain_snapshot() -> PersistedState {
    let app = varied_core();
    app.to_persisted()
}

#[test]
fn corrupt_snapshots_are_rejected() {
    // selection out of range
    let mut bad = plain_snapshot();
    bad.selected_task = 99;
    assert_eq!(App::from_persisted(bad, Config::default()).err(), Some(LoadError::InvalidState));
    // id counter colliding with a stored id
    let mut bad = plain_snapshot();
    bad.next_task_id = 2;
    assert_eq!(App::from_persisted(bad, Config::default()).err(), Some(LoadError::InvalidState));
    // duplicate task ids
    let mut bad = plain_snapshot();
    bad.tasks[1].id = bad.tasks[0].id;
    assert_eq!(App::from_persisted(bad, Config::default()).err(), Some(LoadError::InvalidState));
    // a timer claiming a start instant while idle
    let mut bad = plain_snapshot();
    bad.tasks[0].timer = Timer {
        state: TimerState::Idle,
        started_at: Some(100),
        accumulated_time: 0,
        target_duration: 60,
    };
    assert_eq!(App::from_persisted(bad, Config::default()).err(), Some(LoadError::InvalidState));
    // a preset with a non-positive duration
    let mut bad = plain_snapshot();
    bad.presets[0].minutes = 0;
    assert_eq!(App::from_persisted(bad, Config::default()).err(), Some(LoadError::InvalidState));
    // negative worked time in the statistics
    let mut bad = plain_snapshot();
    bad.stats.total_time_worked = -1;
    assert_eq!(App::from_persisted(bad, Config::default()).err(), Some(LoadError::InvalidState));
}

#[test]
fn category_and_priority_names_render() {
    assert_eq!(TaskCategory::Work.name(), "Work");
    assert_eq!(TaskCategory::Personal.name(), "Personal");
    assert_eq!(TaskCategory::Study.name(), "Study");
    assert_eq!(TaskCategory::Exercise.name(), "Exercise");
    assert_eq!(TaskCategory::Other("Music".to_string()).name(), "Music");
    assert_eq!(Priority::Low.name(), "Low");
    assert_eq!(Priority::Medium.name(), "Medium");
    assert_eq!(Priority::High.name(), "High");
    assert_eq!(Priority::Urgent.name(), "Urgent");
}

#[test]
fn oversized_time_entry_commits_nothing() {
    let mut app = App::new(Config::default(), 10);
    app.add_task("A".to_string(), 0);
    let before = app.tasks[0].timer.target_duration;
    app.mode = AppMode::EditingTime(0);
    for _ in 0..19 {
        app.handle_char('9', 0);
    }
    app.handle_char('\n', 0);
    assert_eq!(app.tasks[0].timer.target_duration, before);
    assert_eq!(app.mode, AppMode::Normal);
}

#[test]
fn status_floors_a_negative_stored_target_at_zero() {
    let mut snapshot = plain_snapshot();
    snapshot.global_timer = Timer {
        state: TimerState::Idle,
        started_at: None,
        accumulated_time: 0,
        target_duration: -120,
    };
    let mut app = App::from_persisted(snapshot, Config::default())
        .expect("a negative target is storable, completion just reads immediate");
    match app.apply_command(kronos::ipc::Command::Status, 50) {
        kronos::ipc::Response::Status(status) => {
            assert_eq!(status.total, 0);
            assert_eq!(status.elapsed, 0);
        },
        _ => panic!("Status must answer with a status"),
    }
    // a non-positive target counts as already complete
    assert!(app.global_timer.is_complete_at(50));
}
