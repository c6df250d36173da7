use kronos::app::App;
use kronos::config::Config;
use kronos::ipc::{Command, Response};
use kronos::mode::AppMode;
use kronos::task::{Priority, TaskCategory};
use kronos::timer::TimerState;

fn fresh() -> App {
    App::new(Config::default(), 10)
}

#[test]
fn new_core_has_defaults() {
    let app = fresh();
    assert_eq!(app.tasks.len(), 0);
    assert_eq!(app.selected_task, 0);
    assert_eq!(app.next_task_id, 1);
    assert_eq!(app.global_timer.target_duration, 25 * 60);
    assert_eq!(app.global_timer.state, TimerState::Idle);
    assert_eq!(app.mode, AppMode::StartupAnimation);
    assert_eq!(app.stats.total_completed, 0);
    assert_eq!(app.stats.daily_streak, 0);
}

#[test]
fn add_task_assigns_fresh_ids() {
    let mut app = fresh();
    app.add_task("A".to_string(), 100);
    app.add_task("B".to_string(), 101);
    assert_eq!(app.tasks.len(), 2);
    assert_eq!(app.tasks[0].id, 1);
    assert_eq!(app.tasks[1].id, 2);
    assert_eq!(app.tasks[0].description, "A");
    assert_eq!(app.tasks[0].created_at, 100);
    assert!(!app.tasks[0].completed);
    assert!(matches!(app.tasks[0].priority, Priority::Medium));
    match &app.tasks[0].category {
        TaskCategory::Other(name) => assert_eq!(name, "General"),
        _ => panic!("new tasks take the catch-all category"),
    }
    assert_eq!(app.next_task_id, 3);
}

#[test]
fn deleting_a_task_never_recycles_its_id() {
    // Id stability: delete "A", "B" keeps its id, and "A"'s id is never
    // handed out again.
    let mut app = fresh();
    app.add_task("A".to_string(), 0);
    app.add_task("B".to_string(), 1);
    let id_a = app.tasks[0].id;
    let id_b = app.tasks[1].id;
    app.selected_task = 0;
    app.delete_selected_task();
    assert_eq!(app.tasks.len(), 1);
    assert_eq!(app.tasks[0].id, id_b);
    app.add_task("C".to_string(), 2);
    assert_ne!(app.tasks[1].id, id_a);
    assert_eq!(app.tasks[1].id, 3);
}

#[test]
fn deleting_the_last_task_clamps_the_selection() {
    let mut app = fresh();
    app.add_task("A".to_string(), 0);
    app.add_task("B".to_string(), 0);
    app.selected_task = 1;
    app.delete_selected_task();
    assert_eq!(app.selected_task, 0);
    app.delete_selected_task();
    assert_eq!(app.tasks.len(), 0);
    assert_eq!(app.selected_task, 0);
    // deleting from an empty list is a no-op
    app.delete_selected_task();
    assert_eq!(app.tasks.len(), 0);
}

#[test]
fn selection_moves_stay_in_range() {
    let mut app = fresh();
    app.move_selection_down();
    assert_eq!(app.selected_task, 0);
    app.add_task("A".to_string(), 0);
    app.add_task("B".to_string(), 0);
    app.add_task("C".to_string(), 0);
    app.move_selection_down();
    app.move_selection_down();
    assert_eq!(app.selected_task, 2);
    app.move_selection_down();
    assert_eq!(app.selected_task, 2);
    app.move_selection_up();
    assert_eq!(app.selected_task, 1);
    app.move_selection_up();
    app.move_selection_up();
    assert_eq!(app.selected_task, 0);
}

#[test]
fn set_task_duration_restarts_the_timer() {
    let mut app = fresh();
    app.add_task("A".to_string(), 0);
    app.toggle_selected_timer_at(0);
    assert_eq!(app.tasks[0].timer.state, TimerState::Running);
    app.set_task_duration(0, 30);
    assert_eq!(app.tasks[0].timer.target_duration, 30 * 60);
    assert_eq!(app.tasks[0].timer.state, TimerState::Idle);
    assert_eq!(app.tasks[0].timer.accumulated_time, 0);
}

#[test]
fn preset_names_enumerate_in_display_order() {
    let app = fresh();
    let names = app.get_preset_names();
    assert_eq!(names, vec!["Long Break", "Pomodoro", "Short Break"]);
    assert_eq!(app.lookup_preset("Pomodoro"), Some(25));
    assert_eq!(app.lookup_preset("Focus"), None);
}

#[test]
fn preset_selection_retargets_the_captured_task() {
    let mut app = fresh();
    app.add_task("A".to_string(), 0);
    app.mode = AppMode::SelectingPreset(0);
    // out-of-range digit: ignored, overlay stays
    app.handle_char('9', 0);
    assert_eq!(app.mode, AppMode::SelectingPreset(0));
    // "2" picks the second preset: Pomodoro, 25 minutes
    app.handle_char('2', 0);
    assert_eq!(app.tasks[0].timer.target_duration, 25 * 60);
    assert_eq!(app.mode, AppMode::Normal);
}

#[test]
fn adding_mode_buffers_text_and_commits_on_newline() {
    let mut app = fresh();
    app.mode = AppMode::AddingTask;
    app.handle_char('R', 0);
    app.handle_char('e', 0);
    app.handle_char('a', 0);
    app.handle_char('d', 0);
    assert_eq!(app.input_buffer, vec!['R', 'e', 'a', 'd']);
    app.handle_char('\n', 7);
    assert_eq!(app.tasks.len(), 1);
    assert_eq!(app.tasks[0].description, "Read");
    assert_eq!(app.tasks[0].created_at, 7);
    assert_eq!(app.input_buffer.len(), 0);
    assert_eq!(app.mode, AppMode::Normal);
}

#[test]
fn adding_mode_with_empty_buffer_commits_nothing() {
    let mut app = fresh();
    app.mode = AppMode::AddingTask;
    app.handle_char('\n', 0);
    assert_eq!(app.tasks.len(), 0);
    assert_eq!(app.mode, AppMode::Normal);
}

#[test]
fn time_entry_accepts_digits_only_and_wants_a_positive_number() {
    let mut app = fresh();
    app.add_task("A".to_string(), 0);
    app.mode = AppMode::EditingTime(0);
    app.handle_char('x', 0);
    assert_eq!(app.input_buffer.len(), 0);
    app.handle_char('3', 0);
    app.handle_char('0', 0);
    assert_eq!(app.input_buffer, vec!['3', '0']);
    app.handle_char('\n', 0);
    assert_eq!(app.tasks[0].timer.target_duration, 30 * 60);
    assert_eq!(app.mode, AppMode::Normal);
    // a zero entry parses but is not a positive duration: no commit
    app.mode = AppMode::EditingTime(0);
    app.handle_char('0', 0);
    app.handle_char('\n', 0);
    assert_eq!(app.tasks[0].timer.target_duration, 30 * 60);
    // an empty entry commits nothing either
    app.mode = AppMode::EditingTime(0);
    app.handle_char('\n', 0);
    assert_eq!(app.tasks[0].timer.target_duration, 30 * 60);
}

#[test]
fn backspace_edits_the_buffer_in_text_modes_only() {
    let mut app = fresh();
    app.mode = AppMode::AddingTask;
    app.handle_char('h', 0);
    app.handle_char('i', 0);
    app.handle_backspace();
    assert_eq!(app.input_buffer, vec!['h']);
    app.handle_backspace();
    app.handle_backspace();
    assert_eq!(app.input_buffer.len(), 0);
    app.mode = AppMode::Normal;
    app.handle_char('z', 0);
    assert_eq!(app.input_buffer.len(), 0);
}

#[test]
fn notifications_fire_once_per_completion_episode() {
    let mut app = fresh();
    app.add_task("A".to_string(), 0);
    app.set_task_duration(0, 1);
    app.toggle_selected_timer_at(1000);
    let id = app.tasks[0].id;
    // not yet complete: nothing fires
    let none_yet = app.check_and_notify_completions(1030);
    assert_eq!(none_yet.len(), 0);
    // complete while running: exactly one notification
    let fired = app.check_and_notify_completions(1060);
    assert_eq!(fired.len(), 1);
    assert_eq!(fired[0].id, id);
    assert_eq!(fired[0].title, "A");
    assert_eq!(fired[0].body, "Task timer completed!");
    // still complete on later ticks: nothing more
    assert_eq!(app.check_and_notify_completions(1060).len(), 0);
    assert_eq!(app.check_and_notify_completions(5000).len(), 0);
    // reset re-arms the episode; completing again fires exactly once more
    app.reset_selected_timer();
    app.toggle_selected_timer_at(9000);
    let fired_again = app.check_and_notify_completions(9060);
    assert_eq!(fired_again.len(), 1);
    assert_eq!(fired_again[0].id, id);
    assert_eq!(app.check_and_notify_completions(9061).len(), 0);
}

#[test]
fn global_timer_notification_uses_reserved_id_zero() {
    let mut app = fresh();
    app.add_task("A".to_string(), 0);
    assert!(matches!(app.apply_command(Command::Start, 0), Response::Okay));
    let fired = app.check_and_notify_completions(25 * 60);
    assert_eq!(fired.len(), 1);
    assert_eq!(fired[0].id, 0);
    assert_eq!(fired[0].title, "Global Timer");
    assert_eq!(fired[0].body, "Timer completed!");
    assert_eq!(app.check_and_notify_completions(25 * 60 + 5).len(), 0);
    // resetting the global timer over the command channel re-arms id 0
    assert!(matches!(app.apply_command(Command::Reset, 26 * 60), Response::Okay));
    assert!(matches!(app.apply_command(Command::Start, 30 * 60), Response::Okay));
    let fired_again = app.check_and_notify_completions(55 * 60);
    assert_eq!(fired_again.len(), 1);
    assert_eq!(fired_again[0].id, 0);
}

#[test]
fn completing_updates_stats_and_uncompleting_reverses_nothing() {
    let mut app = fresh();
    app.add_task("A".to_string(), 0);
    app.toggle_selected_timer_at(0);
    app.toggle_selected_timer_at(120);
    app.toggle_selected_task_completion(120, 10);
    assert!(app.tasks[0].completed);
    assert_eq!(app.tasks[0].completed_at, Some(120));
    assert_eq!(app.stats.total_completed, 1);
    assert_eq!(app.stats.total_time_worked, 120);
    assert_eq!(app.stats.tasks_by_category.len(), 1);
    assert_eq!(app.stats.tasks_by_category[0].name, "General");
    assert_eq!(app.stats.tasks_by_category[0].count, 1);
    // un-complete: the flag and stamp revert, the statistics do not
    app.toggle_selected_task_completion(200, 10);
    assert!(!app.tasks[0].completed);
    assert_eq!(app.tasks[0].completed_at, None);
    assert_eq!(app.stats.total_completed, 1);
    assert_eq!(app.stats.total_time_worked, 120);
    assert_eq!(app.stats.tasks_by_category[0].count, 1);
}

#[test]
fn streak_counts_consecutive_calendar_days() {
    let mut app = fresh();  // created on day 10
    app.add_task("A".to_string(), 0);
    app.toggle_selected_task_completion(0, 10);
    assert_eq!(app.stats.daily_streak, 0);  // same day as creation: unchanged
    assert_eq!(app.stats.last_active_date, 10);
    app.toggle_selected_task_completion(1, 10);  // un-complete
    app.toggle_selected_task_completion(2, 11);  // next day
    assert_eq!(app.stats.daily_streak, 1);
    app.toggle_selected_task_completion(3, 11);
    app.toggle_selected_task_completion(4, 12);
    assert_eq!(app.stats.daily_streak, 2);
    app.toggle_selected_task_completion(5, 12);
    app.toggle_selected_task_completion(6, 20);  // gap: reset to one
    assert_eq!(app.stats.daily_streak, 1);
    assert_eq!(app.stats.last_active_date, 20);
}

#[test]
fn category_counters_key_by_display_name() {
    let mut app = fresh();
    app.add_task("A".to_string(), 0);
    app.add_task("B".to_string(), 0);
    app.set_task_category(0, TaskCategory::Work);
    app.set_task_category(1, TaskCategory::Work);
    app.selected_task = 0;
    app.toggle_selected_task_completion(0, 10);
    app.selected_task = 1;
    app.toggle_selected_task_completion(0, 10);
    assert_eq!(app.stats.tasks_by_category.len(), 1);
    assert_eq!(app.stats.tasks_by_category[0].name, "Work");
    assert_eq!(app.stats.tasks_by_category[0].count, 2);
}

#[test]
fn commands_drive_the_global_timer_and_queries() {
    let mut app = fresh();
    assert!(matches!(app.apply_command(Command::Start, 100), Response::Okay));
    assert_eq!(app.global_timer.state, TimerState::Running);
    match app.apply_command(Command::Status, 160) {
        Response::Status(status) => {
            assert_eq!(status.state, TimerState::Running);
            assert_eq!(status.elapsed, 60);
            assert_eq!(status.total, 25 * 60);
        },
        _ => panic!("Status must answer with a status"),
    }
    // Pause and Resume are both the same toggle
    assert!(matches!(app.apply_command(Command::Pause, 200), Response::Okay));
    assert_eq!(app.global_timer.state, TimerState::Paused);
    assert_eq!(app.global_timer.accumulated_time, 100);
    assert!(matches!(app.apply_command(Command::Resume, 300), Response::Okay));
    assert_eq!(app.global_timer.state, TimerState::Running);
    assert!(matches!(app.apply_command(Command::Stop, 400), Response::Okay));
    assert_eq!(app.global_timer.state, TimerState::Idle);
    assert_eq!(app.global_timer.accumulated_time, 0);
    assert!(matches!(
        app.apply_command(Command::AddTask { description: "from ctl".to_string() }, 500),
        Response::Okay
    ));
    match app.apply_command(Command::ListTasks, 600) {
        Response::Tasks(tasks) => {
            assert_eq!(tasks.len(), 1);
            assert_eq!(tasks[0].id, 1);
            assert_eq!(tasks[0].description, "from ctl");
            assert!(!tasks[0].completed);
        },
        _ => panic!("ListTasks must answer with the listing"),
    }
}

#[test]
fn scenario_pomodoro_completes_and_notifies_once() {
    // Empty store, default 25-minute global target; add a task, start its
    // timer at once, advance the clock 25 minutes: the task completes and
    // exactly one notification fires for its id.
    let mut app = fresh();
    assert_eq!(app.global_timer.target_duration, 25 * 60);
    app.add_task("Write spec".to_string(), 0);
    app.toggle_selected_timer_at(0);
    let after = 25 * 60;
    assert!(app.tasks[0].timer.is_complete_at(after));
    let fired = app.check_and_notify_completions(after);
    assert_eq!(fired.len(), 1);
    assert_eq!(fired[0].id, app.tasks[0].id);
    assert_eq!(fired[0].title, "Write spec");
    assert_eq!(app.check_and_notify_completions(after + 1).len(), 0);
}

#[test]
fn stats_summary_reads_exactly() {
    let mut app = fresh();
    assert_eq!(
        app.show_stats_summary(),
        "📊 Total: 0 tasks | ⏱️ 0 hours | 🔥 0 day streak"
    );
    app.add_task("A".to_string(), 0);
    app.toggle_selected_timer_at(0);
    app.toggle_selected_timer_at(2 * 3600);
    app.toggle_selected_task_completion(2 * 3600, 11);
    assert_eq!(
        app.show_stats_summary(),
        "📊 Total: 1 tasks | ⏱️ 2 hours | 🔥 1 day streak"
    );
}

#[test]
fn csv_export_fixes_every_column_but_the_dates() {
    let mut app = fresh();
    let csv = app.export_to_csv(0);
    assert_eq!(csv, "Task,Category,Priority,Time Spent,Completed,Created,Completed At\n");
    app.add_task("Write".to_string(), 0);
    app.toggle_selected_timer_at(0);
    app.toggle_selected_timer_at(120);
    let csv = app.export_to_csv(120);
    let lines: Vec<&str> = csv.lines().collect();
    assert_eq!(lines.len(), 2);
    assert_eq!(lines[0], "Task,Category,Priority,Time Spent,Completed,Created,Completed At");
    assert!(lines[1].starts_with("Write,General,Medium,2,false,"));
    assert!(lines[1].ends_with(",N/A"));
}
