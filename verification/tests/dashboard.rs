use fasam::alarm_graph::{hour_label, AlarmGraph};
use fasam::log_tier::LogTier;
use fasam::logging::Logging;
use fasam::module::Module;
use fasam::ui::{wait_budget, UI};

#[test]
fn window_holds_29_entries_with_small_counts() {
    let graph = AlarmGraph::default();
    let data = graph.get_data();
    assert_eq!(data.len(), 29);
    let mut sum: u32 = 0;
    for (_, count) in &data {
        assert!(0 <= *count && *count < 6);
        sum += *count as u32;
    }
    assert_eq!(*graph.get_triggered_alarms_amount(), sum);
}

#[test]
fn seeded_labels_are_hours_of_day() {
    let graph = AlarmGraph::default();
    for (label, _) in graph.get_data() {
        let hour: u32 = label.parse().expect("label should be a number");
        assert!(hour < 24);
    }
}

#[test]
fn rotate_evicts_oldest_and_appends() {
    let mut graph = AlarmGraph::default();
    let before = graph.get_data();
    let total_before = *graph.get_triggered_alarms_amount();
    graph.add_data(("5".to_string(), 2));
    let after = graph.get_data();
    assert_eq!(after.len(), 29);
    assert_eq!(&after[..28], &before[1..]);
    assert_eq!(after[28], ("5".to_string(), 2));
    assert_eq!(*graph.get_triggered_alarms_amount(), total_before + 2);
}

#[test]
fn total_never_decreases_over_rotations() {
    let mut graph = AlarmGraph::default();
    let mut last_total = *graph.get_triggered_alarms_amount();
    for count in [0i16, 3, 0, 5, 1] {
        graph.add_data(("7".to_string(), count));
        let total = *graph.get_triggered_alarms_amount();
        assert!(total >= last_total);
        last_total = total;
    }
}

#[test]
fn formatted_logs_keep_insertion_order() {
    let mut logging = Logging::default();
    logging.log("first".to_string(), LogTier::Info);
    logging.log("second".to_string(), LogTier::Error);
    logging.log("third".to_string(), LogTier::Debug);
    let lines = logging.get_formatted_logs();
    assert_eq!(lines.len(), 3);
    assert!(lines[0].ends_with("] first"));
    assert!(lines[1].ends_with("] second"));
    assert!(lines[2].ends_with("] third"));
}

#[test]
fn formatted_logs_are_idempotent() {
    let mut logging = Logging::default();
    logging.log("one".to_string(), LogTier::Warning);
    logging.log("two".to_string(), LogTier::Info);
    let first_view = logging.get_formatted_logs();
    let second_view = logging.get_formatted_logs();
    assert_eq!(first_view, second_view);
}

#[test]
fn info_maps_to_info_token() {
    let mut logging = Logging::default();
    logging.log("x".to_string(), LogTier::Info);
    let lines = logging.get_formatted_logs();
    assert!(lines[0].contains(" [INFO] "));
}

#[test]
fn warning_maps_to_warn_token() {
    let mut logging = Logging::default();
    logging.log("x".to_string(), LogTier::Warning);
    let lines = logging.get_formatted_logs();
    assert!(lines[0].contains(" [WARN] "));
}

#[test]
fn error_maps_to_error_token() {
    let mut logging = Logging::default();
    logging.log("x".to_string(), LogTier::Error);
    let lines = logging.get_formatted_logs();
    assert!(lines[0].contains(" [ERROR] "));
}

#[test]
fn debug_maps_to_debug_token() {
    let mut logging = Logging::default();
    logging.log("x".to_string(), LogTier::Debug);
    let lines = logging.get_formatted_logs();
    assert!(lines[0].contains(" [DEBUG] "));
}

#[test]
fn messages_are_trimmed_in_the_view() {
    let mut logging = Logging::default();
    logging.log("  padded  ".to_string(), LogTier::Info);
    let lines = logging.get_formatted_logs();
    assert!(lines[0].ends_with("] padded"));
}

#[test]
fn lines_start_with_a_timestamp() {
    let mut logging = Logging::default();
    logging.log("x".to_string(), LogTier::Info);
    let lines = logging.get_formatted_logs();
    assert!(!lines[0].starts_with(" ["));
    let year = chrono::Datelike::year(&chrono::Utc::now()).to_string();
    assert!(lines[0].contains(&year));
}

#[test]
fn trigger_twice_then_rotate_records_two() {
    let mut ui = UI::default();
    ui.log_startup();
    assert_eq!(ui.alarms_triggered, 0);
    assert_eq!(ui.logging.data.len(), 5);
    assert!(!ui.handle_key('t'));
    assert!(!ui.handle_key('t'));
    assert_eq!(ui.alarms_triggered, 2);
    assert!(ui.logging.data.len() >= 2);
    let new_hour = (ui.last_hour + 1) % 24;
    ui.advance_hour(new_hour);
    let data = ui.alarm.get_data();
    assert_eq!(data[28], (new_hour.to_string(), 2));
    assert_eq!(ui.alarms_triggered, 0);
    assert_eq!(ui.last_hour, new_hour);
    assert_eq!(ui.logging.data.len(), 7);
}

#[test]
fn quit_key_mutates_nothing() {
    let mut ui = UI::default();
    ui.log_startup();
    let data_before = ui.alarm.get_data();
    let total_before = *ui.alarm.get_triggered_alarms_amount();
    let logs_before = ui.logging.get_formatted_logs();
    let pending_before = ui.alarms_triggered;
    let hour_before = ui.last_hour;
    assert!(ui.handle_key('q'));
    assert_eq!(ui.alarm.get_data(), data_before);
    assert_eq!(*ui.alarm.get_triggered_alarms_amount(), total_before);
    assert_eq!(ui.logging.get_formatted_logs(), logs_before);
    assert_eq!(ui.alarms_triggered, pending_before);
    assert_eq!(ui.last_hour, hour_before);
}

#[test]
fn unknown_keys_are_ignored() {
    let mut ui = UI::default();
    let data_before = ui.alarm.get_data();
    let pending_before = ui.alarms_triggered;
    assert!(!ui.handle_key('z'));
    assert_eq!(ui.alarm.get_data(), data_before);
    assert_eq!(ui.alarms_triggered, pending_before);
    assert_eq!(ui.logging.data.len(), 0);
}

#[test]
fn reset_key_only_logs() {
    let mut ui = UI::default();
    let data_before = ui.alarm.get_data();
    assert!(!ui.handle_key('r'));
    assert_eq!(ui.alarm.get_data(), data_before);
    assert_eq!(ui.alarms_triggered, 0);
    let lines = ui.logging.get_formatted_logs();
    assert_eq!(lines.len(), 1);
    assert!(lines[0].ends_with("] alarm disabled"));
    assert!(lines[0].contains(" [INFO] "));
}

#[test]
fn trigger_key_logs_and_counts() {
    let mut ui = UI::default();
    assert!(!ui.handle_key('t'));
    assert_eq!(ui.alarms_triggered, 1);
    let lines = ui.logging.get_formatted_logs();
    assert_eq!(lines.len(), 1);
    assert!(lines[0].ends_with("] alarm triggered"));
    assert!(lines[0].contains(" [INFO] "));
}

#[test]
fn unchanged_hour_mutates_nothing() {
    let mut ui = UI::default();
    ui.log_startup();
    let data_before = ui.alarm.get_data();
    let total_before = *ui.alarm.get_triggered_alarms_amount();
    let logs_before = ui.logging.get_formatted_logs();
    let same_hour = ui.last_hour;
    ui.advance_hour(same_hour);
    assert_eq!(ui.alarm.get_data(), data_before);
    assert_eq!(*ui.alarm.get_triggered_alarms_amount(), total_before);
    assert_eq!(ui.logging.get_formatted_logs(), logs_before);
    assert_eq!(ui.last_hour, same_hour);
}

#[test]
fn startup_logs_are_fixed_and_ordered() {
    let mut ui = UI::default();
    ui.log_startup();
    let lines = ui.logging.get_formatted_logs();
    assert_eq!(lines.len(), 5);
    assert!(lines[0].ends_with("] system starting") && lines[0].contains(" [INFO] "));
    assert!(lines[1].ends_with("] alarm module starting") && lines[1].contains(" [DEBUG] "));
    assert!(lines[2].ends_with("] logging module starting") && lines[2].contains(" [DEBUG] "));
    assert!(lines[3].ends_with("] alarm module started") && lines[3].contains(" [INFO] "));
    assert!(lines[4].ends_with("] logging module started") && lines[4].contains(" [INFO] "));
}

#[test]
fn wait_budget_counts_down_then_falls_back() {
    assert_eq!(wait_budget(500, 200), 300);
    assert_eq!(wait_budget(500, 499), 1);
    assert_eq!(wait_budget(500, 500), 250);
    assert_eq!(wait_budget(500, 9999), 250);
    assert_eq!(wait_budget(0, 0), 250);
}

#[test]
fn hour_labels_are_decimal() {
    assert_eq!(hour_label(0), "0");
    assert_eq!(hour_label(5), "5");
    assert_eq!(hour_label(10), "10");
    assert_eq!(hour_label(23), "23");
}

#[test]
fn module_metadata_is_fixed() {
    let graph = AlarmGraph::default();
    assert_eq!(graph.get_id(), 1);
    assert_eq!(graph.get_name(), "Alarm Statistics");
    assert_eq!(
        graph.get_description(),
        "Gets the statistics of alarms for the past 48 hours"
    );
    let logging = Logging::default();
    assert_eq!(logging.get_id(), 2);
    assert_eq!(logging.get_name(), "Logging");
    assert_eq!(
        logging.get_description(),
        "Used to store and show logging on screen"
    );
    assert_eq!(logging.get_data(), Vec::new());
}
