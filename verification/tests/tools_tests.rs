use forgeflow::shutdown::{CtrlCShutdown, TimeBasedShutdown};
use forgeflow::tools::daily_summary_writer::{DSWArgs, DailySummaryWriterBuilder};
use forgeflow::tools::gmail_actions::mark_read_change;
use forgeflow::tools::simple_file_writer::SimpleFileWriterBuilder;

#[test]
fn daily_summary_writer_builds_exact_entry() {
    let writer = DailySummaryWriterBuilder::new("/tmp/journal".to_string()).build();
    let args = DSWArgs {
        content: "This is the first summary.".to_string(),
    };
    assert_eq!(
        writer.journal_entry(&args),
        "\n============\nThis is the first summary."
    );
    assert_eq!(
        writer.journal_path("2024-05-01"),
        "/tmp/journal/2024-05-01.txt"
    );
}

#[test]
fn simple_file_writer_names_fresh_txt_files() {
    let writer = SimpleFileWriterBuilder::new("/tmp/out".to_string()).build();
    assert_eq!(writer.output_dir(), "/tmp/out");
    let first = writer.output_file_path();
    let second = writer.output_file_path();

    assert!(first.starts_with("/tmp/out/"));
    assert!(first.ends_with(".txt"));
    assert_eq!(first.len(), "/tmp/out".len() + 41);
    // names are fresh: two writes land in two files
    assert_ne!(first, second);
}

#[test]
fn mark_read_change_removes_unread_label() {
    let change = mark_read_change();
    assert!(change.add_label_ids.is_none());
    assert_eq!(change.remove_label_ids, Some(vec!["UNREAD".to_string()]));
}

#[test]
fn shutdown_handlers_hold_their_configuration() {
    let _ctrl_c = CtrlCShutdown::new();
    let timed = TimeBasedShutdown::new(5000);
    assert_eq!(timed.duration_ms(), 5000);
}
