use arizona2::command::Cmd;
use arizona2::text_utils::normalize_message_content;

#[test]
fn normalize_strips_quotes_and_spaces() {
    assert_eq!(normalize_message_content("  \" hello \"  "), "hello");
    assert_eq!(normalize_message_content("plain"), "plain");
    assert_eq!(normalize_message_content("\""), "\"");
}

#[test]
fn log_file_names_by_command() {
    assert_eq!(Cmd::Run.log_file_name(), "server");
    assert_eq!(Cmd::RunJobRunner.log_file(), "arizona2-job-runner.log");
}
