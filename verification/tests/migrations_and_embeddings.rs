use arizona2::json::Json;
use arizona2::migrations::{
    confirmation_prompt, confirms, connect_string, finish_message, get_migrations, human_migration_name,
    migration_file_path, migration_template, migration_timestamp_text, new_migration_file_name, progress_line,
    GetMigrationsError, NewMigrationError, RunError,
};
use arizona2::nice_display::NiceDisplay;
use arizona2::open_ai::embedding::{
    describe_json_decode_failure, embedding_numbers, preview_response_body, read_parsed_embedding_answer,
    EmbeddingError, EmbeddingRequest,
};
use arizona2::open_ai_key::OpenAiKey;
use arizona2::temporary_event_cutoff::event_history_cutoff;

fn strings(items: &[&str]) -> Vec<String> {
    items.iter().map(|s| s.to_string()).collect()
}

#[test]
fn new_migration_file_and_template() {
    let file = new_migration_file_name("2024-01-02-03:04:05", "add_people");
    assert_eq!(file, "2024-01-02-03:04:05____add_people.sql");
    assert_eq!(migration_file_path(&file), "./db/migrations/2024-01-02-03:04:05____add_people.sql");
    assert_eq!(
        migration_template("add_people"),
        "-- add_people\n\nBEGIN;\n-- Write your migration here\nCOMMIT;"
    );
}

#[test]
fn human_names_drop_timestamp_and_extension() {
    assert_eq!(human_migration_name("2024-01-02-03:04:05____add_people.sql"), "add_people");
    assert_eq!(human_migration_name("a____b____c.sql"), "c");
    assert_eq!(human_migration_name("plain.sql"), "plain");
    assert_eq!(migration_timestamp_text("2024-01-02-03:04:05____add_people.sql"), "2024-01-02-03:04:05");
    assert_eq!(migration_timestamp_text("no_separator.sql"), "no_separator.sql");
}

#[test]
fn migrations_come_in_timestamp_order() {
    let names = strings(&[
        "2024-01-02-03:04:05____second.sql",
        "2023-05-06-07:08:09____first.sql",
    ]);
    let ms = get_migrations(names).ok().unwrap();
    assert_eq!(ms.len(), 2);
    assert_eq!(ms[0].name, "2023-05-06-07:08:09____first.sql");
    assert_eq!(ms[0].timestamp, 1683356889);
    assert_eq!(ms[1].name, "2024-01-02-03:04:05____second.sql");
    assert_eq!(ms[1].timestamp, 1704164645);
}

#[test]
fn migrations_with_equal_timestamps_keep_their_order() {
    let names = strings(&[
        "2024-01-02-03:04:05____b.sql",
        "2024-01-02-03:04:05____a.sql",
    ]);
    let ms = get_migrations(names).ok().unwrap();
    assert_eq!(ms[0].name, "2024-01-02-03:04:05____b.sql");
    assert_eq!(ms[1].name, "2024-01-02-03:04:05____a.sql");
}

#[test]
fn unreadable_timestamp_fails_with_the_file_name() {
    let names = strings(&["2024-01-02-03:04:05____ok.sql", "yesterday____bad.sql"]);
    match get_migrations(names) {
        Err(GetMigrationsError::ParsingDateFromFileName { file_name, err }) => {
            assert_eq!(file_name, "yesterday____bad.sql");
            assert!(!err.is_empty());
        }
        _ => panic!("expected a parse failure"),
    }
    assert!(get_migrations(Vec::new()).ok().unwrap().is_empty());
}

#[test]
fn run_output_lines() {
    assert_eq!(progress_line(0, 3, "add_people"), "Running 1/3, add_people");
    assert_eq!(finish_message(true), "Done!");
    assert_eq!(finish_message(false), "You are already up to date, no migrations run!");
    assert!(confirms(" y\n"));
    assert!(confirms("Y"));
    assert!(!confirms("yes"));
    assert!(!confirms(""));
    assert_eq!(
        confirmation_prompt("localhost", "pw"),
        "Should I run migrations at host localhost with password pw? (Y/n): "
    );
    assert_eq!(
        connect_string("localhost", "me", "pw"),
        "host=localhost user=me password=pw dbname=audio_storer"
    );
}

#[test]
fn migration_error_texts() {
    assert_eq!(NewMigrationError::WritingFile("x".to_string()).message(), "Error writing migration file: x");
    assert_eq!(NewMigrationError::ConnectingToDb("x".to_string()).message(), "Error connecting to database: x");
    assert_eq!(
        GetMigrationsError::GettingMigrations("x".to_string()).message(),
        "Error getting migrations: x"
    );
    assert_eq!(
        GetMigrationsError::ParsingDateFromFileName { file_name: "f".to_string(), err: "e".to_string() }.message(),
        "Error parsing date from file name 'f': e"
    );
    assert_eq!(
        GetMigrationsError::SplittingFileName { file_name: "f".to_string() }.message(),
        "Error splitting file name 'f'"
    );
    assert_eq!(RunError::DbConfig("own text".to_string()).message(), "own text");
    assert_eq!(RunError::ReadingMigrationFile("x".to_string()).message(), "Error reading migration file: x");
    assert_eq!(RunError::ExecutingMigration("x".to_string()).message(), "Error executing migration: x");
    assert_eq!(RunError::ConnectingToDb("x".to_string()).message(), "Error connecting to database: x");
    assert_eq!(
        RunError::GetMigrations(GetMigrationsError::GettingMigrations("x".to_string())).message(),
        "Error getting migrations: x"
    );
}

#[test]
fn embedding_request_body_names_the_model() {
    let body = EmbeddingRequest::new("hello".to_string()).request_body();
    assert_eq!(body.to_text(), "{\"input\":\"hello\",\"model\":\"text-embedding-3-small\"}");
}

#[test]
fn previews_of_response_bodies() {
    assert_eq!(preview_response_body("   \n "), "<empty>");
    assert_eq!(preview_response_body(" a\tb\nc "), "a b c");
    let long = "x".repeat(250);
    let p = preview_response_body(&long);
    assert_eq!(p, format!("{}...", "x".repeat(200)));
    assert_eq!(
        describe_json_decode_failure(Some("text/html"), "<h1>oops</h1>", "expected value"),
        "expected value; content-type `text/html`; body preview: <h1>oops</h1>"
    );
    assert_eq!(
        describe_json_decode_failure(None, "", "eof"),
        "eof; missing content-type; body preview: <empty>"
    );
}

fn decode_message(r: Result<&Vec<Json>, EmbeddingError>) -> String {
    match r {
        Err(EmbeddingError::ResponseJsonDecode(m)) => m,
        _ => panic!("expected a decode error"),
    }
}

#[test]
fn embedding_numbers_are_read_from_the_first_datum() {
    let ok = Json::parse("{\"data\":[{\"embedding\":[0.5,-1,2]}]}").ok().unwrap();
    assert_eq!(embedding_numbers(&ok).ok().unwrap().len(), 3);
    let cases = [
        ("{}", "Missing data field"),
        ("{\"data\":[]}", "Missing first data element"),
        ("{\"data\":[{}]}", "Missing embedding field"),
        ("{\"data\":[{\"embedding\":3}]}", "Embedding not array"),
        ("{\"data\":[{\"embedding\":[1,\"a\"]}]}", "Embedding value not a number"),
    ];
    for (text, message) in cases {
        let j = Json::parse(text).ok().unwrap();
        assert_eq!(decode_message(embedding_numbers(&j)), message);
    }
}

#[test]
fn embedding_answers_by_status() {
    let failed_json: Result<Json, String> = Json::parse("{\"error\":\"quota\"}");
    match read_parsed_embedding_answer(false, "429 Too Many Requests", None, "{\"error\":\"quota\"}", &failed_json) {
        Err(EmbeddingError::Response(m)) => {
            assert_eq!(m, "open ai returned HTTP 429 Too Many Requests: {\"error\":\"quota\"}")
        }
        _ => panic!("expected a response error"),
    }
    let not_json: Result<Json, String> = Err("expected value".to_string());
    match read_parsed_embedding_answer(false, "502 Bad Gateway", Some("text/html"), "oops", &not_json) {
        Err(EmbeddingError::Response(m)) => assert_eq!(
            m,
            "open ai returned HTTP 502 Bad Gateway with a non-JSON body: expected value; content-type `text/html`; body preview: oops"
        ),
        _ => panic!("expected a response error"),
    }
    match read_parsed_embedding_answer(true, "200 OK", None, "oops", &not_json) {
        Err(EmbeddingError::ResponseJsonDecode(m)) => {
            assert_eq!(m, "expected value; missing content-type; body preview: oops")
        }
        _ => panic!("expected a decode error"),
    }
    let good: Result<Json, String> = Json::parse("{\"data\":[{\"embedding\":[1,2]}]}");
    assert_eq!(read_parsed_embedding_answer(true, "200 OK", None, "", &good).ok().unwrap().len(), 2);
}

#[test]
fn embedding_error_texts() {
    assert_eq!(
        EmbeddingError::Request("x".to_string()).explain(),
        "I had trouble making a request to open ai\nx"
    );
    assert_eq!(
        EmbeddingError::Response("x".to_string()).explain(),
        "I had trouble with the response from open ai\nx"
    );
    assert_eq!(
        EmbeddingError::ResponseJsonDecode("x".to_string()).explain(),
        "I had trouble decoding the response from open ai\nx"
    );
}

#[test]
fn key_header_is_bearer() {
    assert_eq!(OpenAiKey::from_value("sk-abc".to_string()).to_header(), "Bearer sk-abc");
}

#[test]
fn event_cutoff_is_march_eighteenth() {
    assert_eq!(event_history_cutoff(), 1773792000000000);
}

#[test]
fn json_text_round_trip() {
    let j = Json::parse("{\"b\":[1,-2,true,null],\"a\":\"x\"}").ok().unwrap();
    assert_eq!(j.to_text(), "{\"a\":\"x\",\"b\":[1,-2,true,null]}");
    assert!(Json::parse("{").is_err());
    assert_eq!(Json::parse("[]").ok().unwrap().to_pretty_text(), "[]");
}
