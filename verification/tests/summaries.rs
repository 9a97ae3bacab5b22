use arizona2::json::Json;
use arizona2::open_ai::tool::{Tool, ToolFunctionParameter};
use arizona2::open_ai::tool_call::{ToolCall, ToolCallDecodeError};
use arizona2::tasks::summarize_memories_v2::{
    after_section_attempt, attempts_exhausted, clamp_to_max_words, map_people_names_to_uuids,
    name_index, normalize_string_list, retrieval_summary, section_completion, section_memory_list,
    split_memories_into_sections, split_words, str_eq_ignore_ascii_case, v2_memory_candidate_from_tool_call,
    v2_memory_tool_definition, AttemptOutcome, Error,
};
use arizona2::tasks::summarize_person_identities::identity_to_summarize;

fn strings(items: &[&str]) -> Vec<String> {
    items.iter().map(|s| s.to_string()).collect()
}

fn full_call() -> ToolCall {
    ToolCall {
        name: "add_v2_memory".to_string(),
        arguments: vec![
            ("third_person_memory".to_string(), Json::string("Ana met Bo at the market.")),
            ("third_person_summary".to_string(), Json::string("Ana met Bo.")),
            ("first_person_memory".to_string(), Json::string("I met Bo at the market.")),
            ("significance_comment".to_string(), Json::string("First meeting.")),
            ("emotional_score".to_string(), Json::PosInt(70)),
            (
                "people_names".to_string(),
                Json::Array(vec![Json::string("Bo"), Json::string("Ana")]),
            ),
            ("subject_tags".to_string(), Json::Array(vec![Json::string("market")])),
        ],
    }
}

fn call_with(key: &str, value: Json) -> ToolCall {
    let mut call = full_call();
    let i = call.arguments.iter().position(|(name, _)| name == key).unwrap();
    call.arguments[i].1 = value;
    call
}

fn missing_argument_text(res: Result<arizona2::tasks::summarize_memories_v2::V2MemoryCandidate, Error>) -> String {
    match res {
        Err(Error::MissingToolArgument(m)) => m,
        _ => panic!("expected a missing tool argument"),
    }
}

#[test]
fn sections_split_evenly_and_in_order() {
    let memories = strings(&["a", "b", "c", "d", "e", "f", "g", "h", "i", "j"]);
    let sections = split_memories_into_sections(&memories, 7);
    assert_eq!(sections.len(), 7);
    let lens: Vec<usize> = sections.iter().map(|s| s.len()).collect();
    assert_eq!(lens, vec![1, 1, 2, 1, 2, 1, 2]);
    let joined: Vec<String> = sections.into_iter().flatten().collect();
    assert_eq!(joined, memories);
}

#[test]
fn sections_of_few_memories_hold_one_each() {
    let memories = strings(&["a", "b", "c"]);
    let sections = split_memories_into_sections(&memories, 7);
    assert_eq!(sections, vec![strings(&["a"]), strings(&["b"]), strings(&["c"])]);
    assert!(split_memories_into_sections(&Vec::new(), 7).is_empty());
}

#[test]
fn normalized_lists_drop_blanks_and_case_duplicates() {
    let values = strings(&["  Bo ", "", "bo", "Ana", "   ", "ANA", "Cy"]);
    assert_eq!(normalize_string_list(values), strings(&["Bo", "Ana", "Cy"]));
    assert!(str_eq_ignore_ascii_case("MaRkEt", "market"));
    assert!(!str_eq_ignore_ascii_case("market", "markets"));
}

#[test]
fn clamping_keeps_short_texts_trimmed_and_cuts_long_ones() {
    assert_eq!(clamp_to_max_words("  two words  ", 18), "two words");
    assert_eq!(clamp_to_max_words("one  two\tthree four", 2), "one two");
    assert_eq!(split_words(" a  bb\nccc "), strings(&["a", "bb", "ccc"]));
}

#[test]
fn memory_tool_definition_lists_its_parameters() {
    let tool = v2_memory_tool_definition();
    assert_eq!(tool.name, "add_v2_memory");
    assert_eq!(tool.description, "Create one consolidated v2 memory.");
    let names: Vec<&str> = tool.parameters.iter().map(|p| p.name()).collect();
    assert_eq!(
        names,
        vec![
            "third_person_memory",
            "third_person_summary",
            "first_person_memory",
            "significance_comment",
            "emotional_score",
            "people_names",
            "subject_tags"
        ]
    );
    assert!(tool.parameters.iter().all(|p| p.required()));
    assert!(matches!(tool.parameters[4], ToolFunctionParameter::Integer { .. }));
    assert!(matches!(tool.parameters[6], ToolFunctionParameter::StringArray { .. }));
}

#[test]
fn candidate_is_read_from_a_full_call() {
    let candidate = v2_memory_candidate_from_tool_call(&full_call()).ok().unwrap();
    assert_eq!(candidate.third_person_memory, "Ana met Bo at the market.");
    assert_eq!(candidate.third_person_summary, "Ana met Bo.");
    assert_eq!(candidate.first_person_memory, "I met Bo at the market.");
    assert_eq!(candidate.significance_comment, "First meeting.");
    assert_eq!(candidate.emotional_score, 70);
    assert_eq!(candidate.people_names, strings(&["Bo", "Ana"]));
    assert_eq!(candidate.subject_tags, strings(&["market"]));
}

#[test]
fn candidate_argument_errors_name_the_argument() {
    let mut missing = full_call();
    missing.arguments.remove(0);
    assert_eq!(
        missing_argument_text(v2_memory_candidate_from_tool_call(&missing)),
        "Missing 'third_person_memory' in tool arguments"
    );
    assert_eq!(
        missing_argument_text(v2_memory_candidate_from_tool_call(&call_with(
            "third_person_summary",
            Json::PosInt(3)
        ))),
        "'third_person_summary' must be a string"
    );
    assert_eq!(
        missing_argument_text(v2_memory_candidate_from_tool_call(&call_with(
            "emotional_score",
            Json::string("high")
        ))),
        "'emotional_score' must be an integer"
    );
    assert_eq!(
        missing_argument_text(v2_memory_candidate_from_tool_call(&call_with(
            "emotional_score",
            Json::PosInt(3_000_000_000)
        ))),
        "'emotional_score' integer out of range: 3000000000"
    );
    assert_eq!(
        missing_argument_text(v2_memory_candidate_from_tool_call(&call_with(
            "people_names",
            Json::string("Bo")
        ))),
        "'people_names' must be an array"
    );
    assert_eq!(
        missing_argument_text(v2_memory_candidate_from_tool_call(&call_with(
            "subject_tags",
            Json::Array(vec![Json::string("a"), Json::PosInt(1)])
        ))),
        "'subject_tags' must contain only strings"
    );
}

#[test]
fn negative_emotional_scores_are_accepted() {
    let c = v2_memory_candidate_from_tool_call(&call_with("emotional_score", Json::NegInt(-5)))
        .ok()
        .unwrap();
    assert_eq!(c.emotional_score, -5);
}

#[test]
fn one_memory_call_finishes_a_section() {
    let other = ToolCall { name: "something_else".to_string(), arguments: vec![] };
    match after_section_attempt(Ok(vec![other, full_call()])) {
        AttemptOutcome::Done(Ok(c)) => assert_eq!(c.first_person_memory, "I met Bo at the market."),
        _ => panic!("expected a finished section"),
    }
}

#[test]
fn zero_or_two_memory_calls_ask_again() {
    assert!(matches!(after_section_attempt(Ok(vec![])), AttemptOutcome::Retry { last_count: 0 }));
    assert!(matches!(
        after_section_attempt(Ok(vec![full_call(), full_call()])),
        AttemptOutcome::Retry { last_count: 2 }
    ));
}

#[test]
fn undecodable_calls_fail_the_section() {
    let err = ToolCallDecodeError::ArrayWasEmpty { which: "choices".to_string() };
    match after_section_attempt(Err(err)) {
        AttemptOutcome::Done(Err(Error::ToolCallDecode(m))) => assert!(!m.is_empty()),
        _ => panic!("expected a decode failure"),
    }
    let mut broken = full_call();
    broken.arguments.pop();
    match after_section_attempt(Ok(vec![broken])) {
        AttemptOutcome::Done(Err(Error::MissingToolArgument(m))) => {
            assert_eq!(m, "Missing 'subject_tags' in tool arguments")
        }
        _ => panic!("expected a missing argument"),
    }
}

#[test]
fn exhausted_attempts_say_how_many_came() {
    let err = attempts_exhausted("Ana", 2, 5, 3);
    assert_eq!(
        err.explain(),
        "LLM output shape invalid for person Ana: section 2 of 5 expected 1 memory, got 3 after 4 attempts"
    );
}

#[test]
fn summary_error_texts() {
    assert_eq!(Error::WorkerInit("x".to_string()).explain(), "Worker initialization failed: x");
    assert_eq!(Error::FetchPeople("x".to_string()).explain(), "Failed to fetch people: x");
    assert_eq!(Error::FetchPersonMemories("x".to_string()).explain(), "Failed to fetch person memories: x");
    assert_eq!(Error::Completion("x".to_string()).explain(), "Failed to summarize memories with LLM: x");
    assert_eq!(Error::ToolCallDecode("x".to_string()).explain(), "Failed to decode LLM tool call: x");
    assert_eq!(Error::MissingToolArgument("x".to_string()).explain(), "Missing expected tool argument: x");
    assert_eq!(Error::CreateEmbedding("x".to_string()).explain(), "Failed creating embedding: x");
    assert_eq!(Error::InsertMemory("x".to_string()).explain(), "Failed inserting summarized memory: x");
}

#[test]
fn section_prompt_numbers_the_memories() {
    let memories = strings(&["  first\nline ", "second"]);
    assert_eq!(section_memory_list(&memories), "1. first line\n2. second");
    let completion = section_completion("Ana", &memories, 2, 3);
    assert_eq!(completion.tool_call.len(), 1);
    match &completion.tool_call[0] {
        Tool::FunctionCall(f) => assert_eq!(f.name, "add_v2_memory"),
    }
    assert_eq!(completion.history.messages.len(), 2);
    assert!(completion.history.messages[1]
        .content
        .starts_with("Person: Ana\n\nSection 2/3 source memories:\n1. first line\n2. second\n\nCreate exactly one"));
}

#[test]
fn retrieval_summary_trims_both_parts() {
    assert_eq!(retrieval_summary("  Ana met Bo. ", " First. "), "Ana met Bo. Significance: First.");
}

#[test]
fn people_names_map_to_known_uuids_once() {
    let people = vec![("Ana".to_string(), 1u128), ("BO".to_string(), 2u128)];
    let index = name_index(&people);
    assert_eq!(index, vec![("ana".to_string(), 1u128), ("bo".to_string(), 2u128)]);
    let names = strings(&["bo", "Zed", "ANA", "Bo"]);
    assert_eq!(map_people_names_to_uuids(&names, &index), vec![2u128, 1u128]);
}

#[test]
fn identity_needs_both_uuid_and_text() {
    assert_eq!(identity_to_summarize(Some(3u8), Some("calm".to_string())), Some((3u8, "calm".to_string())));
    assert_eq!(identity_to_summarize::<u8>(None, Some("calm".to_string())), None);
    assert_eq!(identity_to_summarize(Some(3u8), None), None);
}

use arizona2::open_ai::completion::{CompletionError, Response};
use arizona2::tasks::summarize_memories_v2::{
    v2_memory_record, PersonSummary, SectionStep, SectionSummary, SummaryStep,
};

const FULL_ARGUMENTS: &str = "{\\\"third_person_memory\\\":\\\"Ana met Bo.\\\",\\\"third_person_summary\\\":\\\"Met.\\\",\\\"first_person_memory\\\":\\\"I met Bo.\\\",\\\"significance_comment\\\":\\\"First.\\\",\\\"emotional_score\\\":5,\\\"people_names\\\":[\\\"Bo\\\"],\\\"subject_tags\\\":[\\\"meeting\\\"]}";

fn response_with_calls(count: usize) -> Response {
    let call = format!(
        "{{\"function\":{{\"name\":\"add_v2_memory\",\"arguments\":\"{}\"}}}}",
        FULL_ARGUMENTS
    );
    let calls = vec![call; count].join(",");
    let text = format!("{{\"choices\":[{{\"message\":{{\"tool_calls\":[{}]}}}}]}}", calls);
    Response::new(Json::parse(&text).ok().unwrap())
}

#[test]
fn section_summary_asks_again_until_one_memory_comes() {
    let (state, first) = SectionSummary::start("Ana".to_string(), strings(&["a"]), 1, 1);
    assert_eq!(first.history.messages.len(), 2);
    let (state, step) = state.resume(Ok(response_with_calls(2)));
    assert_eq!(state.attempts_made, 2);
    assert!(matches!(step, SectionStep::Ask(_)));
    let (_, step) = state.resume(Ok(response_with_calls(1)));
    match step {
        SectionStep::Done(Ok(c)) => assert_eq!(c.third_person_memory, "Ana met Bo."),
        _ => panic!("expected the section's memory"),
    }
}

#[test]
fn section_summary_gives_up_after_four_requests() {
    let (mut state, _) = SectionSummary::start("Ana".to_string(), strings(&["a"]), 2, 3);
    for _ in 0..3 {
        let (s, step) = state.resume(Ok(response_with_calls(0)));
        assert!(matches!(step, SectionStep::Ask(_)));
        state = s;
    }
    assert_eq!(state.attempts_made, 4);
    match state.resume(Ok(response_with_calls(3))).1 {
        SectionStep::Done(Err(e)) => assert_eq!(
            e.explain(),
            "LLM output shape invalid for person Ana: section 2 of 3 expected 1 memory, got 3 after 4 attempts"
        ),
        _ => panic!("expected a failure"),
    }
}

#[test]
fn failed_request_ends_the_section() {
    let (state, _) = SectionSummary::start("Ana".to_string(), strings(&["a"]), 1, 1);
    match state.resume(Err(CompletionError::Request("offline".to_string()))).1 {
        SectionStep::Done(Err(e)) => assert_eq!(
            e.explain(),
            "Failed to summarize memories with LLM: I had trouble making a request to open ai: offline"
        ),
        _ => panic!("expected a failure"),
    }
}

#[test]
fn person_summary_gives_one_memory_per_section() {
    let memories = strings(&["a", "b", "c"]);
    let (mut state, mut step) = PersonSummary::start("Ana".to_string(), &memories);
    let mut requests = 0;
    let result = loop {
        match step {
            SummaryStep::Ask(c) => {
                requests += 1;
                assert!(c.history.messages[1].content.contains(&format!("Section {}/3", requests)));
                let (s, n) = state.resume(Ok(response_with_calls(1)));
                state = s;
                step = n;
            }
            SummaryStep::Done(r) => break r,
        }
    };
    assert_eq!(requests, 3);
    assert_eq!(result.ok().unwrap().len(), 3);
}

#[test]
fn person_without_memories_has_nothing_to_summarize() {
    let (_, step) = PersonSummary::start("Ana".to_string(), &Vec::new());
    assert!(matches!(step, SummaryStep::Done(Ok(v)) if v.is_empty()));
}

#[test]
fn stored_record_cleans_up_the_candidate() {
    let mut call = full_call();
    let i = call.arguments.iter().position(|(name, _)| name == "people_names").unwrap();
    call.arguments[i].1 = Json::Array(vec![Json::string(" bo "), Json::string("BO"), Json::string("Zed")]);
    let j = call.arguments.iter().position(|(name, _)| name == "third_person_summary").unwrap();
    call.arguments[j].1 = Json::string(&vec!["w"; 20].join(" "));
    let candidate = v2_memory_candidate_from_tool_call(&call).ok().unwrap();
    let index = name_index(&vec![("Bo".to_string(), 9u128)]);
    let record = v2_memory_record(candidate, &index);
    assert_eq!(record.content, "Ana met Bo at the market.");
    assert_eq!(record.summary, vec!["w"; 18].join(" "));
    assert_eq!(record.retrieval_summary, "Ana met Bo at the market. Significance: First meeting.");
    assert_eq!(record.summary_first_person, "I met Bo at the market.");
    assert_eq!(record.people_names, strings(&["bo", "Zed"]));
    assert_eq!(record.people_uuids, vec![9u128]);
    assert_eq!(record.subject_tags, strings(&["market"]));
    assert_eq!(record.emotional_score, 70);
}
