use neural_pulse::models::{model_path, ModelKind};
use neural_pulse::prompts::system_prompt;
use neural_pulse::router::{classify, classify_lowered, TaskType};
use neural_pulse::safety::{check_thermal_throttle, safe_threads, DEVICE_CORES};
use neural_pulse::selector::select_model;
use neural_pulse::text::{chars_of, contains, matches_at};

#[test]
fn code_keyword_wins_over_reasoning_keyword() {
    assert_eq!(classify("explain this bug"), TaskType::Code);
    assert_eq!(classify("why does this function crash"), TaskType::Code);
    assert_eq!(classify("analyze my rust program"), TaskType::Code);
    assert_eq!(classify("reason about typescript"), TaskType::Code);
}

#[test]
fn code_keyword_wins_over_search_keyword() {
    assert_eq!(classify("find the bug"), TaskType::Code);
    assert_eq!(classify("search for code samples"), TaskType::Code);
}

#[test]
fn reasoning_keyword_wins_over_search_keyword() {
    assert_eq!(classify("explain how to find it"), TaskType::Reasoning);
    assert_eq!(classify("why search at all"), TaskType::Reasoning);
}

#[test]
fn each_code_keyword_is_recognised() {
    assert_eq!(classify("please write code for me"), TaskType::Code);
    assert_eq!(classify("a function"), TaskType::Code);
    assert_eq!(classify("bug"), TaskType::Code);
    assert_eq!(classify("typescript"), TaskType::Code);
    assert_eq!(classify("rust"), TaskType::Code);
    assert_eq!(classify("code"), TaskType::Code);
}

#[test]
fn each_reasoning_keyword_is_recognised() {
    assert_eq!(classify("why"), TaskType::Reasoning);
    assert_eq!(classify("explain"), TaskType::Reasoning);
    assert_eq!(classify("analyze"), TaskType::Reasoning);
    assert_eq!(classify("reason"), TaskType::Reasoning);
}

#[test]
fn each_search_keyword_is_recognised() {
    assert_eq!(classify("search"), TaskType::Search);
    assert_eq!(classify("find"), TaskType::Search);
    assert_eq!(classify("lookup"), TaskType::Search);
}

#[test]
fn chat_is_the_fallback() {
    assert_eq!(classify(""), TaskType::Chat);
    assert_eq!(classify("hello there"), TaskType::Chat);
    assert_eq!(classify("good morning, how are you?"), TaskType::Chat);
}

#[test]
fn keywords_match_inside_words() {
    assert_eq!(classify("debugging"), TaskType::Code);
    assert_eq!(classify("trust me"), TaskType::Code);
    assert_eq!(classify("unreasonable"), TaskType::Reasoning);
    assert_eq!(classify("pathfinder"), TaskType::Search);
}

#[test]
fn classification_ignores_case() {
    assert_eq!(classify("BUG"), TaskType::Code);
    assert_eq!(classify("Explain This"), TaskType::Reasoning);
    assert_eq!(classify("LOOKUP the word"), TaskType::Search);
    assert_eq!(classify("Write Code"), TaskType::Code);
}

#[test]
fn classify_lowered_takes_the_text_as_it_is() {
    assert_eq!(classify_lowered("bug"), TaskType::Code);
    assert_eq!(classify_lowered("BUG"), TaskType::Chat);
    assert_eq!(classify_lowered("explain THIS BUG"), TaskType::Reasoning);
}

#[test]
fn select_follows_the_table() {
    assert_eq!(select_model(TaskType::Code), ModelKind::Coder);
    assert_eq!(select_model(TaskType::Reasoning), ModelKind::Reasoner);
    assert_eq!(select_model(TaskType::Search), ModelKind::Fast);
    assert_eq!(select_model(TaskType::Chat), ModelKind::Fast);
}

#[test]
fn catalog_paths_are_fixed_and_distinct() {
    assert_eq!(model_path(ModelKind::Fast), "models/phi-2.q4.gguf");
    assert_eq!(model_path(ModelKind::Coder), "models/qwen2.5-coder-7b.q4.gguf");
    assert_eq!(model_path(ModelKind::Reasoner), "models/mistral-7b-instruct.q4.gguf");
    assert_ne!(model_path(ModelKind::Fast), model_path(ModelKind::Coder));
    assert_ne!(model_path(ModelKind::Fast), model_path(ModelKind::Reasoner));
    assert_ne!(model_path(ModelKind::Coder), model_path(ModelKind::Reasoner));
}

#[test]
fn system_prompts_are_fixed() {
    assert_eq!(
        system_prompt(TaskType::Code),
        "You are an expert software engineer. Respond with clean, correct, production-quality code. Use markdown and code blocks."
    );
    assert_eq!(
        system_prompt(TaskType::Reasoning),
        "You are a careful analytical assistant. Think step by step, explain clearly, and structure your response."
    );
    assert_eq!(
        system_prompt(TaskType::Search),
        "You summarize and synthesize known information accurately and concisely."
    );
    assert_eq!(
        system_prompt(TaskType::Chat),
        "You are a helpful, friendly AI assistant. Respond naturally and clearly."
    );
}

#[test]
fn thread_budget_of_the_reference_device() {
    assert_eq!(DEVICE_CORES, 8);
    assert_eq!(safe_threads(), 4);
}

#[test]
fn thermal_throttle_is_never_reported() {
    assert!(!check_thermal_throttle());
}

#[test]
fn chars_of_gives_the_characters_in_order() {
    assert_eq!(chars_of(""), Vec::<char>::new());
    assert_eq!(chars_of("abc"), vec!['a', 'b', 'c']);
    assert_eq!(chars_of("né€"), vec!['n', 'é', '€']);
}

#[test]
fn contains_finds_runs_of_characters() {
    let hay = chars_of("hello world");
    assert!(contains(&hay, &chars_of("hello")));
    assert!(contains(&hay, &chars_of("world")));
    assert!(contains(&hay, &chars_of("o w")));
    assert!(contains(&hay, &chars_of("")));
    assert!(contains(&hay, &chars_of("hello world")));
    assert!(!contains(&hay, &chars_of("hello world!")));
    assert!(!contains(&hay, &chars_of("worlds")));
    assert!(!contains(&hay, &chars_of("hw")));
    assert!(contains(&chars_of(""), &chars_of("")));
    assert!(!contains(&chars_of(""), &chars_of("a")));
}

#[test]
fn matches_at_looks_at_one_position() {
    let hay = chars_of("abcabc");
    let needle = chars_of("bc");
    assert!(!matches_at(&hay, &needle, 0));
    assert!(matches_at(&hay, &needle, 1));
    assert!(!matches_at(&hay, &needle, 2));
    assert!(matches_at(&hay, &needle, 4));
    assert!(matches_at(&hay, &chars_of(""), 6));
}
