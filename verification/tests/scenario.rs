use neural_pulse::agent::plan;
use neural_pulse::executor::execute;
use neural_pulse::model_manager::{LoadStep, ModelManager};
use neural_pulse::models::{model_path, ModelKind};
use neural_pulse::router::{classify, TaskType};
use neural_pulse::selector::select_model;
use neural_pulse::stream::{token_channel, StreamAction, TokenStream};

#[test]
fn prompt_is_routed_loaded_and_streamed() {
    let prompt = "explain this function bug";
    let task = classify(prompt);
    assert_eq!(task, TaskType::Code);
    let kind = select_model(task);
    assert_eq!(kind, ModelKind::Coder);

    let mut manager: ModelManager<Vec<&'static str>> = ModelManager::new();
    match manager.load(kind) {
        LoadStep::Load { path, threads } => {
            assert_eq!(path, model_path(ModelKind::Coder));
            assert_eq!(path, "models/qwen2.5-coder-7b.q4.gguf");
            assert_eq!(threads, 4);
            manager.install(kind, Some(vec!["The", " bug", " is", " here", "."])).unwrap();
        }
        LoadStep::Ready => panic!("nothing was resident"),
    }
    assert_eq!(manager.current(), Some(ModelKind::Coder));

    let context = execute(plan(prompt), prompt);
    assert!(context.ends_with("\nUser Request:\nexplain this function bug"));

    let (sink, source) = token_channel();
    let engine = manager.engine_mut().unwrap();
    for fragment in engine.iter() {
        assert!(sink.emit(fragment));
    }
    sink.close(true);

    let mut stream = TokenStream::new();
    let mut seen: Vec<String> = Vec::new();
    loop {
        match stream.pull(&source) {
            StreamAction::Deliver(text) => seen.push(text),
            StreamAction::Finish => break,
            StreamAction::Fail => panic!("the generation did not fail"),
            StreamAction::Ignore => panic!("the stream was open"),
        }
    }
    assert_eq!(seen, vec!["The", " bug", " is", " here", "."]);
    assert_eq!(stream.outcome(), Some(Ok("The bug is here.".to_string())));
}
