use synapse_lib::services::ai::{
    AIProviderFactory, ChatCompletion, ChatCompletionParams, CompletionUsage, Message,
};
use synapse_lib::services::chat::{ChatSession, Timestamp};
use synapse_lib::services::ChatManager;
use synapse_lib::settings::Temperature;
use synapse_lib::utils::AppError;

fn message(content: &str) -> Message {
    Message { role: "user".to_string(), content: content.to_string(), timestamp: 17 }
}

fn at(seconds: i64) -> Timestamp {
    Timestamp { seconds, nanos: 5 }
}

#[test]
fn a_new_manager_has_no_sessions() {
    assert_eq!(ChatManager::new().list_sessions(), Ok(Vec::new()));
    assert_eq!(ChatManager::default().list_sessions(), Ok(Vec::new()));
    assert_eq!(ChatManager::new().get_session("x"), Ok(None));
}

#[test]
fn open_session_adds_an_empty_session_at_the_end() {
    let mut manager = ChatManager::new();
    let first = manager.open_session("id-1".to_string(), "First".to_string(), at(10));
    assert_eq!(
        first,
        ChatSession {
            id: "id-1".to_string(),
            title: "First".to_string(),
            messages: Vec::new(),
            created_at: at(10),
            updated_at: at(10),
        }
    );
    let second = manager.open_session("id-2".to_string(), "Second".to_string(), at(20));
    assert_eq!(manager.list_sessions(), Ok(vec![first.clone(), second.clone()]));
    assert_eq!(manager.get_session("id-1"), Ok(Some(first)));
    assert_eq!(manager.get_session("id-2"), Ok(Some(second)));
    assert_eq!(manager.get_session("id-3"), Ok(None));
}

#[test]
fn create_session_draws_an_identifier_and_reads_the_clock() {
    let mut manager = ChatManager::new();
    let one = manager.create_session("One".to_string()).unwrap();
    let two = manager.create_session("Two".to_string()).unwrap();
    assert_eq!(one.title, "One");
    assert_eq!(two.title, "Two");
    assert!(one.messages.is_empty());
    assert_eq!(one.id.len(), 36);
    assert_eq!(two.id.len(), 36);
    assert_ne!(one.id, two.id);
    assert_eq!(one.id.matches('-').count(), 4);
    assert_eq!(one.created_at, one.updated_at);
    assert!(one.created_at.seconds > 1_600_000_000);
    assert!(one.created_at.nanos < 2_000_000_000);
    assert_eq!(manager.list_sessions(), Ok(vec![one.clone(), two]));
    assert_eq!(manager.get_session(&one.id), Ok(Some(one)));
}

#[test]
fn append_message_adds_to_the_session_and_sets_the_time() {
    let mut manager = ChatManager::new();
    manager.open_session("a".to_string(), "A".to_string(), at(1));
    manager.open_session("b".to_string(), "B".to_string(), at(2));
    assert_eq!(manager.append_message("b", message("hello"), at(3)), Ok(()));
    assert_eq!(manager.append_message("b", message("again"), at(4)), Ok(()));
    let b = manager.get_session("b").unwrap().unwrap();
    assert_eq!(b.messages, vec![message("hello"), message("again")]);
    assert_eq!(b.created_at, at(2));
    assert_eq!(b.updated_at, at(4));
    let a = manager.get_session("a").unwrap().unwrap();
    assert!(a.messages.is_empty());
    assert_eq!(a.updated_at, at(1));
    assert_eq!(manager.list_sessions().unwrap().len(), 2);
}

#[test]
fn append_message_to_a_missing_session_is_not_found() {
    let mut manager = ChatManager::new();
    manager.open_session("a".to_string(), "A".to_string(), at(1));
    assert_eq!(
        manager.append_message("zzz", message("hello"), at(3)),
        Err(AppError::NotFound("Chat session not found".to_string()))
    );
    assert_eq!(
        manager.add_message("zzz", message("hello")),
        Err(AppError::NotFound("Chat session not found".to_string()))
    );
    let a = manager.get_session("a").unwrap().unwrap();
    assert!(a.messages.is_empty());
}

#[test]
fn add_message_reads_the_clock() {
    let mut manager = ChatManager::new();
    manager.open_session("a".to_string(), "A".to_string(), at(1));
    assert_eq!(manager.add_message("a", message("hello")), Ok(()));
    let a = manager.get_session("a").unwrap().unwrap();
    assert_eq!(a.messages, vec![message("hello")]);
    assert_eq!(a.created_at, at(1));
    assert!(a.updated_at.seconds > 1_600_000_000);
}

#[test]
fn delete_session_removes_the_session() {
    let mut manager = ChatManager::new();
    let a = manager.open_session("a".to_string(), "A".to_string(), at(1));
    manager.open_session("b".to_string(), "B".to_string(), at(2));
    let c = manager.open_session("c".to_string(), "C".to_string(), at(3));
    assert_eq!(manager.delete_session("b"), Ok(()));
    assert_eq!(manager.list_sessions(), Ok(vec![a, c]));
    assert_eq!(
        manager.delete_session("b"),
        Err(AppError::NotFound("Chat session not found".to_string()))
    );
}

#[test]
fn the_older_of_two_sessions_with_one_identifier_is_found() {
    let mut manager = ChatManager::new();
    let older = manager.open_session("same".to_string(), "Older".to_string(), at(1));
    let newer = manager.open_session("same".to_string(), "Newer".to_string(), at(2));
    assert_eq!(manager.get_session("same"), Ok(Some(older)));
    assert_eq!(manager.delete_session("same"), Ok(()));
    assert_eq!(manager.get_session("same"), Ok(Some(newer)));
}

#[test]
fn no_provider_is_implemented_yet() {
    assert_eq!(
        AIProviderFactory::create_provider("openai", "key".to_string()),
        Err(AppError::InvalidInput("OpenAI provider not implemented yet".to_string()))
    );
    assert_eq!(
        AIProviderFactory::create_provider("anthropic", "key".to_string()),
        Err(AppError::InvalidInput("Anthropic provider not implemented yet".to_string()))
    );
    assert_eq!(
        AIProviderFactory::create_provider("mistral", "key".to_string()),
        Err(AppError::InvalidInput("Unknown provider".to_string()))
    );
}

#[test]
fn completion_data_is_plain() {
    let params = ChatCompletionParams {
        model: "o-large".to_string(),
        temperature: Temperature::from_bits(0.5f32.to_bits()),
        max_tokens: 100,
        system_prompt: None,
    };
    assert_eq!(params.clone(), params);
    let completion = ChatCompletion {
        message: message("hi"),
        usage: CompletionUsage { prompt_tokens: 1, completion_tokens: 2, total_tokens: 3 },
    };
    assert_eq!(completion.clone(), completion);
    assert_eq!(completion.usage.total_tokens, 3);
}
