//! The data that is exchanged with an AI provider, and the factory that
//! says which providers can be had.

use crate::settings::temperature::Temperature;
use crate::settings::types::{provider_named, Provider};
use crate::utils::error::{AppError, AppErrorView, AppResult};
use vstd::prelude::*;

verus! {

/// Represents a chat message.
#[derive(Debug, PartialEq, Eq)]
pub struct Message {
    /// The role of the message sender (system, user, assistant).
    pub role: String,
    /// The content of the message.
    pub content: String,
    /// Timestamp of when the message was created.
    pub timestamp: i64,
}

/// A chat message as plain values.
pub struct MessageView {
    pub role: Seq<char>,
    pub content: Seq<char>,
    pub timestamp: i64,
}

impl View for Message {
    type V = MessageView;

    open spec fn view(&self) -> MessageView {
        MessageView { role: self.role@, content: self.content@, timestamp: self.timestamp }
    }
}

impl Clone for Message {
    fn clone(&self) -> (m: Self)
        ensures
            m@ == self@,
    {
        Message {
            role: self.role.clone(),
            content: self.content.clone(),
            timestamp: self.timestamp,
        }
    }
}

/// Represents chat completion parameters.
#[derive(Debug, PartialEq, Eq)]
pub struct ChatCompletionParams {
    /// The model to use for completion.
    pub model: String,
    /// Temperature for response generation (0.0 to 1.0).
    pub temperature: Temperature,
    /// Maximum tokens to generate.
    pub max_tokens: i32,
    /// System prompt to use.
    pub system_prompt: Option<String>,
}

/// Chat completion parameters as plain values.
pub struct ChatCompletionParamsView {
    pub model: Seq<char>,
    /// The bit pattern of the temperature.
    pub temperature: u32,
    pub max_tokens: i32,
    pub system_prompt: Option<Seq<char>>,
}

impl View for ChatCompletionParams {
    type V = ChatCompletionParamsView;

    open spec fn view(&self) -> ChatCompletionParamsView {
        ChatCompletionParamsView {
            model: self.model@,
            temperature: self.temperature@,
            max_tokens: self.max_tokens,
            system_prompt: match self.system_prompt {
                Some(prompt) => Some(prompt@),
                None => None,
            },
        }
    }
}

impl Clone for ChatCompletionParams {
    fn clone(&self) -> (c: Self)
        ensures
            c@ == self@,
    {
        ChatCompletionParams {
            model: self.model.clone(),
            temperature: self.temperature,
            max_tokens: self.max_tokens,
            system_prompt: match &self.system_prompt {
                Some(prompt) => Some(prompt.clone()),
                None => None,
            },
        }
    }
}

/// Represents token usage statistics.
#[derive(Debug, Clone, Copy, PartialEq, Eq)]
pub struct CompletionUsage {
    /// Number of prompt tokens used.
    pub prompt_tokens: i32,
    /// Number of completion tokens used.
    pub completion_tokens: i32,
    /// Total tokens used.
    pub total_tokens: i32,
}

/// Represents a chat completion response.
#[derive(Debug, PartialEq, Eq)]
pub struct ChatCompletion {
    /// The generated message.
    pub message: Message,
    /// Usage statistics.
    pub usage: CompletionUsage,
}

/// A chat completion response as plain values.
pub struct ChatCompletionView {
    pub message: MessageView,
    pub usage: CompletionUsage,
}

impl View for ChatCompletion {
    type V = ChatCompletionView;

    open spec fn view(&self) -> ChatCompletionView {
        ChatCompletionView { message: self.message@, usage: self.usage }
    }
}

impl Clone for ChatCompletion {
    fn clone(&self) -> (c: Self)
        ensures
            c@ == self@,
    {
        ChatCompletion { message: self.message.clone(), usage: self.usage }
    }
}

/// Factory for creating AI providers.
pub struct AIProviderFactory;

/// The reason for which no provider can be had under `name`.
pub open spec fn unavailable_reason(name: Seq<char>) -> Seq<char> {
    match provider_named(name) {
        Some(Provider::OpenAI) => "OpenAI provider not implemented yet"@,
        Some(Provider::Anthropic) => "Anthropic provider not implemented yet"@,
        None => "Unknown provider"@,
    }
}

impl AIProviderFactory {
    /// Says which provider is to be created for `provider_name`.
    ///
    /// No provider is implemented yet: every name is refused as invalid
    /// input, a known one with the words that it is not implemented, every
    /// other as unknown.
    pub fn create_provider(provider_name: &str, _api_key: String) -> (r: AppResult<Provider>)
        ensures
            r matches Err(e) && e@ == AppErrorView::InvalidInput(
                unavailable_reason(provider_name@),
            ),
    {
        match Provider::from_name(provider_name) {
            Some(Provider::OpenAI) => Err(
                AppError::invalid_input("OpenAI provider not implemented yet"),
            ),
            Some(Provider::Anthropic) => Err(
                AppError::invalid_input("Anthropic provider not implemented yet"),
            ),
            None => Err(AppError::invalid_input("Unknown provider")),
        }
    }
}

} // verus!
