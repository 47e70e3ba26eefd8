use chat_bridge::completion::CompletionError;
use chat_bridge::config::ConfigError;
use chat_bridge::error::BridgeError;

#[test]
fn only_a_configuration_error_is_fatal() {
    assert!(BridgeError::Config(ConfigError::MissingCredential).is_fatal());
    assert!(!BridgeError::Transport { detail: "d".to_string() }.is_fatal());
    assert!(!BridgeError::Completion(CompletionError::EmptyChoice).is_fatal());
    assert!(!BridgeError::Completion(CompletionError::NoContent).is_fatal());
    assert!(
        !BridgeError::Completion(CompletionError::Transport { detail: "d".to_string() }).is_fatal()
    );
    assert!(
        !BridgeError::Publish { topic: "/t".to_string(), detail: "d".to_string() }.is_fatal()
    );
}

#[test]
fn bridge_error_messages() {
    assert_eq!(
        BridgeError::Config(ConfigError::MissingCredential).message(),
        "OPENAI_API_KEY or OPENROUTER_API_KEY environment variable must be set"
    );
    assert_eq!(
        BridgeError::Transport { detail: "broken pipe".to_string() }.message(),
        "MQTT error: broken pipe"
    );
    assert_eq!(
        BridgeError::Completion(CompletionError::EmptyChoice).message(),
        "OpenAI API call failed: No response from OpenAI API"
    );
    assert_eq!(
        BridgeError::Completion(CompletionError::NoContent).message(),
        "OpenAI API call failed: Empty response from OpenAI API"
    );
    assert_eq!(
        BridgeError::Completion(CompletionError::Transport { detail: "503".to_string() }).message(),
        "OpenAI API call failed: 503"
    );
    assert_eq!(
        BridgeError::Publish { topic: "/client_gpt".to_string(), detail: "closed".to_string() }
            .message(),
        "Failed to publish to /client_gpt: closed"
    );
}
