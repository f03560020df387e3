use passepartout::credentials::{CredentialManager, Provider};

#[test]
fn test_provider_as_str() {
    assert_eq!(Provider::Anthropic.as_str(), "anthropic");
    assert_eq!(Provider::OpenAI.as_str(), "openai");
    assert_eq!(Provider::Google.as_str(), "google");
}

#[test]
fn test_provider_env_var_name() {
    assert_eq!(Provider::Anthropic.env_var_name(), "ANTHROPIC_API_KEY");
    assert_eq!(Provider::OpenAI.env_var_name(), "OPENAI_API_KEY");
    assert_eq!(Provider::Google.env_var_name(), "GOOGLE_API_KEY");
}

#[test]
fn test_provider_from_str() {
    assert!(matches!(Provider::from_str("anthropic"), Some(Provider::Anthropic)));
    assert!(matches!(Provider::from_str("OPENAI"), Some(Provider::OpenAI)));
    assert!(matches!(Provider::from_str("Google"), Some(Provider::Google)));
    assert!(Provider::from_str("unknown").is_none());
}

#[test]
fn from_lowercase_needs_lower_case() {
    assert_eq!(Provider::from_lowercase("google"), Some(Provider::Google));
    assert_eq!(Provider::from_lowercase("Google"), None);
}

#[test]
fn all_lists_providers_in_order() {
    assert_eq!(Provider::all(), &[Provider::Anthropic, Provider::OpenAI, Provider::Google]);
}

#[test]
fn saved_key_is_found_and_listed() {
    let mut store = CredentialManager::new();
    assert!(!store.has_credential(Provider::OpenAI));
    store.save_credential(Provider::OpenAI, "sk-1");
    assert_eq!(store.get_credential(Provider::OpenAI), Some("sk-1".to_string()));
    assert!(store.has_credential(Provider::OpenAI));
    assert_eq!(store.get_credential(Provider::Google), None);
    assert_eq!(
        store.list_credentials(),
        vec![
            ("anthropic".to_string(), false),
            ("openai".to_string(), true),
            ("google".to_string(), false),
        ]
    );
}

#[test]
fn saving_again_replaces_the_key() {
    let mut store = CredentialManager::new();
    store.save_credential(Provider::Anthropic, "old");
    store.save_credential(Provider::Anthropic, "new");
    assert_eq!(store.get_credential(Provider::Anthropic), Some("new".to_string()));
    assert_eq!(store.entries_ref().len(), 1);
}

#[test]
fn deleting_removes_only_that_key() {
    let mut store = CredentialManager::new();
    store.save_credential(Provider::Anthropic, "a");
    store.save_credential(Provider::Google, "g");
    store.delete_credential(Provider::Anthropic);
    assert_eq!(store.get_credential(Provider::Anthropic), None);
    assert_eq!(store.get_credential(Provider::Google), Some("g".to_string()));
}

#[test]
fn env_vars_follow_provider_order() {
    let mut store = CredentialManager::new();
    store.save_credential(Provider::Google, "g");
    store.save_credential(Provider::Anthropic, "a");
    assert_eq!(
        store.get_credentials_as_env_vars(),
        vec![
            ("ANTHROPIC_API_KEY".to_string(), "a".to_string()),
            ("GOOGLE_API_KEY".to_string(), "g".to_string()),
        ]
    );
}

#[test]
fn entries_keep_unknown_ids_and_last_duplicate_wins() {
    let entries = vec![
        ("openai".to_string(), "first".to_string()),
        ("mistral".to_string(), "m".to_string()),
        ("openai".to_string(), "second".to_string()),
    ];
    let store = CredentialManager::from_entries(&entries);
    assert_eq!(store.get_credential(Provider::OpenAI), Some("second".to_string()));
    assert!(store.entries_ref().iter().any(|(k, v)| k == "mistral" && v == "m"));
    assert_eq!(store.entries_ref().len(), 2);
}
