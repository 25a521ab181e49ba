use shorts_tauri_app::api_profiles::{
    activate_profile, api_profile_secret_key, api_provider_has_profiles, apply_profile_addition,
    create_api_profile_id, default_api_profile_label, delete_profile, key_last_four,
    legacy_api_key_name, migrate_legacy_api_key, mirror_plan, newest_first,
    normalize_api_provider, plan_profile_addition, view_api_profiles, ApiKeyProfileStore,
};

fn add(store: &mut ApiKeyProfileStore, label: &str, key: &str, now: u64, activate: bool) -> String {
    let a = plan_profile_addition("muapi", label, key, now).expect("valid addition");
    apply_profile_addition(store, &a, activate);
    a.id
}

#[test]
fn api_key_profiles_keep_metadata_secret_free_and_switch_active_key() {
    let mut store = ApiKeyProfileStore::new();
    let first_id = add(&mut store, "Personal MuAPI", "muapi-secret-one", 1_000, true);
    let view = view_api_profiles("muapi", &store, false);
    assert_eq!(view.profiles.len(), 1);
    assert_eq!(view.profiles[0].label, "Personal MuAPI");
    assert_eq!(view.profiles[0].last_four, "-one");
    assert!(view.profiles[0].active);

    let client_id = add(&mut store, "Client MuAPI", "muapi-secret-two", 2_000, false);
    let view = view_api_profiles("muapi", &store, false);
    assert_eq!(view.profiles.len(), 2);
    let client = view.profiles.iter().find(|p| p.label == "Client MuAPI").expect("client listed");
    assert!(!client.active);

    let encoded = format!("{:?}", store.profiles);
    assert!(!encoded.contains("muapi-secret-one"));
    assert!(!encoded.contains("muapi-secret-two"));

    activate_profile(&mut store, "muapi", &client_id).expect("client profile should activate");
    let view = view_api_profiles("muapi", &store, false);
    assert!(view.profiles.iter().any(|p| p.id == client_id && p.active));
    let (legacy, source) = mirror_plan("muapi", &store).expect("plan");
    assert_eq!(legacy, "MUAPI_API_KEY");
    assert_eq!(source, Some(api_profile_secret_key("muapi", &client_id).unwrap()));

    let removed = delete_profile(&mut store, "muapi", &client_id).expect("active profile deletes");
    assert_eq!(removed, api_profile_secret_key("muapi", &client_id).unwrap());
    let view = view_api_profiles("muapi", &store, false);
    assert_eq!(view.profiles.len(), 1);
    assert!(view.profiles[0].active);
    assert_eq!(view.profiles[0].id, first_id);
    let (_, source) = mirror_plan("muapi", &store).expect("plan");
    assert_eq!(source, Some(api_profile_secret_key("muapi", &first_id).unwrap()));
}

#[test]
fn legacy_key_is_migrated_to_active_profile() {
    let mut store = ApiKeyProfileStore::new();
    let added = migrate_legacy_api_key(&mut store, "openai", Some("openai-legacy-secret"), 5)
        .expect("migration")
        .expect("a profile is created");
    assert_eq!(added.label, "Current OpenAI key");
    let view = view_api_profiles("openai", &store, false);
    assert_eq!(view.profiles.len(), 1);
    assert_eq!(view.profiles[0].label, "Current OpenAI key");
    assert_eq!(view.profiles[0].last_four, "cret");
    assert!(view.profiles[0].active);
    assert!(!format!("{:?}", store.profiles).contains("openai-legacy-secret"));

    let again = migrate_legacy_api_key(&mut store, "openai", Some("other"), 6).expect("migration");
    assert!(again.is_none());
    let mut empty = ApiKeyProfileStore::new();
    assert!(migrate_legacy_api_key(&mut empty, "muapi", Some("   "), 6).unwrap().is_none());
    assert!(!api_provider_has_profiles(&empty, "muapi"));
}

#[test]
fn providers_and_names() {
    assert_eq!(normalize_api_provider(" MuAPI ").unwrap(), "muapi");
    assert_eq!(normalize_api_provider("OPENAI").unwrap(), "openai");
    assert_eq!(normalize_api_provider("gemini").unwrap_err(), "unsupported API key provider");
    assert_eq!(legacy_api_key_name("openai").unwrap(), "OPENAI_API_KEY");
    assert_eq!(default_api_profile_label("muapi").unwrap(), "Current MuAPI key");
    assert_eq!(api_profile_secret_key("muapi", "abc").unwrap(), "API_KEY_PROFILE_MUAPI_abc");
}

#[test]
fn last_four_and_profile_ids() {
    assert_eq!(key_last_four("abcdefgh"), "efgh");
    assert_eq!(key_last_four("abc"), "abc");
    let id = create_api_profile_id("muapi", "Personal", "key", 42);
    assert_eq!(id.len(), 16);
    assert!(id.chars().all(|c| c.is_ascii_hexdigit()));
    assert_eq!(id, create_api_profile_id("muapi", "Personal", "key", 42));
    assert_ne!(id, create_api_profile_id("muapi", "Personal", "key", 43));
}

#[test]
fn additions_validate_their_inputs() {
    assert_eq!(plan_profile_addition("x", "a", "b", 0).unwrap_err(), "unsupported API key provider");
    assert_eq!(plan_profile_addition("muapi", "  ", "b", 0).unwrap_err(), "profile name is required");
    assert_eq!(plan_profile_addition("muapi", "a", " ", 0).unwrap_err(), "API key is required");
    let mut store = ApiKeyProfileStore::new();
    assert_eq!(activate_profile(&mut store, "muapi", "nope").unwrap_err(), "API key profile not found");
    assert_eq!(delete_profile(&mut store, "muapi", "nope").unwrap_err(), "API key profile not found");
}

#[test]
fn newest_profiles_come_first() {
    assert_eq!(newest_first(&vec![5, 9, 7], 3), vec![1, 2, 0]);
    let mut store = ApiKeyProfileStore::new();
    add(&mut store, "old", "k1", 1, true);
    add(&mut store, "new", "k2", 9, false);
    let view = view_api_profiles("muapi", &store, true);
    assert!(view.env_override);
    assert_eq!(view.profiles[0].label, "new");
    assert_eq!(view.profiles[1].label, "old");
}

#[test]
fn deleting_and_migrating_accept_any_spelling_of_the_provider() {
    let mut store = ApiKeyProfileStore::new();
    let id = add(&mut store, "Personal MuAPI", "muapi-secret-one", 1_000, true);
    assert_eq!(delete_profile(&mut store, "  MuAPI ", "other").unwrap_err(), "API key profile not found");
    assert_eq!(delete_profile(&mut store, "vimeo", &id).unwrap_err(), "unsupported API key provider");
    let removed = delete_profile(&mut store, " MUAPI", &id).expect("deletes");
    assert_eq!(removed, api_profile_secret_key("muapi", &id).unwrap());
    assert!(!api_provider_has_profiles(&store, "muapi"));

    let added = migrate_legacy_api_key(&mut store, " OpenAI ", Some("sk-legacy"), 7).expect("migration");
    let a = added.expect("legacy key taken over");
    assert_eq!(a.provider, "openai");
    assert_eq!(a.label, "Current OpenAI key");
    assert!(migrate_legacy_api_key(&mut store, "vimeo", Some("x"), 8).is_err());
}
