use aethos_core::identity_store::{
    cache_key_from_identity, delete_wayfair_id_for_profile, ensure_local_identity_for_profile,
    ensure_stored_identity, load_relay_session_cache_for_profile,
    regenerate_local_identity_for_profile, save_relay_session_cache_for_profile,
    save_session_payload_for_profile, session_cache_to_json, summary_from_identity,
    EncryptedEnvelope, ProfileStore, RelaySessionCache, Stored, StoredIdentity,
};

const SEED_B64: &str = "nWGxne/9WmC6hEr0kuwsxERJxWl7MmkZcDusAxyuf2A=";
const VERIFYING_KEY_B64: &str = "11qYAYKxCrfVS/7TyWQHOg7hcvPapiMlrwIaaPcHURo=";
const CACHE_KEY_HEX: &str = "f44c3d1edb5dab3e752d2051dc8cbdf1b3d1df499a163c6e3c9eadfff4a0ed32";
const NONCE_B64: &str = "AAECAwQFBgcICQoL";
const SEALED_B64: &str =
    "xmdbM2KVrgYVp7HUyNWyAzjfyktqD7866xEZxCxHrF/7x78UD2j+ftPGjZ8poa6iDPNHZEQ5gC/x3JxuMpEXKxU=";
const PAYLOAD: &str = "{\"primary_status\":\"up\",\"secondary_status\":\"down\"}";

fn known_identity() -> StoredIdentity {
    StoredIdentity {
        wayfair_id: "wf-test".to_string(),
        signing_key_b64: SEED_B64.to_string(),
        device_name: "bench".to_string(),
        platform: "linux".to_string(),
    }
}

fn empty_store() -> ProfileStore {
    ProfileStore {
        identity: Stored::Absent,
        session_cache: Stored::Absent,
    }
}

fn hex(bytes: &[u8]) -> String {
    let mut text = String::new();
    for byte in bytes {
        text.push_str(&format!("{:02x}", byte));
    }
    text
}

fn cache(primary: &str, secondary: &str) -> RelaySessionCache {
    RelaySessionCache {
        primary_status: primary.to_string(),
        secondary_status: secondary.to_string(),
    }
}

#[test]
fn summary_derives_the_verifying_key_from_the_seed() {
    let summary = summary_from_identity(&known_identity()).expect("summary");
    assert_eq!(summary.wayfair_id, "wf-test");
    assert_eq!(summary.device_name, "bench");
    assert_eq!(summary.verifying_key_b64, VERIFYING_KEY_B64);
}

#[test]
fn summary_derivation_is_repeatable() {
    let identity = known_identity();
    assert_eq!(
        summary_from_identity(&identity),
        summary_from_identity(&identity)
    );
}

#[test]
fn summary_refuses_a_key_that_is_no_base64() {
    let mut identity = known_identity();
    identity.signing_key_b64 = "not base64!".to_string();
    let error = summary_from_identity(&identity).expect_err("bad key");
    assert!(error.starts_with("failed to decode signing key: "));
    assert!(error.len() > "failed to decode signing key: ".len());
}

#[test]
fn summary_refuses_a_seed_of_the_wrong_length() {
    let mut identity = known_identity();
    identity.signing_key_b64 = "AAECAwQFBgcICQoL".to_string();
    assert_eq!(
        summary_from_identity(&identity),
        Err("decoded signing key had invalid length".to_string())
    );
    identity.signing_key_b64 = String::new();
    assert_eq!(
        summary_from_identity(&identity),
        Err("decoded signing key had invalid length".to_string())
    );
}

#[test]
fn cache_key_is_the_digest_of_seed_and_identifier() {
    let key = cache_key_from_identity(&known_identity()).expect("key");
    assert_eq!(hex(&key), CACHE_KEY_HEX);
}

#[test]
fn cache_key_changes_with_the_identifier() {
    let mut other = known_identity();
    other.wayfair_id = "wf-other".to_string();
    assert_ne!(
        cache_key_from_identity(&known_identity()),
        cache_key_from_identity(&other)
    );
}

#[test]
fn cache_key_refuses_a_key_that_is_no_base64() {
    let mut identity = known_identity();
    identity.signing_key_b64 = "***".to_string();
    let error = cache_key_from_identity(&identity).expect_err("bad key");
    assert!(error.starts_with("failed to decode signing key for cache cipher: "));
}

#[test]
fn ensure_generates_an_identity_once() {
    let mut store = empty_store();
    let first = ensure_local_identity_for_profile(&mut store, Some("host-a")).expect("first");
    assert_eq!(first.device_name, "host-a");
    assert_eq!(first.wayfair_id.len(), 36);
    let stored = match &store.identity {
        Stored::Present(identity) => identity.clone(),
        other => panic!("no identity stored: {:?}", other),
    };
    assert_eq!(stored.platform, "linux");
    assert_eq!(stored.wayfair_id, first.wayfair_id);
    assert_eq!(stored.signing_key_b64.len(), 44);

    let second = ensure_local_identity_for_profile(&mut store, Some("host-b")).expect("second");
    assert_eq!(second, first);
    assert_eq!(store.identity, Stored::Present(stored));
    assert_eq!(store.session_cache, Stored::Absent);
}

#[test]
fn generated_identifier_has_uuid_shape() {
    for _ in 0..20 {
        let mut store = empty_store();
        let summary = regenerate_local_identity_for_profile(&mut store, None).expect("identity");
        let id: Vec<char> = summary.wayfair_id.chars().collect();
        assert_eq!(id.len(), 36);
        for (at, c) in id.iter().enumerate() {
            if at == 8 || at == 13 || at == 18 || at == 23 {
                assert_eq!(*c, '-');
            } else {
                assert!(matches!(*c, '0'..='9' | 'a'..='f'), "{}", summary.wayfair_id);
            }
        }
    }
}

#[test]
fn ensure_returns_the_stored_identity() {
    let mut store = empty_store();
    store.identity = Stored::Present(known_identity());
    let summary = ensure_local_identity_for_profile(&mut store, None).expect("summary");
    assert_eq!(summary.verifying_key_b64, VERIFYING_KEY_B64);
    assert_eq!(store.identity, Stored::Present(known_identity()));
}

#[test]
fn ensure_reports_an_unreadable_identity() {
    let mut store = empty_store();
    store.identity = Stored::Unreadable("failed to parse identity file at /x: eof".to_string());
    assert_eq!(
        ensure_local_identity_for_profile(&mut store, None),
        Err("failed to parse identity file at /x: eof".to_string())
    );
    assert_eq!(
        ensure_stored_identity(&mut store, None),
        Err("failed to parse identity file at /x: eof".to_string())
    );
    assert_eq!(
        store.identity,
        Stored::Unreadable("failed to parse identity file at /x: eof".to_string())
    );
}

#[test]
fn ensure_stored_identity_generates_where_there_is_none() {
    let mut store = empty_store();
    let identity = ensure_stored_identity(&mut store, None).expect("identity");
    assert_eq!(identity.device_name, "linux-device");
    assert_eq!(store.identity, Stored::Present(identity));
}

#[test]
fn regenerate_then_ensure_returns_the_same_summary() {
    let mut store = empty_store();
    store.identity = Stored::Present(known_identity());
    let regenerated =
        regenerate_local_identity_for_profile(&mut store, Some("host")).expect("regenerate");
    assert_ne!(regenerated.wayfair_id, "wf-test");
    assert_ne!(regenerated.verifying_key_b64, VERIFYING_KEY_B64);
    let ensured = ensure_local_identity_for_profile(&mut store, Some("host")).expect("ensure");
    assert_eq!(ensured, regenerated);
    let stored = match &store.identity {
        Stored::Present(identity) => identity.clone(),
        other => panic!("no identity stored: {:?}", other),
    };
    assert_eq!(summary_from_identity(&stored), Ok(regenerated));
}

#[test]
fn regenerate_overwrites_an_unreadable_identity() {
    let mut store = empty_store();
    store.identity = Stored::Unreadable("corrupt".to_string());
    let summary = regenerate_local_identity_for_profile(&mut store, None).expect("regenerate");
    assert_eq!(summary.device_name, "linux-device");
    assert!(matches!(store.identity, Stored::Present(_)));
}

#[test]
fn regenerate_gives_a_new_identity_each_time() {
    let mut store = empty_store();
    let first = regenerate_local_identity_for_profile(&mut store, None).expect("first");
    let second = regenerate_local_identity_for_profile(&mut store, None).expect("second");
    assert_ne!(first.wayfair_id, second.wayfair_id);
    assert_ne!(first.verifying_key_b64, second.verifying_key_b64);
}

#[test]
fn delete_of_nothing_succeeds_and_changes_nothing() {
    let mut store = empty_store();
    assert_eq!(delete_wayfair_id_for_profile(&mut store), Ok(()));
    assert_eq!(store, empty_store());
}

#[test]
fn delete_twice_succeeds_both_times() {
    let mut store = empty_store();
    store.identity = Stored::Present(known_identity());
    save_relay_session_cache_for_profile(&mut store, None, &cache("a", "b")).expect("save");
    assert_eq!(delete_wayfair_id_for_profile(&mut store), Ok(()));
    assert_eq!(store, empty_store());
    assert_eq!(delete_wayfair_id_for_profile(&mut store), Ok(()));
    assert_eq!(store, empty_store());
}

#[test]
fn delete_removes_unreadable_files_too() {
    let mut store = ProfileStore {
        identity: Stored::Unreadable("x".to_string()),
        session_cache: Stored::Unreadable("y".to_string()),
    };
    assert_eq!(delete_wayfair_id_for_profile(&mut store), Ok(()));
    assert_eq!(store, empty_store());
}

#[test]
fn session_cache_json_has_both_fields_in_order() {
    assert_eq!(session_cache_to_json(&cache("up", "down")).expect("json"), PAYLOAD);
    assert_eq!(
        session_cache_to_json(&cache("say \"hi\"\n", "back\\slash")).expect("json"),
        "{\"primary_status\":\"say \\\"hi\\\"\\n\",\"secondary_status\":\"back\\\\slash\"}"
    );
}

#[test]
fn save_then_load_returns_the_cache() {
    let mut store = empty_store();
    store.identity = Stored::Present(known_identity());
    let saved = cache("Primary relay status: ok \u{b7} 1", "Secondary \"relay\"");
    save_relay_session_cache_for_profile(&mut store, None, &saved).expect("save");
    assert_eq!(store.identity, Stored::Present(known_identity()));

    let payload = load_relay_session_cache_for_profile(&mut store, None)
        .expect("load")
        .expect("payload");
    assert_eq!(payload, session_cache_to_json(&saved).expect("json").into_bytes());
    let parsed: serde_json::Value = serde_json::from_slice(&payload).expect("json payload");
    assert_eq!(parsed["primary_status"], "Primary relay status: ok \u{b7} 1");
    assert_eq!(parsed["secondary_status"], "Secondary \"relay\"");
}

#[test]
fn save_seals_the_payload() {
    let mut store = empty_store();
    store.identity = Stored::Present(known_identity());
    save_session_payload_for_profile(&mut store, None, PAYLOAD.as_bytes()).expect("save");
    let envelope = match &store.session_cache {
        Stored::Present(envelope) => envelope,
        other => panic!("no cache stored: {:?}", other),
    };
    assert_eq!(envelope.nonce_b64.len(), 16);
    let sealed_len = PAYLOAD.len() + 16;
    assert_eq!(envelope.ciphertext_b64.len(), (sealed_len + 2) / 3 * 4);
    assert_ne!(envelope.ciphertext_b64, SEALED_B64);
    assert!(!envelope.ciphertext_b64.contains("primary"));
}

#[test]
fn save_uses_a_fresh_nonce_each_time() {
    let mut store = empty_store();
    store.identity = Stored::Present(known_identity());
    save_relay_session_cache_for_profile(&mut store, None, &cache("a", "b")).expect("first");
    let first = match &store.session_cache {
        Stored::Present(envelope) => envelope.nonce_b64.clone(),
        other => panic!("no cache stored: {:?}", other),
    };
    save_relay_session_cache_for_profile(&mut store, None, &cache("a", "b")).expect("second");
    let second = match &store.session_cache {
        Stored::Present(envelope) => envelope.nonce_b64.clone(),
        other => panic!("no cache stored: {:?}", other),
    };
    assert_ne!(first, second);
}

#[test]
fn save_generates_an_identity_where_there_is_none() {
    let mut store = empty_store();
    save_relay_session_cache_for_profile(&mut store, Some("host"), &cache("a", "b"))
        .expect("save");
    assert!(matches!(store.identity, Stored::Present(_)));
    let payload = load_relay_session_cache_for_profile(&mut store, Some("host"))
        .expect("load")
        .expect("payload");
    assert_eq!(payload, b"{\"primary_status\":\"a\",\"secondary_status\":\"b\"}".to_vec());
}

#[test]
fn save_fails_on_an_unreadable_identity() {
    let mut store = empty_store();
    store.identity = Stored::Unreadable("no access".to_string());
    assert_eq!(
        save_relay_session_cache_for_profile(&mut store, None, &cache("a", "b")),
        Err("no access".to_string())
    );
    assert_eq!(store.session_cache, Stored::Absent);
}

#[test]
fn save_fails_on_a_key_that_is_no_base64() {
    let mut store = empty_store();
    let mut identity = known_identity();
    identity.signing_key_b64 = "%%%".to_string();
    store.identity = Stored::Present(identity);
    let error = save_relay_session_cache_for_profile(&mut store, None, &cache("a", "b"))
        .expect_err("bad key");
    assert!(error.starts_with("failed to decode signing key for cache cipher: "));
    assert_eq!(store.session_cache, Stored::Absent);
}

#[test]
fn load_opens_an_envelope_sealed_elsewhere() {
    let mut store = ProfileStore {
        identity: Stored::Present(known_identity()),
        session_cache: Stored::Present(EncryptedEnvelope {
            nonce_b64: NONCE_B64.to_string(),
            ciphertext_b64: SEALED_B64.to_string(),
        }),
    };
    assert_eq!(
        load_relay_session_cache_for_profile(&mut store, None),
        Ok(Some(PAYLOAD.as_bytes().to_vec()))
    );
}

#[test]
fn load_without_a_cache_returns_none_and_touches_nothing() {
    let mut store = empty_store();
    assert_eq!(load_relay_session_cache_for_profile(&mut store, None), Ok(None));
    assert_eq!(store, empty_store());

    store.identity = Stored::Unreadable("corrupt".to_string());
    assert_eq!(load_relay_session_cache_for_profile(&mut store, None), Ok(None));
}

#[test]
fn load_after_regeneration_fails() {
    let mut store = empty_store();
    save_relay_session_cache_for_profile(&mut store, None, &cache("a", "b")).expect("save");
    regenerate_local_identity_for_profile(&mut store, None).expect("regenerate");
    assert_eq!(
        load_relay_session_cache_for_profile(&mut store, None),
        Err("failed to decrypt session cache payload: aead::Error".to_string())
    );
}

#[test]
fn load_of_a_cache_without_identity_generates_one_and_fails() {
    let mut store = ProfileStore {
        identity: Stored::Absent,
        session_cache: Stored::Present(EncryptedEnvelope {
            nonce_b64: NONCE_B64.to_string(),
            ciphertext_b64: SEALED_B64.to_string(),
        }),
    };
    assert_eq!(
        load_relay_session_cache_for_profile(&mut store, None),
        Err("failed to decrypt session cache payload: aead::Error".to_string())
    );
    assert!(matches!(store.identity, Stored::Present(_)));
}

#[test]
fn load_refuses_a_tampered_envelope() {
    let mut tampered = SEALED_B64.to_string();
    tampered.replace_range(0..1, "y");
    let mut store = ProfileStore {
        identity: Stored::Present(known_identity()),
        session_cache: Stored::Present(EncryptedEnvelope {
            nonce_b64: NONCE_B64.to_string(),
            ciphertext_b64: tampered,
        }),
    };
    assert_eq!(
        load_relay_session_cache_for_profile(&mut store, None),
        Err("failed to decrypt session cache payload: aead::Error".to_string())
    );
}

#[test]
fn load_refuses_a_nonce_of_the_wrong_length() {
    let mut store = ProfileStore {
        identity: Stored::Present(known_identity()),
        session_cache: Stored::Present(EncryptedEnvelope {
            nonce_b64: "AAECAwQFBgcICQo=".to_string(),
            ciphertext_b64: SEALED_B64.to_string(),
        }),
    };
    assert_eq!(
        load_relay_session_cache_for_profile(&mut store, None),
        Err("cache nonce had invalid length".to_string())
    );
}

#[test]
fn load_refuses_a_nonce_that_is_no_base64() {
    let mut store = ProfileStore {
        identity: Stored::Present(known_identity()),
        session_cache: Stored::Present(EncryptedEnvelope {
            nonce_b64: "?".to_string(),
            ciphertext_b64: SEALED_B64.to_string(),
        }),
    };
    let error = load_relay_session_cache_for_profile(&mut store, None).expect_err("bad nonce");
    assert!(error.starts_with("failed to decode cache nonce: "));
}

#[test]
fn load_refuses_a_ciphertext_that_is_no_base64() {
    let mut store = ProfileStore {
        identity: Stored::Present(known_identity()),
        session_cache: Stored::Present(EncryptedEnvelope {
            nonce_b64: NONCE_B64.to_string(),
            ciphertext_b64: "a".to_string(),
        }),
    };
    let error = load_relay_session_cache_for_profile(&mut store, None).expect_err("bad payload");
    assert!(error.starts_with("failed to decode encrypted cache payload: "));
}

#[test]
fn load_reports_an_unreadable_cache() {
    let mut store = ProfileStore {
        identity: Stored::Present(known_identity()),
        session_cache: Stored::Unreadable("failed to parse encrypted cache file".to_string()),
    };
    assert_eq!(
        load_relay_session_cache_for_profile(&mut store, None),
        Err("failed to parse encrypted cache file".to_string())
    );
}

#[test]
fn load_reports_an_unreadable_identity_first() {
    let mut store = ProfileStore {
        identity: Stored::Unreadable("identity gone".to_string()),
        session_cache: Stored::Unreadable("cache gone".to_string()),
    };
    assert_eq!(
        load_relay_session_cache_for_profile(&mut store, None),
        Err("identity gone".to_string())
    );
}
