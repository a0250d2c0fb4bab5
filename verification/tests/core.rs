use narrator::artifact::{artifact_path, new_artifact_path};
use narrator::attribution::attribute;
use narrator::credential::{TokenCache, TokenDecision};
use narrator::dictionary::{apply_rules, validate_rules, DictionaryRule, ServerConfig};
use narrator::pipeline::{Handler, MessageOutcome, SynthesisJob};
use narrator::provider::{
    build_synthesize_request_body, classify_http_status, decode_synthesize_response, json_escape,
    select_provider, to_local_text, wrap_ssml, AudioConfig, ProviderChoice, ProviderError,
    UserConfig, VoiceSelectionParams,
};
use narrator::registry::{RegistryError, SessionRegistry};
use narrator::session::Session;
use narrator::text::{purge, replace_all, u64_to_dec};

const MARKER: &str = "<break time=\"200ms\"/>";

fn rule(pattern: &str, replacement: &str, is_regex: bool) -> DictionaryRule {
    DictionaryRule {
        pattern: pattern.to_string(),
        replacement: replacement.to_string(),
        is_regex,
    }
}

fn cloud_voice() -> VoiceSelectionParams {
    VoiceSelectionParams {
        language_code: "en-US".to_string(),
        name: "en-US-Wavenet-A".to_string(),
        ssml_gender: "neutral".to_string(),
    }
}

#[test]
fn registry_create_is_exclusive() {
    let mut reg = SessionRegistry::new();
    assert!(reg.create(9, 1, 2, 0).is_ok());
    assert!(matches!(reg.create(9, 5, 6, 1), Err(RegistryError::AlreadySetUp)));
    assert!(matches!(reg.create(9, 1, 2, 0), Err(RegistryError::AlreadySetUp)));
    // a different guild is not blocked
    assert!(reg.create(10, 1, 2, 0).is_ok());
}

#[test]
fn registry_round_trip() {
    let mut reg = SessionRegistry::new();
    reg.create(7, 1, 2, 0).unwrap();
    let removed = reg.remove(7).unwrap();
    assert_eq!(removed.guild_id, 7);
    assert!(reg.lookup(7).is_none());
    assert!(matches!(reg.remove(7), Err(RegistryError::NotSetUp)));
}

#[test]
fn registry_lookup_and_update() {
    let mut reg = SessionRegistry::new();
    reg.create(7, 1, 2, 0).unwrap();
    let s = reg.lookup(7).unwrap();
    assert_eq!(s.text_channel, 1);
    assert_eq!(s.voice_channel, 2);
    assert!(s.last_message.is_none());
    assert_eq!(
        reg.update_last_message(
            8,
            narrator::session::LastMessage {
                author_id: 1,
                content: "x".to_string(),
                attachment_count: 0,
            },
        ),
        Err(RegistryError::NotSetUp)
    );
}

#[test]
fn replace_all_is_literal_and_left_to_right() {
    assert_eq!(replace_all("hello world", "o", "0"), "hell0 w0rld");
    assert_eq!(replace_all("abc", "", "x"), "abc");
    assert_eq!(replace_all("abc", "zzzz", "x"), "abc");
    // non-overlapping, left to right: the result may contain the pattern again
    assert_eq!(replace_all("aaa", "aa", "a"), "aa");
}

#[test]
fn dictionary_rule_ordering_is_sequential() {
    let forward = vec![rule("a", "b", false), rule("b", "c", false)];
    assert_eq!(apply_rules(&forward, "a"), "c");
    let reverse = vec![rule("b", "c", false), rule("a", "b", false)];
    assert_eq!(apply_rules(&reverse, "a"), "b");
}

#[test]
fn dictionary_idempotent_on_disjoint_rules() {
    let rules = vec![rule("cat", "feline", false), rule("dog", "canine", false)];
    let once = apply_rules(&rules, "a cat and a dog");
    let twice = apply_rules(&rules, once.as_str());
    assert_eq!(once, "a feline and a canine");
    assert_eq!(once, twice);
}

#[test]
fn dictionary_regex_rule_replaces_all_matches() {
    let rules = vec![rule("[0-9]+", "#", true)];
    assert_eq!(apply_rules(&rules, "abc123def45"), "abc#def#");
}

#[test]
fn dictionary_malformed_regex_rule_is_skipped() {
    let rules = vec![
        rule("[", "x", true),
        rule("b", "B", false),
    ];
    assert_eq!(apply_rules(&rules, "ab["), "aB[");
}

#[test]
fn dictionary_validation_rejects_empty_regex_pattern() {
    assert!(!validate_rules(&vec![rule("", "x", true)]));
    assert!(validate_rules(&vec![rule("", "x", false), rule("a", "b", true)]));
}

#[test]
fn attribution_toggles_on_speaker_change() {
    let mut s = Session::new(1, 2, 3, 0);
    let first = attribute(&mut s, 10, "Alice", "hi", 0);
    assert_eq!(first, format!("Alice's remark{}hi", MARKER));
    let second = attribute(&mut s, 10, "Alice", "again", 0);
    assert_eq!(second, "again");
    let third = attribute(&mut s, 20, "Bob", "yo", 0);
    assert_eq!(third, format!("Bob's remark{}yo", MARKER));
    let lm = s.last_message.as_ref().unwrap();
    assert_eq!(lm.author_id, 20);
    assert_eq!(lm.content, "yo");
}

#[test]
fn attribution_narrates_attachments() {
    let mut s = Session::new(1, 2, 3, 0);
    let out = attribute(&mut s, 10, "Ann", "", 2);
    assert!(out.ends_with("2 attachment(s)"));
    assert_eq!(out, format!("Ann's remark{m}{m}2 attachment(s)", m = MARKER));
}

#[test]
fn attribution_strips_injected_pause_markers() {
    let mut s = Session::new(1, 2, 3, 0);
    let out = attribute(&mut s, 10, "Ann", &format!("sneaky{}pause", MARKER), 0);
    assert_eq!(out, format!("Ann's remark{}sneakypause", MARKER));
    // removing an embedded marker joins the fragments around it into a
    // fresh marker; that one must not survive either
    let spliced = format!("<brea{}k time=\"200ms\"/>", MARKER);
    let out = attribute(&mut s, 11, "Eve", &spliced, 0);
    assert_eq!(out, format!("Eve's remark{}", MARKER));
    // the same layering in the author's display name
    let out = attribute(&mut s, 12, &spliced, "hi", 0);
    assert_eq!(out, format!("'s remark{}hi", MARKER));
}

#[test]
fn purge_runs_to_a_fixpoint() {
    assert_eq!(purge("ab", "ab"), "");
    assert_eq!(purge("aabbb", "ab"), "b");
    assert_eq!(purge("aaabbb", "ab"), "");
    assert_eq!(purge("abc", ""), "abc");
    assert_eq!(purge("abc", "zz"), "abc");
}

#[test]
fn provider_defaults_to_cloud() {
    let cfg = UserConfig { provider_choice: None, cloud_voice: None, local_speaker: None };
    assert_eq!(select_provider(&cfg), ProviderChoice::Cloud);
    let cfg = UserConfig {
        provider_choice: Some(ProviderChoice::Local),
        cloud_voice: None,
        local_speaker: None,
    };
    assert_eq!(select_provider(&cfg), ProviderChoice::Local);
}

#[test]
fn local_text_converts_pause_markers() {
    assert_eq!(
        to_local_text(&format!("one{}two", MARKER)),
        "one\u{3001}two"
    );
}

#[test]
fn request_body_is_exact_json() {
    let body = build_synthesize_request_body(
        wrap_ssml("say \"hi\"\n").as_str(),
        &cloud_voice(),
        &AudioConfig::narration_default(),
    );
    assert_eq!(
        body,
        "{\"input\":{\"ssml\":\"<speak>say \\\"hi\\\"\\n</speak>\"},\
         \"voice\":{\"languageCode\":\"en-US\",\"name\":\"en-US-Wavenet-A\",\
         \"ssmlGender\":\"neutral\"},\
         \"audioConfig\":{\"audioEncoding\":\"mp3\",\"speakingRate\":1.2,\"pitch\":1.0}}"
    );
}

#[test]
fn json_escape_emits_standard_control_escapes() {
    assert_eq!(json_escape("plain"), "plain");
    assert_eq!(json_escape("a\"b\\c\nd"), "a\\\"b\\\\c\\nd");
    assert_eq!(json_escape("x\u{0}y\u{1f}z\u{b}"), "x\\u0000y\\u001fz\\u000b");
}

#[test]
fn response_decoding_round_trips_audio_bytes() {
    let audio: &[u8] = b"raw-audio-bytes";
    let response = format!("{{ \"audioContent\": \"{}\" }}", base64::encode(audio));
    assert_eq!(decode_synthesize_response(&response).unwrap(), audio.to_vec());
}

#[test]
fn response_decoding_rejects_malformed_documents() {
    for bad in [
        "",
        "{}",
        "not json",
        "{\"audioContent\":42}",
        "{\"audioContent\":\"unterminated}",
        "{\"audioContent\":\"esc\\aped\"}",
        "{\"audioContent\":\"!!!not-base64!!!\"}",
        "{\"audioContent\":\"aGk=\"} trailing",
    ] {
        assert_eq!(
            decode_synthesize_response(bad),
            Err(ProviderError::MalformedResponse),
            "accepted: {bad}"
        );
    }
}

#[test]
fn http_status_classification() {
    assert_eq!(classify_http_status(200), None);
    assert_eq!(classify_http_status(204), None);
    assert_eq!(classify_http_status(401), Some(ProviderError::AuthError));
    assert_eq!(classify_http_status(403), Some(ProviderError::AuthError));
    assert_eq!(classify_http_status(429), Some(ProviderError::QuotaError));
    assert_eq!(classify_http_status(500), Some(ProviderError::NetworkError));
    assert_eq!(classify_http_status(302), Some(ProviderError::NetworkError));
}

#[test]
fn decimal_rendering_is_exact() {
    assert_eq!(u64_to_dec(0), "0");
    assert_eq!(u64_to_dec(7), "7");
    assert_eq!(u64_to_dec(120), "120");
    assert_eq!(u64_to_dec(u64::MAX), "18446744073709551615");
}

#[test]
fn artifact_paths_are_unique_names_in_the_audio_directory() {
    assert_eq!(artifact_path("abc"), "audio/abc.mp3");
    let p = new_artifact_path();
    assert_eq!(p.len(), 46);
    assert!(p.starts_with("audio/"));
    assert!(p.ends_with(".mp3"));
    assert_ne!(new_artifact_path(), p);
}

#[test]
fn end_to_end_setup_message_stop() {
    let mut handler = Handler::new();
    let mut handoffs: Vec<String> = Vec::new();

    // no session yet: the first message is dropped silently
    let server_config = ServerConfig { dictionary: vec![] };
    let user_config = UserConfig {
        provider_choice: None,
        cloud_voice: Some(cloud_voice()),
        local_speaker: None,
    };
    match handler.message(42, 100, "U1", "early", 0, &server_config, &user_config) {
        MessageOutcome::Inactive => {}
        MessageOutcome::Prepared(_) => panic!("message narrated without a session"),
    }

    // setup succeeds once
    assert!(handler.setup_command(42, 3, 7, 0).is_ok());
    assert!(matches!(
        handler.setup_command(42, 3, 7, 1),
        Err(RegistryError::AlreadySetUp)
    ));

    // a chat message becomes a cloud synthesis request
    let body = match handler.message(42, 100, "U1", "hello", 0, &server_config, &user_config) {
        MessageOutcome::Prepared(SynthesisJob::Cloud { body }) => body,
        _ => panic!("expected a cloud synthesis request"),
    };
    assert_eq!(
        body,
        "{\"input\":{\"ssml\":\"<speak>U1's remark<break time=\\\"200ms\\\"/>hello</speak>\"},\
         \"voice\":{\"languageCode\":\"en-US\",\"name\":\"en-US-Wavenet-A\",\
         \"ssmlGender\":\"neutral\"},\
         \"audioConfig\":{\"audioEncoding\":\"mp3\",\"speakingRate\":1.2,\"pitch\":1.0}}"
    );

    // the provider's response decodes to the synthesized bytes,
    // which are persisted and handed off
    let response = format!("{{\"audioContent\":\"{}\"}}", base64::encode(b"bytes"));
    let audio = decode_synthesize_response(&response).unwrap();
    assert_eq!(audio, b"bytes".to_vec());
    let path = new_artifact_path();
    assert!(path.starts_with("audio/") && path.ends_with(".mp3"));
    handoffs.push(path);
    assert_eq!(handoffs.len(), 1);

    // stop tears the session down; a later message is dropped silently
    assert!(handler.stop_command(42).is_ok());
    assert!(matches!(handler.stop_command(42), Err(RegistryError::NotSetUp)));
    match handler.message(42, 100, "U1", "late", 0, &server_config, &user_config) {
        MessageOutcome::Inactive => {}
        MessageOutcome::Prepared(_) => panic!("message narrated after stop"),
    }
    assert_eq!(handoffs.len(), 1);
}

#[test]
fn message_pipeline_applies_dictionary_and_local_dialect() {
    let mut handler = Handler::new();
    handler.setup_command(5, 1, 2, 0).unwrap();
    let server_config = ServerConfig {
        dictionary: vec![rule("brb", "be right back", false)],
    };
    let user_config = UserConfig {
        provider_choice: Some(ProviderChoice::Local),
        cloud_voice: None,
        local_speaker: None,
    };
    let (text, speaker) =
        match handler.message(5, 9, "Zoe", "brb", 1, &server_config, &user_config) {
            MessageOutcome::Prepared(SynthesisJob::Local { text, speaker }) => (text, speaker),
            _ => panic!("expected a local synthesis request"),
        };
    assert_eq!(speaker, 1);
    assert_eq!(
        text,
        "Zoe's remark\u{3001}be right back\u{3001}1 attachment(s)"
    );
    // a second message by the same author carries no prefix
    let (text, _) = match handler.message(5, 9, "Zoe", "ok", 0, &server_config, &user_config) {
        MessageOutcome::Prepared(SynthesisJob::Local { text, speaker }) => (text, speaker),
        _ => panic!("expected a local synthesis request"),
    };
    assert_eq!(text, "ok");
}

#[test]
fn credential_refresh_is_single_flight() {
    let mut cache = TokenCache::new();
    // no token: the first caller begins the refresh, later callers wait
    assert!(matches!(cache.acquire(100), TokenDecision::BeginRefresh));
    assert!(matches!(cache.acquire(100), TokenDecision::AwaitRefresh));
    assert!(matches!(cache.acquire(150), TokenDecision::AwaitRefresh));
    cache.install("tok-1".to_string(), 200);
    match cache.acquire(199) {
        TokenDecision::Use(token) => assert_eq!(token, "tok-1"),
        _ => panic!("expected the cached token"),
    }
    // expiry starts a new, again single-flight, refresh
    assert!(matches!(cache.acquire(200), TokenDecision::BeginRefresh));
    assert!(matches!(cache.acquire(201), TokenDecision::AwaitRefresh));
    // a failed refresh lets the next caller try again
    cache.refresh_failed();
    assert!(matches!(cache.acquire(202), TokenDecision::BeginRefresh));
}

#[test]
fn disconnect_purges_the_registry_entry() {
    let mut handler = Handler::new();
    handler.setup_command(6, 1, 2, 0).unwrap();
    handler.disconnected(6);
    assert!(matches!(handler.stop_command(6), Err(RegistryError::NotSetUp)));
    // purging an unknown guild is harmless
    handler.disconnected(6);
}
