//! The option store: read-through defaults, write-then-cache ordering, and
//! the wire parameters a stored configuration produces.

use ttsbot::tts::voice_text::{VoiceTextEmotion, VoiceTextOptionsBuilder, VoiceTextSpeaker};
use ttsbot::tts::voice_vox::VoiceVoxOptionsBuilder;
use ttsbot::tts::voice_vox::VoiceVoxSpeaker;
use ttsbot::tts::{Options, Preset};
use ttsbot::{OptionStorage, StorageError};

fn sample_options() -> Options {
    Options::VoiceTextOptions(
        VoiceTextOptionsBuilder::default()
            .speaker(VoiceTextSpeaker::Haruka)
            .pitch(60)
            .build()
            .unwrap(),
    )
}

#[test]
fn unset_user_reads_the_default() {
    let storage = OptionStorage::new();
    assert_eq!(storage.get(42), Options::default());
}

#[test]
fn successful_set_is_visible() {
    let mut storage = OptionStorage::new();
    let opts = sample_options();
    storage.set(42, opts, Ok(())).unwrap();
    assert_eq!(storage.get(42), opts);
    // Other users still read the default.
    assert_eq!(storage.get(7), Options::default());

    // Overwriting replaces the value.
    let munou = Options::from(Preset::Munou);
    storage.set(42, munou, Ok(())).unwrap();
    assert_eq!(storage.get(42), munou);
}

#[test]
fn failed_write_leaves_the_cache_unchanged() {
    let mut storage = OptionStorage::new();
    let opts = sample_options();
    storage.set(42, opts, Ok(())).unwrap();

    let failure = Err(StorageError { message: "connection reset".to_string() });
    let munou = Options::from(Preset::Munou);
    let err = storage.set(42, munou, failure).unwrap_err();
    assert_eq!(err.message, "connection reset");
    assert_eq!(storage.get(42), opts);

    // A failed first write for a fresh user leaves them at the default.
    let failure = Err(StorageError { message: "timeout".to_string() });
    assert!(storage.set(9, munou, failure).is_err());
    assert_eq!(storage.get(9), Options::default());
}

#[test]
fn loaded_rows_seed_the_cache() {
    let a = sample_options();
    let b = Options::from(Preset::Munou);
    let rows = vec![(1u64, a), (2u64, b), (1u64, b)];
    let storage = OptionStorage::from_rows(&rows);
    // The later row for the same user wins, as an upsert-ordered load does.
    assert_eq!(storage.get(1), b);
    assert_eq!(storage.get(2), b);
    assert_eq!(storage.get(3), Options::default());
}

#[test]
fn wire_params_follow_the_variant() {
    let vt = Options::VoiceTextOptions(
        VoiceTextOptionsBuilder::default()
            .speaker(VoiceTextSpeaker::Haruka)
            .emotion(Some(VoiceTextEmotion::Happiness))
            .emotion_level(3)
            .build()
            .unwrap(),
    );
    let params = vt.wire_params("こんにちは");
    let expected: Vec<(String, String)> = [
        ("text", "こんにちは"),
        ("speaker", "haruka"),
        ("format", "wav"),
        ("pitch", "100"),
        ("speed", "100"),
        ("volume", "100"),
        ("emotion", "happiness"),
        ("emotion_level", "3"),
    ]
    .iter()
    .map(|(k, v)| (k.to_string(), v.to_string()))
    .collect();
    assert_eq!(params, expected);

    // Without an emotion the pair is absent.
    let vt = Options::VoiceTextOptions(
        VoiceTextOptionsBuilder::default().speaker(VoiceTextSpeaker::Show).build().unwrap(),
    );
    let params = vt.wire_params("hello");
    assert_eq!(params.len(), 6);
    assert!(!params.iter().any(|(k, _)| k == "emotion"));

    let vv = Options::VoiceVoxOptions(
        VoiceVoxOptionsBuilder::default().speaker(VoiceVoxSpeaker::KyushuSora).build().unwrap(),
    );
    let params = vv.wire_params("やあ");
    let expected: Vec<(String, String)> = [
        ("text", "やあ"),
        ("speaker", "16"),
        ("pitch", "0"),
        ("intonationScale", "1"),
        ("speed", "1"),
    ]
    .iter()
    .map(|(k, v)| (k.to_string(), v.to_string()))
    .collect();
    assert_eq!(params, expected);
}
