//! The token builder: `key=value` parsing, unknown-key permissiveness,
//! last-occurrence-wins, numeric and decimal value parsing, and the error
//! for each failure.

use ttsbot::option_builder::{BuildError, OptionField};
use ttsbot::text::{parse_u16, parse_u8, u16_to_dec};
use ttsbot::tts::voice_text::{VoiceTextEmotion, VoiceTextFormat, VoiceTextSpeaker};
use ttsbot::tts::voice_vox::{Decimal, VoiceVoxSpeaker};
use ttsbot::{build_voice_text_options, build_voice_vox_options};

fn tokens(list: &[&str]) -> Vec<String> {
    list.iter().map(|s| s.to_string()).collect()
}

#[test]
fn builds_every_supplied_field() {
    let opt = build_voice_text_options(&tokens(&[
        "speaker=haruka",
        "format=mp3",
        "emotion=happiness",
        "emotion_level=4",
        "pitch=50",
        "speed=400",
        "volume=200",
    ]))
    .unwrap();
    assert_eq!(opt.speaker, VoiceTextSpeaker::Haruka);
    assert_eq!(opt.format, VoiceTextFormat::Mp3);
    assert_eq!(opt.emotion, Some(VoiceTextEmotion::Happiness));
    assert_eq!(opt.emotion_level, 4);
    assert_eq!(opt.pitch, 50);
    assert_eq!(opt.speed, 400);
    assert_eq!(opt.volume, 200);
}

#[test]
fn emotion_with_show_fails_from_tokens() {
    let err = build_voice_text_options(&tokens(&["speaker=show", "emotion=happiness"]))
        .unwrap_err();
    assert_eq!(
        err.message(),
        "emotion can be used when speaker is haruka, hikari, takeru santa, or bear"
    );
}

#[test]
fn unknown_keys_are_ignored() {
    let opt = build_voice_text_options(&tokens(&["speaker=show", "foo=bar"])).unwrap();
    assert_eq!(opt.speaker, VoiceTextSpeaker::Show);
    assert_eq!(opt.format, VoiceTextFormat::Wav);
    assert_eq!(opt.emotion, None);
    assert_eq!(opt.emotion_level, 2);
    assert_eq!(opt.pitch, 100);
    assert_eq!(opt.speed, 100);
    assert_eq!(opt.volume, 100);
}

#[test]
fn last_occurrence_of_a_key_wins() {
    let opt = build_voice_text_options(&tokens(&["speaker=show", "pitch=60", "pitch=70"]))
        .unwrap();
    assert_eq!(opt.pitch, 70);
    let opt = build_voice_text_options(&tokens(&["speaker=show", "speaker=santa"])).unwrap();
    assert_eq!(opt.speaker, VoiceTextSpeaker::Santa);
}

#[test]
fn malformed_tokens_are_rejected() {
    for bad in ["speaker", "=show", "speaker=", "=", ""] {
        let err = build_voice_text_options(&tokens(&[bad])).unwrap_err();
        match err {
            BuildError::MalformedToken { ref token } => assert_eq!(token, bad),
            _ => panic!("expected a malformed-token error for {:?}", bad),
        }
        assert_eq!(
            err.message(),
            format!("option is not of the form \"key=value\": {}", bad)
        );
    }
    // The value stops at a second `=`; the remainder is ignored.
    let opt = build_voice_text_options(&tokens(&["speaker=show=extra"])).unwrap();
    assert_eq!(opt.speaker, VoiceTextSpeaker::Show);
}

#[test]
fn bad_values_name_the_field() {
    let err = build_voice_text_options(&tokens(&["speaker=nobody"])).unwrap_err();
    assert_eq!(
        err,
        BuildError::BadValue { field: OptionField::Speaker, value: "nobody".to_string() }
    );
    assert_eq!(err.message(), "bad value for speaker: nobody");

    let err = build_voice_text_options(&tokens(&["speaker=show", "pitch=abc"])).unwrap_err();
    assert_eq!(
        err,
        BuildError::BadValue { field: OptionField::Pitch, value: "abc".to_string() }
    );

    let err = build_voice_text_options(&tokens(&["speaker=show", "pitch=300"])).unwrap_err();
    assert!(matches!(err, BuildError::BadValue { field: OptionField::Pitch, .. }));

    let err = build_voice_text_options(&tokens(&["speaker=show", "emotion_level=-1"]))
        .unwrap_err();
    assert!(matches!(err, BuildError::BadValue { field: OptionField::EmotionLevel, .. }));

    let err = build_voice_text_options(&tokens(&["speaker=show", "format=flac"])).unwrap_err();
    assert!(matches!(err, BuildError::BadValue { field: OptionField::Format, .. }));

    let err = build_voice_text_options(&tokens(&["speaker=show", "emotion=joy"])).unwrap_err();
    assert!(matches!(err, BuildError::BadValue { field: OptionField::Emotion, .. }));

    let err = build_voice_text_options(&tokens(&["speaker=show", "speed=none"])).unwrap_err();
    assert!(matches!(err, BuildError::BadValue { field: OptionField::Speed, .. }));

    let err = build_voice_text_options(&tokens(&["speaker=show", "volume=none"])).unwrap_err();
    assert!(matches!(err, BuildError::BadValue { field: OptionField::Volume, .. }));
}

#[test]
fn out_of_range_values_fail_at_finalization() {
    let err = build_voice_text_options(&tokens(&["speaker=show", "pitch=49"])).unwrap_err();
    assert_eq!(err.message(), "Bad pitch, must be 50 <= pitch <= 200");
    assert!(build_voice_text_options(&tokens(&["speaker=show", "pitch=50"])).is_ok());
    assert!(build_voice_text_options(&tokens(&["speaker=show", "pitch=200"])).is_ok());
    let err = build_voice_text_options(&tokens(&["speaker=show", "speed=401"])).unwrap_err();
    assert_eq!(err.message(), "Bad speed, must be 50 <= speed <= 400");
}

#[test]
fn missing_speaker_fails_from_tokens() {
    let err = build_voice_text_options(&tokens(&["pitch=100"])).unwrap_err();
    assert_eq!(err.message(), "speaker must be set");
}

#[test]
fn voice_vox_tokens_build() {
    let opt = build_voice_vox_options(&tokens(&[
        "speaker=ずんだもん",
        "pitch=-0.5",
        "intonationScale=1.25",
        "speed=2",
    ]))
    .unwrap();
    assert_eq!(opt.speaker, VoiceVoxSpeaker::Zundamon);
    assert_eq!(opt.pitch, Decimal { neg: true, units: 0, frac: 5, scale: 1 });
    assert_eq!(opt.intonation_scale, Decimal { neg: false, units: 1, frac: 25, scale: 2 });
    assert_eq!(opt.speed, Decimal { neg: false, units: 2, frac: 0, scale: 0 });

    let err = build_voice_vox_options(&tokens(&["pitch=1"])).unwrap_err();
    assert_eq!(err.message(), "speaker must be set");

    let err = build_voice_vox_options(&tokens(&["speaker=めたん"])).unwrap_err();
    assert!(matches!(err, BuildError::BadValue { field: OptionField::Speaker, .. }));

    let err = build_voice_vox_options(&tokens(&["speaker=ずんだもん", "pitch=x"]))
        .unwrap_err();
    assert!(matches!(err, BuildError::BadValue { field: OptionField::Pitch, .. }));

    let err = build_voice_vox_options(&tokens(&["speaker=ずんだもん", "intonationScale=..1"]))
        .unwrap_err();
    assert!(matches!(err, BuildError::BadValue { field: OptionField::IntonationScale, .. }));

    // The key is case-sensitive, exactly as the upstream wire name is written.
    let opt = build_voice_vox_options(&tokens(&["speaker=ずんだもん", "intonationscale=9"]))
        .unwrap();
    assert_eq!(opt.intonation_scale, Decimal { neg: false, units: 1, frac: 0, scale: 0 });
}

#[test]
fn numeric_token_parsing() {
    assert_eq!(parse_u8("0"), Some(0));
    assert_eq!(parse_u8("255"), Some(255));
    assert_eq!(parse_u8("256"), None);
    assert_eq!(parse_u8("+49"), Some(49));
    assert_eq!(parse_u8("-1"), None);
    assert_eq!(parse_u8(""), None);
    assert_eq!(parse_u8("4.5"), None);
    assert_eq!(parse_u16("65535"), Some(65535));
    assert_eq!(parse_u16("65536"), None);
    assert_eq!(parse_u16("99999999999999999999"), None);
    assert_eq!(parse_u16("007"), Some(7));
    assert_eq!(u16_to_dec(0), "0");
    assert_eq!(u16_to_dec(7), "7");
    assert_eq!(u16_to_dec(65535), "65535");
    assert_eq!(u16_to_dec(100), "100");
}

#[test]
fn tokens_round_trip_through_the_builder() {
    let original = build_voice_text_options(&tokens(&[
        "speaker=santa",
        "format=ogg",
        "emotion=anger",
        "emotion_level=1",
        "pitch=199",
        "speed=53",
        "volume=51",
    ]))
    .unwrap();
    let rebuilt = build_voice_text_options(&original.to_tokens()).unwrap();
    assert_eq!(rebuilt, original);

    let plain = build_voice_text_options(&tokens(&["speaker=show"])).unwrap();
    let rebuilt = build_voice_text_options(&plain.to_tokens()).unwrap();
    assert_eq!(rebuilt, plain);

    let vox = build_voice_vox_options(&tokens(&[
        "speaker=波音リツ",
        "pitch=-0.05",
        "intonationScale=1.20",
        "speed=0.75",
    ]))
    .unwrap();
    let rebuilt = build_voice_vox_options(&vox.to_tokens()).unwrap();
    assert_eq!(rebuilt, vox);
}

#[test]
fn decimal_parsing_and_formatting() {
    assert_eq!(Decimal::parse("0"), Some(Decimal { neg: false, units: 0, frac: 0, scale: 0 }));
    assert_eq!(Decimal::parse("0.5"), Some(Decimal { neg: false, units: 0, frac: 5, scale: 1 }));
    assert_eq!(
        Decimal::parse("-1.25"),
        Some(Decimal { neg: true, units: 1, frac: 25, scale: 2 })
    );
    assert_eq!(Decimal::parse("+2"), Some(Decimal { neg: false, units: 2, frac: 0, scale: 0 }));
    assert_eq!(
        Decimal::parse("3.1415"),
        Some(Decimal { neg: false, units: 3, frac: 1415, scale: 4 })
    );
    assert_eq!(Decimal::parse("3.14159"), None);
    assert_eq!(Decimal::parse("3."), None);
    assert_eq!(Decimal::parse(".5"), None);
    assert_eq!(Decimal::parse(""), None);
    assert_eq!(Decimal::parse("abc"), None);
    assert_eq!(Decimal::parse("1.2.3"), None);

    assert_eq!(Decimal::parse("0.5").unwrap().to_text(), "0.5");
    assert_eq!(Decimal::parse("-1.25").unwrap().to_text(), "-1.25");
    assert_eq!(Decimal::parse("0.050").unwrap().to_text(), "0.050");
    assert_eq!(Decimal::parse("2").unwrap().to_text(), "2");
    assert_eq!(Decimal::whole(1, false).to_text(), "1");
}
