//! The option schemas: builder finalization, validation rules, enum text
//! conversion, defaults and presets.

use ttsbot::tts::voice_text::{
    ValidationError, VoiceTextEmotion, VoiceTextFormat, VoiceTextOptions, VoiceTextOptionsBuilder,
    VoiceTextSpeaker,
};
use ttsbot::tts::voice_vox::{Decimal, VoiceVoxOptionsBuilder, VoiceVoxSpeaker};
use ttsbot::tts::{Engine, Options, Preset};

#[test]
fn test_builder() {
    let opt = VoiceTextOptionsBuilder::default()
        .speaker(VoiceTextSpeaker::from_text("show").unwrap())
        .build()
        .unwrap();
    assert_eq!(
        opt,
        VoiceTextOptions {
            speaker: VoiceTextSpeaker::Show,
            format: VoiceTextFormat::Wav,
            emotion: None,
            emotion_level: 2,
            pitch: 100,
            speed: 100,
            volume: 100
        }
    );

    let err = VoiceTextOptionsBuilder::default()
        .speaker(VoiceTextSpeaker::from_text("show").unwrap())
        .emotion(Some(VoiceTextEmotion::from_text("happiness").unwrap()))
        .build()
        .unwrap_err();
    assert_eq!(
        err.message(),
        "emotion can be used when speaker is haruka, hikari, takeru santa, or bear"
    );

    let err = VoiceTextOptionsBuilder::default()
        .speaker(VoiceTextSpeaker::from_text("show").unwrap())
        .pitch(49)
        .build()
        .unwrap_err();
    assert_eq!(err.message(), "Bad pitch, must be 50 <= pitch <= 200");

    let opt = VoiceTextOptionsBuilder::default()
        .speaker(VoiceTextSpeaker::from_text("haruka").unwrap())
        .format(VoiceTextFormat::from_text("mp3").unwrap())
        .emotion(Some(VoiceTextEmotion::from_text("happiness").unwrap()))
        .emotion_level(4)
        .pitch(50)
        .speed(400)
        .volume(200)
        .build()
        .unwrap();
    assert_eq!(
        opt,
        VoiceTextOptions {
            speaker: VoiceTextSpeaker::Haruka,
            format: VoiceTextFormat::Mp3,
            emotion: Some(VoiceTextEmotion::Happiness),
            emotion_level: 4,
            pitch: 50,
            speed: 400,
            volume: 200
        }
    );
}

#[test]
fn test_speaker() {
    assert_eq!(
        VoiceVoxSpeaker::from_text("四国めたん").unwrap(),
        VoiceVoxSpeaker::ShikokuMetan
    );
    assert_eq!(VoiceVoxSpeaker::KyushuSora.id(), 16);
}

#[test]
fn validation_scan_order_and_ranges() {
    let base = VoiceTextOptionsBuilder::default().speaker(VoiceTextSpeaker::Haruka);

    assert!(base.pitch(50).build().is_ok());
    assert!(base.pitch(200).build().is_ok());
    assert_eq!(base.pitch(201).build().unwrap_err(), ValidationError::BadPitch);
    assert_eq!(base.pitch(49).build().unwrap_err(), ValidationError::BadPitch);

    assert!(base.speed(50).build().is_ok());
    assert!(base.speed(400).build().is_ok());
    assert_eq!(base.speed(49).build().unwrap_err(), ValidationError::BadSpeed);
    assert_eq!(base.speed(401).build().unwrap_err(), ValidationError::BadSpeed);
    assert_eq!(
        base.speed(401).build().unwrap_err().message(),
        "Bad speed, must be 50 <= speed <= 400"
    );

    assert!(base.volume(50).build().is_ok());
    assert!(base.volume(200).build().is_ok());
    assert_eq!(base.volume(49).build().unwrap_err(), ValidationError::BadVolume);
    assert_eq!(base.volume(201).build().unwrap_err(), ValidationError::BadVolume);
    assert_eq!(
        base.volume(201).build().unwrap_err().message(),
        "Bad volume, must be 50 <= volume <= 200"
    );

    assert!(base.emotion_level(1).build().is_ok());
    assert!(base.emotion_level(4).build().is_ok());
    assert_eq!(base.emotion_level(0).build().unwrap_err(), ValidationError::BadEmotionLevel);
    assert_eq!(base.emotion_level(5).build().unwrap_err(), ValidationError::BadEmotionLevel);
    assert_eq!(
        base.emotion_level(5).build().unwrap_err().message(),
        "Bad emotion_level, must be 1 <= emotion_level <= 4"
    );

    // The emotion/speaker pairing is scanned first.
    let err = VoiceTextOptionsBuilder::default()
        .speaker(VoiceTextSpeaker::Show)
        .emotion(Some(VoiceTextEmotion::Anger))
        .pitch(1)
        .build()
        .unwrap_err();
    assert_eq!(err, ValidationError::EmotionNeedsOtherSpeaker);

    // A missing speaker is reported only after the rules pass.
    let err = VoiceTextOptionsBuilder::default().pitch(1).build().unwrap_err();
    assert_eq!(err, ValidationError::BadPitch);
    let err = VoiceTextOptionsBuilder::default().build().unwrap_err();
    assert_eq!(err, ValidationError::MissingSpeaker);

    // validate alone reports the same first rule, and no missing speaker.
    assert_eq!(
        VoiceTextOptionsBuilder::default().pitch(1).validate().unwrap_err(),
        ValidationError::BadPitch
    );
    assert!(VoiceTextOptionsBuilder::default().validate().is_ok());
}

#[test]
fn emotion_allowed_with_other_speakers() {
    for speaker in [
        VoiceTextSpeaker::Haruka,
        VoiceTextSpeaker::Hikari,
        VoiceTextSpeaker::Takeru,
        VoiceTextSpeaker::Santa,
        VoiceTextSpeaker::Bear,
    ] {
        let opt = VoiceTextOptionsBuilder::default()
            .speaker(speaker)
            .emotion(Some(VoiceTextEmotion::Sadness))
            .build()
            .unwrap();
        assert_eq!(opt.emotion, Some(VoiceTextEmotion::Sadness));
        assert_ne!(opt.speaker, VoiceTextSpeaker::Show);
    }
}

#[test]
fn voice_text_enum_text_round_trips() {
    let speakers = [
        (VoiceTextSpeaker::Show, "show"),
        (VoiceTextSpeaker::Haruka, "haruka"),
        (VoiceTextSpeaker::Hikari, "hikari"),
        (VoiceTextSpeaker::Takeru, "takeru"),
        (VoiceTextSpeaker::Santa, "santa"),
        (VoiceTextSpeaker::Bear, "bear"),
    ];
    for (v, s) in speakers {
        assert_eq!(v.to_text(), s);
        assert_eq!(VoiceTextSpeaker::from_text(s), Some(v));
        assert_eq!(VoiceTextSpeaker::from_text(s).unwrap().to_text(), s);
    }
    assert_eq!(VoiceTextSpeaker::from_text("Show"), None);
    assert_eq!(VoiceTextSpeaker::from_text(""), None);

    let formats = [
        (VoiceTextFormat::Wav, "wav"),
        (VoiceTextFormat::Ogg, "ogg"),
        (VoiceTextFormat::Mp3, "mp3"),
    ];
    for (v, s) in formats {
        assert_eq!(v.to_text(), s);
        assert_eq!(VoiceTextFormat::from_text(s), Some(v));
    }
    assert_eq!(VoiceTextFormat::from_text("flac"), None);

    let emotions = [
        (VoiceTextEmotion::Happiness, "happiness"),
        (VoiceTextEmotion::Anger, "anger"),
        (VoiceTextEmotion::Sadness, "sadness"),
    ];
    for (v, s) in emotions {
        assert_eq!(v.to_text(), s);
        assert_eq!(VoiceTextEmotion::from_text(s), Some(v));
    }
    assert_eq!(VoiceTextEmotion::from_text("joy"), None);
}

#[test]
fn voice_vox_speaker_round_trips_and_ids() {
    let speakers = [
        (VoiceVoxSpeaker::ShikokuMetan, "四国めたん", 2),
        (VoiceVoxSpeaker::ShikokuMetanAmaama, "四国めたんあまあま", 0),
        (VoiceVoxSpeaker::ShikokuMetanTsuntsun, "四国めたんツンツン", 6),
        (VoiceVoxSpeaker::ShikokuMetanSexy, "四国めたんセクシー", 4),
        (VoiceVoxSpeaker::Zundamon, "ずんだもん", 3),
        (VoiceVoxSpeaker::ZundamonAmaama, "ずんだもんあまあま", 1),
        (VoiceVoxSpeaker::ZundamonTsuntsun, "ずんだもんツンツン", 7),
        (VoiceVoxSpeaker::ZundamonSexy, "ずんだもんセクシー", 5),
        (VoiceVoxSpeaker::KasukabeTsumugi, "春日部つむぎ", 8),
        (VoiceVoxSpeaker::AmehareHau, "雨晴はう", 10),
        (VoiceVoxSpeaker::NamineRitsu, "波音リツ", 9),
        (VoiceVoxSpeaker::KuronoTakehiro, "玄野武宏", 11),
        (VoiceVoxSpeaker::ShirakamiKotaro, "白上虎太郎", 12),
        (VoiceVoxSpeaker::AoyamaRyusei, "青山龍星", 13),
        (VoiceVoxSpeaker::MeimeiHimari, "冥鳴ひまり", 14),
        (VoiceVoxSpeaker::KyushuSora, "九州そら", 16),
        (VoiceVoxSpeaker::KyushuSoraAmaama, "九州そらあまあま", 15),
        (VoiceVoxSpeaker::KyushuSoraTsuntsun, "九州そらツンツン", 18),
        (VoiceVoxSpeaker::KyushuSoraSexy, "九州そらセクシー", 17),
        (VoiceVoxSpeaker::KyushuSoraSasayaki, "九州そらささやき", 19),
    ];
    for (v, s, id) in speakers {
        assert_eq!(v.to_text(), s);
        assert_eq!(VoiceVoxSpeaker::from_text(s), Some(v));
        assert_eq!(v.id(), id);
    }
    assert_eq!(VoiceVoxSpeaker::from_text("めたん"), None);

    let all = VoiceVoxSpeaker::all();
    assert_eq!(all.len(), 20);
    for v in all {
        assert_eq!(VoiceVoxSpeaker::from_text(&v.to_text()), Some(v));
    }
    assert_eq!(VoiceTextSpeaker::all().len(), 6);
}

#[test]
fn voice_vox_builder_requires_speaker() {
    let err = VoiceVoxOptionsBuilder::default().build().unwrap_err();
    assert_eq!(err, ValidationError::MissingSpeaker);

    let opt = VoiceVoxOptionsBuilder::default()
        .speaker(VoiceVoxSpeaker::Zundamon)
        .build()
        .unwrap();
    assert_eq!(opt.speaker, VoiceVoxSpeaker::Zundamon);
    assert_eq!(opt.pitch, Decimal { neg: false, units: 0, frac: 0, scale: 0 });
    assert_eq!(opt.intonation_scale, Decimal { neg: false, units: 1, frac: 0, scale: 0 });
    assert_eq!(opt.speed, Decimal { neg: false, units: 1, frac: 0, scale: 0 });
}

#[test]
fn engine_and_preset_text_round_trips() {
    assert_eq!(Engine::VoiceText.to_text(), "voicetext");
    assert_eq!(Engine::VoiceVox.to_text(), "voicevox");
    assert_eq!(Engine::from_text("voicetext"), Some(Engine::VoiceText));
    assert_eq!(Engine::from_text("voicevox"), Some(Engine::VoiceVox));
    // The engine token parses case-insensitively.
    assert_eq!(Engine::from_text("VoiceText"), Some(Engine::VoiceText));
    assert_eq!(Engine::from_text("VOICEVOX"), Some(Engine::VoiceVox));
    assert_eq!(Engine::from_text("VoiceVox"), Some(Engine::VoiceVox));
    assert_eq!(Engine::from_text("espeak"), None);
    assert_eq!(Engine::from_text("voicetexts"), None);

    assert_eq!(Preset::Takuya.to_text(), "takuya");
    assert_eq!(Preset::Munou.to_text(), "munou");
    assert_eq!(Preset::from_text("takuya"), Some(Preset::Takuya));
    assert_eq!(Preset::from_text("munou"), Some(Preset::Munou));
    assert_eq!(Preset::from_text("loud"), None);

    assert_eq!(Engine::all(), vec![Engine::VoiceText, Engine::VoiceVox]);
    assert_eq!(Preset::all(), vec![Preset::Takuya, Preset::Munou]);
}

#[test]
fn default_options_and_presets() {
    let default = Options::default();
    assert_eq!(
        default,
        Options::VoiceTextOptions(VoiceTextOptions {
            speaker: VoiceTextSpeaker::Show,
            format: VoiceTextFormat::Wav,
            emotion: None,
            emotion_level: 2,
            pitch: 100,
            speed: 100,
            volume: 100
        })
    );
    assert_eq!(Options::from(Preset::Takuya), default);

    let munou = Options::from(Preset::Munou);
    match munou {
        Options::VoiceTextOptions(o) => {
            assert_eq!(o.speaker, VoiceTextSpeaker::Show);
            assert_eq!(o.pitch, 150);
            assert_eq!(o.speed, 100);
        }
        Options::VoiceVoxOptions(_) => panic!("munou must be a VoiceText preset"),
    }

    assert_eq!(default.engine(), Engine::VoiceText);
}
