//! The VoiceText engine's option schema: field enumerations with their
//! canonical text forms, the validated options record, and its builder.

use vstd::prelude::*;

use crate::text::{dec_seq, pairs_view, str_eq, u16_to_dec};

verus! {

#[derive(Clone, Copy, Debug, PartialEq, Eq, Structural)]
pub enum VoiceTextSpeaker {
    Show,
    Haruka,
    Hikari,
    Takeru,
    Santa,
    Bear,
}

impl VoiceTextSpeaker {
    /// The canonical lowercase text form of each speaker.
    pub open spec fn to_text_spec(self) -> Seq<char> {
        match self {
            VoiceTextSpeaker::Show => "show"@,
            VoiceTextSpeaker::Haruka => "haruka"@,
            VoiceTextSpeaker::Hikari => "hikari"@,
            VoiceTextSpeaker::Takeru => "takeru"@,
            VoiceTextSpeaker::Santa => "santa"@,
            VoiceTextSpeaker::Bear => "bear"@,
        }
    }

    pub open spec fn from_text_spec(s: Seq<char>) -> Option<VoiceTextSpeaker> {
        if s == "show"@ {
            Some(VoiceTextSpeaker::Show)
        } else if s == "haruka"@ {
            Some(VoiceTextSpeaker::Haruka)
        } else if s == "hikari"@ {
            Some(VoiceTextSpeaker::Hikari)
        } else if s == "takeru"@ {
            Some(VoiceTextSpeaker::Takeru)
        } else if s == "santa"@ {
            Some(VoiceTextSpeaker::Santa)
        } else if s == "bear"@ {
            Some(VoiceTextSpeaker::Bear)
        } else {
            None
        }
    }

    pub fn to_text(self) -> (r: String)
        ensures
            r@ == self.to_text_spec(),
    {
        String::from_str(
            match self {
                VoiceTextSpeaker::Show => "show",
                VoiceTextSpeaker::Haruka => "haruka",
                VoiceTextSpeaker::Hikari => "hikari",
                VoiceTextSpeaker::Takeru => "takeru",
                VoiceTextSpeaker::Santa => "santa",
                VoiceTextSpeaker::Bear => "bear",
            },
        )
    }

    /// Every speaker, in declaration order.
    pub fn all() -> (r: Vec<VoiceTextSpeaker>)
        ensures
            r@ == seq![
                VoiceTextSpeaker::Show,
                VoiceTextSpeaker::Haruka,
                VoiceTextSpeaker::Hikari,
                VoiceTextSpeaker::Takeru,
                VoiceTextSpeaker::Santa,
                VoiceTextSpeaker::Bear,
            ],
    {
        let mut r: Vec<VoiceTextSpeaker> = Vec::new();
        r.push(VoiceTextSpeaker::Show);
        r.push(VoiceTextSpeaker::Haruka);
        r.push(VoiceTextSpeaker::Hikari);
        r.push(VoiceTextSpeaker::Takeru);
        r.push(VoiceTextSpeaker::Santa);
        r.push(VoiceTextSpeaker::Bear);
        proof {
            assert(r@ =~= seq![
                VoiceTextSpeaker::Show,
                VoiceTextSpeaker::Haruka,
                VoiceTextSpeaker::Hikari,
                VoiceTextSpeaker::Takeru,
                VoiceTextSpeaker::Santa,
                VoiceTextSpeaker::Bear,
            ]);
        }
        r
    }

    pub fn from_text(s: &str) -> (r: Option<VoiceTextSpeaker>)
        ensures
            r == VoiceTextSpeaker::from_text_spec(s@),
    {
        if str_eq(s, "show") {
            Some(VoiceTextSpeaker::Show)
        } else if str_eq(s, "haruka") {
            Some(VoiceTextSpeaker::Haruka)
        } else if str_eq(s, "hikari") {
            Some(VoiceTextSpeaker::Hikari)
        } else if str_eq(s, "takeru") {
            Some(VoiceTextSpeaker::Takeru)
        } else if str_eq(s, "santa") {
            Some(VoiceTextSpeaker::Santa)
        } else if str_eq(s, "bear") {
            Some(VoiceTextSpeaker::Bear)
        } else {
            None
        }
    }
}

/// Text conversion round-trips both ways: every speaker's canonical text
/// parses back to that speaker, and every text a speaker parses from is that
/// speaker's canonical text.
pub proof fn lemma_voice_text_speaker_round_trip(v: VoiceTextSpeaker, s: Seq<char>)
    ensures
        VoiceTextSpeaker::from_text_spec(v.to_text_spec()) == Some(v),
        VoiceTextSpeaker::from_text_spec(s) matches Some(w) ==> w.to_text_spec() == s,
{
    reveal_strlit("show");
    reveal_strlit("haruka");
    reveal_strlit("hikari");
    reveal_strlit("takeru");
    reveal_strlit("santa");
    reveal_strlit("bear");
    assert("show"@[1] == 'h' && "haruka"@[1] == 'a' && "hikari"@[1] == 'i' && "takeru"@[0] == 't'
        && "haruka"@[0] == 'h' && "hikari"@[0] == 'h' && "bear"@[1] == 'e');
    match v {
        VoiceTextSpeaker::Show => {
            assert(VoiceTextSpeaker::from_text_spec(v.to_text_spec()) == Some(v));
        },
        VoiceTextSpeaker::Haruka => {
            assert(VoiceTextSpeaker::from_text_spec(v.to_text_spec()) == Some(v));
        },
        VoiceTextSpeaker::Hikari => {
            assert(VoiceTextSpeaker::from_text_spec(v.to_text_spec()) == Some(v));
        },
        VoiceTextSpeaker::Takeru => {
            assert(VoiceTextSpeaker::from_text_spec(v.to_text_spec()) == Some(v));
        },
        VoiceTextSpeaker::Santa => {
            assert(VoiceTextSpeaker::from_text_spec(v.to_text_spec()) == Some(v));
        },
        VoiceTextSpeaker::Bear => {
            assert(VoiceTextSpeaker::from_text_spec(v.to_text_spec()) == Some(v));
        },
    }
}

#[derive(Clone, Copy, Debug, PartialEq, Eq, Structural)]
pub enum VoiceTextFormat {
    Wav,
    Ogg,
    Mp3,
}

impl VoiceTextFormat {
    pub open spec fn to_text_spec(self) -> Seq<char> {
        match self {
            VoiceTextFormat::Wav => "wav"@,
            VoiceTextFormat::Ogg => "ogg"@,
            VoiceTextFormat::Mp3 => "mp3"@,
        }
    }

    pub open spec fn from_text_spec(s: Seq<char>) -> Option<VoiceTextFormat> {
        if s == "wav"@ {
            Some(VoiceTextFormat::Wav)
        } else if s == "ogg"@ {
            Some(VoiceTextFormat::Ogg)
        } else if s == "mp3"@ {
            Some(VoiceTextFormat::Mp3)
        } else {
            None
        }
    }

    pub fn to_text(self) -> (r: String)
        ensures
            r@ == self.to_text_spec(),
    {
        String::from_str(
            match self {
                VoiceTextFormat::Wav => "wav",
                VoiceTextFormat::Ogg => "ogg",
                VoiceTextFormat::Mp3 => "mp3",
            },
        )
    }

    pub fn from_text(s: &str) -> (r: Option<VoiceTextFormat>)
        ensures
            r == VoiceTextFormat::from_text_spec(s@),
    {
        if str_eq(s, "wav") {
            Some(VoiceTextFormat::Wav)
        } else if str_eq(s, "ogg") {
            Some(VoiceTextFormat::Ogg)
        } else if str_eq(s, "mp3") {
            Some(VoiceTextFormat::Mp3)
        } else {
            None
        }
    }
}

/// Text conversion round-trips both ways for audio formats.
pub proof fn lemma_voice_text_format_round_trip(v: VoiceTextFormat, s: Seq<char>)
    ensures
        VoiceTextFormat::from_text_spec(v.to_text_spec()) == Some(v),
        VoiceTextFormat::from_text_spec(s) matches Some(w) ==> w.to_text_spec() == s,
{
    reveal_strlit("wav");
    reveal_strlit("ogg");
    reveal_strlit("mp3");
    assert("ogg"@[0] == 'o' && "wav"@[0] == 'w' && "mp3"@[0] == 'm');
    match v {
        VoiceTextFormat::Wav => {
            assert(VoiceTextFormat::from_text_spec(v.to_text_spec()) == Some(v));
        },
        VoiceTextFormat::Ogg => {
            assert(VoiceTextFormat::from_text_spec(v.to_text_spec()) == Some(v));
        },
        VoiceTextFormat::Mp3 => {
            assert(VoiceTextFormat::from_text_spec(v.to_text_spec()) == Some(v));
        },
    }
}

#[derive(Clone, Copy, Debug, PartialEq, Eq, Structural)]
pub enum VoiceTextEmotion {
    Happiness,
    Anger,
    Sadness,
}

impl VoiceTextEmotion {
    pub open spec fn to_text_spec(self) -> Seq<char> {
        match self {
            VoiceTextEmotion::Happiness => "happiness"@,
            VoiceTextEmotion::Anger => "anger"@,
            VoiceTextEmotion::Sadness => "sadness"@,
        }
    }

    pub open spec fn from_text_spec(s: Seq<char>) -> Option<VoiceTextEmotion> {
        if s == "happiness"@ {
            Some(VoiceTextEmotion::Happiness)
        } else if s == "anger"@ {
            Some(VoiceTextEmotion::Anger)
        } else if s == "sadness"@ {
            Some(VoiceTextEmotion::Sadness)
        } else {
            None
        }
    }

    pub fn to_text(self) -> (r: String)
        ensures
            r@ == self.to_text_spec(),
    {
        String::from_str(
            match self {
                VoiceTextEmotion::Happiness => "happiness",
                VoiceTextEmotion::Anger => "anger",
                VoiceTextEmotion::Sadness => "sadness",
            },
        )
    }

    pub fn from_text(s: &str) -> (r: Option<VoiceTextEmotion>)
        ensures
            r == VoiceTextEmotion::from_text_spec(s@),
    {
        if str_eq(s, "happiness") {
            Some(VoiceTextEmotion::Happiness)
        } else if str_eq(s, "anger") {
            Some(VoiceTextEmotion::Anger)
        } else if str_eq(s, "sadness") {
            Some(VoiceTextEmotion::Sadness)
        } else {
            None
        }
    }
}

/// Text conversion round-trips both ways for emotions.
pub proof fn lemma_voice_text_emotion_round_trip(v: VoiceTextEmotion, s: Seq<char>)
    ensures
        VoiceTextEmotion::from_text_spec(v.to_text_spec()) == Some(v),
        VoiceTextEmotion::from_text_spec(s) matches Some(w) ==> w.to_text_spec() == s,
{
    reveal_strlit("happiness");
    reveal_strlit("anger");
    reveal_strlit("sadness");
    assert("happiness"@.len() == 9 && "anger"@.len() == 5 && "sadness"@.len() == 7);
    match v {
        VoiceTextEmotion::Happiness => {
            assert(VoiceTextEmotion::from_text_spec(v.to_text_spec()) == Some(v));
        },
        VoiceTextEmotion::Anger => {
            assert(VoiceTextEmotion::from_text_spec(v.to_text_spec()) == Some(v));
        },
        VoiceTextEmotion::Sadness => {
            assert(VoiceTextEmotion::from_text_spec(v.to_text_spec()) == Some(v));
        },
    }
}

/// A validated VoiceText request configuration. Values are constructed
/// through [`VoiceTextOptionsBuilder`], whose finalization establishes
/// [`VoiceTextOptions::wf`].
#[derive(Clone, Copy, Debug, PartialEq, Eq, Structural)]
pub struct VoiceTextOptions {
    pub speaker: VoiceTextSpeaker,
    pub format: VoiceTextFormat,
    pub emotion: Option<VoiceTextEmotion>,
    pub emotion_level: u8,
    pub pitch: u8,
    pub speed: u16,
    pub volume: u8,
}

impl VoiceTextOptions {
    /// The cross-field rule and the documented numeric ranges.
    pub open spec fn wf(self) -> bool {
        &&& self.emotion is Some ==> self.speaker != VoiceTextSpeaker::Show
        &&& 1 <= self.emotion_level <= 4
        &&& 50 <= self.pitch <= 200
        &&& 50 <= self.speed <= 400
        &&& 50 <= self.volume <= 200
    }

    /// The fixed parameter set a VoiceText request carries: the text and
    /// every field in canonical text form, with the emotion pair appended
    /// only when an emotion is configured. The caller supplies its own
    /// authentication separately.
    pub open spec fn wire_params_spec(self, text: Seq<char>) -> Seq<(Seq<char>, Seq<char>)> {
        let base = seq![
            ("text"@, text),
            ("speaker"@, self.speaker.to_text_spec()),
            ("format"@, self.format.to_text_spec()),
            ("pitch"@, dec_seq(self.pitch as int)),
            ("speed"@, dec_seq(self.speed as int)),
            ("volume"@, dec_seq(self.volume as int)),
        ];
        match self.emotion {
            Some(e) => base + seq![
                ("emotion"@, e.to_text_spec()),
                ("emotion_level"@, dec_seq(self.emotion_level as int)),
            ],
            None => base,
        }
    }

    /// The `key=value` tokens that spell this configuration out: the same
    /// encoding the option builder parses, with the optional emotion last.
    pub open spec fn to_tokens_spec(self) -> Seq<Seq<char>> {
        let base = seq![
            "speaker="@ + self.speaker.to_text_spec(),
            "format="@ + self.format.to_text_spec(),
            "emotion_level="@ + dec_seq(self.emotion_level as int),
            "pitch="@ + dec_seq(self.pitch as int),
            "speed="@ + dec_seq(self.speed as int),
            "volume="@ + dec_seq(self.volume as int),
        ];
        match self.emotion {
            Some(e) => base.push("emotion="@ + e.to_text_spec()),
            None => base,
        }
    }

    /// Serializes the configuration as builder tokens.
    pub fn to_tokens(&self) -> (r: Vec<String>)
        ensures
            r.deep_view() == self.to_tokens_spec(),
    {
        let mut r: Vec<String> = Vec::new();
        let mut t = String::from_str("speaker=");
        t.append(self.speaker.to_text().as_str());
        r.push(t);
        let mut t = String::from_str("format=");
        t.append(self.format.to_text().as_str());
        r.push(t);
        let mut t = String::from_str("emotion_level=");
        t.append(u16_to_dec(self.emotion_level as u16).as_str());
        r.push(t);
        let mut t = String::from_str("pitch=");
        t.append(u16_to_dec(self.pitch as u16).as_str());
        r.push(t);
        let mut t = String::from_str("speed=");
        t.append(u16_to_dec(self.speed).as_str());
        r.push(t);
        let mut t = String::from_str("volume=");
        t.append(u16_to_dec(self.volume as u16).as_str());
        r.push(t);
        if let Some(e) = self.emotion {
            let mut t = String::from_str("emotion=");
            t.append(e.to_text().as_str());
            r.push(t);
        }
        proof {
            assert(r.deep_view() =~= self.to_tokens_spec());
        }
        r
    }

    pub fn wire_params(&self, text: &str) -> (r: Vec<(String, String)>)
        ensures
            pairs_view(r@) == self.wire_params_spec(text@),
    {
        let mut r: Vec<(String, String)> = Vec::new();
        r.push((String::from_str("text"), String::from_str(text)));
        r.push((String::from_str("speaker"), self.speaker.to_text()));
        r.push((String::from_str("format"), self.format.to_text()));
        r.push((String::from_str("pitch"), u16_to_dec(self.pitch as u16)));
        r.push((String::from_str("speed"), u16_to_dec(self.speed)));
        r.push((String::from_str("volume"), u16_to_dec(self.volume as u16)));
        if let Some(e) = self.emotion {
            r.push((String::from_str("emotion"), e.to_text()));
            r.push((String::from_str("emotion_level"), u16_to_dec(self.emotion_level as u16)));
        }
        proof {
            assert(pairs_view(r@) =~= self.wire_params_spec(text@));
        }
        r
    }
}

/// No speaker's canonical text contains `=`, so each can stand as a token
/// value.
pub proof fn lemma_speaker_text_free_of_eq(v: VoiceTextSpeaker)
    ensures
        forall|j: int| 0 <= j < v.to_text_spec().len() ==> v.to_text_spec()[j] != '=',
        v.to_text_spec().len() > 0,
{
    reveal_strlit("show");
    reveal_strlit("haruka");
    reveal_strlit("hikari");
    reveal_strlit("takeru");
    reveal_strlit("santa");
    reveal_strlit("bear");
    assert("show"@.len() == 4 && "haruka"@.len() == 6 && "hikari"@.len() == 6 && "takeru"@.len()
        == 6 && "santa"@.len() == 5 && "bear"@.len() == 4);
    match v {
        VoiceTextSpeaker::Show => {
            assert(forall|j: int|
                0 <= j < v.to_text_spec().len() ==> v.to_text_spec()[j] != '=');
        },
        VoiceTextSpeaker::Haruka => {
            assert(forall|j: int|
                0 <= j < v.to_text_spec().len() ==> v.to_text_spec()[j] != '=');
        },
        VoiceTextSpeaker::Hikari => {
            assert(forall|j: int|
                0 <= j < v.to_text_spec().len() ==> v.to_text_spec()[j] != '=');
        },
        VoiceTextSpeaker::Takeru => {
            assert(forall|j: int|
                0 <= j < v.to_text_spec().len() ==> v.to_text_spec()[j] != '=');
        },
        VoiceTextSpeaker::Santa => {
            assert(forall|j: int|
                0 <= j < v.to_text_spec().len() ==> v.to_text_spec()[j] != '=');
        },
        VoiceTextSpeaker::Bear => {
            assert(forall|j: int|
                0 <= j < v.to_text_spec().len() ==> v.to_text_spec()[j] != '=');
        },
    }
}

/// No format's canonical text contains `=`.
pub proof fn lemma_format_text_free_of_eq(v: VoiceTextFormat)
    ensures
        forall|j: int| 0 <= j < v.to_text_spec().len() ==> v.to_text_spec()[j] != '=',
        v.to_text_spec().len() > 0,
{
    reveal_strlit("wav");
    reveal_strlit("ogg");
    reveal_strlit("mp3");
    assert("wav"@.len() == 3 && "ogg"@.len() == 3 && "mp3"@.len() == 3);
    match v {
        VoiceTextFormat::Wav => {
            assert(forall|j: int|
                0 <= j < v.to_text_spec().len() ==> v.to_text_spec()[j] != '=');
        },
        VoiceTextFormat::Ogg => {
            assert(forall|j: int|
                0 <= j < v.to_text_spec().len() ==> v.to_text_spec()[j] != '=');
        },
        VoiceTextFormat::Mp3 => {
            assert(forall|j: int|
                0 <= j < v.to_text_spec().len() ==> v.to_text_spec()[j] != '=');
        },
    }
}

/// No emotion's canonical text contains `=`.
pub proof fn lemma_emotion_text_free_of_eq(v: VoiceTextEmotion)
    ensures
        forall|j: int| 0 <= j < v.to_text_spec().len() ==> v.to_text_spec()[j] != '=',
        v.to_text_spec().len() > 0,
{
    reveal_strlit("happiness");
    reveal_strlit("anger");
    reveal_strlit("sadness");
    assert("happiness"@.len() == 9 && "anger"@.len() == 5 && "sadness"@.len() == 7);
    match v {
        VoiceTextEmotion::Happiness => {
            assert(forall|j: int|
                0 <= j < v.to_text_spec().len() ==> v.to_text_spec()[j] != '=');
        },
        VoiceTextEmotion::Anger => {
            assert(forall|j: int|
                0 <= j < v.to_text_spec().len() ==> v.to_text_spec()[j] != '=');
        },
        VoiceTextEmotion::Sadness => {
            assert(forall|j: int|
                0 <= j < v.to_text_spec().len() ==> v.to_text_spec()[j] != '=');
        },
    }
}

/// A rule violated at finalization, in scan order; the first one found is
/// reported.
#[derive(Clone, Copy, Debug, PartialEq, Eq, Structural)]
pub enum ValidationError {
    EmotionNeedsOtherSpeaker,
    BadEmotionLevel,
    BadPitch,
    BadSpeed,
    BadVolume,
    MissingSpeaker,
}

impl ValidationError {
    pub open spec fn message_spec(self) -> Seq<char> {
        match self {
            ValidationError::EmotionNeedsOtherSpeaker => "emotion can be used when speaker is haruka, hikari, takeru santa, or bear"@,
            ValidationError::BadEmotionLevel => "Bad emotion_level, must be 1 <= emotion_level <= 4"@,
            ValidationError::BadPitch => "Bad pitch, must be 50 <= pitch <= 200"@,
            ValidationError::BadSpeed => "Bad speed, must be 50 <= speed <= 400"@,
            ValidationError::BadVolume => "Bad volume, must be 50 <= volume <= 200"@,
            ValidationError::MissingSpeaker => "speaker must be set"@,
        }
    }

    /// The rule text reported to the end user.
    pub fn message(self) -> (r: String)
        ensures
            r@ == self.message_spec(),
    {
        String::from_str(
            match self {
                ValidationError::EmotionNeedsOtherSpeaker => "emotion can be used when speaker is haruka, hikari, takeru santa, or bear",
                ValidationError::BadEmotionLevel => "Bad emotion_level, must be 1 <= emotion_level <= 4",
                ValidationError::BadPitch => "Bad pitch, must be 50 <= pitch <= 200",
                ValidationError::BadSpeed => "Bad speed, must be 50 <= speed <= 400",
                ValidationError::BadVolume => "Bad volume, must be 50 <= volume <= 200",
                ValidationError::MissingSpeaker => "speaker must be set",
            },
        )
    }
}

/// Accumulates field values; nothing is checked until [`Self::build`] runs
/// every rule at once.
#[derive(Clone, Copy, Debug, PartialEq, Eq, Structural)]
pub struct VoiceTextOptionsBuilder {
    pub speaker: Option<VoiceTextSpeaker>,
    pub format: Option<VoiceTextFormat>,
    pub emotion: Option<Option<VoiceTextEmotion>>,
    pub emotion_level: Option<u8>,
    pub pitch: Option<u8>,
    pub speed: Option<u16>,
    pub volume: Option<u8>,
}

impl Default for VoiceTextOptionsBuilder {
    fn default() -> (r: Self)
        ensures
            r == VoiceTextOptionsBuilder::empty(),
    {
        VoiceTextOptionsBuilder {
            speaker: None,
            format: None,
            emotion: None,
            emotion_level: None,
            pitch: None,
            speed: None,
            volume: None,
        }
    }
}

impl VoiceTextOptionsBuilder {
    /// A builder with no field supplied.
    pub open spec fn empty() -> Self {
        VoiceTextOptionsBuilder {
            speaker: None,
            format: None,
            emotion: None,
            emotion_level: None,
            pitch: None,
            speed: None,
            volume: None,
        }
    }

    pub fn new() -> (r: Self)
        ensures
            r == VoiceTextOptionsBuilder::empty(),
    {
        VoiceTextOptionsBuilder {
            speaker: None,
            format: None,
            emotion: None,
            emotion_level: None,
            pitch: None,
            speed: None,
            volume: None,
        }
    }

    pub fn speaker(self, value: VoiceTextSpeaker) -> (r: Self)
        ensures
            r == (VoiceTextOptionsBuilder { speaker: Some(value), ..self }),
    {
        VoiceTextOptionsBuilder { speaker: Some(value), ..self }
    }

    pub fn format(self, value: VoiceTextFormat) -> (r: Self)
        ensures
            r == (VoiceTextOptionsBuilder { format: Some(value), ..self }),
    {
        VoiceTextOptionsBuilder { format: Some(value), ..self }
    }

    pub fn emotion(self, value: Option<VoiceTextEmotion>) -> (r: Self)
        ensures
            r == (VoiceTextOptionsBuilder { emotion: Some(value), ..self }),
    {
        VoiceTextOptionsBuilder { emotion: Some(value), ..self }
    }

    pub fn emotion_level(self, value: u8) -> (r: Self)
        ensures
            r == (VoiceTextOptionsBuilder { emotion_level: Some(value), ..self }),
    {
        VoiceTextOptionsBuilder { emotion_level: Some(value), ..self }
    }

    pub fn pitch(self, value: u8) -> (r: Self)
        ensures
            r == (VoiceTextOptionsBuilder { pitch: Some(value), ..self }),
    {
        VoiceTextOptionsBuilder { pitch: Some(value), ..self }
    }

    pub fn speed(self, value: u16) -> (r: Self)
        ensures
            r == (VoiceTextOptionsBuilder { speed: Some(value), ..self }),
    {
        VoiceTextOptionsBuilder { speed: Some(value), ..self }
    }

    pub fn volume(self, value: u8) -> (r: Self)
        ensures
            r == (VoiceTextOptionsBuilder { volume: Some(value), ..self }),
    {
        VoiceTextOptionsBuilder { volume: Some(value), ..self }
    }

    /// The first violated rule, scanning emotion/speaker pairing, then
    /// emotion_level, pitch, speed and volume ranges. A rule is checked only
    /// for fields that were supplied.
    pub open spec fn first_violation(self) -> Option<ValidationError> {
        if self.emotion matches Some(Some(_)) && self.speaker == Some(VoiceTextSpeaker::Show) {
            Some(ValidationError::EmotionNeedsOtherSpeaker)
        } else if self.emotion_level matches Some(l) && !(1 <= l <= 4) {
            Some(ValidationError::BadEmotionLevel)
        } else if self.pitch matches Some(p) && !(50 <= p <= 200) {
            Some(ValidationError::BadPitch)
        } else if self.speed matches Some(sp) && !(50 <= sp <= 400) {
            Some(ValidationError::BadSpeed)
        } else if self.volume matches Some(v) && !(50 <= v <= 200) {
            Some(ValidationError::BadVolume)
        } else {
            None
        }
    }

    /// Finalization: the first violated rule, or the missing required
    /// speaker, or the options with defaults filled in for omitted fields.
    pub open spec fn build_spec(self) -> Result<VoiceTextOptions, ValidationError> {
        match self.first_violation() {
            Some(e) => Err(e),
            None => match self.speaker {
                None => Err(ValidationError::MissingSpeaker),
                Some(sp) => Ok(
                    VoiceTextOptions {
                        speaker: sp,
                        format: match self.format {
                            Some(f) => f,
                            None => VoiceTextFormat::Wav,
                        },
                        emotion: match self.emotion {
                            Some(e) => e,
                            None => None,
                        },
                        emotion_level: match self.emotion_level {
                            Some(l) => l,
                            None => 2,
                        },
                        pitch: match self.pitch {
                            Some(p) => p,
                            None => 100,
                        },
                        speed: match self.speed {
                            Some(s) => s,
                            None => 100,
                        },
                        volume: match self.volume {
                            Some(v) => v,
                            None => 100,
                        },
                    },
                ),
            },
        }
    }

    /// Reports the first violated rule among the supplied fields, if any.
    pub fn validate(&self) -> (r: Result<(), ValidationError>)
        ensures
            r == (match self.first_violation() {
                None => Ok::<(), ValidationError>(()),
                Some(e) => Err(e),
            }),
    {
        match (self.emotion, self.speaker) {
            (Some(Some(_)), Some(VoiceTextSpeaker::Show)) => {
                return Err(ValidationError::EmotionNeedsOtherSpeaker);
            },
            _ => {},
        }
        if let Some(l) = self.emotion_level {
            if l < 1 || l > 4 {
                return Err(ValidationError::BadEmotionLevel);
            }
        }
        if let Some(p) = self.pitch {
            if p < 50 || p > 200 {
                return Err(ValidationError::BadPitch);
            }
        }
        if let Some(sp) = self.speed {
            if sp < 50 || sp > 400 {
                return Err(ValidationError::BadSpeed);
            }
        }
        if let Some(v) = self.volume {
            if v < 50 || v > 200 {
                return Err(ValidationError::BadVolume);
            }
        }
        Ok(())
    }

    /// Validates every supplied field once and produces the finished options.
    pub fn build(self) -> (r: Result<VoiceTextOptions, ValidationError>)
        ensures
            r == self.build_spec(),
            r matches Ok(o) ==> o.wf(),
    {
        match (self.emotion, self.speaker) {
            (Some(Some(_)), Some(VoiceTextSpeaker::Show)) => {
                return Err(ValidationError::EmotionNeedsOtherSpeaker);
            },
            _ => {},
        }
        if let Some(l) = self.emotion_level {
            if l < 1 || l > 4 {
                return Err(ValidationError::BadEmotionLevel);
            }
        }
        if let Some(p) = self.pitch {
            if p < 50 || p > 200 {
                return Err(ValidationError::BadPitch);
            }
        }
        if let Some(sp) = self.speed {
            if sp < 50 || sp > 400 {
                return Err(ValidationError::BadSpeed);
            }
        }
        if let Some(v) = self.volume {
            if v < 50 || v > 200 {
                return Err(ValidationError::BadVolume);
            }
        }
        let speaker = match self.speaker {
            Some(s) => s,
            None => {
                return Err(ValidationError::MissingSpeaker);
            },
        };
        Ok(
            VoiceTextOptions {
                speaker,
                format: match self.format {
                    Some(f) => f,
                    None => VoiceTextFormat::Wav,
                },
                emotion: match self.emotion {
                    Some(e) => e,
                    None => None,
                },
                emotion_level: match self.emotion_level {
                    Some(l) => l,
                    None => 2,
                },
                pitch: match self.pitch {
                    Some(p) => p,
                    None => 100,
                },
                speed: match self.speed {
                    Some(s) => s,
                    None => 100,
                },
                volume: match self.volume {
                    Some(v) => v,
                    None => 100,
                },
            },
        )
    }
}

/// An emotion is only ever finalized together with a speaker other than Show,
/// and every finalized field sits in its documented range: finalization only
/// produces well-formed options.
pub proof fn lemma_built_options_well_formed(b: VoiceTextOptionsBuilder)
    ensures
        b.build_spec() matches Ok(o) ==> o.wf(),
{
}

/// Finalization succeeds exactly when no rule is violated and the required
/// speaker was supplied; any supplied field outside its documented range
/// makes it fail.
pub proof fn lemma_build_success_condition(b: VoiceTextOptionsBuilder)
    ensures
        b.build_spec() is Ok <==> b.first_violation() is None && b.speaker is Some,
{
}

} // verus!
