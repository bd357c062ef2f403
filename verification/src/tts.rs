//! The engine and preset enumerations and the tagged union of per-engine
//! option schemas, with the process-wide default configuration.

pub mod voice_text;
pub mod voice_vox;

use vstd::prelude::*;

use crate::text::{ascii_lower, pairs_view, str_eq, str_eq_ignore_case};
use crate::tts::voice_text::{VoiceTextFormat, VoiceTextOptions, VoiceTextSpeaker};
use crate::tts::voice_vox::VoiceVoxOptions;

verus! {

/// The two supported TTS backends, used as a routing tag and as a parseable
/// command token.
#[derive(Clone, Copy, Debug, PartialEq, Eq, Structural)]
pub enum Engine {
    VoiceText,
    VoiceVox,
}

impl Engine {
    pub open spec fn to_text_spec(self) -> Seq<char> {
        match self {
            Engine::VoiceText => "voicetext"@,
            Engine::VoiceVox => "voicevox"@,
        }
    }

    /// The engine token is parsed case-insensitively; the canonical form is
    /// the lowercase text.
    pub open spec fn from_text_spec(s: Seq<char>) -> Option<Engine> {
        if ascii_lower(s) == "voicetext"@ {
            Some(Engine::VoiceText)
        } else if ascii_lower(s) == "voicevox"@ {
            Some(Engine::VoiceVox)
        } else {
            None
        }
    }

    pub fn to_text(self) -> (r: String)
        ensures
            r@ == self.to_text_spec(),
    {
        String::from_str(
            match self {
                Engine::VoiceText => "voicetext",
                Engine::VoiceVox => "voicevox",
            },
        )
    }

    /// Both engines, in declaration order.
    pub fn all() -> (r: Vec<Engine>)
        ensures
            r@ == seq![Engine::VoiceText, Engine::VoiceVox],
    {
        let mut r: Vec<Engine> = Vec::new();
        r.push(Engine::VoiceText);
        r.push(Engine::VoiceVox);
        proof {
            assert(r@ =~= seq![Engine::VoiceText, Engine::VoiceVox]);
        }
        r
    }

    pub fn from_text(s: &str) -> (r: Option<Engine>)
        ensures
            r == Engine::from_text_spec(s@),
    {
        if str_eq_ignore_case(s, "voicetext") {
            Some(Engine::VoiceText)
        } else if str_eq_ignore_case(s, "voicevox") {
            Some(Engine::VoiceVox)
        } else {
            None
        }
    }
}

/// Text conversion round-trips both ways for engines: each canonical text
/// parses back to its engine, and any accepted token case-folds to the
/// parsed engine's canonical text.
pub proof fn lemma_engine_round_trip(v: Engine, s: Seq<char>)
    ensures
        Engine::from_text_spec(v.to_text_spec()) == Some(v),
        Engine::from_text_spec(s) matches Some(w) ==> w.to_text_spec() == ascii_lower(s),
{
    reveal_strlit("voicetext");
    reveal_strlit("voicevox");
    assert("voicetext"@.len() == 9 && "voicevox"@.len() == 8);
    assert(ascii_lower("voicetext"@) =~= "voicetext"@) by {
        assert(forall|j: int|
            0 <= j < "voicetext"@.len() ==> ascii_lower("voicetext"@)[j] == "voicetext"@[j]);
    }
    assert(ascii_lower("voicevox"@) =~= "voicevox"@) by {
        assert(forall|j: int|
            0 <= j < "voicevox"@.len() ==> ascii_lower("voicevox"@)[j] == "voicevox"@[j]);
    }
    match v {
        Engine::VoiceText => {
            assert(Engine::from_text_spec(v.to_text_spec()) == Some(v));
        },
        Engine::VoiceVox => {
            assert(Engine::from_text_spec(v.to_text_spec()) == Some(v));
        },
    }
}

/// Named shortcuts that resolve to a fixed options value.
#[derive(Clone, Copy, Debug, PartialEq, Eq, Structural)]
pub enum Preset {
    Takuya,
    Munou,
}

impl Preset {
    pub open spec fn to_text_spec(self) -> Seq<char> {
        match self {
            Preset::Takuya => "takuya"@,
            Preset::Munou => "munou"@,
        }
    }

    pub open spec fn from_text_spec(s: Seq<char>) -> Option<Preset> {
        if s == "takuya"@ {
            Some(Preset::Takuya)
        } else if s == "munou"@ {
            Some(Preset::Munou)
        } else {
            None
        }
    }

    pub fn to_text(self) -> (r: String)
        ensures
            r@ == self.to_text_spec(),
    {
        String::from_str(
            match self {
                Preset::Takuya => "takuya",
                Preset::Munou => "munou",
            },
        )
    }

    /// Every preset, in declaration order.
    pub fn all() -> (r: Vec<Preset>)
        ensures
            r@ == seq![Preset::Takuya, Preset::Munou],
    {
        let mut r: Vec<Preset> = Vec::new();
        r.push(Preset::Takuya);
        r.push(Preset::Munou);
        proof {
            assert(r@ =~= seq![Preset::Takuya, Preset::Munou]);
        }
        r
    }

    pub fn from_text(s: &str) -> (r: Option<Preset>)
        ensures
            r == Preset::from_text_spec(s@),
    {
        if str_eq(s, "takuya") {
            Some(Preset::Takuya)
        } else if str_eq(s, "munou") {
            Some(Preset::Munou)
        } else {
            None
        }
    }

    /// The canonical options value each preset stands for.
    pub open spec fn options_spec(self) -> Options {
        match self {
            Preset::Takuya => Options::default_spec(),
            Preset::Munou => Options::VoiceTextOptions(
                VoiceTextOptions {
                    speaker: VoiceTextSpeaker::Show,
                    format: VoiceTextFormat::Wav,
                    emotion: None,
                    emotion_level: 2,
                    pitch: 150,
                    speed: 100,
                    volume: 100,
                },
            ),
        }
    }
}

/// Text conversion round-trips both ways for presets.
pub proof fn lemma_preset_round_trip(v: Preset, s: Seq<char>)
    ensures
        Preset::from_text_spec(v.to_text_spec()) == Some(v),
        Preset::from_text_spec(s) matches Some(w) ==> w.to_text_spec() == s,
{
    reveal_strlit("takuya");
    reveal_strlit("munou");
    assert("takuya"@.len() == 6 && "munou"@.len() == 5);
    match v {
        Preset::Takuya => {
            assert(Preset::from_text_spec(v.to_text_spec()) == Some(v));
        },
        Preset::Munou => {
            assert(Preset::from_text_spec(v.to_text_spec()) == Some(v));
        },
    }
}

/// A user's TTS configuration: exactly one engine's option schema, carrying
/// the engine tag through the variant.
#[derive(Clone, Copy, Debug, PartialEq, Eq, Structural)]
pub enum Options {
    VoiceTextOptions(VoiceTextOptions),
    VoiceVoxOptions(VoiceVoxOptions),
}

impl Options {
    /// The process-wide fallback used when a user has no stored preference:
    /// VoiceText with speaker Show and every other field at its default.
    pub open spec fn default_spec() -> Options {
        Options::VoiceTextOptions(
            VoiceTextOptions {
                speaker: VoiceTextSpeaker::Show,
                format: VoiceTextFormat::Wav,
                emotion: None,
                emotion_level: 2,
                pitch: 100,
                speed: 100,
                volume: 100,
            },
        )
    }

    pub open spec fn wf(self) -> bool {
        match self {
            Options::VoiceTextOptions(o) => o.wf(),
            Options::VoiceVoxOptions(o) => o.wf(),
        }
    }

    pub open spec fn engine_spec(self) -> Engine {
        match self {
            Options::VoiceTextOptions(_) => Engine::VoiceText,
            Options::VoiceVoxOptions(_) => Engine::VoiceVox,
        }
    }

    /// The engine this configuration routes to.
    pub fn engine(&self) -> (r: Engine)
        ensures
            r == self.engine_spec(),
    {
        match self {
            Options::VoiceTextOptions(_) => Engine::VoiceText,
            Options::VoiceVoxOptions(_) => Engine::VoiceVox,
        }
    }

    /// The request parameters of the engine the variant selects.
    pub open spec fn wire_params_spec(self, text: Seq<char>) -> Seq<(Seq<char>, Seq<char>)> {
        match self {
            Options::VoiceTextOptions(o) => o.wire_params_spec(text),
            Options::VoiceVoxOptions(o) => o.wire_params_spec(text),
        }
    }

    /// Dispatches on the variant and shapes the request parameters for the
    /// matching engine.
    pub fn wire_params(&self, text: &str) -> (r: Vec<(String, String)>)
        requires
            self.wf(),
        ensures
            pairs_view(r@) == self.wire_params_spec(text@),
    {
        match self {
            Options::VoiceTextOptions(o) => o.wire_params(text),
            Options::VoiceVoxOptions(o) => o.wire_params(text),
        }
    }
}

impl Default for Options {
    /// The process-wide default configuration.
    fn default() -> (r: Options)
        ensures
            r == Options::default_spec(),
            r.wf(),
    {
        Options::VoiceTextOptions(
            VoiceTextOptions {
                speaker: VoiceTextSpeaker::Show,
                format: VoiceTextFormat::Wav,
                emotion: None,
                emotion_level: 2,
                pitch: 100,
                speed: 100,
                volume: 100,
            },
        )
    }
}

impl From<Preset> for Options {
    /// Resolves a preset to its canonical options value.
    fn from(preset: Preset) -> (r: Options)
        ensures
            r == preset.options_spec(),
    {
        match preset {
            Preset::Takuya => Options::VoiceTextOptions(
                VoiceTextOptions {
                    speaker: VoiceTextSpeaker::Show,
                    format: VoiceTextFormat::Wav,
                    emotion: None,
                    emotion_level: 2,
                    pitch: 100,
                    speed: 100,
                    volume: 100,
                },
            ),
            Preset::Munou => Options::VoiceTextOptions(
                VoiceTextOptions {
                    speaker: VoiceTextSpeaker::Show,
                    format: VoiceTextFormat::Wav,
                    emotion: None,
                    emotion_level: 2,
                    pitch: 150,
                    speed: 100,
                    volume: 100,
                },
            ),
        }
    }
}

impl vstd::std_specs::convert::FromSpecImpl<Preset> for Options {
    open spec fn obeys_from_spec() -> bool {
        true
    }

    open spec fn from_spec(preset: Preset) -> Options {
        preset.options_spec()
    }
}

/// Every preset resolves to a well-formed configuration.
pub proof fn lemma_preset_options_well_formed(p: Preset)
    ensures
        p.options_spec().wf(),
{
}

} // verus!
