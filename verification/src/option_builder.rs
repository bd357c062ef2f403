//! Turns `key=value` command tokens into a validated option schema for
//! either engine: recognized keys set builder fields (the last occurrence
//! wins), unknown keys are deliberately ignored, malformed tokens and
//! unparseable values abort with a descriptive error, and finalization runs
//! the schema's own validation.

use vstd::prelude::*;

use crate::text::{
    dec_seq, find_char, find_from, parse_u16, parse_u16_spec, parse_u8, parse_u8_spec, str_eq,
    lemma_find_from,
};
use crate::tts::voice_text::{
    ValidationError, VoiceTextEmotion, VoiceTextFormat, VoiceTextOptions, VoiceTextOptionsBuilder,
    VoiceTextSpeaker,
};
use crate::tts::voice_vox::{Decimal, VoiceVoxOptions, VoiceVoxOptionsBuilder, VoiceVoxSpeaker};

verus! {

/// The recognized option keys a bad value can be reported against.
#[derive(Clone, Copy, Debug, PartialEq, Eq, Structural)]
pub enum OptionField {
    Speaker,
    Format,
    Emotion,
    EmotionLevel,
    Pitch,
    Speed,
    Volume,
    IntonationScale,
}

impl OptionField {
    pub open spec fn name_spec(self) -> Seq<char> {
        match self {
            OptionField::Speaker => "speaker"@,
            OptionField::Format => "format"@,
            OptionField::Emotion => "emotion"@,
            OptionField::EmotionLevel => "emotion_level"@,
            OptionField::Pitch => "pitch"@,
            OptionField::Speed => "speed"@,
            OptionField::Volume => "volume"@,
            OptionField::IntonationScale => "intonationScale"@,
        }
    }

    pub fn name(self) -> (r: &'static str)
        ensures
            r@ == self.name_spec(),
    {
        match self {
            OptionField::Speaker => "speaker",
            OptionField::Format => "format",
            OptionField::Emotion => "emotion",
            OptionField::EmotionLevel => "emotion_level",
            OptionField::Pitch => "pitch",
            OptionField::Speed => "speed",
            OptionField::Volume => "volume",
            OptionField::IntonationScale => "intonationScale",
        }
    }
}

/// Why a token list was rejected: a token without the `key=value` shape, a
/// recognized key whose value does not parse, or a rule the finalized schema
/// violates.
#[derive(Clone, Debug, PartialEq, Eq)]
pub enum BuildError {
    MalformedToken { token: String },
    BadValue { field: OptionField, value: String },
    Invalid { reason: ValidationError },
}

/// The character-level shape of a [`BuildError`].
pub enum BuildErrorView {
    MalformedToken { token: Seq<char> },
    BadValue { field: OptionField, value: Seq<char> },
    Invalid { reason: ValidationError },
}

impl View for BuildError {
    type V = BuildErrorView;

    open spec fn view(&self) -> BuildErrorView {
        match self {
            BuildError::MalformedToken { token } => BuildErrorView::MalformedToken {
                token: token@,
            },
            BuildError::BadValue { field, value } => BuildErrorView::BadValue {
                field: *field,
                value: value@,
            },
            BuildError::Invalid { reason } => BuildErrorView::Invalid { reason: *reason },
        }
    }
}

impl BuildErrorView {
    pub open spec fn message_spec(self) -> Seq<char> {
        match self {
            BuildErrorView::MalformedToken { token } => "option is not of the form \"key=value\": "@
                + token,
            BuildErrorView::BadValue { field, value } => "bad value for "@ + field.name_spec()
                + ": "@ + value,
            BuildErrorView::Invalid { reason } => reason.message_spec(),
        }
    }
}

impl BuildError {
    /// The text reported to the end user; a validation error's rule text is
    /// propagated verbatim.
    pub fn message(&self) -> (r: String)
        ensures
            r@ == self@.message_spec(),
    {
        match self {
            BuildError::MalformedToken { token } => {
                let mut m = String::from_str("option is not of the form \"key=value\": ");
                m.append(token.as_str());
                m
            },
            BuildError::BadValue { field, value } => {
                let mut m = String::from_str("bad value for ");
                m.append(field.name());
                m.append(": ");
                m.append(value.as_str());
                m
            },
            BuildError::Invalid { reason } => reason.message(),
        }
    }
}

/// Replaces each executable error in a result by its character-level shape.
pub open spec fn result_view<T>(r: Result<T, BuildError>) -> Result<T, BuildErrorView> {
    match r {
        Ok(o) => Ok(o),
        Err(e) => Err(e@),
    }
}

/// Splits a token at its first `=`: the key before it, the value between it
/// and the next `=` or the end. A token without `=`, or with an empty key or
/// value, has no parts.
pub open spec fn token_parts(t: Seq<char>) -> Option<(Seq<char>, Seq<char>)> {
    let i = find_from(t, '=', 0);
    if i == t.len() {
        None
    } else {
        let key = t.take(i);
        let value = t.subrange(i + 1, find_from(t, '=', i + 1));
        if key.len() == 0 || value.len() == 0 {
            None
        } else {
            Some((key, value))
        }
    }
}

pub open spec fn split_view<'a>(r: Option<(&'a str, &'a str)>) -> Option<(Seq<char>, Seq<char>)> {
    match r {
        None => None,
        Some((k, v)) => Some((k@, v@)),
    }
}

fn split_token<'a>(t: &'a str) -> (r: Option<(&'a str, &'a str)>)
    ensures
        split_view(r) == token_parts(t@),
{
    let len = t.unicode_len();
    let i = find_char(t, '=', 0);
    proof {
        lemma_find_from(t@, '=', 0);
    }
    if i == len {
        return None;
    }
    let j = find_char(t, '=', i + 1);
    proof {
        lemma_find_from(t@, '=', i as int + 1);
    }
    let key = t.substring_char(0, i);
    let value = t.substring_char(i + 1, j);
    proof {
        assert(key@ =~= t@.take(i as int));
        assert(value@ =~= t@.subrange(i as int + 1, j as int));
    }
    if key.unicode_len() == 0 || value.unicode_len() == 0 {
        None
    } else {
        Some((key, value))
    }
}

/// One token applied to a VoiceText builder: a recognized key sets its
/// field, an unknown key leaves the builder unchanged.
pub open spec fn vt_apply_token(b: VoiceTextOptionsBuilder, t: Seq<char>) -> Result<
    VoiceTextOptionsBuilder,
    BuildErrorView,
> {
    match token_parts(t) {
        None => Err(BuildErrorView::MalformedToken { token: t }),
        Some((key, value)) => {
            if key == "speaker"@ {
                match VoiceTextSpeaker::from_text_spec(value) {
                    Some(s) => Ok(VoiceTextOptionsBuilder { speaker: Some(s), ..b }),
                    None => Err(BuildErrorView::BadValue { field: OptionField::Speaker, value }),
                }
            } else if key == "format"@ {
                match VoiceTextFormat::from_text_spec(value) {
                    Some(f) => Ok(VoiceTextOptionsBuilder { format: Some(f), ..b }),
                    None => Err(BuildErrorView::BadValue { field: OptionField::Format, value }),
                }
            } else if key == "emotion"@ {
                match VoiceTextEmotion::from_text_spec(value) {
                    Some(e) => Ok(VoiceTextOptionsBuilder { emotion: Some(Some(e)), ..b }),
                    None => Err(BuildErrorView::BadValue { field: OptionField::Emotion, value }),
                }
            } else if key == "emotion_level"@ {
                match parse_u8_spec(value) {
                    Some(n) => Ok(VoiceTextOptionsBuilder { emotion_level: Some(n), ..b }),
                    None => Err(
                        BuildErrorView::BadValue { field: OptionField::EmotionLevel, value },
                    ),
                }
            } else if key == "pitch"@ {
                match parse_u8_spec(value) {
                    Some(n) => Ok(VoiceTextOptionsBuilder { pitch: Some(n), ..b }),
                    None => Err(BuildErrorView::BadValue { field: OptionField::Pitch, value }),
                }
            } else if key == "speed"@ {
                match parse_u16_spec(value) {
                    Some(n) => Ok(VoiceTextOptionsBuilder { speed: Some(n), ..b }),
                    None => Err(BuildErrorView::BadValue { field: OptionField::Speed, value }),
                }
            } else if key == "volume"@ {
                match parse_u8_spec(value) {
                    Some(n) => Ok(VoiceTextOptionsBuilder { volume: Some(n), ..b }),
                    None => Err(BuildErrorView::BadValue { field: OptionField::Volume, value }),
                }
            } else {
                Ok(b)
            }
        },
    }
}

/// Tokens applied left to right; the first failure aborts.
pub open spec fn vt_apply_tokens(b: VoiceTextOptionsBuilder, toks: Seq<Seq<char>>) -> Result<
    VoiceTextOptionsBuilder,
    BuildErrorView,
>
    decreases toks.len(),
{
    if toks.len() == 0 {
        Ok(b)
    } else {
        match vt_apply_tokens(b, toks.drop_last()) {
            Err(e) => Err(e),
            Ok(b2) => vt_apply_token(b2, toks.last()),
        }
    }
}

/// The whole VoiceText token path: apply every token to an empty builder,
/// then finalize.
pub open spec fn vt_build_from_tokens(toks: Seq<Seq<char>>) -> Result<
    VoiceTextOptions,
    BuildErrorView,
> {
    match vt_apply_tokens(VoiceTextOptionsBuilder::empty(), toks) {
        Err(e) => Err(e),
        Ok(b) => match b.build_spec() {
            Ok(o) => Ok(o),
            Err(ve) => Err(BuildErrorView::Invalid { reason: ve }),
        },
    }
}

proof fn lemma_vt_apply_tokens_err(b: VoiceTextOptionsBuilder, toks: Seq<Seq<char>>, i: int)
    requires
        0 <= i <= toks.len(),
        vt_apply_tokens(b, toks.take(i)) is Err,
    ensures
        vt_apply_tokens(b, toks) == vt_apply_tokens(b, toks.take(i)),
    decreases toks.len() - i,
{
    if i == toks.len() {
        assert(toks.take(i) =~= toks);
    } else {
        assert(toks.take(i + 1).drop_last() =~= toks.take(i));
        lemma_vt_apply_tokens_err(b, toks, i + 1);
    }
}

fn vt_apply(b: VoiceTextOptionsBuilder, t: &str) -> (r: Result<VoiceTextOptionsBuilder, BuildError>)
    ensures
        result_view(r) == vt_apply_token(b, t@),
{
    match split_token(t) {
        None => Err(BuildError::MalformedToken { token: String::from_str(t) }),
        Some((key, value)) => {
            if str_eq(key, "speaker") {
                match VoiceTextSpeaker::from_text(value) {
                    Some(s) => Ok(b.speaker(s)),
                    None => Err(
                        BuildError::BadValue {
                            field: OptionField::Speaker,
                            value: String::from_str(value),
                        },
                    ),
                }
            } else if str_eq(key, "format") {
                match VoiceTextFormat::from_text(value) {
                    Some(f) => Ok(b.format(f)),
                    None => Err(
                        BuildError::BadValue {
                            field: OptionField::Format,
                            value: String::from_str(value),
                        },
                    ),
                }
            } else if str_eq(key, "emotion") {
                match VoiceTextEmotion::from_text(value) {
                    Some(e) => Ok(b.emotion(Some(e))),
                    None => Err(
                        BuildError::BadValue {
                            field: OptionField::Emotion,
                            value: String::from_str(value),
                        },
                    ),
                }
            } else if str_eq(key, "emotion_level") {
                match parse_u8(value) {
                    Some(n) => Ok(b.emotion_level(n)),
                    None => Err(
                        BuildError::BadValue {
                            field: OptionField::EmotionLevel,
                            value: String::from_str(value),
                        },
                    ),
                }
            } else if str_eq(key, "pitch") {
                match parse_u8(value) {
                    Some(n) => Ok(b.pitch(n)),
                    None => Err(
                        BuildError::BadValue {
                            field: OptionField::Pitch,
                            value: String::from_str(value),
                        },
                    ),
                }
            } else if str_eq(key, "speed") {
                match parse_u16(value) {
                    Some(n) => Ok(b.speed(n)),
                    None => Err(
                        BuildError::BadValue {
                            field: OptionField::Speed,
                            value: String::from_str(value),
                        },
                    ),
                }
            } else if str_eq(key, "volume") {
                match parse_u8(value) {
                    Some(n) => Ok(b.volume(n)),
                    None => Err(
                        BuildError::BadValue {
                            field: OptionField::Volume,
                            value: String::from_str(value),
                        },
                    ),
                }
            } else {
                Ok(b)
            }
        },
    }
}

/// Builds validated VoiceText options from `key=value` tokens.
pub fn build_voice_text_options(args: &Vec<String>) -> (r: Result<VoiceTextOptions, BuildError>)
    ensures
        result_view(r) == vt_build_from_tokens(args.deep_view()),
        r matches Ok(o) ==> o.wf(),
{
    let ghost toks = args.deep_view();
    let mut b = VoiceTextOptionsBuilder::new();
    let mut idx: usize = 0;
    while idx < args.len()
        invariant
            idx <= args.len(),
            toks == args.deep_view(),
            toks.len() == args@.len(),
            vt_apply_tokens(VoiceTextOptionsBuilder::empty(), toks.take(idx as int)) == Ok::<
                VoiceTextOptionsBuilder,
                BuildErrorView,
            >(b),
        decreases args.len() - idx,
    {
        let arg: &String = &args[idx];
        proof {
            assert(toks[idx as int] == args@[idx as int]@);
            assert(toks.take(idx + 1).drop_last() =~= toks.take(idx as int));
            assert(toks.take(idx + 1).last() == toks[idx as int]);
        }
        match vt_apply(b, arg.as_str()) {
            Ok(nb) => {
                b = nb;
            },
            Err(e) => {
                proof {
                    lemma_vt_apply_tokens_err(VoiceTextOptionsBuilder::empty(), toks, idx + 1);
                }
                return Err(e);
            },
        }
        idx = idx + 1;
    }
    proof {
        assert(toks.take(args@.len() as int) =~= toks);
    }
    match b.build() {
        Ok(o) => Ok(o),
        Err(ve) => Err(BuildError::Invalid { reason: ve }),
    }
}

/// The value of the last token that set `speaker`, if any token did.
pub open spec fn vt_last_speaker(toks: Seq<Seq<char>>) -> Option<VoiceTextSpeaker>
    decreases toks.len(),
{
    if toks.len() == 0 {
        None
    } else {
        match token_parts(toks.last()) {
            Some(p) => if p.0 == "speaker"@ && VoiceTextSpeaker::from_text_spec(p.1) is Some {
                VoiceTextSpeaker::from_text_spec(p.1)
            } else {
                vt_last_speaker(toks.drop_last())
            },
            None => vt_last_speaker(toks.drop_last()),
        }
    }
}

/// The value of the last token that set `format`, if any token did.
pub open spec fn vt_last_format(toks: Seq<Seq<char>>) -> Option<VoiceTextFormat>
    decreases toks.len(),
{
    if toks.len() == 0 {
        None
    } else {
        match token_parts(toks.last()) {
            Some(p) => if p.0 == "format"@ && VoiceTextFormat::from_text_spec(p.1) is Some {
                VoiceTextFormat::from_text_spec(p.1)
            } else {
                vt_last_format(toks.drop_last())
            },
            None => vt_last_format(toks.drop_last()),
        }
    }
}

/// The value of the last token that set `emotion`, if any token did.
pub open spec fn vt_last_emotion(toks: Seq<Seq<char>>) -> Option<Option<VoiceTextEmotion>>
    decreases toks.len(),
{
    if toks.len() == 0 {
        None
    } else {
        match token_parts(toks.last()) {
            Some(p) => if p.0 == "emotion"@ && VoiceTextEmotion::from_text_spec(p.1) is Some {
                Some(VoiceTextEmotion::from_text_spec(p.1))
            } else {
                vt_last_emotion(toks.drop_last())
            },
            None => vt_last_emotion(toks.drop_last()),
        }
    }
}

/// The value of the last token that set `emotion_level`, if any token did.
pub open spec fn vt_last_emotion_level(toks: Seq<Seq<char>>) -> Option<u8>
    decreases toks.len(),
{
    if toks.len() == 0 {
        None
    } else {
        match token_parts(toks.last()) {
            Some(p) => if p.0 == "emotion_level"@ && parse_u8_spec(p.1) is Some {
                parse_u8_spec(p.1)
            } else {
                vt_last_emotion_level(toks.drop_last())
            },
            None => vt_last_emotion_level(toks.drop_last()),
        }
    }
}

/// The value of the last token that set `pitch`, if any token did.
pub open spec fn vt_last_pitch(toks: Seq<Seq<char>>) -> Option<u8>
    decreases toks.len(),
{
    if toks.len() == 0 {
        None
    } else {
        match token_parts(toks.last()) {
            Some(p) => if p.0 == "pitch"@ && parse_u8_spec(p.1) is Some {
                parse_u8_spec(p.1)
            } else {
                vt_last_pitch(toks.drop_last())
            },
            None => vt_last_pitch(toks.drop_last()),
        }
    }
}

/// The value of the last token that set `speed`, if any token did.
pub open spec fn vt_last_speed(toks: Seq<Seq<char>>) -> Option<u16>
    decreases toks.len(),
{
    if toks.len() == 0 {
        None
    } else {
        match token_parts(toks.last()) {
            Some(p) => if p.0 == "speed"@ && parse_u16_spec(p.1) is Some {
                parse_u16_spec(p.1)
            } else {
                vt_last_speed(toks.drop_last())
            },
            None => vt_last_speed(toks.drop_last()),
        }
    }
}

/// The value of the last token that set `volume`, if any token did.
pub open spec fn vt_last_volume(toks: Seq<Seq<char>>) -> Option<u8>
    decreases toks.len(),
{
    if toks.len() == 0 {
        None
    } else {
        match token_parts(toks.last()) {
            Some(p) => if p.0 == "volume"@ && parse_u8_spec(p.1) is Some {
                parse_u8_spec(p.1)
            } else {
                vt_last_volume(toks.drop_last())
            },
            None => vt_last_volume(toks.drop_last()),
        }
    }
}

proof fn lemma_vt_key_literals_distinct()
    ensures
        "speaker"@ != "format"@ && "speaker"@ != "emotion"@ && "speaker"@ != "emotion_level"@
            && "speaker"@ != "pitch"@ && "speaker"@ != "speed"@ && "speaker"@ != "volume"@
            && "format"@ != "emotion"@ && "format"@ != "emotion_level"@ && "format"@ != "pitch"@
            && "format"@ != "speed"@ && "format"@ != "volume"@ && "emotion"@ != "emotion_level"@
            && "emotion"@ != "pitch"@ && "emotion"@ != "speed"@ && "emotion"@ != "volume"@
            && "emotion_level"@ != "pitch"@ && "emotion_level"@ != "speed"@ && "emotion_level"@
            != "volume"@ && "pitch"@ != "speed"@ && "pitch"@ != "volume"@ && "speed"@
            != "volume"@,
{
    reveal_strlit("speaker");
    reveal_strlit("format");
    reveal_strlit("emotion");
    reveal_strlit("emotion_level");
    reveal_strlit("pitch");
    reveal_strlit("speed");
    reveal_strlit("volume");
    assert("speaker"@.len() == 7 && "format"@.len() == 6 && "emotion"@.len() == 7
        && "emotion_level"@.len() == 13 && "pitch"@.len() == 5 && "speed"@.len() == 5
        && "volume"@.len() == 6);
    assert("speaker"@[0] == 's' && "emotion"@[0] == 'e' && "format"@[0] == 'f' && "volume"@[0]
        == 'v' && "pitch"@[0] == 'p' && "speed"@[0] == 's');
    assert("pitch"@[0] != "speed"@[0]);
}

/// An accepted token list determines every builder field: each one holds
/// the value of the last token that set it, or stays unsupplied.
pub proof fn lemma_vt_tokens_determine_builder(toks: Seq<Seq<char>>)
    ensures
        vt_apply_tokens(VoiceTextOptionsBuilder::empty(), toks) matches Ok(b) ==> b == (
        VoiceTextOptionsBuilder {
            speaker: vt_last_speaker(toks),
            format: vt_last_format(toks),
            emotion: vt_last_emotion(toks),
            emotion_level: vt_last_emotion_level(toks),
            pitch: vt_last_pitch(toks),
            speed: vt_last_speed(toks),
            volume: vt_last_volume(toks),
        }),
    decreases toks.len(),
{
    lemma_vt_key_literals_distinct();
    if toks.len() > 0 {
        lemma_vt_tokens_determine_builder(toks.drop_last());
    }
}

/// Accepted token lists build exactly the options they spell out: each
/// field carries the value of the last token that set it, or its default
/// when no token did.
pub proof fn lemma_vt_build_fields(toks: Seq<Seq<char>>)
    ensures
        vt_build_from_tokens(toks) matches Ok(o) ==> {
            &&& vt_last_speaker(toks) == Some(o.speaker)
            &&& o.format == (match vt_last_format(toks) {
                Some(f) => f,
                None => VoiceTextFormat::Wav,
            })
            &&& o.emotion == (match vt_last_emotion(toks) {
                Some(e) => e,
                None => None,
            })
            &&& o.emotion_level == (match vt_last_emotion_level(toks) {
                Some(l) => l,
                None => 2,
            })
            &&& o.pitch == (match vt_last_pitch(toks) {
                Some(p) => p,
                None => 100,
            })
            &&& o.speed == (match vt_last_speed(toks) {
                Some(s) => s,
                None => 100,
            })
            &&& o.volume == (match vt_last_volume(toks) {
                Some(v) => v,
                None => 100,
            })
        },
{
    lemma_vt_tokens_determine_builder(toks);
}

proof fn lemma_token_parts_kv(key: Seq<char>, value: Seq<char>)
    requires
        key.len() > 0,
        value.len() > 0,
        forall|j: int| 0 <= j < key.len() ==> key[j] != '=',
        forall|j: int| 0 <= j < value.len() ==> value[j] != '=',
    ensures
        token_parts(key + seq!['='] + value) == Some((key, value)),
{
    let s = key + seq!['='] + value;
    lemma_find_from(s, '=', 0);
    let f = find_from(s, '=', 0);
    assert(s[key.len() as int] == '=');
    assert(f <= key.len());
    if f < key.len() {
        assert(s[f] == key[f]);
    }
    assert(f == key.len());
    assert(forall|j: int| key.len() + 1 <= j < s.len() ==> s[j] != '=') by {
        assert(forall|j: int|
            key.len() + 1 <= j < s.len() ==> s[j] == value[j - key.len() - 1]);
    }
    crate::text::lemma_find_none(s, '=', key.len() as int + 1);
    assert(s.take(f) =~= key);
    assert(s.subrange(f + 1, find_from(s, '=', f + 1)) =~= value);
}

proof fn lemma_vt_apply_push(b: VoiceTextOptionsBuilder, toks: Seq<Seq<char>>, t: Seq<char>)
    ensures
        vt_apply_tokens(b, toks.push(t)) == (match vt_apply_tokens(b, toks) {
            Err(e) => Err(e),
            Ok(b2) => vt_apply_token(b2, t),
        }),
{
    assert(toks.push(t).drop_last() =~= toks);
    assert(toks.push(t).last() == t);
}

proof fn lemma_vt_keys_free_of_eq()
    ensures
        forall|j: int| 0 <= j < "speaker"@.len() ==> "speaker"@[j] != '=',
        forall|j: int| 0 <= j < "format"@.len() ==> "format"@[j] != '=',
        forall|j: int| 0 <= j < "emotion"@.len() ==> "emotion"@[j] != '=',
        forall|j: int| 0 <= j < "emotion_level"@.len() ==> "emotion_level"@[j] != '=',
        forall|j: int| 0 <= j < "pitch"@.len() ==> "pitch"@[j] != '=',
        forall|j: int| 0 <= j < "speed"@.len() ==> "speed"@[j] != '=',
        forall|j: int| 0 <= j < "volume"@.len() ==> "volume"@[j] != '=',
        "speaker"@.len() == 7 && "format"@.len() == 6 && "emotion"@.len() == 7
            && "emotion_level"@.len() == 13 && "pitch"@.len() == 5 && "speed"@.len() == 5
            && "volume"@.len() == 6,
        "speaker="@ == "speaker"@ + seq!['='],
        "format="@ == "format"@ + seq!['='],
        "emotion="@ == "emotion"@ + seq!['='],
        "emotion_level="@ == "emotion_level"@ + seq!['='],
        "pitch="@ == "pitch"@ + seq!['='],
        "speed="@ == "speed"@ + seq!['='],
        "volume="@ == "volume"@ + seq!['='],
{
    reveal_strlit("speaker");
    reveal_strlit("format");
    reveal_strlit("emotion");
    reveal_strlit("emotion_level");
    reveal_strlit("pitch");
    reveal_strlit("speed");
    reveal_strlit("volume");
    reveal_strlit("speaker=");
    reveal_strlit("format=");
    reveal_strlit("emotion=");
    reveal_strlit("emotion_level=");
    reveal_strlit("pitch=");
    reveal_strlit("speed=");
    reveal_strlit("volume=");
    assert("speaker"@.len() == 7 && "format"@.len() == 6 && "emotion"@.len() == 7
        && "emotion_level"@.len() == 13 && "pitch"@.len() == 5 && "speed"@.len() == 5
        && "volume"@.len() == 6);
    assert("speaker="@.len() == 8 && "format="@.len() == 7 && "emotion="@.len() == 8
        && "emotion_level="@.len() == 14 && "pitch="@.len() == 6 && "speed="@.len() == 6
        && "volume="@.len() == 7);
    assert("speaker="@ =~= "speaker"@ + seq!['=']);
    assert("format="@ =~= "format"@ + seq!['=']);
    assert("emotion="@ =~= "emotion"@ + seq!['=']);
    assert("emotion_level="@ =~= "emotion_level"@ + seq!['=']);
    assert("pitch="@ =~= "pitch"@ + seq!['=']);
    assert("speed="@ =~= "speed"@ + seq!['=']);
    assert("volume="@ =~= "volume"@ + seq!['=']);
}

proof fn lemma_number_token_value(n: int)
    requires
        0 <= n <= 65535,
    ensures
        parse_u16_spec(dec_seq(n)) == Some(n as u16),
        n <= 255 ==> parse_u8_spec(dec_seq(n)) == Some(n as u8),
        forall|j: int| 0 <= j < dec_seq(n).len() ==> dec_seq(n)[j] != '=',
        dec_seq(n).len() >= 1,
{
    crate::text::lemma_dec_seq_value(n);
    let s = dec_seq(n);
    assert(crate::text::spec_is_digit(s[0]));
    assert(s[0] != '+');
    assert(crate::text::token_digits(s) == s);
    crate::text::lemma_digits_free_of(s, '=');
}

/// Serializing options as tokens and building from them is the identity:
/// the builder accepts exactly the well-formed options the tokens spell out.
#[verifier::rlimit(100)]
pub proof fn lemma_vt_to_tokens_round_trip(o: VoiceTextOptions)
    requires
        o.wf(),
    ensures
        vt_build_from_tokens(o.to_tokens_spec()) == Ok::<VoiceTextOptions, BuildErrorView>(o),
{
    lemma_vt_key_literals_distinct();
    lemma_vt_keys_free_of_eq();
    crate::tts::voice_text::lemma_speaker_text_free_of_eq(o.speaker);
    crate::tts::voice_text::lemma_format_text_free_of_eq(o.format);
    crate::tts::voice_text::lemma_voice_text_speaker_round_trip(
        o.speaker,
        Seq::<char>::empty(),
    );
    crate::tts::voice_text::lemma_voice_text_format_round_trip(o.format, Seq::<char>::empty());
    lemma_number_token_value(o.emotion_level as int);
    lemma_number_token_value(o.pitch as int);
    lemma_number_token_value(o.speed as int);
    lemma_number_token_value(o.volume as int);

    let t1 = "speaker="@ + o.speaker.to_text_spec();
    let t2 = "format="@ + o.format.to_text_spec();
    let t3 = "emotion_level="@ + dec_seq(o.emotion_level as int);
    let t4 = "pitch="@ + dec_seq(o.pitch as int);
    let t5 = "speed="@ + dec_seq(o.speed as int);
    let t6 = "volume="@ + dec_seq(o.volume as int);

    lemma_token_parts_kv("speaker"@, o.speaker.to_text_spec());
    lemma_token_parts_kv("format"@, o.format.to_text_spec());
    lemma_token_parts_kv("emotion_level"@, dec_seq(o.emotion_level as int));
    lemma_token_parts_kv("pitch"@, dec_seq(o.pitch as int));
    lemma_token_parts_kv("speed"@, dec_seq(o.speed as int));
    lemma_token_parts_kv("volume"@, dec_seq(o.volume as int));
    assert(token_parts(t1) == Some(("speaker"@, o.speaker.to_text_spec())));
    assert(token_parts(t2) == Some(("format"@, o.format.to_text_spec())));
    assert(token_parts(t3) == Some(("emotion_level"@, dec_seq(o.emotion_level as int))));
    assert(token_parts(t4) == Some(("pitch"@, dec_seq(o.pitch as int))));
    assert(token_parts(t5) == Some(("speed"@, dec_seq(o.speed as int))));
    assert(token_parts(t6) == Some(("volume"@, dec_seq(o.volume as int))));

    let b0 = VoiceTextOptionsBuilder::empty();
    let s0 = Seq::<Seq<char>>::empty();
    assert(vt_apply_tokens(b0, s0) == Ok::<VoiceTextOptionsBuilder, BuildErrorView>(b0));

    let b1 = VoiceTextOptionsBuilder { speaker: Some(o.speaker), ..b0 };
    let s1 = s0.push(t1);
    lemma_vt_apply_push(b0, s0, t1);
    assert(vt_apply_token(b0, t1) == Ok::<VoiceTextOptionsBuilder, BuildErrorView>(b1));

    let b2 = VoiceTextOptionsBuilder { format: Some(o.format), ..b1 };
    let s2 = s1.push(t2);
    lemma_vt_apply_push(b0, s1, t2);
    assert(vt_apply_token(b1, t2) == Ok::<VoiceTextOptionsBuilder, BuildErrorView>(b2));

    let b3 = VoiceTextOptionsBuilder { emotion_level: Some(o.emotion_level), ..b2 };
    let s3 = s2.push(t3);
    lemma_vt_apply_push(b0, s2, t3);
    assert(vt_apply_token(b2, t3) == Ok::<VoiceTextOptionsBuilder, BuildErrorView>(b3));

    let b4 = VoiceTextOptionsBuilder { pitch: Some(o.pitch), ..b3 };
    let s4 = s3.push(t4);
    lemma_vt_apply_push(b0, s3, t4);
    assert(vt_apply_token(b3, t4) == Ok::<VoiceTextOptionsBuilder, BuildErrorView>(b4));

    let b5 = VoiceTextOptionsBuilder { speed: Some(o.speed), ..b4 };
    let s5 = s4.push(t5);
    lemma_vt_apply_push(b0, s4, t5);
    assert(vt_apply_token(b4, t5) == Ok::<VoiceTextOptionsBuilder, BuildErrorView>(b5));

    let b6 = VoiceTextOptionsBuilder { volume: Some(o.volume), ..b5 };
    let s6 = s5.push(t6);
    lemma_vt_apply_push(b0, s5, t6);
    assert(vt_apply_token(b5, t6) == Ok::<VoiceTextOptionsBuilder, BuildErrorView>(b6));
    assert(vt_apply_tokens(b0, s6) == Ok::<VoiceTextOptionsBuilder, BuildErrorView>(b6));

    match o.emotion {
        None => {
            assert(o.to_tokens_spec() =~= s6);
            assert(b6.first_violation() is None);
            assert(b6.build_spec() == Ok::<VoiceTextOptions, ValidationError>(o));
        },
        Some(e) => {
            crate::tts::voice_text::lemma_emotion_text_free_of_eq(e);
            crate::tts::voice_text::lemma_voice_text_emotion_round_trip(
                e,
                Seq::<char>::empty(),
            );
            let t7 = "emotion="@ + e.to_text_spec();
            lemma_token_parts_kv("emotion"@, e.to_text_spec());
            assert(token_parts(t7) == Some(("emotion"@, e.to_text_spec())));
            let b7 = VoiceTextOptionsBuilder { emotion: Some(Some(e)), ..b6 };
            let s7 = s6.push(t7);
            lemma_vt_apply_push(b0, s6, t7);
            assert(vt_apply_token(b6, t7) == Ok::<VoiceTextOptionsBuilder, BuildErrorView>(b7));
            assert(o.to_tokens_spec() =~= s7);
            assert(o.speaker != VoiceTextSpeaker::Show);
            assert(b7.first_violation() is None);
            assert(b7.build_spec() == Ok::<VoiceTextOptions, ValidationError>(o));
        },
    }
}

/// One token applied to a VoiceVox builder.
pub open spec fn vv_apply_token(b: VoiceVoxOptionsBuilder, t: Seq<char>) -> Result<
    VoiceVoxOptionsBuilder,
    BuildErrorView,
> {
    match token_parts(t) {
        None => Err(BuildErrorView::MalformedToken { token: t }),
        Some((key, value)) => {
            if key == "speaker"@ {
                match VoiceVoxSpeaker::from_text_spec(value) {
                    Some(s) => Ok(VoiceVoxOptionsBuilder { speaker: Some(s), ..b }),
                    None => Err(BuildErrorView::BadValue { field: OptionField::Speaker, value }),
                }
            } else if key == "pitch"@ {
                match Decimal::parse_spec(value) {
                    Some(d) => Ok(VoiceVoxOptionsBuilder { pitch: Some(d), ..b }),
                    None => Err(BuildErrorView::BadValue { field: OptionField::Pitch, value }),
                }
            } else if key == "intonationScale"@ {
                match Decimal::parse_spec(value) {
                    Some(d) => Ok(VoiceVoxOptionsBuilder { intonation_scale: Some(d), ..b }),
                    None => Err(
                        BuildErrorView::BadValue { field: OptionField::IntonationScale, value },
                    ),
                }
            } else if key == "speed"@ {
                match Decimal::parse_spec(value) {
                    Some(d) => Ok(VoiceVoxOptionsBuilder { speed: Some(d), ..b }),
                    None => Err(BuildErrorView::BadValue { field: OptionField::Speed, value }),
                }
            } else {
                Ok(b)
            }
        },
    }
}

pub open spec fn vv_apply_tokens(b: VoiceVoxOptionsBuilder, toks: Seq<Seq<char>>) -> Result<
    VoiceVoxOptionsBuilder,
    BuildErrorView,
>
    decreases toks.len(),
{
    if toks.len() == 0 {
        Ok(b)
    } else {
        match vv_apply_tokens(b, toks.drop_last()) {
            Err(e) => Err(e),
            Ok(b2) => vv_apply_token(b2, toks.last()),
        }
    }
}

/// The whole VoiceVox token path.
pub open spec fn vv_build_from_tokens(toks: Seq<Seq<char>>) -> Result<
    VoiceVoxOptions,
    BuildErrorView,
> {
    match vv_apply_tokens(VoiceVoxOptionsBuilder::empty(), toks) {
        Err(e) => Err(e),
        Ok(b) => match b.build_spec() {
            Ok(o) => Ok(o),
            Err(ve) => Err(BuildErrorView::Invalid { reason: ve }),
        },
    }
}

proof fn lemma_vv_apply_tokens_err(b: VoiceVoxOptionsBuilder, toks: Seq<Seq<char>>, i: int)
    requires
        0 <= i <= toks.len(),
        vv_apply_tokens(b, toks.take(i)) is Err,
    ensures
        vv_apply_tokens(b, toks) == vv_apply_tokens(b, toks.take(i)),
    decreases toks.len() - i,
{
    if i == toks.len() {
        assert(toks.take(i) =~= toks);
    } else {
        assert(toks.take(i + 1).drop_last() =~= toks.take(i));
        lemma_vv_apply_tokens_err(b, toks, i + 1);
    }
}

fn vv_apply(b: VoiceVoxOptionsBuilder, t: &str) -> (r: Result<VoiceVoxOptionsBuilder, BuildError>)
    ensures
        result_view(r) == vv_apply_token(b, t@),
        b.wf() ==> (r matches Ok(nb) ==> nb.wf()),
{
    match split_token(t) {
        None => Err(BuildError::MalformedToken { token: String::from_str(t) }),
        Some((key, value)) => {
            if str_eq(key, "speaker") {
                match VoiceVoxSpeaker::from_text(value) {
                    Some(s) => Ok(b.speaker(s)),
                    None => Err(
                        BuildError::BadValue {
                            field: OptionField::Speaker,
                            value: String::from_str(value),
                        },
                    ),
                }
            } else if str_eq(key, "pitch") {
                match Decimal::parse(value) {
                    Some(d) => Ok(b.pitch(d)),
                    None => Err(
                        BuildError::BadValue {
                            field: OptionField::Pitch,
                            value: String::from_str(value),
                        },
                    ),
                }
            } else if str_eq(key, "intonationScale") {
                match Decimal::parse(value) {
                    Some(d) => Ok(b.intonation_scale(d)),
                    None => Err(
                        BuildError::BadValue {
                            field: OptionField::IntonationScale,
                            value: String::from_str(value),
                        },
                    ),
                }
            } else if str_eq(key, "speed") {
                match Decimal::parse(value) {
                    Some(d) => Ok(b.speed(d)),
                    None => Err(
                        BuildError::BadValue {
                            field: OptionField::Speed,
                            value: String::from_str(value),
                        },
                    ),
                }
            } else {
                Ok(b)
            }
        },
    }
}

/// The value of the last token that set the VoiceVox `speaker`.
pub open spec fn vv_last_speaker(toks: Seq<Seq<char>>) -> Option<VoiceVoxSpeaker>
    decreases toks.len(),
{
    if toks.len() == 0 {
        None
    } else {
        match token_parts(toks.last()) {
            Some(p) => if p.0 == "speaker"@ && VoiceVoxSpeaker::from_text_spec(p.1) is Some {
                VoiceVoxSpeaker::from_text_spec(p.1)
            } else {
                vv_last_speaker(toks.drop_last())
            },
            None => vv_last_speaker(toks.drop_last()),
        }
    }
}

/// The value of the last token that set the VoiceVox `pitch`.
pub open spec fn vv_last_pitch(toks: Seq<Seq<char>>) -> Option<Decimal>
    decreases toks.len(),
{
    if toks.len() == 0 {
        None
    } else {
        match token_parts(toks.last()) {
            Some(p) => if p.0 == "pitch"@ && Decimal::parse_spec(p.1) is Some {
                Decimal::parse_spec(p.1)
            } else {
                vv_last_pitch(toks.drop_last())
            },
            None => vv_last_pitch(toks.drop_last()),
        }
    }
}

/// The value of the last token that set `intonationScale`.
pub open spec fn vv_last_intonation_scale(toks: Seq<Seq<char>>) -> Option<Decimal>
    decreases toks.len(),
{
    if toks.len() == 0 {
        None
    } else {
        match token_parts(toks.last()) {
            Some(p) => if p.0 == "intonationScale"@ && Decimal::parse_spec(p.1) is Some {
                Decimal::parse_spec(p.1)
            } else {
                vv_last_intonation_scale(toks.drop_last())
            },
            None => vv_last_intonation_scale(toks.drop_last()),
        }
    }
}

/// The value of the last token that set the VoiceVox `speed`.
pub open spec fn vv_last_speed(toks: Seq<Seq<char>>) -> Option<Decimal>
    decreases toks.len(),
{
    if toks.len() == 0 {
        None
    } else {
        match token_parts(toks.last()) {
            Some(p) => if p.0 == "speed"@ && Decimal::parse_spec(p.1) is Some {
                Decimal::parse_spec(p.1)
            } else {
                vv_last_speed(toks.drop_last())
            },
            None => vv_last_speed(toks.drop_last()),
        }
    }
}

proof fn lemma_vv_key_literals_distinct()
    ensures
        "speaker"@ != "pitch"@ && "speaker"@ != "intonationScale"@ && "speaker"@ != "speed"@
            && "pitch"@ != "intonationScale"@ && "pitch"@ != "speed"@ && "intonationScale"@
            != "speed"@,
{
    reveal_strlit("speaker");
    reveal_strlit("pitch");
    reveal_strlit("intonationScale");
    reveal_strlit("speed");
    assert("speaker"@.len() == 7 && "pitch"@.len() == 5 && "intonationScale"@.len() == 15
        && "speed"@.len() == 5);
    assert("pitch"@[0] == 'p' && "speed"@[0] == 's');
}

/// An accepted VoiceVox token list determines every builder field.
pub proof fn lemma_vv_tokens_determine_builder(toks: Seq<Seq<char>>)
    ensures
        vv_apply_tokens(VoiceVoxOptionsBuilder::empty(), toks) matches Ok(b) ==> b == (
        VoiceVoxOptionsBuilder {
            speaker: vv_last_speaker(toks),
            pitch: vv_last_pitch(toks),
            intonation_scale: vv_last_intonation_scale(toks),
            speed: vv_last_speed(toks),
        }),
    decreases toks.len(),
{
    lemma_vv_key_literals_distinct();
    if toks.len() > 0 {
        lemma_vv_tokens_determine_builder(toks.drop_last());
    }
}

/// Accepted VoiceVox token lists build exactly the options they spell out.
pub proof fn lemma_vv_build_fields(toks: Seq<Seq<char>>)
    ensures
        vv_build_from_tokens(toks) matches Ok(o) ==> {
            &&& vv_last_speaker(toks) == Some(o.speaker)
            &&& o.pitch == (match vv_last_pitch(toks) {
                Some(d) => d,
                None => VoiceVoxOptions::default_pitch(),
            })
            &&& o.intonation_scale == (match vv_last_intonation_scale(toks) {
                Some(d) => d,
                None => VoiceVoxOptions::default_intonation_scale(),
            })
            &&& o.speed == (match vv_last_speed(toks) {
                Some(d) => d,
                None => VoiceVoxOptions::default_speed(),
            })
        },
{
    lemma_vv_tokens_determine_builder(toks);
}

proof fn lemma_vv_apply_push(b: VoiceVoxOptionsBuilder, toks: Seq<Seq<char>>, t: Seq<char>)
    ensures
        vv_apply_tokens(b, toks.push(t)) == (match vv_apply_tokens(b, toks) {
            Err(e) => Err(e),
            Ok(b2) => vv_apply_token(b2, t),
        }),
{
    assert(toks.push(t).drop_last() =~= toks);
    assert(toks.push(t).last() == t);
}

proof fn lemma_vv_keys_free_of_eq()
    ensures
        forall|j: int| 0 <= j < "speaker"@.len() ==> "speaker"@[j] != '=',
        forall|j: int| 0 <= j < "pitch"@.len() ==> "pitch"@[j] != '=',
        forall|j: int| 0 <= j < "intonationScale"@.len() ==> "intonationScale"@[j] != '=',
        forall|j: int| 0 <= j < "speed"@.len() ==> "speed"@[j] != '=',
        "speaker"@.len() == 7 && "pitch"@.len() == 5 && "intonationScale"@.len() == 15
            && "speed"@.len() == 5,
        "speaker="@ == "speaker"@ + seq!['='],
        "pitch="@ == "pitch"@ + seq!['='],
        "intonationScale="@ == "intonationScale"@ + seq!['='],
        "speed="@ == "speed"@ + seq!['='],
{
    reveal_strlit("speaker");
    reveal_strlit("pitch");
    reveal_strlit("intonationScale");
    reveal_strlit("speed");
    reveal_strlit("speaker=");
    reveal_strlit("pitch=");
    reveal_strlit("intonationScale=");
    reveal_strlit("speed=");
    assert("speaker"@.len() == 7 && "pitch"@.len() == 5 && "intonationScale"@.len() == 15
        && "speed"@.len() == 5);
    assert("speaker="@.len() == 8 && "pitch="@.len() == 6 && "intonationScale="@.len() == 16
        && "speed="@.len() == 6);
    assert("speaker="@ =~= "speaker"@ + seq!['=']);
    assert("pitch="@ =~= "pitch"@ + seq!['=']);
    assert("intonationScale="@ =~= "intonationScale"@ + seq!['=']);
    assert("speed="@ =~= "speed"@ + seq!['=']);
}

/// Serializing VoiceVox options as tokens and building from them is the
/// identity.
#[verifier::rlimit(100)]
pub proof fn lemma_vv_to_tokens_round_trip(o: VoiceVoxOptions)
    requires
        o.wf(),
    ensures
        vv_build_from_tokens(o.to_tokens_spec()) == Ok::<VoiceVoxOptions, BuildErrorView>(o),
{
    lemma_vv_key_literals_distinct();
    lemma_vv_keys_free_of_eq();
    crate::tts::voice_vox::lemma_vox_speaker_text_free_of_eq(o.speaker);
    crate::tts::voice_vox::lemma_voice_vox_speaker_round_trip(o.speaker, Seq::<char>::empty());
    crate::tts::voice_vox::lemma_decimal_text_free_of_eq(o.pitch);
    crate::tts::voice_vox::lemma_decimal_text_free_of_eq(o.intonation_scale);
    crate::tts::voice_vox::lemma_decimal_text_free_of_eq(o.speed);
    crate::tts::voice_vox::lemma_decimal_text_round_trip(o.pitch);
    crate::tts::voice_vox::lemma_decimal_text_round_trip(o.intonation_scale);
    crate::tts::voice_vox::lemma_decimal_text_round_trip(o.speed);

    let t1 = "speaker="@ + o.speaker.to_text_spec();
    let t2 = "pitch="@ + o.pitch.text_spec();
    let t3 = "intonationScale="@ + o.intonation_scale.text_spec();
    let t4 = "speed="@ + o.speed.text_spec();

    lemma_token_parts_kv("speaker"@, o.speaker.to_text_spec());
    lemma_token_parts_kv("pitch"@, o.pitch.text_spec());
    lemma_token_parts_kv("intonationScale"@, o.intonation_scale.text_spec());
    lemma_token_parts_kv("speed"@, o.speed.text_spec());
    assert(token_parts(t1) == Some(("speaker"@, o.speaker.to_text_spec())));
    assert(token_parts(t2) == Some(("pitch"@, o.pitch.text_spec())));
    assert(token_parts(t3) == Some(("intonationScale"@, o.intonation_scale.text_spec())));
    assert(token_parts(t4) == Some(("speed"@, o.speed.text_spec())));

    let b0 = VoiceVoxOptionsBuilder::empty();
    let s0 = Seq::<Seq<char>>::empty();
    assert(vv_apply_tokens(b0, s0) == Ok::<VoiceVoxOptionsBuilder, BuildErrorView>(b0));

    let b1 = VoiceVoxOptionsBuilder { speaker: Some(o.speaker), ..b0 };
    let s1 = s0.push(t1);
    lemma_vv_apply_push(b0, s0, t1);
    assert(vv_apply_token(b0, t1) == Ok::<VoiceVoxOptionsBuilder, BuildErrorView>(b1));

    let b2 = VoiceVoxOptionsBuilder { pitch: Some(o.pitch), ..b1 };
    let s2 = s1.push(t2);
    lemma_vv_apply_push(b0, s1, t2);
    assert(vv_apply_token(b1, t2) == Ok::<VoiceVoxOptionsBuilder, BuildErrorView>(b2));

    let b3 = VoiceVoxOptionsBuilder { intonation_scale: Some(o.intonation_scale), ..b2 };
    let s3 = s2.push(t3);
    lemma_vv_apply_push(b0, s2, t3);
    assert(vv_apply_token(b2, t3) == Ok::<VoiceVoxOptionsBuilder, BuildErrorView>(b3));

    let b4 = VoiceVoxOptionsBuilder { speed: Some(o.speed), ..b3 };
    let s4 = s3.push(t4);
    lemma_vv_apply_push(b0, s3, t4);
    assert(vv_apply_token(b3, t4) == Ok::<VoiceVoxOptionsBuilder, BuildErrorView>(b4));
    assert(vv_apply_tokens(b0, s4) == Ok::<VoiceVoxOptionsBuilder, BuildErrorView>(b4));

    assert(o.to_tokens_spec() =~= s4);
    assert(b4.build_spec() == Ok::<VoiceVoxOptions, ValidationError>(o));
}

/// Builds VoiceVox options from `key=value` tokens.
pub fn build_voice_vox_options(args: &Vec<String>) -> (r: Result<VoiceVoxOptions, BuildError>)
    ensures
        result_view(r) == vv_build_from_tokens(args.deep_view()),
        r matches Ok(o) ==> o.wf(),
{
    let ghost toks = args.deep_view();
    let mut b = VoiceVoxOptionsBuilder::new();
    let mut idx: usize = 0;
    while idx < args.len()
        invariant
            idx <= args.len(),
            toks == args.deep_view(),
            toks.len() == args@.len(),
            b.wf(),
            vv_apply_tokens(VoiceVoxOptionsBuilder::empty(), toks.take(idx as int)) == Ok::<
                VoiceVoxOptionsBuilder,
                BuildErrorView,
            >(b),
        decreases args.len() - idx,
    {
        let arg: &String = &args[idx];
        proof {
            assert(toks[idx as int] == args@[idx as int]@);
            assert(toks.take(idx + 1).drop_last() =~= toks.take(idx as int));
            assert(toks.take(idx + 1).last() == toks[idx as int]);
        }
        match vv_apply(b, arg.as_str()) {
            Ok(nb) => {
                b = nb;
            },
            Err(e) => {
                proof {
                    lemma_vv_apply_tokens_err(VoiceVoxOptionsBuilder::empty(), toks, idx + 1);
                }
                return Err(e);
            },
        }
        idx = idx + 1;
    }
    proof {
        assert(toks.take(args@.len() as int) =~= toks);
    }
    match b.build() {
        Ok(o) => Ok(o),
        Err(ve) => Err(BuildError::Invalid { reason: ve }),
    }
}

} // verus!
