//! The VoiceVox engine's option schema: the speaker roster with its fixed
//! wire identifiers and display names, and the decimal-valued voice
//! parameters, kept as exact fixed-point values.

use vstd::prelude::*;

use crate::text::{
    all_digits, dec_seq, dec_value, find_char, find_from, pairs_view, parse_digits,
    parse_digits_spec, pow10, spec_is_digit, str_eq, u16_to_dec, zero_pad, zeros,
    lemma_dec_seq_len, lemma_dec_seq_value, lemma_dec_value_bound, lemma_zero_pad,
};
use crate::tts::voice_text::ValidationError;

verus! {

/// The VoiceVox speaker roster. Each variant carries a fixed numeric wire
/// identifier ([`VoiceVoxSpeaker::id`]) and a display name
/// ([`VoiceVoxSpeaker::to_text`]); the display name, not the identifier, is
/// what commands parse.
#[derive(Clone, Copy, Debug, PartialEq, Eq, Structural)]
pub enum VoiceVoxSpeaker {
    ShikokuMetan,
    ShikokuMetanAmaama,
    ShikokuMetanTsuntsun,
    ShikokuMetanSexy,
    Zundamon,
    ZundamonAmaama,
    ZundamonTsuntsun,
    ZundamonSexy,
    KasukabeTsumugi,
    AmehareHau,
    NamineRitsu,
    KuronoTakehiro,
    ShirakamiKotaro,
    AoyamaRyusei,
    MeimeiHimari,
    KyushuSora,
    KyushuSoraAmaama,
    KyushuSoraTsuntsun,
    KyushuSoraSexy,
    KyushuSoraSasayaki,
}

impl VoiceVoxSpeaker {
    /// The fixed wire identifier of each speaker.
    pub open spec fn id_spec(self) -> u8 {
        match self {
            VoiceVoxSpeaker::ShikokuMetan => 2,
            VoiceVoxSpeaker::ShikokuMetanAmaama => 0,
            VoiceVoxSpeaker::ShikokuMetanTsuntsun => 6,
            VoiceVoxSpeaker::ShikokuMetanSexy => 4,
            VoiceVoxSpeaker::Zundamon => 3,
            VoiceVoxSpeaker::ZundamonAmaama => 1,
            VoiceVoxSpeaker::ZundamonTsuntsun => 7,
            VoiceVoxSpeaker::ZundamonSexy => 5,
            VoiceVoxSpeaker::KasukabeTsumugi => 8,
            VoiceVoxSpeaker::AmehareHau => 10,
            VoiceVoxSpeaker::NamineRitsu => 9,
            VoiceVoxSpeaker::KuronoTakehiro => 11,
            VoiceVoxSpeaker::ShirakamiKotaro => 12,
            VoiceVoxSpeaker::AoyamaRyusei => 13,
            VoiceVoxSpeaker::MeimeiHimari => 14,
            VoiceVoxSpeaker::KyushuSora => 16,
            VoiceVoxSpeaker::KyushuSoraAmaama => 15,
            VoiceVoxSpeaker::KyushuSoraTsuntsun => 18,
            VoiceVoxSpeaker::KyushuSoraSexy => 17,
            VoiceVoxSpeaker::KyushuSoraSasayaki => 19,
        }
    }

    pub fn id(self) -> (r: u8)
        ensures
            r == self.id_spec(),
    {
        match self {
            VoiceVoxSpeaker::ShikokuMetan => 2,
            VoiceVoxSpeaker::ShikokuMetanAmaama => 0,
            VoiceVoxSpeaker::ShikokuMetanTsuntsun => 6,
            VoiceVoxSpeaker::ShikokuMetanSexy => 4,
            VoiceVoxSpeaker::Zundamon => 3,
            VoiceVoxSpeaker::ZundamonAmaama => 1,
            VoiceVoxSpeaker::ZundamonTsuntsun => 7,
            VoiceVoxSpeaker::ZundamonSexy => 5,
            VoiceVoxSpeaker::KasukabeTsumugi => 8,
            VoiceVoxSpeaker::AmehareHau => 10,
            VoiceVoxSpeaker::NamineRitsu => 9,
            VoiceVoxSpeaker::KuronoTakehiro => 11,
            VoiceVoxSpeaker::ShirakamiKotaro => 12,
            VoiceVoxSpeaker::AoyamaRyusei => 13,
            VoiceVoxSpeaker::MeimeiHimari => 14,
            VoiceVoxSpeaker::KyushuSora => 16,
            VoiceVoxSpeaker::KyushuSoraAmaama => 15,
            VoiceVoxSpeaker::KyushuSoraTsuntsun => 18,
            VoiceVoxSpeaker::KyushuSoraSexy => 17,
            VoiceVoxSpeaker::KyushuSoraSasayaki => 19,
        }
    }

    /// The display name of each speaker.
    pub open spec fn to_text_spec(self) -> Seq<char> {
        match self {
            VoiceVoxSpeaker::ShikokuMetan => "四国めたん"@,
            VoiceVoxSpeaker::ShikokuMetanAmaama => "四国めたんあまあま"@,
            VoiceVoxSpeaker::ShikokuMetanTsuntsun => "四国めたんツンツン"@,
            VoiceVoxSpeaker::ShikokuMetanSexy => "四国めたんセクシー"@,
            VoiceVoxSpeaker::Zundamon => "ずんだもん"@,
            VoiceVoxSpeaker::ZundamonAmaama => "ずんだもんあまあま"@,
            VoiceVoxSpeaker::ZundamonTsuntsun => "ずんだもんツンツン"@,
            VoiceVoxSpeaker::ZundamonSexy => "ずんだもんセクシー"@,
            VoiceVoxSpeaker::KasukabeTsumugi => "春日部つむぎ"@,
            VoiceVoxSpeaker::AmehareHau => "雨晴はう"@,
            VoiceVoxSpeaker::NamineRitsu => "波音リツ"@,
            VoiceVoxSpeaker::KuronoTakehiro => "玄野武宏"@,
            VoiceVoxSpeaker::ShirakamiKotaro => "白上虎太郎"@,
            VoiceVoxSpeaker::AoyamaRyusei => "青山龍星"@,
            VoiceVoxSpeaker::MeimeiHimari => "冥鳴ひまり"@,
            VoiceVoxSpeaker::KyushuSora => "九州そら"@,
            VoiceVoxSpeaker::KyushuSoraAmaama => "九州そらあまあま"@,
            VoiceVoxSpeaker::KyushuSoraTsuntsun => "九州そらツンツン"@,
            VoiceVoxSpeaker::KyushuSoraSexy => "九州そらセクシー"@,
            VoiceVoxSpeaker::KyushuSoraSasayaki => "九州そらささやき"@,
        }
    }

    pub open spec fn from_text_spec(s: Seq<char>) -> Option<VoiceVoxSpeaker> {
        if s == "四国めたん"@ {
            Some(VoiceVoxSpeaker::ShikokuMetan)
        } else if s == "四国めたんあまあま"@ {
            Some(VoiceVoxSpeaker::ShikokuMetanAmaama)
        } else if s == "四国めたんツンツン"@ {
            Some(VoiceVoxSpeaker::ShikokuMetanTsuntsun)
        } else if s == "四国めたんセクシー"@ {
            Some(VoiceVoxSpeaker::ShikokuMetanSexy)
        } else if s == "ずんだもん"@ {
            Some(VoiceVoxSpeaker::Zundamon)
        } else if s == "ずんだもんあまあま"@ {
            Some(VoiceVoxSpeaker::ZundamonAmaama)
        } else if s == "ずんだもんツンツン"@ {
            Some(VoiceVoxSpeaker::ZundamonTsuntsun)
        } else if s == "ずんだもんセクシー"@ {
            Some(VoiceVoxSpeaker::ZundamonSexy)
        } else if s == "春日部つむぎ"@ {
            Some(VoiceVoxSpeaker::KasukabeTsumugi)
        } else if s == "雨晴はう"@ {
            Some(VoiceVoxSpeaker::AmehareHau)
        } else if s == "波音リツ"@ {
            Some(VoiceVoxSpeaker::NamineRitsu)
        } else if s == "玄野武宏"@ {
            Some(VoiceVoxSpeaker::KuronoTakehiro)
        } else if s == "白上虎太郎"@ {
            Some(VoiceVoxSpeaker::ShirakamiKotaro)
        } else if s == "青山龍星"@ {
            Some(VoiceVoxSpeaker::AoyamaRyusei)
        } else if s == "冥鳴ひまり"@ {
            Some(VoiceVoxSpeaker::MeimeiHimari)
        } else if s == "九州そら"@ {
            Some(VoiceVoxSpeaker::KyushuSora)
        } else if s == "九州そらあまあま"@ {
            Some(VoiceVoxSpeaker::KyushuSoraAmaama)
        } else if s == "九州そらツンツン"@ {
            Some(VoiceVoxSpeaker::KyushuSoraTsuntsun)
        } else if s == "九州そらセクシー"@ {
            Some(VoiceVoxSpeaker::KyushuSoraSexy)
        } else if s == "九州そらささやき"@ {
            Some(VoiceVoxSpeaker::KyushuSoraSasayaki)
        } else {
            None
        }
    }

    pub fn to_text(self) -> (r: String)
        ensures
            r@ == self.to_text_spec(),
    {
        String::from_str(
            match self {
                VoiceVoxSpeaker::ShikokuMetan => "四国めたん",
                VoiceVoxSpeaker::ShikokuMetanAmaama => "四国めたんあまあま",
                VoiceVoxSpeaker::ShikokuMetanTsuntsun => "四国めたんツンツン",
                VoiceVoxSpeaker::ShikokuMetanSexy => "四国めたんセクシー",
                VoiceVoxSpeaker::Zundamon => "ずんだもん",
                VoiceVoxSpeaker::ZundamonAmaama => "ずんだもんあまあま",
                VoiceVoxSpeaker::ZundamonTsuntsun => "ずんだもんツンツン",
                VoiceVoxSpeaker::ZundamonSexy => "ずんだもんセクシー",
                VoiceVoxSpeaker::KasukabeTsumugi => "春日部つむぎ",
                VoiceVoxSpeaker::AmehareHau => "雨晴はう",
                VoiceVoxSpeaker::NamineRitsu => "波音リツ",
                VoiceVoxSpeaker::KuronoTakehiro => "玄野武宏",
                VoiceVoxSpeaker::ShirakamiKotaro => "白上虎太郎",
                VoiceVoxSpeaker::AoyamaRyusei => "青山龍星",
                VoiceVoxSpeaker::MeimeiHimari => "冥鳴ひまり",
                VoiceVoxSpeaker::KyushuSora => "九州そら",
                VoiceVoxSpeaker::KyushuSoraAmaama => "九州そらあまあま",
                VoiceVoxSpeaker::KyushuSoraTsuntsun => "九州そらツンツン",
                VoiceVoxSpeaker::KyushuSoraSexy => "九州そらセクシー",
                VoiceVoxSpeaker::KyushuSoraSasayaki => "九州そらささやき",
            },
        )
    }

    /// Every speaker, in declaration order.
    pub fn all() -> (r: Vec<VoiceVoxSpeaker>)
        ensures
            r@ == seq![
                VoiceVoxSpeaker::ShikokuMetan,
                VoiceVoxSpeaker::ShikokuMetanAmaama,
                VoiceVoxSpeaker::ShikokuMetanTsuntsun,
                VoiceVoxSpeaker::ShikokuMetanSexy,
                VoiceVoxSpeaker::Zundamon,
                VoiceVoxSpeaker::ZundamonAmaama,
                VoiceVoxSpeaker::ZundamonTsuntsun,
                VoiceVoxSpeaker::ZundamonSexy,
                VoiceVoxSpeaker::KasukabeTsumugi,
                VoiceVoxSpeaker::AmehareHau,
                VoiceVoxSpeaker::NamineRitsu,
                VoiceVoxSpeaker::KuronoTakehiro,
                VoiceVoxSpeaker::ShirakamiKotaro,
                VoiceVoxSpeaker::AoyamaRyusei,
                VoiceVoxSpeaker::MeimeiHimari,
                VoiceVoxSpeaker::KyushuSora,
                VoiceVoxSpeaker::KyushuSoraAmaama,
                VoiceVoxSpeaker::KyushuSoraTsuntsun,
                VoiceVoxSpeaker::KyushuSoraSexy,
                VoiceVoxSpeaker::KyushuSoraSasayaki,
            ],
    {
        let mut r: Vec<VoiceVoxSpeaker> = Vec::new();
        r.push(VoiceVoxSpeaker::ShikokuMetan);
        r.push(VoiceVoxSpeaker::ShikokuMetanAmaama);
        r.push(VoiceVoxSpeaker::ShikokuMetanTsuntsun);
        r.push(VoiceVoxSpeaker::ShikokuMetanSexy);
        r.push(VoiceVoxSpeaker::Zundamon);
        r.push(VoiceVoxSpeaker::ZundamonAmaama);
        r.push(VoiceVoxSpeaker::ZundamonTsuntsun);
        r.push(VoiceVoxSpeaker::ZundamonSexy);
        r.push(VoiceVoxSpeaker::KasukabeTsumugi);
        r.push(VoiceVoxSpeaker::AmehareHau);
        r.push(VoiceVoxSpeaker::NamineRitsu);
        r.push(VoiceVoxSpeaker::KuronoTakehiro);
        r.push(VoiceVoxSpeaker::ShirakamiKotaro);
        r.push(VoiceVoxSpeaker::AoyamaRyusei);
        r.push(VoiceVoxSpeaker::MeimeiHimari);
        r.push(VoiceVoxSpeaker::KyushuSora);
        r.push(VoiceVoxSpeaker::KyushuSoraAmaama);
        r.push(VoiceVoxSpeaker::KyushuSoraTsuntsun);
        r.push(VoiceVoxSpeaker::KyushuSoraSexy);
        r.push(VoiceVoxSpeaker::KyushuSoraSasayaki);
        proof {
            assert(r@ =~= seq![
                VoiceVoxSpeaker::ShikokuMetan,
                VoiceVoxSpeaker::ShikokuMetanAmaama,
                VoiceVoxSpeaker::ShikokuMetanTsuntsun,
                VoiceVoxSpeaker::ShikokuMetanSexy,
                VoiceVoxSpeaker::Zundamon,
                VoiceVoxSpeaker::ZundamonAmaama,
                VoiceVoxSpeaker::ZundamonTsuntsun,
                VoiceVoxSpeaker::ZundamonSexy,
                VoiceVoxSpeaker::KasukabeTsumugi,
                VoiceVoxSpeaker::AmehareHau,
                VoiceVoxSpeaker::NamineRitsu,
                VoiceVoxSpeaker::KuronoTakehiro,
                VoiceVoxSpeaker::ShirakamiKotaro,
                VoiceVoxSpeaker::AoyamaRyusei,
                VoiceVoxSpeaker::MeimeiHimari,
                VoiceVoxSpeaker::KyushuSora,
                VoiceVoxSpeaker::KyushuSoraAmaama,
                VoiceVoxSpeaker::KyushuSoraTsuntsun,
                VoiceVoxSpeaker::KyushuSoraSexy,
                VoiceVoxSpeaker::KyushuSoraSasayaki,
            ]);
        }
        r
    }

    pub fn from_text(s: &str) -> (r: Option<VoiceVoxSpeaker>)
        ensures
            r == VoiceVoxSpeaker::from_text_spec(s@),
    {
        if str_eq(s, "四国めたん") {
            Some(VoiceVoxSpeaker::ShikokuMetan)
        } else if str_eq(s, "四国めたんあまあま") {
            Some(VoiceVoxSpeaker::ShikokuMetanAmaama)
        } else if str_eq(s, "四国めたんツンツン") {
            Some(VoiceVoxSpeaker::ShikokuMetanTsuntsun)
        } else if str_eq(s, "四国めたんセクシー") {
            Some(VoiceVoxSpeaker::ShikokuMetanSexy)
        } else if str_eq(s, "ずんだもん") {
            Some(VoiceVoxSpeaker::Zundamon)
        } else if str_eq(s, "ずんだもんあまあま") {
            Some(VoiceVoxSpeaker::ZundamonAmaama)
        } else if str_eq(s, "ずんだもんツンツン") {
            Some(VoiceVoxSpeaker::ZundamonTsuntsun)
        } else if str_eq(s, "ずんだもんセクシー") {
            Some(VoiceVoxSpeaker::ZundamonSexy)
        } else if str_eq(s, "春日部つむぎ") {
            Some(VoiceVoxSpeaker::KasukabeTsumugi)
        } else if str_eq(s, "雨晴はう") {
            Some(VoiceVoxSpeaker::AmehareHau)
        } else if str_eq(s, "波音リツ") {
            Some(VoiceVoxSpeaker::NamineRitsu)
        } else if str_eq(s, "玄野武宏") {
            Some(VoiceVoxSpeaker::KuronoTakehiro)
        } else if str_eq(s, "白上虎太郎") {
            Some(VoiceVoxSpeaker::ShirakamiKotaro)
        } else if str_eq(s, "青山龍星") {
            Some(VoiceVoxSpeaker::AoyamaRyusei)
        } else if str_eq(s, "冥鳴ひまり") {
            Some(VoiceVoxSpeaker::MeimeiHimari)
        } else if str_eq(s, "九州そら") {
            Some(VoiceVoxSpeaker::KyushuSora)
        } else if str_eq(s, "九州そらあまあま") {
            Some(VoiceVoxSpeaker::KyushuSoraAmaama)
        } else if str_eq(s, "九州そらツンツン") {
            Some(VoiceVoxSpeaker::KyushuSoraTsuntsun)
        } else if str_eq(s, "九州そらセクシー") {
            Some(VoiceVoxSpeaker::KyushuSoraSexy)
        } else if str_eq(s, "九州そらささやき") {
            Some(VoiceVoxSpeaker::KyushuSoraSasayaki)
        } else {
            None
        }
    }
}

/// Display-name conversion round-trips both ways: every speaker's display
/// name parses back to that speaker, and every name a speaker parses from is
/// that speaker's display name.
pub proof fn lemma_voice_vox_speaker_round_trip(v: VoiceVoxSpeaker, s: Seq<char>)
    ensures
        VoiceVoxSpeaker::from_text_spec(v.to_text_spec()) == Some(v),
        VoiceVoxSpeaker::from_text_spec(s) matches Some(w) ==> w.to_text_spec() == s,
{
    reveal_strlit("四国めたん");
    reveal_strlit("四国めたんあまあま");
    reveal_strlit("四国めたんツンツン");
    reveal_strlit("四国めたんセクシー");
    reveal_strlit("ずんだもん");
    reveal_strlit("ずんだもんあまあま");
    reveal_strlit("ずんだもんツンツン");
    reveal_strlit("ずんだもんセクシー");
    reveal_strlit("春日部つむぎ");
    reveal_strlit("雨晴はう");
    reveal_strlit("波音リツ");
    reveal_strlit("玄野武宏");
    reveal_strlit("白上虎太郎");
    reveal_strlit("青山龍星");
    reveal_strlit("冥鳴ひまり");
    reveal_strlit("九州そら");
    reveal_strlit("九州そらあまあま");
    reveal_strlit("九州そらツンツン");
    reveal_strlit("九州そらセクシー");
    reveal_strlit("九州そらささやき");
    assert("四国めたん"@[0] == '四' && "四国めたんあまあま"@[0] == '四'
        && "四国めたんツンツン"@[0] == '四' && "四国めたんセクシー"@[0] == '四'
        && "ずんだもん"@[0] == 'ず' && "ずんだもんあまあま"@[0] == 'ず'
        && "ずんだもんツンツン"@[0] == 'ず' && "ずんだもんセクシー"@[0] == 'ず'
        && "春日部つむぎ"@[0] == '春' && "雨晴はう"@[0] == '雨' && "波音リツ"@[0] == '波'
        && "玄野武宏"@[0] == '玄' && "白上虎太郎"@[0] == '白' && "青山龍星"@[0] == '青'
        && "冥鳴ひまり"@[0] == '冥' && "九州そら"@[0] == '九' && "九州そらあまあま"@[0] == '九'
        && "九州そらツンツン"@[0] == '九' && "九州そらセクシー"@[0] == '九'
        && "九州そらささやき"@[0] == '九');
    assert("四国めたん"@.len() == 5 && "四国めたんあまあま"@.len() == 9
        && "四国めたんツンツン"@.len() == 9 && "四国めたんセクシー"@.len() == 9
        && "ずんだもん"@.len() == 5 && "ずんだもんあまあま"@.len() == 9
        && "ずんだもんツンツン"@.len() == 9 && "ずんだもんセクシー"@.len() == 9
        && "春日部つむぎ"@.len() == 6 && "雨晴はう"@.len() == 4 && "波音リツ"@.len() == 4
        && "玄野武宏"@.len() == 4 && "白上虎太郎"@.len() == 5 && "青山龍星"@.len() == 4
        && "冥鳴ひまり"@.len() == 5 && "九州そら"@.len() == 4 && "九州そらあまあま"@.len() == 8
        && "九州そらツンツン"@.len() == 8 && "九州そらセクシー"@.len() == 8
        && "九州そらささやき"@.len() == 8);
    assert("四国めたんあまあま"@[5] == 'あ' && "四国めたんツンツン"@[5] == 'ツ'
        && "四国めたんセクシー"@[5] == 'セ' && "ずんだもんあまあま"@[5] == 'あ'
        && "ずんだもんツンツン"@[5] == 'ツ' && "ずんだもんセクシー"@[5] == 'セ'
        && "九州そらあまあま"@[4] == 'あ' && "九州そらツンツン"@[4] == 'ツ'
        && "九州そらセクシー"@[4] == 'セ' && "九州そらささやき"@[4] == 'さ');
    match v {
        VoiceVoxSpeaker::ShikokuMetan => {
            assert(VoiceVoxSpeaker::from_text_spec(v.to_text_spec()) == Some(v));
        },
        VoiceVoxSpeaker::ShikokuMetanAmaama => {
            assert(VoiceVoxSpeaker::from_text_spec(v.to_text_spec()) == Some(v));
        },
        VoiceVoxSpeaker::ShikokuMetanTsuntsun => {
            assert(VoiceVoxSpeaker::from_text_spec(v.to_text_spec()) == Some(v));
        },
        VoiceVoxSpeaker::ShikokuMetanSexy => {
            assert(VoiceVoxSpeaker::from_text_spec(v.to_text_spec()) == Some(v));
        },
        VoiceVoxSpeaker::Zundamon => {
            assert(VoiceVoxSpeaker::from_text_spec(v.to_text_spec()) == Some(v));
        },
        VoiceVoxSpeaker::ZundamonAmaama => {
            assert(VoiceVoxSpeaker::from_text_spec(v.to_text_spec()) == Some(v));
        },
        VoiceVoxSpeaker::ZundamonTsuntsun => {
            assert(VoiceVoxSpeaker::from_text_spec(v.to_text_spec()) == Some(v));
        },
        VoiceVoxSpeaker::ZundamonSexy => {
            assert(VoiceVoxSpeaker::from_text_spec(v.to_text_spec()) == Some(v));
        },
        VoiceVoxSpeaker::KasukabeTsumugi => {
            assert(VoiceVoxSpeaker::from_text_spec(v.to_text_spec()) == Some(v));
        },
        VoiceVoxSpeaker::AmehareHau => {
            assert(VoiceVoxSpeaker::from_text_spec(v.to_text_spec()) == Some(v));
        },
        VoiceVoxSpeaker::NamineRitsu => {
            assert(VoiceVoxSpeaker::from_text_spec(v.to_text_spec()) == Some(v));
        },
        VoiceVoxSpeaker::KuronoTakehiro => {
            assert(VoiceVoxSpeaker::from_text_spec(v.to_text_spec()) == Some(v));
        },
        VoiceVoxSpeaker::ShirakamiKotaro => {
            assert(VoiceVoxSpeaker::from_text_spec(v.to_text_spec()) == Some(v));
        },
        VoiceVoxSpeaker::AoyamaRyusei => {
            assert(VoiceVoxSpeaker::from_text_spec(v.to_text_spec()) == Some(v));
        },
        VoiceVoxSpeaker::MeimeiHimari => {
            assert(VoiceVoxSpeaker::from_text_spec(v.to_text_spec()) == Some(v));
        },
        VoiceVoxSpeaker::KyushuSora => {
            assert(VoiceVoxSpeaker::from_text_spec(v.to_text_spec()) == Some(v));
        },
        VoiceVoxSpeaker::KyushuSoraAmaama => {
            assert(VoiceVoxSpeaker::from_text_spec(v.to_text_spec()) == Some(v));
        },
        VoiceVoxSpeaker::KyushuSoraTsuntsun => {
            assert(VoiceVoxSpeaker::from_text_spec(v.to_text_spec()) == Some(v));
        },
        VoiceVoxSpeaker::KyushuSoraSexy => {
            assert(VoiceVoxSpeaker::from_text_spec(v.to_text_spec()) == Some(v));
        },
        VoiceVoxSpeaker::KyushuSoraSasayaki => {
            assert(VoiceVoxSpeaker::from_text_spec(v.to_text_spec()) == Some(v));
        },
    }
}

/// No speaker's display name contains `=`, so each can stand as a token
/// value.
pub proof fn lemma_vox_speaker_text_free_of_eq(v: VoiceVoxSpeaker)
    ensures
        forall|j: int| 0 <= j < v.to_text_spec().len() ==> v.to_text_spec()[j] != '=',
        v.to_text_spec().len() > 0,
{
    reveal_strlit("四国めたん");
    reveal_strlit("四国めたんあまあま");
    reveal_strlit("四国めたんツンツン");
    reveal_strlit("四国めたんセクシー");
    reveal_strlit("ずんだもん");
    reveal_strlit("ずんだもんあまあま");
    reveal_strlit("ずんだもんツンツン");
    reveal_strlit("ずんだもんセクシー");
    reveal_strlit("春日部つむぎ");
    reveal_strlit("雨晴はう");
    reveal_strlit("波音リツ");
    reveal_strlit("玄野武宏");
    reveal_strlit("白上虎太郎");
    reveal_strlit("青山龍星");
    reveal_strlit("冥鳴ひまり");
    reveal_strlit("九州そら");
    reveal_strlit("九州そらあまあま");
    reveal_strlit("九州そらツンツン");
    reveal_strlit("九州そらセクシー");
    reveal_strlit("九州そらささやき");
    assert("四国めたん"@.len() == 5 && "四国めたんあまあま"@.len() == 9
        && "四国めたんツンツン"@.len() == 9 && "四国めたんセクシー"@.len() == 9
        && "ずんだもん"@.len() == 5 && "ずんだもんあまあま"@.len() == 9
        && "ずんだもんツンツン"@.len() == 9 && "ずんだもんセクシー"@.len() == 9
        && "春日部つむぎ"@.len() == 6 && "雨晴はう"@.len() == 4 && "波音リツ"@.len() == 4
        && "玄野武宏"@.len() == 4 && "白上虎太郎"@.len() == 5 && "青山龍星"@.len() == 4
        && "冥鳴ひまり"@.len() == 5 && "九州そら"@.len() == 4 && "九州そらあまあま"@.len() == 8
        && "九州そらツンツン"@.len() == 8 && "九州そらセクシー"@.len() == 8
        && "九州そらささやき"@.len() == 8);
    match v {
        VoiceVoxSpeaker::ShikokuMetan => {
            assert(forall|j: int|
                0 <= j < v.to_text_spec().len() ==> v.to_text_spec()[j] != '=');
        },
        VoiceVoxSpeaker::ShikokuMetanAmaama => {
            assert(forall|j: int|
                0 <= j < v.to_text_spec().len() ==> v.to_text_spec()[j] != '=');
        },
        VoiceVoxSpeaker::ShikokuMetanTsuntsun => {
            assert(forall|j: int|
                0 <= j < v.to_text_spec().len() ==> v.to_text_spec()[j] != '=');
        },
        VoiceVoxSpeaker::ShikokuMetanSexy => {
            assert(forall|j: int|
                0 <= j < v.to_text_spec().len() ==> v.to_text_spec()[j] != '=');
        },
        VoiceVoxSpeaker::Zundamon => {
            assert(forall|j: int|
                0 <= j < v.to_text_spec().len() ==> v.to_text_spec()[j] != '=');
        },
        VoiceVoxSpeaker::ZundamonAmaama => {
            assert(forall|j: int|
                0 <= j < v.to_text_spec().len() ==> v.to_text_spec()[j] != '=');
        },
        VoiceVoxSpeaker::ZundamonTsuntsun => {
            assert(forall|j: int|
                0 <= j < v.to_text_spec().len() ==> v.to_text_spec()[j] != '=');
        },
        VoiceVoxSpeaker::ZundamonSexy => {
            assert(forall|j: int|
                0 <= j < v.to_text_spec().len() ==> v.to_text_spec()[j] != '=');
        },
        VoiceVoxSpeaker::KasukabeTsumugi => {
            assert(forall|j: int|
                0 <= j < v.to_text_spec().len() ==> v.to_text_spec()[j] != '=');
        },
        VoiceVoxSpeaker::AmehareHau => {
            assert(forall|j: int|
                0 <= j < v.to_text_spec().len() ==> v.to_text_spec()[j] != '=');
        },
        VoiceVoxSpeaker::NamineRitsu => {
            assert(forall|j: int|
                0 <= j < v.to_text_spec().len() ==> v.to_text_spec()[j] != '=');
        },
        VoiceVoxSpeaker::KuronoTakehiro => {
            assert(forall|j: int|
                0 <= j < v.to_text_spec().len() ==> v.to_text_spec()[j] != '=');
        },
        VoiceVoxSpeaker::ShirakamiKotaro => {
            assert(forall|j: int|
                0 <= j < v.to_text_spec().len() ==> v.to_text_spec()[j] != '=');
        },
        VoiceVoxSpeaker::AoyamaRyusei => {
            assert(forall|j: int|
                0 <= j < v.to_text_spec().len() ==> v.to_text_spec()[j] != '=');
        },
        VoiceVoxSpeaker::MeimeiHimari => {
            assert(forall|j: int|
                0 <= j < v.to_text_spec().len() ==> v.to_text_spec()[j] != '=');
        },
        VoiceVoxSpeaker::KyushuSora => {
            assert(forall|j: int|
                0 <= j < v.to_text_spec().len() ==> v.to_text_spec()[j] != '=');
        },
        VoiceVoxSpeaker::KyushuSoraAmaama => {
            assert(forall|j: int|
                0 <= j < v.to_text_spec().len() ==> v.to_text_spec()[j] != '=');
        },
        VoiceVoxSpeaker::KyushuSoraTsuntsun => {
            assert(forall|j: int|
                0 <= j < v.to_text_spec().len() ==> v.to_text_spec()[j] != '=');
        },
        VoiceVoxSpeaker::KyushuSoraSexy => {
            assert(forall|j: int|
                0 <= j < v.to_text_spec().len() ==> v.to_text_spec()[j] != '=');
        },
        VoiceVoxSpeaker::KyushuSoraSasayaki => {
            assert(forall|j: int|
                0 <= j < v.to_text_spec().len() ==> v.to_text_spec()[j] != '=');
        },
    }
}

/// An exact signed fixed-point decimal: the value read from a decimal token,
/// kept digit for digit. `units` is the integer part, `frac` the fraction
/// digits read as a number, and `scale` how many fraction digits were
/// written; `scale == 0` means the token had no fraction part.
#[derive(Clone, Copy, Debug, PartialEq, Eq, Structural)]
pub struct Decimal {
    pub neg: bool,
    pub units: u16,
    pub frac: u16,
    pub scale: u8,
}

impl Decimal {
    /// The fraction digits fit the written width.
    pub open spec fn wf(self) -> bool {
        &&& self.scale <= 4
        &&& (self.frac as int) < pow10(self.scale as int)
    }

    /// The whole number with the given value and no fraction part.
    pub open spec fn whole_spec(units: u16, neg: bool) -> Decimal {
        Decimal { neg, units, frac: 0, scale: 0 }
    }

    pub fn whole(units: u16, neg: bool) -> (r: Decimal)
        ensures
            r == Decimal::whole_spec(units, neg),
            r.wf(),
    {
        Decimal { neg, units, frac: 0, scale: 0 }
    }

    /// The text form: a minus sign if negative, the integer part without
    /// leading zeros, and the fraction digits zero-padded to their written
    /// width after a dot.
    pub open spec fn text_spec(self) -> Seq<char> {
        let mag = if self.scale == 0 {
            dec_seq(self.units as int)
        } else {
            dec_seq(self.units as int) + seq!['.'] + zero_pad(
                dec_seq(self.frac as int),
                self.scale as int,
            )
        };
        if self.neg {
            seq!['-'] + mag
        } else {
            mag
        }
    }

    /// The meaning of a decimal token: an optional sign, an integer part,
    /// and an optional fraction part of one to four digits. Forms outside
    /// this grammar — an exponent, a bare leading or trailing dot, more
    /// than four fraction digits, or an integer part beyond 16 bits — are
    /// rejected as value errors.
    pub open spec fn parse_spec(s: Seq<char>) -> Option<Decimal> {
        let neg = s.len() > 0 && s[0] == '-';
        let rest = if s.len() > 0 && (s[0] == '-' || s[0] == '+') {
            s.drop_first()
        } else {
            s
        };
        let dot = find_from(rest, '.', 0);
        if dot == rest.len() {
            match parse_digits_spec(rest) {
                Some(u) => Some(Decimal { neg, units: u, frac: 0, scale: 0 }),
                None => None,
            }
        } else {
            let ipart = rest.take(dot);
            let fpart = rest.subrange(dot + 1, rest.len() as int);
            if fpart.len() == 0 || fpart.len() > 4 {
                None
            } else {
                match (parse_digits_spec(ipart), parse_digits_spec(fpart)) {
                    (Some(u), Some(f)) => Some(
                        Decimal { neg, units: u, frac: f, scale: fpart.len() as u8 },
                    ),
                    _ => None,
                }
            }
        }
    }

    /// Parses a decimal token.
    pub fn parse(s: &str) -> (r: Option<Decimal>)
        ensures
            r == Decimal::parse_spec(s@),
            r matches Some(d) ==> d.wf(),
    {
        let len = s.unicode_len();
        let (neg, start): (bool, usize) = if len > 0 && s.get_char(0) == '-' {
            (true, 1)
        } else if len > 0 && s.get_char(0) == '+' {
            (false, 1)
        } else {
            (false, 0)
        };
        let rest = s.substring_char(start, len);
        proof {
            if start == 1 {
                assert(rest@ =~= s@.drop_first());
            } else {
                assert(rest@ =~= s@);
            }
        }
        let rlen = rest.unicode_len();
        let dot = find_char(rest, '.', 0);
        if dot == rlen {
            match parse_digits(rest) {
                Some(u) => Some(Decimal { neg, units: u, frac: 0, scale: 0 }),
                None => None,
            }
        } else {
            proof {
                lemma_find_from_bounds(rest@);
            }
            let ipart = rest.substring_char(0, dot);
            let fpart = rest.substring_char(dot + 1, rlen);
            proof {
                assert(ipart@ =~= rest@.take(dot as int));
                assert(fpart@ =~= rest@.subrange(dot + 1, rest@.len() as int));
            }
            let flen = rlen - (dot + 1);
            if flen == 0 || flen > 4 {
                return None;
            }
            match (parse_digits(ipart), parse_digits(fpart)) {
                (Some(u), Some(f)) => {
                    proof {
                        lemma_dec_value_bound(fpart@);
                    }
                    Some(Decimal { neg, units: u, frac: f, scale: flen as u8 })
                },
                _ => None,
            }
        }
    }

    /// Formats the decimal as its text form.
    pub fn to_text(&self) -> (r: String)
        requires
            self.wf(),
        ensures
            r@ == self.text_spec(),
    {
        let mut out = String::new();
        if self.neg {
            out.append("-");
            proof {
                reveal_strlit("-");
                assert(out@ =~= seq!['-']);
            }
        }
        let units_text = u16_to_dec(self.units);
        let ghost sign: Seq<char> = if self.neg {
            seq!['-']
        } else {
            Seq::<char>::empty()
        };
        out.append(units_text.as_str());
        proof {
            assert(out@ =~= sign + dec_seq(self.units as int));
        }
        if self.scale == 0 {
            proof {
                assert(out@ =~= self.text_spec());
            }
            return out;
        }
        out.append(".");
        proof {
            reveal_strlit(".");
            assert(out@ =~= sign + dec_seq(self.units as int) + seq!['.']);
        }
        let ghost head = out@;
        let frac_text = u16_to_dec(self.frac);
        let frac_len = frac_text.unicode_len();
        proof {
            lemma_dec_seq_len(self.frac as int, self.scale as int);
        }
        let mut k: usize = frac_len;
        while k < self.scale as usize
            invariant
                frac_len <= k <= self.scale,
                frac_len == dec_seq(self.frac as int).len(),
                out@ == head + zeros(k - frac_len),
            decreases self.scale as usize - k,
        {
            out.append("0");
            proof {
                reveal_strlit("0");
                assert(head + zeros(k + 1 - frac_len) =~= (head + zeros(k - frac_len)) + "0"@);
            }
            k = k + 1;
        }
        out.append(frac_text.as_str());
        proof {
            assert(out@ =~= self.text_spec());
        }
        out
    }
}

proof fn lemma_find_from_bounds(s: Seq<char>)
    ensures
        0 <= find_from(s, '.', 0) <= s.len(),
{
    crate::text::lemma_find_from(s, '.', 0);
}

proof fn lemma_no_dot_in_digits(a: Seq<char>)
    requires
        all_digits(a),
    ensures
        find_from(a, '.', 0) == a.len(),
{
    crate::text::lemma_find_from(a, '.', 0);
    let f = find_from(a, '.', 0);
    if f < a.len() {
        assert(spec_is_digit(a[f]));
        assert(a[f] != '.');
    }
}

proof fn lemma_first_dot_after_digits(a: Seq<char>, b: Seq<char>)
    requires
        all_digits(a),
    ensures
        find_from(a + seq!['.'] + b, '.', 0) == a.len(),
{
    let s = a + seq!['.'] + b;
    crate::text::lemma_find_from(s, '.', 0);
    let f = find_from(s, '.', 0);
    assert(s[a.len() as int] == '.');
    assert(f <= a.len());
    if f < a.len() {
        assert(s[f] == a[f]);
        assert(spec_is_digit(a[f]));
        assert(a[f] != '.');
    }
}

/// The text form of a decimal holds only a sign, digits and a dot, never
/// `=`, so it can stand as a token value.
pub proof fn lemma_decimal_text_free_of_eq(d: Decimal)
    requires
        d.wf(),
    ensures
        forall|j: int| 0 <= j < d.text_spec().len() ==> d.text_spec()[j] != '=',
        d.text_spec().len() > 0,
{
    let units = dec_seq(d.units as int);
    lemma_dec_seq_value(d.units as int);
    let s = d.text_spec();
    if d.scale == 0 {
        if d.neg {
            assert(s == seq!['-'] + units);
            assert(forall|j: int| 0 <= j < s.len() ==> s[j] != '=') by {
                assert(s[0] == '-');
                assert(forall|j: int| 1 <= j < s.len() ==> s[j] == units[j - 1]);
            }
        } else {
            assert(s == units);
        }
    } else {
        let frac = dec_seq(d.frac as int);
        lemma_dec_seq_value(d.frac as int);
        lemma_zero_pad(frac, d.scale as int);
        let padded = zero_pad(frac, d.scale as int);
        let mag = units + seq!['.'] + padded;
        let ulen = units.len() as int;
        if d.neg {
            assert(s == seq!['-'] + mag);
            assert(forall|j: int| 0 <= j < s.len() ==> s[j] != '=') by {
                assert(s[0] == '-');
                assert(s[ulen + 1] == '.');
                assert(forall|j: int| 1 <= j < ulen + 1 ==> s[j] == units[j - 1]);
                assert(forall|j: int| ulen + 2 <= j < s.len() ==> s[j] == padded[j - ulen - 2]);
            }
        } else {
            assert(s == mag);
            assert(forall|j: int| 0 <= j < s.len() ==> s[j] != '=') by {
                assert(s[ulen] == '.');
                assert(forall|j: int| 0 <= j < ulen ==> s[j] == units[j]);
                assert(forall|j: int| ulen + 1 <= j < s.len() ==> s[j] == padded[j - ulen - 1]);
            }
        }
    }
}

/// Formatting a well-formed decimal and parsing the text back is the
/// identity: a stored decimal parameter decodes to the very value that was
/// written.
pub proof fn lemma_decimal_text_round_trip(d: Decimal)
    requires
        d.wf(),
    ensures
        Decimal::parse_spec(d.text_spec()) == Some(d),
{
    let s = d.text_spec();
    let units_digits = dec_seq(d.units as int);
    lemma_dec_seq_value(d.units as int);
    if d.scale == 0 {
        assert(d.frac == 0);
        let mag = units_digits;
        if d.neg {
            assert(s =~= seq!['-'] + mag);
            assert(s[0] == '-');
            assert(s.drop_first() =~= mag);
        } else {
            assert(s == mag);
            assert(spec_is_digit(s[0]));
            assert(s[0] != '-' && s[0] != '+');
        }
        lemma_no_dot_in_digits(mag);
        assert(parse_digits_spec(mag) == Some(d.units));
    } else {
        let frac_digits = dec_seq(d.frac as int);
        lemma_dec_seq_value(d.frac as int);
        lemma_dec_seq_len(d.frac as int, d.scale as int);
        lemma_zero_pad(frac_digits, d.scale as int);
        let padded = zero_pad(frac_digits, d.scale as int);
        assert(padded.len() == d.scale as int);
        let mag = units_digits + seq!['.'] + padded;
        assert(s == if d.neg {
            seq!['-'] + mag
        } else {
            mag
        });
        if d.neg {
            assert(s =~= seq!['-'] + mag);
            assert(s[0] == '-');
            assert(s.drop_first() =~= mag);
        } else {
            assert(s == mag);
            assert(s[0] == units_digits[0]);
            assert(spec_is_digit(s[0]));
            assert(s[0] != '-' && s[0] != '+');
        }
        lemma_first_dot_after_digits(units_digits, padded);
        let dot = units_digits.len() as int;
        assert(mag.take(dot) =~= units_digits);
        assert(mag.subrange(dot + 1, mag.len() as int) =~= padded);
        assert(parse_digits_spec(units_digits) == Some(d.units));
        assert(dec_value(padded) == d.frac);
        assert(parse_digits_spec(padded) == Some(d.frac));
    }
}

/// A validated VoiceVox request configuration. The speaker is required; the
/// numeric parameters default to a pitch of zero and unit scales, and their
/// ranges are deliberately not constrained here, matching the upstream
/// service's own behaviour.
#[derive(Clone, Copy, Debug, PartialEq, Eq, Structural)]
pub struct VoiceVoxOptions {
    pub speaker: VoiceVoxSpeaker,
    pub pitch: Decimal,
    pub intonation_scale: Decimal,
    pub speed: Decimal,
}

impl VoiceVoxOptions {
    pub open spec fn wf(self) -> bool {
        &&& self.pitch.wf()
        &&& self.intonation_scale.wf()
        &&& self.speed.wf()
    }

    pub open spec fn default_pitch() -> Decimal {
        Decimal { neg: false, units: 0, frac: 0, scale: 0 }
    }

    pub open spec fn default_intonation_scale() -> Decimal {
        Decimal { neg: false, units: 1, frac: 0, scale: 0 }
    }

    pub open spec fn default_speed() -> Decimal {
        Decimal { neg: false, units: 1, frac: 0, scale: 0 }
    }

    /// The fixed parameter set a VoiceVox request carries: the text, the
    /// speaker's numeric wire identifier, and the decimal parameters in
    /// their text form. The caller supplies its own API key separately.
    pub open spec fn wire_params_spec(self, text: Seq<char>) -> Seq<(Seq<char>, Seq<char>)> {
        seq![
            ("text"@, text),
            ("speaker"@, dec_seq(self.speaker.id_spec() as int)),
            ("pitch"@, self.pitch.text_spec()),
            ("intonationScale"@, self.intonation_scale.text_spec()),
            ("speed"@, self.speed.text_spec()),
        ]
    }

    pub fn wire_params(&self, text: &str) -> (r: Vec<(String, String)>)
        requires
            self.wf(),
        ensures
            pairs_view(r@) == self.wire_params_spec(text@),
    {
        let mut r: Vec<(String, String)> = Vec::new();
        r.push((String::from_str("text"), String::from_str(text)));
        r.push((String::from_str("speaker"), u16_to_dec(self.speaker.id() as u16)));
        r.push((String::from_str("pitch"), self.pitch.to_text()));
        r.push((String::from_str("intonationScale"), self.intonation_scale.to_text()));
        r.push((String::from_str("speed"), self.speed.to_text()));
        proof {
            assert(pairs_view(r@) =~= self.wire_params_spec(text@));
        }
        r
    }

    /// The `key=value` tokens that spell this configuration out: the same
    /// encoding the option builder parses.
    pub open spec fn to_tokens_spec(self) -> Seq<Seq<char>> {
        seq![
            "speaker="@ + self.speaker.to_text_spec(),
            "pitch="@ + self.pitch.text_spec(),
            "intonationScale="@ + self.intonation_scale.text_spec(),
            "speed="@ + self.speed.text_spec(),
        ]
    }

    /// Serializes the configuration as builder tokens.
    pub fn to_tokens(&self) -> (r: Vec<String>)
        requires
            self.wf(),
        ensures
            r.deep_view() == self.to_tokens_spec(),
    {
        let mut r: Vec<String> = Vec::new();
        let mut t = String::from_str("speaker=");
        t.append(self.speaker.to_text().as_str());
        r.push(t);
        let mut t = String::from_str("pitch=");
        t.append(self.pitch.to_text().as_str());
        r.push(t);
        let mut t = String::from_str("intonationScale=");
        t.append(self.intonation_scale.to_text().as_str());
        r.push(t);
        let mut t = String::from_str("speed=");
        t.append(self.speed.to_text().as_str());
        r.push(t);
        proof {
            assert(r.deep_view() =~= self.to_tokens_spec());
        }
        r
    }
}

/// Accumulates VoiceVox field values; finalization only requires that a
/// speaker was supplied.
#[derive(Clone, Copy, Debug, PartialEq, Eq, Structural)]
pub struct VoiceVoxOptionsBuilder {
    pub speaker: Option<VoiceVoxSpeaker>,
    pub pitch: Option<Decimal>,
    pub intonation_scale: Option<Decimal>,
    pub speed: Option<Decimal>,
}

impl Default for VoiceVoxOptionsBuilder {
    fn default() -> (r: Self)
        ensures
            r == VoiceVoxOptionsBuilder::empty(),
    {
        VoiceVoxOptionsBuilder { speaker: None, pitch: None, intonation_scale: None, speed: None }
    }
}

impl VoiceVoxOptionsBuilder {
    pub open spec fn empty() -> Self {
        VoiceVoxOptionsBuilder { speaker: None, pitch: None, intonation_scale: None, speed: None }
    }

    pub fn new() -> (r: Self)
        ensures
            r == VoiceVoxOptionsBuilder::empty(),
    {
        VoiceVoxOptionsBuilder { speaker: None, pitch: None, intonation_scale: None, speed: None }
    }

    /// All supplied decimals are well formed.
    pub open spec fn wf(self) -> bool {
        &&& self.pitch matches Some(d) ==> d.wf()
        &&& self.intonation_scale matches Some(d) ==> d.wf()
        &&& self.speed matches Some(d) ==> d.wf()
    }

    pub fn speaker(self, value: VoiceVoxSpeaker) -> (r: Self)
        ensures
            r == (VoiceVoxOptionsBuilder { speaker: Some(value), ..self }),
    {
        VoiceVoxOptionsBuilder { speaker: Some(value), ..self }
    }

    pub fn pitch(self, value: Decimal) -> (r: Self)
        ensures
            r == (VoiceVoxOptionsBuilder { pitch: Some(value), ..self }),
    {
        VoiceVoxOptionsBuilder { pitch: Some(value), ..self }
    }

    pub fn intonation_scale(self, value: Decimal) -> (r: Self)
        ensures
            r == (VoiceVoxOptionsBuilder { intonation_scale: Some(value), ..self }),
    {
        VoiceVoxOptionsBuilder { intonation_scale: Some(value), ..self }
    }

    pub fn speed(self, value: Decimal) -> (r: Self)
        ensures
            r == (VoiceVoxOptionsBuilder { speed: Some(value), ..self }),
    {
        VoiceVoxOptionsBuilder { speed: Some(value), ..self }
    }

    /// Finalization: the missing required speaker, or the options with
    /// defaults filled in for omitted fields.
    pub open spec fn build_spec(self) -> Result<VoiceVoxOptions, ValidationError> {
        match self.speaker {
            None => Err(ValidationError::MissingSpeaker),
            Some(sp) => Ok(
                VoiceVoxOptions {
                    speaker: sp,
                    pitch: match self.pitch {
                        Some(d) => d,
                        None => VoiceVoxOptions::default_pitch(),
                    },
                    intonation_scale: match self.intonation_scale {
                        Some(d) => d,
                        None => VoiceVoxOptions::default_intonation_scale(),
                    },
                    speed: match self.speed {
                        Some(d) => d,
                        None => VoiceVoxOptions::default_speed(),
                    },
                },
            ),
        }
    }

    pub fn build(self) -> (r: Result<VoiceVoxOptions, ValidationError>)
        ensures
            r == self.build_spec(),
            self.wf() ==> (r matches Ok(o) ==> o.wf()),
    {
        let speaker = match self.speaker {
            Some(s) => s,
            None => {
                return Err(ValidationError::MissingSpeaker);
            },
        };
        Ok(
            VoiceVoxOptions {
                speaker,
                pitch: match self.pitch {
                    Some(d) => d,
                    None => Decimal { neg: false, units: 0, frac: 0, scale: 0 },
                },
                intonation_scale: match self.intonation_scale {
                    Some(d) => d,
                    None => Decimal { neg: false, units: 1, frac: 0, scale: 0 },
                },
                speed: match self.speed {
                    Some(d) => d,
                    None => Decimal { neg: false, units: 1, frac: 0, scale: 0 },
                },
            },
        )
    }
}

} // verus!
