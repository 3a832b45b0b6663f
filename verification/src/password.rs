//! The 64-symbol syllabic alphabet: a fixed bijection between hiragana
//! glyphs and six-bit symbol values; and the password type itself, an
//! ordered sequence of 1 to 38 symbols.

use crate::storage::buf_get;
use crate::storage::buf_len;
use crate::storage::buf_new;
use crate::storage::buf_push;
use crate::storage::buf_seq;
use vstd::prelude::*;
use vstd::string::StrSliceExecFns;

verus! {

/// One symbol of the password alphabet.
#[derive(Clone, Copy, Debug, Hash, PartialEq, Eq, PartialOrd, Ord)]
pub enum PasswordChar {
    A,
    I,
    U,
    E,
    O,
    Ka,
    Ki,
    Ku,
    Ke,
    Ko,
    Sa,
    Si,
    Su,
    Se,
    So,
    Ta,
    Ti,
    Tu,
    Te,
    To,
    Na,
    Ni,
    Nu,
    Ne,
    No,
    Ha,
    Hi,
    Hu,
    He,
    Ho,
    Ma,
    Mi,
    Mu,
    Me,
    Mo,
    Ya,
    Yu,
    Yo,
    Ra,
    Ri,
    Ru,
    Re,
    Ro,
    Wa,
    Ga,
    Gi,
    Gu,
    Ge,
    Go,
    Za,
    Zi,
    Zu,
    Ze,
    Zo,
    Ba,
    Bi,
    Bu,
    Be,
    Bo,
    Pa,
    Pi,
    Pu,
    Pe,
    Po,
}

impl PasswordChar {
    /// The six-bit value of this symbol.
    pub open spec fn spec_inner(self) -> u8 {
        match self {
            PasswordChar::A => 0,
            PasswordChar::I => 1,
            PasswordChar::U => 2,
            PasswordChar::E => 3,
            PasswordChar::O => 4,
            PasswordChar::Ka => 5,
            PasswordChar::Ki => 6,
            PasswordChar::Ku => 7,
            PasswordChar::Ke => 8,
            PasswordChar::Ko => 9,
            PasswordChar::Sa => 10,
            PasswordChar::Si => 11,
            PasswordChar::Su => 12,
            PasswordChar::Se => 13,
            PasswordChar::So => 14,
            PasswordChar::Ta => 15,
            PasswordChar::Ti => 16,
            PasswordChar::Tu => 17,
            PasswordChar::Te => 18,
            PasswordChar::To => 19,
            PasswordChar::Na => 20,
            PasswordChar::Ni => 21,
            PasswordChar::Nu => 22,
            PasswordChar::Ne => 23,
            PasswordChar::No => 24,
            PasswordChar::Ha => 25,
            PasswordChar::Hi => 26,
            PasswordChar::Hu => 27,
            PasswordChar::He => 28,
            PasswordChar::Ho => 29,
            PasswordChar::Ma => 30,
            PasswordChar::Mi => 31,
            PasswordChar::Mu => 32,
            PasswordChar::Me => 33,
            PasswordChar::Mo => 34,
            PasswordChar::Ya => 35,
            PasswordChar::Yu => 36,
            PasswordChar::Yo => 37,
            PasswordChar::Ra => 38,
            PasswordChar::Ri => 39,
            PasswordChar::Ru => 40,
            PasswordChar::Re => 41,
            PasswordChar::Ro => 42,
            PasswordChar::Wa => 43,
            PasswordChar::Ga => 44,
            PasswordChar::Gi => 45,
            PasswordChar::Gu => 46,
            PasswordChar::Ge => 47,
            PasswordChar::Go => 48,
            PasswordChar::Za => 49,
            PasswordChar::Zi => 50,
            PasswordChar::Zu => 51,
            PasswordChar::Ze => 52,
            PasswordChar::Zo => 53,
            PasswordChar::Ba => 54,
            PasswordChar::Bi => 55,
            PasswordChar::Bu => 56,
            PasswordChar::Be => 57,
            PasswordChar::Bo => 58,
            PasswordChar::Pa => 59,
            PasswordChar::Pi => 60,
            PasswordChar::Pu => 61,
            PasswordChar::Pe => 62,
            PasswordChar::Po => 63,
        }
    }

    /// The glyph that renders this symbol.
    pub open spec fn spec_char(self) -> char {
        match self {
            PasswordChar::A => 'あ',
            PasswordChar::I => 'い',
            PasswordChar::U => 'う',
            PasswordChar::E => 'え',
            PasswordChar::O => 'お',
            PasswordChar::Ka => 'か',
            PasswordChar::Ki => 'き',
            PasswordChar::Ku => 'く',
            PasswordChar::Ke => 'け',
            PasswordChar::Ko => 'こ',
            PasswordChar::Sa => 'さ',
            PasswordChar::Si => 'し',
            PasswordChar::Su => 'す',
            PasswordChar::Se => 'せ',
            PasswordChar::So => 'そ',
            PasswordChar::Ta => 'た',
            PasswordChar::Ti => 'ち',
            PasswordChar::Tu => 'つ',
            PasswordChar::Te => 'て',
            PasswordChar::To => 'と',
            PasswordChar::Na => 'な',
            PasswordChar::Ni => 'に',
            PasswordChar::Nu => 'ぬ',
            PasswordChar::Ne => 'ね',
            PasswordChar::No => 'の',
            PasswordChar::Ha => 'は',
            PasswordChar::Hi => 'ひ',
            PasswordChar::Hu => 'ふ',
            PasswordChar::He => 'へ',
            PasswordChar::Ho => 'ほ',
            PasswordChar::Ma => 'ま',
            PasswordChar::Mi => 'み',
            PasswordChar::Mu => 'む',
            PasswordChar::Me => 'め',
            PasswordChar::Mo => 'も',
            PasswordChar::Ya => 'や',
            PasswordChar::Yu => 'ゆ',
            PasswordChar::Yo => 'よ',
            PasswordChar::Ra => 'ら',
            PasswordChar::Ri => 'り',
            PasswordChar::Ru => 'る',
            PasswordChar::Re => 'れ',
            PasswordChar::Ro => 'ろ',
            PasswordChar::Wa => 'わ',
            PasswordChar::Ga => 'が',
            PasswordChar::Gi => 'ぎ',
            PasswordChar::Gu => 'ぐ',
            PasswordChar::Ge => 'げ',
            PasswordChar::Go => 'ご',
            PasswordChar::Za => 'ざ',
            PasswordChar::Zi => 'じ',
            PasswordChar::Zu => 'ず',
            PasswordChar::Ze => 'ぜ',
            PasswordChar::Zo => 'ぞ',
            PasswordChar::Ba => 'ば',
            PasswordChar::Bi => 'び',
            PasswordChar::Bu => 'ぶ',
            PasswordChar::Be => 'べ',
            PasswordChar::Bo => 'ぼ',
            PasswordChar::Pa => 'ぱ',
            PasswordChar::Pi => 'ぴ',
            PasswordChar::Pu => 'ぷ',
            PasswordChar::Pe => 'ぺ',
            PasswordChar::Po => 'ぽ',
        }
    }

    /// The symbol of a six-bit value; `None` above 0x3F.
    pub open spec fn spec_from_inner(inner: u8) -> Option<PasswordChar> {
        match inner {
            0 => Some(PasswordChar::A),
            1 => Some(PasswordChar::I),
            2 => Some(PasswordChar::U),
            3 => Some(PasswordChar::E),
            4 => Some(PasswordChar::O),
            5 => Some(PasswordChar::Ka),
            6 => Some(PasswordChar::Ki),
            7 => Some(PasswordChar::Ku),
            8 => Some(PasswordChar::Ke),
            9 => Some(PasswordChar::Ko),
            10 => Some(PasswordChar::Sa),
            11 => Some(PasswordChar::Si),
            12 => Some(PasswordChar::Su),
            13 => Some(PasswordChar::Se),
            14 => Some(PasswordChar::So),
            15 => Some(PasswordChar::Ta),
            16 => Some(PasswordChar::Ti),
            17 => Some(PasswordChar::Tu),
            18 => Some(PasswordChar::Te),
            19 => Some(PasswordChar::To),
            20 => Some(PasswordChar::Na),
            21 => Some(PasswordChar::Ni),
            22 => Some(PasswordChar::Nu),
            23 => Some(PasswordChar::Ne),
            24 => Some(PasswordChar::No),
            25 => Some(PasswordChar::Ha),
            26 => Some(PasswordChar::Hi),
            27 => Some(PasswordChar::Hu),
            28 => Some(PasswordChar::He),
            29 => Some(PasswordChar::Ho),
            30 => Some(PasswordChar::Ma),
            31 => Some(PasswordChar::Mi),
            32 => Some(PasswordChar::Mu),
            33 => Some(PasswordChar::Me),
            34 => Some(PasswordChar::Mo),
            35 => Some(PasswordChar::Ya),
            36 => Some(PasswordChar::Yu),
            37 => Some(PasswordChar::Yo),
            38 => Some(PasswordChar::Ra),
            39 => Some(PasswordChar::Ri),
            40 => Some(PasswordChar::Ru),
            41 => Some(PasswordChar::Re),
            42 => Some(PasswordChar::Ro),
            43 => Some(PasswordChar::Wa),
            44 => Some(PasswordChar::Ga),
            45 => Some(PasswordChar::Gi),
            46 => Some(PasswordChar::Gu),
            47 => Some(PasswordChar::Ge),
            48 => Some(PasswordChar::Go),
            49 => Some(PasswordChar::Za),
            50 => Some(PasswordChar::Zi),
            51 => Some(PasswordChar::Zu),
            52 => Some(PasswordChar::Ze),
            53 => Some(PasswordChar::Zo),
            54 => Some(PasswordChar::Ba),
            55 => Some(PasswordChar::Bi),
            56 => Some(PasswordChar::Bu),
            57 => Some(PasswordChar::Be),
            58 => Some(PasswordChar::Bo),
            59 => Some(PasswordChar::Pa),
            60 => Some(PasswordChar::Pi),
            61 => Some(PasswordChar::Pu),
            62 => Some(PasswordChar::Pe),
            63 => Some(PasswordChar::Po),
            _ => None,
        }
    }

    /// The symbol of a glyph; `None` for a glyph outside the alphabet.
    pub open spec fn spec_from_char(c: char) -> Option<PasswordChar> {
        match c {
            'あ' => Some(PasswordChar::A),
            'い' => Some(PasswordChar::I),
            'う' => Some(PasswordChar::U),
            'え' => Some(PasswordChar::E),
            'お' => Some(PasswordChar::O),
            'か' => Some(PasswordChar::Ka),
            'き' => Some(PasswordChar::Ki),
            'く' => Some(PasswordChar::Ku),
            'け' => Some(PasswordChar::Ke),
            'こ' => Some(PasswordChar::Ko),
            'さ' => Some(PasswordChar::Sa),
            'し' => Some(PasswordChar::Si),
            'す' => Some(PasswordChar::Su),
            'せ' => Some(PasswordChar::Se),
            'そ' => Some(PasswordChar::So),
            'た' => Some(PasswordChar::Ta),
            'ち' => Some(PasswordChar::Ti),
            'つ' => Some(PasswordChar::Tu),
            'て' => Some(PasswordChar::Te),
            'と' => Some(PasswordChar::To),
            'な' => Some(PasswordChar::Na),
            'に' => Some(PasswordChar::Ni),
            'ぬ' => Some(PasswordChar::Nu),
            'ね' => Some(PasswordChar::Ne),
            'の' => Some(PasswordChar::No),
            'は' => Some(PasswordChar::Ha),
            'ひ' => Some(PasswordChar::Hi),
            'ふ' => Some(PasswordChar::Hu),
            'へ' => Some(PasswordChar::He),
            'ほ' => Some(PasswordChar::Ho),
            'ま' => Some(PasswordChar::Ma),
            'み' => Some(PasswordChar::Mi),
            'む' => Some(PasswordChar::Mu),
            'め' => Some(PasswordChar::Me),
            'も' => Some(PasswordChar::Mo),
            'や' => Some(PasswordChar::Ya),
            'ゆ' => Some(PasswordChar::Yu),
            'よ' => Some(PasswordChar::Yo),
            'ら' => Some(PasswordChar::Ra),
            'り' => Some(PasswordChar::Ri),
            'る' => Some(PasswordChar::Ru),
            'れ' => Some(PasswordChar::Re),
            'ろ' => Some(PasswordChar::Ro),
            'わ' => Some(PasswordChar::Wa),
            'が' => Some(PasswordChar::Ga),
            'ぎ' => Some(PasswordChar::Gi),
            'ぐ' => Some(PasswordChar::Gu),
            'げ' => Some(PasswordChar::Ge),
            'ご' => Some(PasswordChar::Go),
            'ざ' => Some(PasswordChar::Za),
            'じ' => Some(PasswordChar::Zi),
            'ず' => Some(PasswordChar::Zu),
            'ぜ' => Some(PasswordChar::Ze),
            'ぞ' => Some(PasswordChar::Zo),
            'ば' => Some(PasswordChar::Ba),
            'び' => Some(PasswordChar::Bi),
            'ぶ' => Some(PasswordChar::Bu),
            'べ' => Some(PasswordChar::Be),
            'ぼ' => Some(PasswordChar::Bo),
            'ぱ' => Some(PasswordChar::Pa),
            'ぴ' => Some(PasswordChar::Pi),
            'ぷ' => Some(PasswordChar::Pu),
            'ぺ' => Some(PasswordChar::Pe),
            'ぽ' => Some(PasswordChar::Po),
            _ => None,
        }
    }

    /// Builds a symbol from its six-bit value; `None` above 0x3F.
    pub fn from_inner(inner: u8) -> (r: Option<Self>)
        ensures
            r == Self::spec_from_inner(inner),
            r is Some <==> inner <= 0x3F,
            r is Some ==> r->0.spec_inner() == inner,
    {
        let r = match inner {
            0 => Some(PasswordChar::A),
            1 => Some(PasswordChar::I),
            2 => Some(PasswordChar::U),
            3 => Some(PasswordChar::E),
            4 => Some(PasswordChar::O),
            5 => Some(PasswordChar::Ka),
            6 => Some(PasswordChar::Ki),
            7 => Some(PasswordChar::Ku),
            8 => Some(PasswordChar::Ke),
            9 => Some(PasswordChar::Ko),
            10 => Some(PasswordChar::Sa),
            11 => Some(PasswordChar::Si),
            12 => Some(PasswordChar::Su),
            13 => Some(PasswordChar::Se),
            14 => Some(PasswordChar::So),
            15 => Some(PasswordChar::Ta),
            16 => Some(PasswordChar::Ti),
            17 => Some(PasswordChar::Tu),
            18 => Some(PasswordChar::Te),
            19 => Some(PasswordChar::To),
            20 => Some(PasswordChar::Na),
            21 => Some(PasswordChar::Ni),
            22 => Some(PasswordChar::Nu),
            23 => Some(PasswordChar::Ne),
            24 => Some(PasswordChar::No),
            25 => Some(PasswordChar::Ha),
            26 => Some(PasswordChar::Hi),
            27 => Some(PasswordChar::Hu),
            28 => Some(PasswordChar::He),
            29 => Some(PasswordChar::Ho),
            30 => Some(PasswordChar::Ma),
            31 => Some(PasswordChar::Mi),
            32 => Some(PasswordChar::Mu),
            33 => Some(PasswordChar::Me),
            34 => Some(PasswordChar::Mo),
            35 => Some(PasswordChar::Ya),
            36 => Some(PasswordChar::Yu),
            37 => Some(PasswordChar::Yo),
            38 => Some(PasswordChar::Ra),
            39 => Some(PasswordChar::Ri),
            40 => Some(PasswordChar::Ru),
            41 => Some(PasswordChar::Re),
            42 => Some(PasswordChar::Ro),
            43 => Some(PasswordChar::Wa),
            44 => Some(PasswordChar::Ga),
            45 => Some(PasswordChar::Gi),
            46 => Some(PasswordChar::Gu),
            47 => Some(PasswordChar::Ge),
            48 => Some(PasswordChar::Go),
            49 => Some(PasswordChar::Za),
            50 => Some(PasswordChar::Zi),
            51 => Some(PasswordChar::Zu),
            52 => Some(PasswordChar::Ze),
            53 => Some(PasswordChar::Zo),
            54 => Some(PasswordChar::Ba),
            55 => Some(PasswordChar::Bi),
            56 => Some(PasswordChar::Bu),
            57 => Some(PasswordChar::Be),
            58 => Some(PasswordChar::Bo),
            59 => Some(PasswordChar::Pa),
            60 => Some(PasswordChar::Pi),
            61 => Some(PasswordChar::Pu),
            62 => Some(PasswordChar::Pe),
            63 => Some(PasswordChar::Po),
            _ => None,
        };
        r
    }

    /// Builds a symbol from a six-bit value already known to be valid.
    pub fn from_inner_unchecked(inner: u8) -> (r: Self)
        requires
            inner <= 0x3F,
        ensures
            r.spec_inner() == inner,
    {
        Self::from_inner(inner).unwrap()
    }

    /// Converts a glyph to its symbol; `None` for a glyph outside the
    /// alphabet.
    pub fn from_char(c: char) -> (r: Option<Self>)
        ensures
            r == Self::spec_from_char(c),
    {
        match c {
            'あ' => Some(PasswordChar::A),
            'い' => Some(PasswordChar::I),
            'う' => Some(PasswordChar::U),
            'え' => Some(PasswordChar::E),
            'お' => Some(PasswordChar::O),
            'か' => Some(PasswordChar::Ka),
            'き' => Some(PasswordChar::Ki),
            'く' => Some(PasswordChar::Ku),
            'け' => Some(PasswordChar::Ke),
            'こ' => Some(PasswordChar::Ko),
            'さ' => Some(PasswordChar::Sa),
            'し' => Some(PasswordChar::Si),
            'す' => Some(PasswordChar::Su),
            'せ' => Some(PasswordChar::Se),
            'そ' => Some(PasswordChar::So),
            'た' => Some(PasswordChar::Ta),
            'ち' => Some(PasswordChar::Ti),
            'つ' => Some(PasswordChar::Tu),
            'て' => Some(PasswordChar::Te),
            'と' => Some(PasswordChar::To),
            'な' => Some(PasswordChar::Na),
            'に' => Some(PasswordChar::Ni),
            'ぬ' => Some(PasswordChar::Nu),
            'ね' => Some(PasswordChar::Ne),
            'の' => Some(PasswordChar::No),
            'は' => Some(PasswordChar::Ha),
            'ひ' => Some(PasswordChar::Hi),
            'ふ' => Some(PasswordChar::Hu),
            'へ' => Some(PasswordChar::He),
            'ほ' => Some(PasswordChar::Ho),
            'ま' => Some(PasswordChar::Ma),
            'み' => Some(PasswordChar::Mi),
            'む' => Some(PasswordChar::Mu),
            'め' => Some(PasswordChar::Me),
            'も' => Some(PasswordChar::Mo),
            'や' => Some(PasswordChar::Ya),
            'ゆ' => Some(PasswordChar::Yu),
            'よ' => Some(PasswordChar::Yo),
            'ら' => Some(PasswordChar::Ra),
            'り' => Some(PasswordChar::Ri),
            'る' => Some(PasswordChar::Ru),
            'れ' => Some(PasswordChar::Re),
            'ろ' => Some(PasswordChar::Ro),
            'わ' => Some(PasswordChar::Wa),
            'が' => Some(PasswordChar::Ga),
            'ぎ' => Some(PasswordChar::Gi),
            'ぐ' => Some(PasswordChar::Gu),
            'げ' => Some(PasswordChar::Ge),
            'ご' => Some(PasswordChar::Go),
            'ざ' => Some(PasswordChar::Za),
            'じ' => Some(PasswordChar::Zi),
            'ず' => Some(PasswordChar::Zu),
            'ぜ' => Some(PasswordChar::Ze),
            'ぞ' => Some(PasswordChar::Zo),
            'ば' => Some(PasswordChar::Ba),
            'び' => Some(PasswordChar::Bi),
            'ぶ' => Some(PasswordChar::Bu),
            'べ' => Some(PasswordChar::Be),
            'ぼ' => Some(PasswordChar::Bo),
            'ぱ' => Some(PasswordChar::Pa),
            'ぴ' => Some(PasswordChar::Pi),
            'ぷ' => Some(PasswordChar::Pu),
            'ぺ' => Some(PasswordChar::Pe),
            'ぽ' => Some(PasswordChar::Po),
            _ => None,
        }
    }

    /// Returns the six-bit value of this symbol.
    pub fn to_inner(self) -> (r: u8)
        ensures
            r == self.spec_inner(),
    {
        match self {
            PasswordChar::A => 0,
            PasswordChar::I => 1,
            PasswordChar::U => 2,
            PasswordChar::E => 3,
            PasswordChar::O => 4,
            PasswordChar::Ka => 5,
            PasswordChar::Ki => 6,
            PasswordChar::Ku => 7,
            PasswordChar::Ke => 8,
            PasswordChar::Ko => 9,
            PasswordChar::Sa => 10,
            PasswordChar::Si => 11,
            PasswordChar::Su => 12,
            PasswordChar::Se => 13,
            PasswordChar::So => 14,
            PasswordChar::Ta => 15,
            PasswordChar::Ti => 16,
            PasswordChar::Tu => 17,
            PasswordChar::Te => 18,
            PasswordChar::To => 19,
            PasswordChar::Na => 20,
            PasswordChar::Ni => 21,
            PasswordChar::Nu => 22,
            PasswordChar::Ne => 23,
            PasswordChar::No => 24,
            PasswordChar::Ha => 25,
            PasswordChar::Hi => 26,
            PasswordChar::Hu => 27,
            PasswordChar::He => 28,
            PasswordChar::Ho => 29,
            PasswordChar::Ma => 30,
            PasswordChar::Mi => 31,
            PasswordChar::Mu => 32,
            PasswordChar::Me => 33,
            PasswordChar::Mo => 34,
            PasswordChar::Ya => 35,
            PasswordChar::Yu => 36,
            PasswordChar::Yo => 37,
            PasswordChar::Ra => 38,
            PasswordChar::Ri => 39,
            PasswordChar::Ru => 40,
            PasswordChar::Re => 41,
            PasswordChar::Ro => 42,
            PasswordChar::Wa => 43,
            PasswordChar::Ga => 44,
            PasswordChar::Gi => 45,
            PasswordChar::Gu => 46,
            PasswordChar::Ge => 47,
            PasswordChar::Go => 48,
            PasswordChar::Za => 49,
            PasswordChar::Zi => 50,
            PasswordChar::Zu => 51,
            PasswordChar::Ze => 52,
            PasswordChar::Zo => 53,
            PasswordChar::Ba => 54,
            PasswordChar::Bi => 55,
            PasswordChar::Bu => 56,
            PasswordChar::Be => 57,
            PasswordChar::Bo => 58,
            PasswordChar::Pa => 59,
            PasswordChar::Pi => 60,
            PasswordChar::Pu => 61,
            PasswordChar::Pe => 62,
            PasswordChar::Po => 63,
        }
    }

    /// Returns the glyph of this symbol.
    pub fn to_char(self) -> (r: char)
        ensures
            r == self.spec_char(),
    {
        match self {
            PasswordChar::A => 'あ',
            PasswordChar::I => 'い',
            PasswordChar::U => 'う',
            PasswordChar::E => 'え',
            PasswordChar::O => 'お',
            PasswordChar::Ka => 'か',
            PasswordChar::Ki => 'き',
            PasswordChar::Ku => 'く',
            PasswordChar::Ke => 'け',
            PasswordChar::Ko => 'こ',
            PasswordChar::Sa => 'さ',
            PasswordChar::Si => 'し',
            PasswordChar::Su => 'す',
            PasswordChar::Se => 'せ',
            PasswordChar::So => 'そ',
            PasswordChar::Ta => 'た',
            PasswordChar::Ti => 'ち',
            PasswordChar::Tu => 'つ',
            PasswordChar::Te => 'て',
            PasswordChar::To => 'と',
            PasswordChar::Na => 'な',
            PasswordChar::Ni => 'に',
            PasswordChar::Nu => 'ぬ',
            PasswordChar::Ne => 'ね',
            PasswordChar::No => 'の',
            PasswordChar::Ha => 'は',
            PasswordChar::Hi => 'ひ',
            PasswordChar::Hu => 'ふ',
            PasswordChar::He => 'へ',
            PasswordChar::Ho => 'ほ',
            PasswordChar::Ma => 'ま',
            PasswordChar::Mi => 'み',
            PasswordChar::Mu => 'む',
            PasswordChar::Me => 'め',
            PasswordChar::Mo => 'も',
            PasswordChar::Ya => 'や',
            PasswordChar::Yu => 'ゆ',
            PasswordChar::Yo => 'よ',
            PasswordChar::Ra => 'ら',
            PasswordChar::Ri => 'り',
            PasswordChar::Ru => 'る',
            PasswordChar::Re => 'れ',
            PasswordChar::Ro => 'ろ',
            PasswordChar::Wa => 'わ',
            PasswordChar::Ga => 'が',
            PasswordChar::Gi => 'ぎ',
            PasswordChar::Gu => 'ぐ',
            PasswordChar::Ge => 'げ',
            PasswordChar::Go => 'ご',
            PasswordChar::Za => 'ざ',
            PasswordChar::Zi => 'じ',
            PasswordChar::Zu => 'ず',
            PasswordChar::Ze => 'ぜ',
            PasswordChar::Zo => 'ぞ',
            PasswordChar::Ba => 'ば',
            PasswordChar::Bi => 'び',
            PasswordChar::Bu => 'ぶ',
            PasswordChar::Be => 'べ',
            PasswordChar::Bo => 'ぼ',
            PasswordChar::Pa => 'ぱ',
            PasswordChar::Pi => 'ぴ',
            PasswordChar::Pu => 'ぷ',
            PasswordChar::Pe => 'ぺ',
            PasswordChar::Po => 'ぽ',
        }
    }

    /// Returns all 64 symbols in ascending value order.
    pub fn all() -> (r: Vec<Self>)
        ensures
            r.len() == 64,
            forall|i: int| 0 <= i < 64 ==> (#[trigger] r[i].spec_inner()) == i,
    {
        let mut out: Vec<Self> = Vec::new();
        let mut v: u8 = 0;
        while v < 64
            invariant
                v <= 64,
                out.len() == v,
                forall|i: int| 0 <= i < v ==> (#[trigger] out[i].spec_inner()) == i,
            decreases 64 - v,
        {
            out.push(Self::from_inner_unchecked(v));
            v += 1;
        }
        out
    }

    /// Every symbol's value fits in six bits.
    pub proof fn lemma_inner_bounded(self)
        ensures
            self.spec_inner() <= 0x3F,
    {
    }

    /// Value-to-symbol inverts symbol-to-value.
    pub proof fn lemma_inner_round_trip(self)
        ensures
            Self::spec_from_inner(self.spec_inner()) == Some(self),
    {
    }

    /// Glyph-to-symbol inverts symbol-to-glyph: for every symbol, the
    /// glyph it renders to maps back to the same symbol.
    pub proof fn lemma_char_round_trip(self)
        ensures
            Self::spec_from_char(self.spec_char()) == Some(self),
    {
    }
}

/// The six-bit symbol values of a sequence of alphabet symbols.
pub open spec fn symbols_of_chars(cs: Seq<PasswordChar>) -> Seq<u8> {
    Seq::new(cs.len(), |i: int| cs[i].spec_inner())
}

/// The six-bit symbol values of a sequence of glyphs, where every glyph
/// belongs to the alphabet.
pub open spec fn symbols_of_glyphs(s: Seq<char>) -> Seq<u8> {
    Seq::new(s.len(), |i: int| PasswordChar::spec_from_char(s[i])->0.spec_inner())
}

/// Whether the first `n` glyphs of `s` (or all of them, when `s` is
/// shorter) belong to the alphabet.
pub open spec fn glyphs_valid_upto(s: Seq<char>, n: int) -> bool {
    forall|j: int| 0 <= j < n && j < s.len() ==> (#[trigger] PasswordChar::spec_from_char(s[j])) is Some
}

/// The glyph of a six-bit symbol value.
pub open spec fn glyph_of(v: u8) -> char
    recommends
        v <= 0x3F,
{
    PasswordChar::spec_from_inner(v)->0.spec_char()
}

/// The glyphs of a sequence of six-bit symbol values.
pub open spec fn text_of(s: Seq<u8>) -> Seq<char> {
    Seq::new(s.len(), |i: int| glyph_of(s[i]))
}

/// An error from parsing a glyph string into a password.
#[derive(Clone, Copy, Debug, PartialEq, Eq)]
pub enum PasswordParseError {
    /// The glyph count lies outside `1..=38`.
    InvalidLength,
    /// A glyph outside the alphabet stands at position `pos`.
    InvalidChar { pos: usize, ch: char },
}

/// A password: an ordered sequence of 1 to 38 alphabet symbols. Its view
/// is the sequence of six-bit symbol values.
#[derive(Debug, PartialEq, Eq)]
pub struct Password {
    inner: arrayvec::ArrayVec<u8, 38>,
}

impl View for Password {
    type V = Seq<u8>;

    closed spec fn view(&self) -> Seq<u8> {
        buf_seq(self.inner)
    }
}

impl Password {
    /// The fewest symbols a password may hold.
    pub const MIN_LEN: usize = 1;

    /// The most symbols a password may hold.
    pub const MAX_LEN: usize = 38;

    /// The length invariant and the six-bit range of every symbol.
    pub open spec fn wf(self) -> bool {
        &&& 1 <= self@.len() <= 38
        &&& forall|i: int| 0 <= i < self@.len() ==> self@[i] <= 0x3F
    }

    /// The complete special password that opens the audio room; every
    /// prefix of it is special as well.
    pub open spec fn special_audio() -> Seq<u8> {
        seq![0x0C, 0x39, 0x12, 0x18, 0x06, 0x25, 0x07, 0x2C, 0x06, 0x06, 0x0F, 0x01, 0x14]
    }

    /// The complete special password that opens the enemy gallery; every
    /// prefix of it is special as well.
    pub open spec fn special_enemy() -> Seq<u8> {
        seq![0x0C, 0x39, 0x12, 0x18, 0x12, 0x06, 0x2C, 0x1F, 0x0F, 0x01, 0x14]
    }

    /// Builds a password from a slice of symbols; `None` when the symbol
    /// count lies outside `1..=38`.
    pub fn new(chars: &[PasswordChar]) -> (r: Option<Self>)
        ensures
            r is Some <==> 1 <= chars@.len() <= 38,
            r is Some ==> r->0.wf() && r->0@ == symbols_of_chars(chars@),
    {
        if 1 <= chars.len() && chars.len() <= 38 {
            Some(Self::new_unchecked(chars))
        } else {
            None
        }
    }

    /// Builds a password from a slice of 1 to 38 symbols.
    pub fn new_unchecked(chars: &[PasswordChar]) -> (r: Self)
        requires
            1 <= chars@.len() <= 38,
        ensures
            r.wf(),
            r@ == symbols_of_chars(chars@),
    {
        let n = chars.len();
        let mut inner = buf_new();
        let mut i: usize = 0;
        while i < n
            invariant
                i <= n == chars@.len() <= 38,
                buf_seq(inner) == symbols_of_chars(chars@).take(i as int),
            decreases n - i,
        {
            buf_push(&mut inner, chars[i].to_inner());
            proof {
                assert(buf_seq(inner) =~= symbols_of_chars(chars@).take(i + 1));
            }
            i += 1;
        }
        proof {
            assert(symbols_of_chars(chars@).take(n as int) =~= symbols_of_chars(chars@));
            assert forall|j: int| 0 <= j < chars@.len() implies symbols_of_chars(chars@)[j] <= 0x3F by {
                chars@[j].lemma_inner_bounded();
            }
        }
        Password { inner }
    }

    /// Parses a glyph string into a password. Fails with `InvalidChar` at
    /// the first glyph outside the alphabet, and with `InvalidLength` when
    /// the glyph count lies outside `1..=38`.
    pub fn parse(s: &str) -> (r: Result<Self, PasswordParseError>)
        ensures
            r is Ok <==> 1 <= s@.len() <= 38 && glyphs_valid_upto(s@, s@.len() as int),
            r is Ok ==> r->Ok_0.wf() && r->Ok_0@ == symbols_of_glyphs(s@),
            r == Err::<Self, _>(PasswordParseError::InvalidLength) <==> glyphs_valid_upto(s@, 39)
                && !(1 <= s@.len() <= 38),
            forall|pos: usize, ch: char|
                r == Err::<Self, _>(PasswordParseError::InvalidChar { pos, ch }) ==> {
                    &&& pos < s@.len() && pos <= 38
                    &&& ch == s@[pos as int]
                    &&& PasswordChar::spec_from_char(ch) is None
                    &&& glyphs_valid_upto(s@, pos as int)
                },
    {
        let n = s.unicode_len();
        let mut inner = buf_new();
        let mut i: usize = 0;
        while i < n
            invariant
                i <= n == s@.len(),
                i <= 38,
                glyphs_valid_upto(s@, i as int),
                buf_seq(inner) == symbols_of_glyphs(s@).take(i as int),
            decreases n - i,
        {
            let c = s.get_char(i);
            match PasswordChar::from_char(c) {
                None => {
                    return Err(PasswordParseError::InvalidChar { pos: i, ch: c });
                },
                Some(pc) => {
                    if i >= 38 {
                        return Err(PasswordParseError::InvalidLength);
                    }
                    buf_push(&mut inner, pc.to_inner());
                    proof {
                        assert(buf_seq(inner) =~= symbols_of_glyphs(s@).take(i + 1));
                    }
                },
            }
            i += 1;
        }
        if n == 0 {
            return Err(PasswordParseError::InvalidLength);
        }
        proof {
            assert(symbols_of_glyphs(s@).take(n as int) =~= symbols_of_glyphs(s@));
            assert forall|j: int| 0 <= j < s@.len() implies symbols_of_glyphs(s@)[j] <= 0x3F by {
                PasswordChar::spec_from_char(s@[j])->0.lemma_inner_bounded();
            }
        }
        Ok(Password { inner })
    }

    /// Returns the number of symbols.
    pub fn len(&self) -> (r: usize)
        ensures
            r == self@.len(),
    {
        buf_len(&self.inner)
    }

    /// Returns the six-bit value of the symbol at position `i`.
    pub fn symbol_at(&self, i: usize) -> (r: u8)
        requires
            i < self@.len(),
        ensures
            r == self@[i as int],
    {
        buf_get(&self.inner, i)
    }

    /// Builds a password around a buffer of raw six-bit symbol values.
    pub(crate) fn from_raw(inner: arrayvec::ArrayVec<u8, 38>) -> (r: Self)
        requires
            1 <= buf_seq(inner).len() <= 38,
            forall|i: int| 0 <= i < buf_seq(inner).len() ==> buf_seq(inner)[i] <= 0x3F,
        ensures
            r.wf(),
            r@ == buf_seq(inner),
    {
        Password { inner }
    }

    /// Returns the symbol at position `i`.
    pub fn char_at(&self, i: usize) -> (r: PasswordChar)
        requires
            self.wf(),
            i < self@.len(),
        ensures
            r.spec_inner() == self@[i as int],
    {
        PasswordChar::from_inner_unchecked(buf_get(&self.inner, i))
    }

    /// Returns all symbols in order.
    pub fn to_chars(&self) -> (r: Vec<PasswordChar>)
        requires
            self.wf(),
        ensures
            r.len() == self@.len(),
            forall|i: int| 0 <= i < r.len() ==> (#[trigger] r[i].spec_inner()) == self@[i],
    {
        let n = self.len();
        let mut out: Vec<PasswordChar> = Vec::new();
        let mut i: usize = 0;
        while i < n
            invariant
                i <= n == self@.len(),
                self.wf(),
                out.len() == i,
                forall|j: int| 0 <= j < i ==> (#[trigger] out[j].spec_inner()) == self@[j],
            decreases n - i,
        {
            out.push(self.char_at(i));
            i += 1;
        }
        out
    }


    /// Returns the glyphs of all symbols, in order.
    fn glyph_vec(&self) -> (r: Vec<char>)
        requires
            self.wf(),
        ensures
            r@ == text_of(self@),
    {
        let n = self.len();
        let mut cs: Vec<char> = Vec::new();
        let mut i: usize = 0;
        while i < n
            invariant
                self.wf(),
                i <= n == self@.len(),
                cs@ == text_of(self@).take(i as int),
            decreases n - i,
        {
            let pc = self.char_at(i);
            proof {
                pc.lemma_inner_round_trip();
            }
            cs.push(pc.to_char());
            proof {
                assert(cs@ =~= text_of(self@).take(i + 1));
            }
            i += 1;
        }
        proof {
            assert(text_of(self@).take(n as int) =~= text_of(self@));
        }
        cs
    }

    /// Renders the password as one run of glyphs, without separators.
    pub fn display(&self) -> (r: String)
        requires
            self.wf(),
        ensures
            r@ == text_of(self@),
    {
        let cs = self.glyph_vec();
        chars_to_string(&cs)
    }

    /// Renders the password as glyphs grouped in chunks of 5, 7, 5, 7, 7
    /// and 7, with a single space between chunks.
    pub fn display_pretty(&self) -> (r: String)
        requires
            self.wf(),
        ensures
            r@ == pretty_text(self@),
    {
        let glyphs = self.glyph_vec();
        let mut cs: Vec<char> = Vec::new();
        pretty_append(&mut cs, &glyphs, 0, 0);
        proof {
            assert(glyphs@.skip(0int) =~= glyphs@);
            assert(chunk_lens().skip(0int) =~= chunk_lens());
            assert(cs@ =~= pretty_text(self@));
        }
        chars_to_string(&cs)
    }

    /// Renders the password as an uppercase hexadecimal dump of its
    /// symbol values, two digits per symbol, space separated.
    pub fn display_hex(&self) -> (r: String)
        requires
            self.wf(),
        ensures
            r@ == hex_text(self@),
    {
        let n = self.len();
        let mut cs: Vec<char> = Vec::new();
        let mut i: usize = 0;
        while i < n
            invariant
                self.wf(),
                i <= n == self@.len(),
                cs@ == hex_text(self@.take(i as int)),
            decreases n - i,
        {
            if i != 0 {
                cs.push(' ');
            }
            let v = self.symbol_at(i);
            cs.push(hex_digit_at(v / 16));
            cs.push(hex_digit_at(v % 16));
            proof {
                if i == 0 {
                    assert(self@.take(1int)[0] == self@[0]);
                    assert(cs@ =~= hex_text(self@.take(1int)));
                } else {
                    assert(self@.take(i + 1).drop_last() =~= self@.take(i as int));
                    assert(self@.take(i + 1).last() == self@[i as int]);
                    assert(cs@ =~= hex_text(self@.take(i + 1)));
                }
            }
            i += 1;
        }
        proof {
            assert(self@.take(n as int) =~= self@);
        }
        chars_to_string(&cs)
    }

    /// Returns whether only the second symbol already rules the password
    /// out: a password whose second symbol has an even value can never
    /// pass checksum validation, whatever follows it.
    pub fn is_invalid_second_char(pc_second: PasswordChar) -> (r: bool)
        ensures
            r == (pc_second.spec_inner() % 2 == 0),
    {
        pc_second.to_inner() % 2 == 0
    }

    /// Returns whether this password is one of the two special unlock
    /// passwords.
    pub fn is_special(&self) -> (r: bool)
        requires
            self.wf(),
        ensures
            r == (self@.is_prefix_of(Self::special_audio()) || self@.is_prefix_of(
                Self::special_enemy(),
            )),
    {
        self.is_special_audio() || self.is_special_enemy()
    }

    /// Returns whether this password is a prefix of the complete special
    /// password that opens the audio room.
    pub fn is_special_audio(&self) -> (r: bool)
        requires
            self.wf(),
        ensures
            r == self@.is_prefix_of(Self::special_audio()),
    {
        let reference = special_audio_symbols();
        self.is_prefix_of_symbols(&reference)
    }

    /// Returns whether this password is a prefix of the complete special
    /// password that opens the enemy gallery.
    pub fn is_special_enemy(&self) -> (r: bool)
        requires
            self.wf(),
        ensures
            r == self@.is_prefix_of(Self::special_enemy()),
    {
        let reference = special_enemy_symbols();
        self.is_prefix_of_symbols(&reference)
    }

    /// Returns whether this password's symbol values form a prefix of
    /// `reference`.
    fn is_prefix_of_symbols(&self, reference: &Vec<u8>) -> (r: bool)
        requires
            self.wf(),
        ensures
            r == self@.is_prefix_of(reference@),
    {
        let n = self.len();
        if n > reference.len() {
            return false;
        }
        let mut i: usize = 0;
        while i < n
            invariant
                self.wf(),
                i <= n == self@.len() <= reference@.len(),
                forall|j: int| 0 <= j < i ==> self@[j] == reference@[j],
            decreases n - i,
        {
            if buf_get(&self.inner, i) != reference[i] {
                return false;
            }
            i += 1;
        }
        proof {
            assert(self@ =~= reference@.subrange(0, self@.len() as int));
        }
        true
    }
}


/// The uppercase hexadecimal digit of a value below 16.
pub open spec fn hex_digit(v: u8) -> char {
    match v {
        0 => '0',
        1 => '1',
        2 => '2',
        3 => '3',
        4 => '4',
        5 => '5',
        6 => '6',
        7 => '7',
        8 => '8',
        9 => '9',
        10 => 'A',
        11 => 'B',
        12 => 'C',
        13 => 'D',
        14 => 'E',
        15 => 'F',
        _ => '0',
    }
}

/// The two uppercase hexadecimal digits of a symbol value.
pub open spec fn hex_pair(v: u8) -> Seq<char> {
    seq![hex_digit(v / 16), hex_digit(v % 16)]
}

/// The hexadecimal dump of a symbol sequence: two digits per symbol,
/// separated by single spaces.
pub open spec fn hex_text(s: Seq<u8>) -> Seq<char>
    decreases s.len(),
{
    if s.len() == 0 {
        Seq::empty()
    } else if s.len() == 1 {
        hex_pair(s[0])
    } else {
        hex_text(s.drop_last()) + seq![' '] + hex_pair(s.last())
    }
}

/// The glyphs grouped for reading: the leading chunk of `lens[0]` glyphs,
/// a space, and the rest grouped by the remaining chunk sizes; a chunk
/// that consumes every remaining glyph ends the text without a space.
pub open spec fn pretty_chunks(s: Seq<char>, lens: Seq<int>) -> Seq<char>
    decreases lens.len(),
{
    if lens.len() == 0 || s.len() <= lens[0] {
        s
    } else {
        s.take(lens[0]) + seq![' '] + pretty_chunks(s.skip(lens[0]), lens.drop_first())
    }
}

/// The chunk sizes of the grouped rendering.
pub open spec fn chunk_lens() -> Seq<int> {
    seq![5, 7, 5, 7, 7, 7]
}

/// The grouped rendering of a symbol sequence.
pub open spec fn pretty_text(s: Seq<u8>) -> Seq<char> {
    pretty_chunks(text_of(s), chunk_lens())
}

/// Relies on `String`'s `FromIterator` over `char`: collects exactly the
/// given characters into a string.
#[verifier::external_body]
fn chars_to_string(cs: &Vec<char>) -> (r: String)
    ensures
        r@ == cs@,
{
    cs.iter().collect()
}

/// The uppercase hexadecimal digit of a value below 16.
fn hex_digit_at(v: u8) -> (r: char)
    ensures
        r == hex_digit(v),
{
    match v {
        0 => '0',
        1 => '1',
        2 => '2',
        3 => '3',
        4 => '4',
        5 => '5',
        6 => '6',
        7 => '7',
        8 => '8',
        9 => '9',
        10 => 'A',
        11 => 'B',
        12 => 'C',
        13 => 'D',
        14 => 'E',
        15 => 'F',
        _ => '0',
    }
}


/// Appends the glyphs from `pos` on, grouped by the chunk sizes from `k`
/// on, with a single space between chunks.
fn pretty_append(cs: &mut Vec<char>, glyphs: &Vec<char>, pos: usize, k: usize)
    requires
        k <= 6,
        pos <= glyphs@.len(),
        glyphs@.len() <= 38,
    ensures
        final(cs)@ == old(cs)@ + pretty_chunks(glyphs@.skip(pos as int), chunk_lens().skip(k as int)),
    decreases 6 - k,
{
    let remaining = glyphs.len() - pos;
    let chunk: usize = if k >= 6 {
        remaining
    } else if k == 0 || k == 2 {
        5
    } else {
        7
    };
    if remaining <= chunk {
        let mut i: usize = pos;
        while i < glyphs.len()
            invariant
                pos <= i <= glyphs@.len(),
                cs@ == old(cs)@ + glyphs@.subrange(pos as int, i as int),
            decreases glyphs@.len() - i,
        {
            cs.push(glyphs[i]);
            proof {
                assert(cs@ =~= old(cs)@ + glyphs@.subrange(pos as int, i + 1));
            }
            i += 1;
        }
        proof {
            assert(glyphs@.subrange(pos as int, glyphs@.len() as int) =~= glyphs@.skip(pos as int));
            assert(pretty_chunks(glyphs@.skip(pos as int), chunk_lens().skip(k as int))
                == glyphs@.skip(pos as int));
        }
    } else {
        let mut i: usize = pos;
        while i < pos + chunk
            invariant
                pos <= i <= pos + chunk <= glyphs@.len() <= 38,
                cs@ == old(cs)@ + glyphs@.subrange(pos as int, i as int),
            decreases pos + chunk - i,
        {
            cs.push(glyphs[i]);
            proof {
                assert(cs@ =~= old(cs)@ + glyphs@.subrange(pos as int, i + 1));
            }
            i += 1;
        }
        cs.push(' ');
        pretty_append(cs, glyphs, pos + chunk, k + 1);
        proof {
            let s = glyphs@.skip(pos as int);
            let lens = chunk_lens().skip(k as int);
            assert(lens[0] == chunk);
            assert(s.take(chunk as int) =~= glyphs@.subrange(pos as int, pos + chunk));
            assert(s.skip(chunk as int) =~= glyphs@.skip(pos + chunk));
            assert(lens.drop_first() =~= chunk_lens().skip(k + 1));
            assert(cs@ =~= old(cs)@ + pretty_chunks(s, lens));
        }
    }
}

/// The symbol values of the complete audio-room special password.
fn special_audio_symbols() -> (r: Vec<u8>)
    ensures
        r@ == Password::special_audio(),
{
    let mut v: Vec<u8> = Vec::new();
    v.push(0x0C);
    v.push(0x39);
    v.push(0x12);
    v.push(0x18);
    v.push(0x06);
    v.push(0x25);
    v.push(0x07);
    v.push(0x2C);
    v.push(0x06);
    v.push(0x06);
    v.push(0x0F);
    v.push(0x01);
    v.push(0x14);
    proof {
        assert(v@ =~= Password::special_audio());
    }
    v
}

/// The symbol values of the complete enemy-gallery special password.
fn special_enemy_symbols() -> (r: Vec<u8>)
    ensures
        r@ == Password::special_enemy(),
{
    let mut v: Vec<u8> = Vec::new();
    v.push(0x0C);
    v.push(0x39);
    v.push(0x12);
    v.push(0x18);
    v.push(0x12);
    v.push(0x06);
    v.push(0x2C);
    v.push(0x1F);
    v.push(0x0F);
    v.push(0x01);
    v.push(0x14);
    proof {
        assert(v@ =~= Password::special_enemy());
    }
    v
}

} // verus!
