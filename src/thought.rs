//! Thoughts and the emotions they evoke, with their stress effect.

use vstd::prelude::*;
use crate::gamedata::{GameData, Subthought};
use crate::layout::{MemoryOffsets, OffsetSection};
use crate::memory::ProcessMemory;
use crate::time::DfTime;

verus! {

/// The emotion that a thought evokes, numbered from 0 as the simulation
/// numbers them.
#[derive(PartialEq, Eq, Structural, Clone, Copy, Debug)]
pub enum EmotionType {
    NoEmotion,
    Acceptance,
    Adoration,
    Affection,
    Agitation,
    Aggravation,
    Agony,
    Alarm,
    Alienation,
    Amazement,
    Ambivalence,
    Amusement,
    Anger,
    ExistentialCrisis,
    Anguish,
    Annoyance,
    Unknown15,
    Anxiety,
    Apathy,
    Unknown18,
    Arousal,
    Astonishment,
    Unknown21,
    Aversion,
    Awe,
    Bitterness,
    Bliss,
    Boredom,
    Caring,
    Unknown28,
    Confusion,
    Contempt,
    Contentment,
    Unknown32,
    Unknown33,
    Defeated,
    Dejection,
    Delight,
    Unknown37,
    Unknown38,
    Despair,
    Disappointment,
    Disgust,
    Disillusioned,
    Dislike,
    Dismay,
    Displeasure,
    Distress,
    Doubt,
    Unknown48,
    Eagerness,
    Unknown50,
    Elation,
    Embarrassment,
    Empathy,
    Emptiness,
    Enjoyment,
    Unknown56,
    Enthusiastic,
    Unknown58,
    Euphoric,
    Exasperation,
    Excited,
    Exhilaration,
    Expectant,
    Fear,
    Ferocity,
    Fondness,
    Free,
    Fright,
    Frustration,
    Unknown70,
    Unknown71,
    Unknown72,
    Glee,
    Gloom,
    Glumness,
    Gratitude,
    Unknown77,
    Grief,
    GrimSatisfaction,
    Grouchiness,
    Grumpiness,
    Guilt,
    Happiness,
    Hatred,
    Unknown85,
    Hope,
    Hopelessness,
    Horror,
    Unknown89,
    Humiliation,
    Unknown91,
    Unknown92,
    Unknown93,
    Unknown94,
    Insult,
    Interest,
    Irritation,
    Isolation,
    Unknown99,
    Jolliness,
    Jovialty,
    Joy,
    Jubilation,
    Unknown104,
    Loathing,
    Loneliness,
    Unknown107,
    Love,
    Unknown109,
    Lust,
    Unknown111,
    Misery,
    Mortification,
    Unknown114,
    Nervousness,
    Nostalgia,
    Optimism,
    Outrage,
    Panic,
    Patience,
    Passion,
    Pessimistic,
    Unknown123,
    Pleasure,
    Pride,
    Rage,
    Rapture,
    Rejection,
    Relief,
    Regret,
    Remorse,
    Repentance,
    Resentment,
    Unknown134,
    RighteousIndignation,
    Sadness,
    Satisfaction,
    Unknown138,
    SelfPity,
    Unknown140,
    Servile,
    Shaken,
    Shame,
    Shock,
    Unknown145,
    Unknown146,
    Unknown147,
    Unknown148,
    Suspicion,
    Sympathy,
    Tenderness,
    Unknown152,
    Terror,
    Thrill,
    Unknown155,
    Triumph,
    Uneasiness,
    Unhappiness,
    Vengefulness,
    Unknown160,
    Wonder,
    Worry,
    Wrath,
    Zeal,
    Unknown165,
    Unknown166,
    Unknown167,
    Restless,
    Admiration,
}

impl EmotionType {
    /// The simulation's number for the emotion; -1 for none.
    pub open spec fn code(self) -> int {
        match self {
            EmotionType::NoEmotion => -1,
            EmotionType::Acceptance => 0,
            EmotionType::Adoration => 1,
            EmotionType::Affection => 2,
            EmotionType::Agitation => 3,
            EmotionType::Aggravation => 4,
            EmotionType::Agony => 5,
            EmotionType::Alarm => 6,
            EmotionType::Alienation => 7,
            EmotionType::Amazement => 8,
            EmotionType::Ambivalence => 9,
            EmotionType::Amusement => 10,
            EmotionType::Anger => 11,
            EmotionType::ExistentialCrisis => 12,
            EmotionType::Anguish => 13,
            EmotionType::Annoyance => 14,
            EmotionType::Unknown15 => 15,
            EmotionType::Anxiety => 16,
            EmotionType::Apathy => 17,
            EmotionType::Unknown18 => 18,
            EmotionType::Arousal => 19,
            EmotionType::Astonishment => 20,
            EmotionType::Unknown21 => 21,
            EmotionType::Aversion => 22,
            EmotionType::Awe => 23,
            EmotionType::Bitterness => 24,
            EmotionType::Bliss => 25,
            EmotionType::Boredom => 26,
            EmotionType::Caring => 27,
            EmotionType::Unknown28 => 28,
            EmotionType::Confusion => 29,
            EmotionType::Contempt => 30,
            EmotionType::Contentment => 31,
            EmotionType::Unknown32 => 32,
            EmotionType::Unknown33 => 33,
            EmotionType::Defeated => 34,
            EmotionType::Dejection => 35,
            EmotionType::Delight => 36,
            EmotionType::Unknown37 => 37,
            EmotionType::Unknown38 => 38,
            EmotionType::Despair => 39,
            EmotionType::Disappointment => 40,
            EmotionType::Disgust => 41,
            EmotionType::Disillusioned => 42,
            EmotionType::Dislike => 43,
            EmotionType::Dismay => 44,
            EmotionType::Displeasure => 45,
            EmotionType::Distress => 46,
            EmotionType::Doubt => 47,
            EmotionType::Unknown48 => 48,
            EmotionType::Eagerness => 49,
            EmotionType::Unknown50 => 50,
            EmotionType::Elation => 51,
            EmotionType::Embarrassment => 52,
            EmotionType::Empathy => 53,
            EmotionType::Emptiness => 54,
            EmotionType::Enjoyment => 55,
            EmotionType::Unknown56 => 56,
            EmotionType::Enthusiastic => 57,
            EmotionType::Unknown58 => 58,
            EmotionType::Euphoric => 59,
            EmotionType::Exasperation => 60,
            EmotionType::Excited => 61,
            EmotionType::Exhilaration => 62,
            EmotionType::Expectant => 63,
            EmotionType::Fear => 64,
            EmotionType::Ferocity => 65,
            EmotionType::Fondness => 66,
            EmotionType::Free => 67,
            EmotionType::Fright => 68,
            EmotionType::Frustration => 69,
            EmotionType::Unknown70 => 70,
            EmotionType::Unknown71 => 71,
            EmotionType::Unknown72 => 72,
            EmotionType::Glee => 73,
            EmotionType::Gloom => 74,
            EmotionType::Glumness => 75,
            EmotionType::Gratitude => 76,
            EmotionType::Unknown77 => 77,
            EmotionType::Grief => 78,
            EmotionType::GrimSatisfaction => 79,
            EmotionType::Grouchiness => 80,
            EmotionType::Grumpiness => 81,
            EmotionType::Guilt => 82,
            EmotionType::Happiness => 83,
            EmotionType::Hatred => 84,
            EmotionType::Unknown85 => 85,
            EmotionType::Hope => 86,
            EmotionType::Hopelessness => 87,
            EmotionType::Horror => 88,
            EmotionType::Unknown89 => 89,
            EmotionType::Humiliation => 90,
            EmotionType::Unknown91 => 91,
            EmotionType::Unknown92 => 92,
            EmotionType::Unknown93 => 93,
            EmotionType::Unknown94 => 94,
            EmotionType::Insult => 95,
            EmotionType::Interest => 96,
            EmotionType::Irritation => 97,
            EmotionType::Isolation => 98,
            EmotionType::Unknown99 => 99,
            EmotionType::Jolliness => 100,
            EmotionType::Jovialty => 101,
            EmotionType::Joy => 102,
            EmotionType::Jubilation => 103,
            EmotionType::Unknown104 => 104,
            EmotionType::Loathing => 105,
            EmotionType::Loneliness => 106,
            EmotionType::Unknown107 => 107,
            EmotionType::Love => 108,
            EmotionType::Unknown109 => 109,
            EmotionType::Lust => 110,
            EmotionType::Unknown111 => 111,
            EmotionType::Misery => 112,
            EmotionType::Mortification => 113,
            EmotionType::Unknown114 => 114,
            EmotionType::Nervousness => 115,
            EmotionType::Nostalgia => 116,
            EmotionType::Optimism => 117,
            EmotionType::Outrage => 118,
            EmotionType::Panic => 119,
            EmotionType::Patience => 120,
            EmotionType::Passion => 121,
            EmotionType::Pessimistic => 122,
            EmotionType::Unknown123 => 123,
            EmotionType::Pleasure => 124,
            EmotionType::Pride => 125,
            EmotionType::Rage => 126,
            EmotionType::Rapture => 127,
            EmotionType::Rejection => 128,
            EmotionType::Relief => 129,
            EmotionType::Regret => 130,
            EmotionType::Remorse => 131,
            EmotionType::Repentance => 132,
            EmotionType::Resentment => 133,
            EmotionType::Unknown134 => 134,
            EmotionType::RighteousIndignation => 135,
            EmotionType::Sadness => 136,
            EmotionType::Satisfaction => 137,
            EmotionType::Unknown138 => 138,
            EmotionType::SelfPity => 139,
            EmotionType::Unknown140 => 140,
            EmotionType::Servile => 141,
            EmotionType::Shaken => 142,
            EmotionType::Shame => 143,
            EmotionType::Shock => 144,
            EmotionType::Unknown145 => 145,
            EmotionType::Unknown146 => 146,
            EmotionType::Unknown147 => 147,
            EmotionType::Unknown148 => 148,
            EmotionType::Suspicion => 149,
            EmotionType::Sympathy => 150,
            EmotionType::Tenderness => 151,
            EmotionType::Unknown152 => 152,
            EmotionType::Terror => 153,
            EmotionType::Thrill => 154,
            EmotionType::Unknown155 => 155,
            EmotionType::Triumph => 156,
            EmotionType::Uneasiness => 157,
            EmotionType::Unhappiness => 158,
            EmotionType::Vengefulness => 159,
            EmotionType::Unknown160 => 160,
            EmotionType::Wonder => 161,
            EmotionType::Worry => 162,
            EmotionType::Wrath => 163,
            EmotionType::Zeal => 164,
            EmotionType::Unknown165 => 165,
            EmotionType::Unknown166 => 166,
            EmotionType::Unknown167 => 167,
            EmotionType::Restless => 168,
            EmotionType::Admiration => 169,
        }
    }

    /// The emotion numbered `value`; an unknown number is no emotion.
    pub fn from_i32(value: i32) -> (r: EmotionType)
        ensures
            0 <= value < 170 ==> r.code() == value,
            !(0 <= value < 170) ==> r == EmotionType::NoEmotion,
    {
        match value {
            0 => EmotionType::Acceptance,
            1 => EmotionType::Adoration,
            2 => EmotionType::Affection,
            3 => EmotionType::Agitation,
            4 => EmotionType::Aggravation,
            5 => EmotionType::Agony,
            6 => EmotionType::Alarm,
            7 => EmotionType::Alienation,
            8 => EmotionType::Amazement,
            9 => EmotionType::Ambivalence,
            10 => EmotionType::Amusement,
            11 => EmotionType::Anger,
            12 => EmotionType::ExistentialCrisis,
            13 => EmotionType::Anguish,
            14 => EmotionType::Annoyance,
            15 => EmotionType::Unknown15,
            16 => EmotionType::Anxiety,
            17 => EmotionType::Apathy,
            18 => EmotionType::Unknown18,
            19 => EmotionType::Arousal,
            20 => EmotionType::Astonishment,
            21 => EmotionType::Unknown21,
            22 => EmotionType::Aversion,
            23 => EmotionType::Awe,
            24 => EmotionType::Bitterness,
            25 => EmotionType::Bliss,
            26 => EmotionType::Boredom,
            27 => EmotionType::Caring,
            28 => EmotionType::Unknown28,
            29 => EmotionType::Confusion,
            30 => EmotionType::Contempt,
            31 => EmotionType::Contentment,
            32 => EmotionType::Unknown32,
            33 => EmotionType::Unknown33,
            34 => EmotionType::Defeated,
            35 => EmotionType::Dejection,
            36 => EmotionType::Delight,
            37 => EmotionType::Unknown37,
            38 => EmotionType::Unknown38,
            39 => EmotionType::Despair,
            40 => EmotionType::Disappointment,
            41 => EmotionType::Disgust,
            42 => EmotionType::Disillusioned,
            43 => EmotionType::Dislike,
            44 => EmotionType::Dismay,
            45 => EmotionType::Displeasure,
            46 => EmotionType::Distress,
            47 => EmotionType::Doubt,
            48 => EmotionType::Unknown48,
            49 => EmotionType::Eagerness,
            50 => EmotionType::Unknown50,
            51 => EmotionType::Elation,
            52 => EmotionType::Embarrassment,
            53 => EmotionType::Empathy,
            54 => EmotionType::Emptiness,
            55 => EmotionType::Enjoyment,
            56 => EmotionType::Unknown56,
            57 => EmotionType::Enthusiastic,
            58 => EmotionType::Unknown58,
            59 => EmotionType::Euphoric,
            60 => EmotionType::Exasperation,
            61 => EmotionType::Excited,
            62 => EmotionType::Exhilaration,
            63 => EmotionType::Expectant,
            64 => EmotionType::Fear,
            65 => EmotionType::Ferocity,
            66 => EmotionType::Fondness,
            67 => EmotionType::Free,
            68 => EmotionType::Fright,
            69 => EmotionType::Frustration,
            70 => EmotionType::Unknown70,
            71 => EmotionType::Unknown71,
            72 => EmotionType::Unknown72,
            73 => EmotionType::Glee,
            74 => EmotionType::Gloom,
            75 => EmotionType::Glumness,
            76 => EmotionType::Gratitude,
            77 => EmotionType::Unknown77,
            78 => EmotionType::Grief,
            79 => EmotionType::GrimSatisfaction,
            80 => EmotionType::Grouchiness,
            81 => EmotionType::Grumpiness,
            82 => EmotionType::Guilt,
            83 => EmotionType::Happiness,
            84 => EmotionType::Hatred,
            85 => EmotionType::Unknown85,
            86 => EmotionType::Hope,
            87 => EmotionType::Hopelessness,
            88 => EmotionType::Horror,
            89 => EmotionType::Unknown89,
            90 => EmotionType::Humiliation,
            91 => EmotionType::Unknown91,
            92 => EmotionType::Unknown92,
            93 => EmotionType::Unknown93,
            94 => EmotionType::Unknown94,
            95 => EmotionType::Insult,
            96 => EmotionType::Interest,
            97 => EmotionType::Irritation,
            98 => EmotionType::Isolation,
            99 => EmotionType::Unknown99,
            100 => EmotionType::Jolliness,
            101 => EmotionType::Jovialty,
            102 => EmotionType::Joy,
            103 => EmotionType::Jubilation,
            104 => EmotionType::Unknown104,
            105 => EmotionType::Loathing,
            106 => EmotionType::Loneliness,
            107 => EmotionType::Unknown107,
            108 => EmotionType::Love,
            109 => EmotionType::Unknown109,
            110 => EmotionType::Lust,
            111 => EmotionType::Unknown111,
            112 => EmotionType::Misery,
            113 => EmotionType::Mortification,
            114 => EmotionType::Unknown114,
            115 => EmotionType::Nervousness,
            116 => EmotionType::Nostalgia,
            117 => EmotionType::Optimism,
            118 => EmotionType::Outrage,
            119 => EmotionType::Panic,
            120 => EmotionType::Patience,
            121 => EmotionType::Passion,
            122 => EmotionType::Pessimistic,
            123 => EmotionType::Unknown123,
            124 => EmotionType::Pleasure,
            125 => EmotionType::Pride,
            126 => EmotionType::Rage,
            127 => EmotionType::Rapture,
            128 => EmotionType::Rejection,
            129 => EmotionType::Relief,
            130 => EmotionType::Regret,
            131 => EmotionType::Remorse,
            132 => EmotionType::Repentance,
            133 => EmotionType::Resentment,
            134 => EmotionType::Unknown134,
            135 => EmotionType::RighteousIndignation,
            136 => EmotionType::Sadness,
            137 => EmotionType::Satisfaction,
            138 => EmotionType::Unknown138,
            139 => EmotionType::SelfPity,
            140 => EmotionType::Unknown140,
            141 => EmotionType::Servile,
            142 => EmotionType::Shaken,
            143 => EmotionType::Shame,
            144 => EmotionType::Shock,
            145 => EmotionType::Unknown145,
            146 => EmotionType::Unknown146,
            147 => EmotionType::Unknown147,
            148 => EmotionType::Unknown148,
            149 => EmotionType::Suspicion,
            150 => EmotionType::Sympathy,
            151 => EmotionType::Tenderness,
            152 => EmotionType::Unknown152,
            153 => EmotionType::Terror,
            154 => EmotionType::Thrill,
            155 => EmotionType::Unknown155,
            156 => EmotionType::Triumph,
            157 => EmotionType::Uneasiness,
            158 => EmotionType::Unhappiness,
            159 => EmotionType::Vengefulness,
            160 => EmotionType::Unknown160,
            161 => EmotionType::Wonder,
            162 => EmotionType::Worry,
            163 => EmotionType::Wrath,
            164 => EmotionType::Zeal,
            165 => EmotionType::Unknown165,
            166 => EmotionType::Unknown166,
            167 => EmotionType::Unknown167,
            168 => EmotionType::Restless,
            169 => EmotionType::Admiration,
            _ => EmotionType::NoEmotion,
        }
    }

    pub fn to_i32(self) -> (r: i32)
        ensures
            r == self.code(),
    {
        match self {
            EmotionType::NoEmotion => -1,
            EmotionType::Acceptance => 0,
            EmotionType::Adoration => 1,
            EmotionType::Affection => 2,
            EmotionType::Agitation => 3,
            EmotionType::Aggravation => 4,
            EmotionType::Agony => 5,
            EmotionType::Alarm => 6,
            EmotionType::Alienation => 7,
            EmotionType::Amazement => 8,
            EmotionType::Ambivalence => 9,
            EmotionType::Amusement => 10,
            EmotionType::Anger => 11,
            EmotionType::ExistentialCrisis => 12,
            EmotionType::Anguish => 13,
            EmotionType::Annoyance => 14,
            EmotionType::Unknown15 => 15,
            EmotionType::Anxiety => 16,
            EmotionType::Apathy => 17,
            EmotionType::Unknown18 => 18,
            EmotionType::Arousal => 19,
            EmotionType::Astonishment => 20,
            EmotionType::Unknown21 => 21,
            EmotionType::Aversion => 22,
            EmotionType::Awe => 23,
            EmotionType::Bitterness => 24,
            EmotionType::Bliss => 25,
            EmotionType::Boredom => 26,
            EmotionType::Caring => 27,
            EmotionType::Unknown28 => 28,
            EmotionType::Confusion => 29,
            EmotionType::Contempt => 30,
            EmotionType::Contentment => 31,
            EmotionType::Unknown32 => 32,
            EmotionType::Unknown33 => 33,
            EmotionType::Defeated => 34,
            EmotionType::Dejection => 35,
            EmotionType::Delight => 36,
            EmotionType::Unknown37 => 37,
            EmotionType::Unknown38 => 38,
            EmotionType::Despair => 39,
            EmotionType::Disappointment => 40,
            EmotionType::Disgust => 41,
            EmotionType::Disillusioned => 42,
            EmotionType::Dislike => 43,
            EmotionType::Dismay => 44,
            EmotionType::Displeasure => 45,
            EmotionType::Distress => 46,
            EmotionType::Doubt => 47,
            EmotionType::Unknown48 => 48,
            EmotionType::Eagerness => 49,
            EmotionType::Unknown50 => 50,
            EmotionType::Elation => 51,
            EmotionType::Embarrassment => 52,
            EmotionType::Empathy => 53,
            EmotionType::Emptiness => 54,
            EmotionType::Enjoyment => 55,
            EmotionType::Unknown56 => 56,
            EmotionType::Enthusiastic => 57,
            EmotionType::Unknown58 => 58,
            EmotionType::Euphoric => 59,
            EmotionType::Exasperation => 60,
            EmotionType::Excited => 61,
            EmotionType::Exhilaration => 62,
            EmotionType::Expectant => 63,
            EmotionType::Fear => 64,
            EmotionType::Ferocity => 65,
            EmotionType::Fondness => 66,
            EmotionType::Free => 67,
            EmotionType::Fright => 68,
            EmotionType::Frustration => 69,
            EmotionType::Unknown70 => 70,
            EmotionType::Unknown71 => 71,
            EmotionType::Unknown72 => 72,
            EmotionType::Glee => 73,
            EmotionType::Gloom => 74,
            EmotionType::Glumness => 75,
            EmotionType::Gratitude => 76,
            EmotionType::Unknown77 => 77,
            EmotionType::Grief => 78,
            EmotionType::GrimSatisfaction => 79,
            EmotionType::Grouchiness => 80,
            EmotionType::Grumpiness => 81,
            EmotionType::Guilt => 82,
            EmotionType::Happiness => 83,
            EmotionType::Hatred => 84,
            EmotionType::Unknown85 => 85,
            EmotionType::Hope => 86,
            EmotionType::Hopelessness => 87,
            EmotionType::Horror => 88,
            EmotionType::Unknown89 => 89,
            EmotionType::Humiliation => 90,
            EmotionType::Unknown91 => 91,
            EmotionType::Unknown92 => 92,
            EmotionType::Unknown93 => 93,
            EmotionType::Unknown94 => 94,
            EmotionType::Insult => 95,
            EmotionType::Interest => 96,
            EmotionType::Irritation => 97,
            EmotionType::Isolation => 98,
            EmotionType::Unknown99 => 99,
            EmotionType::Jolliness => 100,
            EmotionType::Jovialty => 101,
            EmotionType::Joy => 102,
            EmotionType::Jubilation => 103,
            EmotionType::Unknown104 => 104,
            EmotionType::Loathing => 105,
            EmotionType::Loneliness => 106,
            EmotionType::Unknown107 => 107,
            EmotionType::Love => 108,
            EmotionType::Unknown109 => 109,
            EmotionType::Lust => 110,
            EmotionType::Unknown111 => 111,
            EmotionType::Misery => 112,
            EmotionType::Mortification => 113,
            EmotionType::Unknown114 => 114,
            EmotionType::Nervousness => 115,
            EmotionType::Nostalgia => 116,
            EmotionType::Optimism => 117,
            EmotionType::Outrage => 118,
            EmotionType::Panic => 119,
            EmotionType::Patience => 120,
            EmotionType::Passion => 121,
            EmotionType::Pessimistic => 122,
            EmotionType::Unknown123 => 123,
            EmotionType::Pleasure => 124,
            EmotionType::Pride => 125,
            EmotionType::Rage => 126,
            EmotionType::Rapture => 127,
            EmotionType::Rejection => 128,
            EmotionType::Relief => 129,
            EmotionType::Regret => 130,
            EmotionType::Remorse => 131,
            EmotionType::Repentance => 132,
            EmotionType::Resentment => 133,
            EmotionType::Unknown134 => 134,
            EmotionType::RighteousIndignation => 135,
            EmotionType::Sadness => 136,
            EmotionType::Satisfaction => 137,
            EmotionType::Unknown138 => 138,
            EmotionType::SelfPity => 139,
            EmotionType::Unknown140 => 140,
            EmotionType::Servile => 141,
            EmotionType::Shaken => 142,
            EmotionType::Shame => 143,
            EmotionType::Shock => 144,
            EmotionType::Unknown145 => 145,
            EmotionType::Unknown146 => 146,
            EmotionType::Unknown147 => 147,
            EmotionType::Unknown148 => 148,
            EmotionType::Suspicion => 149,
            EmotionType::Sympathy => 150,
            EmotionType::Tenderness => 151,
            EmotionType::Unknown152 => 152,
            EmotionType::Terror => 153,
            EmotionType::Thrill => 154,
            EmotionType::Unknown155 => 155,
            EmotionType::Triumph => 156,
            EmotionType::Uneasiness => 157,
            EmotionType::Unhappiness => 158,
            EmotionType::Vengefulness => 159,
            EmotionType::Unknown160 => 160,
            EmotionType::Wonder => 161,
            EmotionType::Worry => 162,
            EmotionType::Wrath => 163,
            EmotionType::Zeal => 164,
            EmotionType::Unknown165 => 165,
            EmotionType::Unknown166 => 166,
            EmotionType::Unknown167 => 167,
            EmotionType::Restless => 168,
            EmotionType::Admiration => 169,
        }
    }
}

/// What `str::replace` makes of `s` when every `from` in it becomes `to`.
pub uninterp spec fn replaced_of(s: Seq<char>, from: Seq<char>, to: Seq<char>) -> Seq<char>;

/// Relies on `str::replace`.
#[verifier::external_body]
fn replace_text(s: &str, from: &str, to: &str) -> (r: String)
    ensures
        r@ == replaced_of(s@, from@, to@),
{
    s.replace(from, to)
}

/// The stress-vulnerability multiplier in quarters, for a facet value.
pub open spec fn multiplier_quarters(vuln: int) -> int {
    if vuln >= 91 {
        20
    } else if vuln >= 76 {
        12
    } else if vuln >= 61 {
        8
    } else if vuln <= 9 {
        0
    } else if vuln <= 24 {
        1
    } else if vuln <= 39 {
        2
    } else {
        0
    }
}

/// Whether the divider of an emotion is kept for a facet value; in the
/// middle band and at the very bottom it is forced to 0.
pub open spec fn keeps_divider(vuln: int) -> bool {
    vuln >= 61 || (vuln > 9 && vuln <= 39)
}

/// `a / b` rounded toward zero.
pub open spec fn trunc_div(a: int, b: int) -> int {
    let q = (if a >= 0 { a } else { -a }) / (if b >= 0 { b } else { -b });
    if (a >= 0) == (b >= 0) { q } else { -q }
}

/// The stress effect of a thought, in quarters: the strength divided by
/// the divider (1 without a divider), times the multiplier.
pub open spec fn effect_quarters_spec(strength: int, divider: int, vuln: int) -> int {
    let base = if divider != 0 { trunc_div(strength, divider) } else { 1 };
    base * multiplier_quarters(vuln)
}

/// The text of the first subthought with id `id` among `subs[i..]`, or
/// empty.
pub open spec fn sub_text(subs: Seq<Subthought>, i: int, id: i32) -> Seq<char>
    decreases subs.len() - i,
{
    if i < 0 || i >= subs.len() {
        Seq::empty()
    } else if subs[i].id == id {
        subs[i].thought@
    } else {
        sub_text(subs, i + 1, id)
    }
}

fn find_subthought(subs: &Vec<Subthought>, id: i32) -> (r: String)
    ensures
        r@ == sub_text(subs@, 0, id),
{
    let mut i: usize = 0;
    while i < subs.len()
        invariant
            i <= subs@.len(),
            sub_text(subs@, 0, id) == sub_text(subs@, i as int, id),
        decreases subs@.len() - i,
    {
        if subs[i].id == id {
            return subs[i].thought.clone();
        }
        i = i + 1;
    }
    String::new()
}

/// A thought's text completed with its subthought.
pub open spec fn with_subthought(text: Seq<char>, placeholder: Seq<char>, sub: Seq<char>) -> Seq<char> {
    if placeholder.len() == 0 { text + sub } else { replaced_of(text, placeholder, sub) }
}

pub struct Thought {
    pub id: i32,
    pub emotion_type: EmotionType,
    pub thought: String,
    pub subthought_id: i32,
    pub placeholder: String,
    pub strength: i32,
    pub divider: i32,
    /// The multiplier, in quarters.
    pub multiplier_quarters: i64,
    /// The stress effect, in quarters.
    pub effect_quarters: i64,
    pub optional_levels: i32,
    pub time: DfTime,
}

/// A tick count from a raw field, a negative one read as zero.
pub open spec fn ticks_of(v: int) -> int {
    if v < 0 { 0 } else { v }
}

impl Thought {
    /// The divider and the effect in quarters, for an emotion of divider
    /// `divider` felt with strength `strength` by a creature whose stress
    /// vulnerability is `vuln`.
    pub fn effect(strength: i32, divider: i32, vuln: i16) -> (r: (i32, i64, i64))
        ensures
            r.0 == if keeps_divider(vuln as int) { divider } else { 0 },
            r.1 as int == multiplier_quarters(vuln as int),
            r.2 as int == effect_quarters_spec(strength as int, r.0 as int, vuln as int),
    {
        let (m, keep): (i64, bool) = if vuln >= 91 {
            (20, true)
        } else if vuln >= 76 {
            (12, true)
        } else if vuln >= 61 {
            (8, true)
        } else if vuln <= 9 {
            (0, false)
        } else if vuln <= 24 {
            (1, true)
        } else if vuln <= 39 {
            (2, true)
        } else {
            (0, false)
        };
        let d: i32 = if keep { divider } else { 0 };
        let base: i64 = if d != 0 {
            let a = strength as i64;
            let b = d as i64;
            let aa = if a >= 0 { a } else { -a };
            let bb = if b >= 0 { b } else { -b };
            let q = aa / bb;
            assert(0 <= q <= aa) by (nonlinear_arith)
                requires
                    q == aa / bb,
                    aa >= 0,
                    bb >= 1,
            ;
            if (a >= 0) == (b >= 0) { q } else { -q }
        } else {
            1
        };
        (d, m, base * m)
    }

    /// Decodes the thought record at `addr`, resolving its text through the
    /// catalog; `vuln` is the creature's stress vulnerability, if known.
    /// A thought unknown to the catalog keeps empty text and no effect.
    pub fn new(mem: &ProcessMemory, layout: &MemoryOffsets, data: &GameData, vuln: Option<i16>, addr: u64) -> (r: Thought)
        ensures
            r.id as int == mem.i32_at(addr + layout.off(OffsetSection::Emotion, "thought_id"@)),
            0 <= mem.i32_at(addr + layout.off(OffsetSection::Emotion, "emotion_type"@)) < 170 ==> r.emotion_type.code() == mem.i32_at(addr + layout.off(OffsetSection::Emotion, "emotion_type"@)),
            !(0 <= mem.i32_at(addr + layout.off(OffsetSection::Emotion, "emotion_type"@)) < 170) ==> r.emotion_type == EmotionType::NoEmotion,
            r.strength as int == mem.i32_at(addr + layout.off(OffsetSection::Emotion, "strength"@)),
            r.subthought_id as int == mem.i32_at(addr + layout.off(OffsetSection::Emotion, "sub_id"@)),
            r.optional_levels as int == mem.i32_at(addr + layout.off(OffsetSection::Emotion, "level"@)),
            r.time.ticks as int == (if ticks_of(mem.i32_at(addr + layout.off(OffsetSection::Emotion, "year"@))) * 403200 + ticks_of(mem.i32_at(addr + layout.off(OffsetSection::Emotion, "year_tick"@))) <= u64::MAX {
                ticks_of(mem.i32_at(addr + layout.off(OffsetSection::Emotion, "year"@))) * 403200 + ticks_of(mem.i32_at(addr + layout.off(OffsetSection::Emotion, "year_tick"@)))
            } else {
                0
            }),
            (vuln is Some && 0 <= r.emotion_type.code() < data.unit_emotions@.len() && 1 <= r.id <= data.unit_thoughts@.len()) ==> {
                &&& r.divider == if keeps_divider(vuln.unwrap() as int) { data.unit_emotions@[r.emotion_type.code()].divider } else { 0 }
                &&& r.effect_quarters as int == effect_quarters_spec(r.strength as int, r.divider as int, vuln.unwrap() as int)
            },
            !(1 <= r.id <= data.unit_thoughts@.len()) ==> r.thought@.len() == 0 && r.effect_quarters == 0,
    {
        let id = mem.read_i32(addr, layout.field_offset(OffsetSection::Emotion, "thought_id"));
        let emotion_type = EmotionType::from_i32(mem.read_i32(addr, layout.field_offset(OffsetSection::Emotion, "emotion_type")));
        let strength = mem.read_i32(addr, layout.field_offset(OffsetSection::Emotion, "strength"));
        let subthought_id = mem.read_i32(addr, layout.field_offset(OffsetSection::Emotion, "sub_id"));
        let optional_levels = mem.read_i32(addr, layout.field_offset(OffsetSection::Emotion, "level"));
        let year = mem.read_i32(addr, layout.field_offset(OffsetSection::Emotion, "year"));
        let tick = mem.read_i32(addr, layout.field_offset(OffsetSection::Emotion, "year_tick"));
        let y: u64 = if year < 0 { 0 } else { year as u64 };
        let t: u64 = if tick < 0 { 0 } else { tick as u64 };
        let ticks = if y <= (u64::MAX - t) / 403200 {
            assert(y * 403200 + t <= u64::MAX) by (nonlinear_arith)
                requires
                    y <= (u64::MAX - t) / 403200,
                    t <= u64::MAX,
            ;
            y * 403200 + t
        } else {
            assert(y * 403200 + t > u64::MAX) by (nonlinear_arith)
                requires
                    y > (u64::MAX - t) / 403200,
                    t <= u64::MAX,
            ;
            0
        };
        let mut th = Thought {
            id,
            emotion_type,
            thought: String::new(),
            subthought_id,
            placeholder: String::new(),
            strength,
            divider: 0,
            multiplier_quarters: 0,
            effect_quarters: 0,
            optional_levels,
            time: DfTime { ticks },
        };
        if id < 1 || id as usize > data.unit_thoughts.len() {
            return th;
        }
        let row = &data.unit_thoughts[(id - 1) as usize];
        th.thought = row.thought.clone();
        th.check_subthought(data, row.subthoughts_type);
        let code = emotion_type.to_i32();
        if let Some(v) = vuln {
            if code >= 0 && (code as usize) < data.unit_emotions.len() {
                let (d, m, e) = Self::effect(strength, data.unit_emotions[code as usize].divider, v);
                th.divider = d;
                th.multiplier_quarters = m;
                th.effect_quarters = e;
            }
        }
        th
    }

    /// Completes the thought's text with its subthought: appended where the
    /// subthought table has no placeholder, else put in the placeholder's
    /// place. Tables numbered below 2 carry no subthoughts.
    fn check_subthought(&mut self, data: &GameData, kind: i32)
        ensures
            final(self).id == old(self).id,
            final(self).emotion_type == old(self).emotion_type,
            final(self).strength == old(self).strength,
            final(self).subthought_id == old(self).subthought_id,
            final(self).optional_levels == old(self).optional_levels,
            final(self).time == old(self).time,
            final(self).divider == old(self).divider,
            final(self).effect_quarters == old(self).effect_quarters,
            final(self).multiplier_quarters == old(self).multiplier_quarters,
            (kind < 2 || kind >= data.unit_subthoughts@.len()) ==> final(self).thought == old(self).thought,
            !(kind < 2 || kind >= data.unit_subthoughts@.len()) ==> final(self).thought@ == with_subthought(
                old(self).thought@,
                data.unit_subthoughts@[kind as int].placeholder@,
                sub_text(data.unit_subthoughts@[kind as int].subthoughts@, 0, old(self).subthought_id),
            ),
    {
        if kind < 2 || kind as usize >= data.unit_subthoughts.len() {
            return;
        }
        let table = &data.unit_subthoughts[kind as usize];
        self.placeholder = table.placeholder.clone();
        let sub = find_subthought(&table.subthoughts, self.subthought_id);
        if self.placeholder.as_str().unicode_len() == 0 {
            self.thought.append(sub.as_str());
        } else {
            self.thought = replace_text(self.thought.as_str(), self.placeholder.as_str(), sub.as_str());
        }
    }
}

} // verus!
