//! Derived personality values: mood and its lock, sex and orientation,
//! the happiness band of a stress level, facet conflicts and the combat
//! hardened pseudo-facet.

use vstd::prelude::*;

verus! {

#[derive(PartialEq, Eq, Structural, Clone, Copy, Debug)]
pub enum Mood {
    /// No strange mood.
    Calm,
    Fey,
    Secret,
    Possessed,
    Macabre,
    Fell,
    Melancholy,
    Insane,
    Berserk,
    Baby,
    Trauma,
    Martial,
    Enraged,
    Tantrum,
    Depressed,
    Oblivious,
}

/// The mood that a raw mood id denotes.
pub open spec fn mood_of(v: int) -> Mood {
    if v == 0 {
        Mood::Fey
    } else if v == 1 {
        Mood::Secret
    } else if v == 2 {
        Mood::Possessed
    } else if v == 3 {
        Mood::Macabre
    } else if v == 4 {
        Mood::Fell
    } else if v == 5 {
        Mood::Melancholy
    } else if v == 6 {
        Mood::Insane
    } else if v == 7 {
        Mood::Berserk
    } else if v == 8 {
        Mood::Baby
    } else if v == 9 {
        Mood::Trauma
    } else if v == 10 {
        Mood::Martial
    } else if v == 11 {
        Mood::Enraged
    } else if v == 12 {
        Mood::Tantrum
    } else if v == 13 {
        Mood::Depressed
    } else if v == 14 {
        Mood::Oblivious
    } else {
        Mood::Calm
    }
}

/// The mood after the fallback to a temporary mood and with babies ignored.
pub open spec fn resolved_mood(mood_id: int, temp_mood: int) -> Mood {
    let m = if mood_of(mood_id) == Mood::Calm && temp_mood != -1 {
        mood_of(10 + temp_mood)
    } else {
        mood_of(mood_id)
    };
    if m == Mood::Baby {
        Mood::Calm
    } else {
        m
    }
}

/// Whether a creature in mood `m`, whose raw mood id is `mood_id`, is locked.
pub open spec fn mood_locked(m: Mood, mood_id: int) -> bool {
    m == Mood::Berserk || m == Mood::Insane || m == Mood::Melancholy || m == Mood::Trauma || (0
        <= mood_id && mood_id <= 4)
}

impl Mood {
    pub fn from_i32(v: i32) -> (r: Mood)
        ensures
            r == mood_of(v as int),
    {
        match v {
            0 => Mood::Fey,
            1 => Mood::Secret,
            2 => Mood::Possessed,
            3 => Mood::Macabre,
            4 => Mood::Fell,
            5 => Mood::Melancholy,
            6 => Mood::Insane,
            7 => Mood::Berserk,
            8 => Mood::Baby,
            9 => Mood::Trauma,
            10 => Mood::Martial,
            11 => Mood::Enraged,
            12 => Mood::Tantrum,
            13 => Mood::Depressed,
            14 => Mood::Oblivious,
            _ => Mood::Calm,
        }
    }

    /// The mood of a creature and whether it is locked: with no primary mood
    /// the temporary mood counts from ten on, a baby mood counts as none, and
    /// the lock follows the resolved mood or a primary id from 0 to 4.
    pub fn resolve(mood_id: i16, temp_mood: i16) -> (r: (Mood, bool))
        ensures
            r.0 == resolved_mood(mood_id as int, temp_mood as int),
            r.1 == mood_locked(r.0, mood_id as int),
    {
        let mut m = Mood::from_i32(mood_id as i32);
        if m == Mood::Calm && temp_mood != -1 {
            m = Mood::from_i32(10 + temp_mood as i32);
        }
        if m == Mood::Baby {
            m = Mood::Calm;
        }
        let locked = m == Mood::Berserk || m == Mood::Insane || m == Mood::Melancholy || m
            == Mood::Trauma || (0 <= mood_id && mood_id <= 4);
        (m, locked)
    }
}

#[derive(PartialEq, Eq, Structural, Clone, Copy, Debug)]
pub enum Sex {
    Female,
    Male,
    Unknown,
}

impl Sex {
    pub fn from_u8(v: u8) -> (r: Sex)
        ensures
            v == 0 ==> r == Sex::Female,
            v == 1 ==> r == Sex::Male,
            v > 1 ==> r == Sex::Unknown,
    {
        match v {
            0 => Sex::Female,
            1 => Sex::Male,
            _ => Sex::Unknown,
        }
    }
}

#[derive(PartialEq, Eq, Structural, Clone, Copy, Debug)]
pub enum Commitment {
    Uninterested,
    Lover,
    Marriage,
}

impl Commitment {
    pub fn from_u8(v: u8) -> (r: Commitment)
        ensures
            v == 1 ==> r == Commitment::Lover,
            v == 2 ==> r == Commitment::Marriage,
            v != 1 && v != 2 ==> r == Commitment::Uninterested,
    {
        match v {
            1 => Commitment::Lover,
            2 => Commitment::Marriage,
            _ => Commitment::Uninterested,
        }
    }
}

#[derive(PartialEq, Eq, Structural, Clone, Copy, Debug)]
pub enum Orientation {
    Heterosexual,
    Bisexual,
    Homosexual,
    Asexual,
}

/// Orientation from sex and interest in each sex; a creature of unknown
/// sex, or with no interest, is asexual.
pub open spec fn orientation_of(sex: Sex, male: Commitment, female: Commitment) -> Orientation {
    let m = male != Commitment::Uninterested;
    let f = female != Commitment::Uninterested;
    if sex == Sex::Unknown || (!m && !f) {
        Orientation::Asexual
    } else if m && f {
        Orientation::Bisexual
    } else if sex == Sex::Male {
        if m {
            Orientation::Homosexual
        } else {
            Orientation::Heterosexual
        }
    } else if sex == Sex::Female {
        if f {
            Orientation::Homosexual
        } else {
            Orientation::Heterosexual
        }
    } else {
        Orientation::Asexual
    }
}

/// The interest in males, bits 1 and 2 of the packed orientation byte.
pub open spec fn male_bits(b: u8) -> int {
    (b as int / 2) % 4
}

/// The interest in females, bits 3 and 4 of the packed orientation byte.
pub open spec fn female_bits(b: u8) -> int {
    (b as int / 8) % 4
}

impl Orientation {
    pub fn from_interests(sex: Sex, male: Commitment, female: Commitment) -> (r: Orientation)
        ensures
            r == orientation_of(sex, male, female),
    {
        let m = male != Commitment::Uninterested;
        let f = female != Commitment::Uninterested;
        if sex == Sex::Unknown || (!m && !f) {
            Orientation::Asexual
        } else if m && f {
            Orientation::Bisexual
        } else {
            match sex {
                Sex::Male => if m {
                    Orientation::Homosexual
                } else {
                    Orientation::Heterosexual
                },
                Sex::Female => if f {
                    Orientation::Homosexual
                } else {
                    Orientation::Heterosexual
                },
                Sex::Unknown => Orientation::Asexual,
            }
        }
    }

    /// Interests and orientation from the packed orientation byte.
    pub fn from_packed(sex: Sex, packed: u8) -> (r: (Commitment, Commitment, Orientation))
        ensures
            r.0 == Commitment::from_u8_spec(male_bits(packed)),
            r.1 == Commitment::from_u8_spec(female_bits(packed)),
            r.2 == orientation_of(sex, r.0, r.1),
    {
        let male = Commitment::from_u8((packed / 2) % 4);
        let female = Commitment::from_u8((packed / 8) % 4);
        (male, female, Orientation::from_interests(sex, male, female))
    }
}

impl Commitment {
    pub open spec fn from_u8_spec(v: int) -> Commitment {
        if v == 1 {
            Commitment::Lover
        } else if v == 2 {
            Commitment::Marriage
        } else {
            Commitment::Uninterested
        }
    }
}

pub open spec fn abs_diff(a: int, b: int) -> int {
    if a >= b {
        a - b
    } else {
        b - a
    }
}

/// `k` is the happiness band of `stress`: no band is nearer, and every
/// earlier band is strictly farther.
pub open spec fn is_nearest_band(thresholds: Seq<i32>, stress: int, k: int) -> bool {
    &&& 0 <= k < thresholds.len()
    &&& forall|j: int|
        0 <= j < thresholds.len() ==> abs_diff(stress, thresholds[k] as int) <= abs_diff(
            stress,
            #[trigger] thresholds[j] as int,
        )
    &&& forall|j: int|
        0 <= j < k ==> abs_diff(stress, thresholds[k] as int) < abs_diff(
            stress,
            #[trigger] thresholds[j] as int,
        )
}

/// Index of the band whose threshold is nearest to `stress`, the earliest
/// on a tie; `None` when there are no bands.
pub fn nearest_band(thresholds: &Vec<i32>, stress: i32) -> (r: Option<usize>)
    ensures
        thresholds@.len() == 0 <==> r is None,
        r matches Some(k) ==> is_nearest_band(thresholds@, stress as int, k as int),
{
    if thresholds.len() == 0 {
        return None;
    }
    let s = stress as i64;
    let mut best: usize = 0;
    let mut best_d: i64 = if s >= thresholds[0] as i64 {
        s - thresholds[0] as i64
    } else {
        thresholds[0] as i64 - s
    };
    let mut i: usize = 1;
    while i < thresholds.len()
        invariant
            1 <= i <= thresholds@.len(),
            best < i,
            s == stress,
            best_d == abs_diff(stress as int, thresholds@[best as int] as int),
            forall|j: int| 0 <= j < i ==> best_d <= abs_diff(stress as int, #[trigger] thresholds@[j] as int),
            forall|j: int| 0 <= j < best ==> best_d < abs_diff(stress as int, #[trigger] thresholds@[j] as int),
        decreases thresholds@.len() - i,
    {
        let t = thresholds[i] as i64;
        let d = if s >= t {
            s - t
        } else {
            t - s
        };
        if d < best_d {
            best = i;
            best_d = d;
        }
        i = i + 1;
    }
    Some(best)
}

/// Among bands declared in order, a stress level between two adjacent
/// thresholds takes the nearer one, and the earlier one when both are
/// equally near.
pub proof fn lemma_band_between_neighbours(thresholds: Seq<i32>, stress: int, k: int, b: int)
    requires
        0 <= b < thresholds.len() - 1,
        is_nearest_band(thresholds, stress, k),
        k == b || k == b + 1,
    ensures
        abs_diff(stress, thresholds[b] as int) < abs_diff(stress, thresholds[b + 1] as int) ==> k
            == b,
        abs_diff(stress, thresholds[b + 1] as int) < abs_diff(stress, thresholds[b] as int) ==> k
            == b + 1,
        abs_diff(stress, thresholds[b] as int) == abs_diff(stress, thresholds[b + 1] as int) ==> k
            == b,
{
    assert(abs_diff(stress, thresholds[k] as int) <= abs_diff(stress, thresholds[b] as int));
    assert(abs_diff(stress, thresholds[k] as int) <= abs_diff(stress, thresholds[b + 1] as int));
    if k == b + 1 {
        assert(abs_diff(stress, thresholds[k] as int) < abs_diff(stress, thresholds[b] as int));
    }
}

/// A facet value conflicts with a held belief when the belief is firmly
/// held (above 10) and the facet low (below 40), or firmly rejected (below
/// -10) and the facet high (above 60).
pub open spec fn conflicts(belief: int, facet: int) -> bool {
    (belief > 10 && facet < 40) || (belief < -10 && facet > 60)
}

pub fn is_conflict(belief: i16, facet: i16) -> (r: bool)
    ensures
        r == conflicts(belief as int, facet as int),
{
    (belief > 10 && facet < 40) || (belief < -10 && facet > 60)
}

/// `raw * (90 - 40) / 100 + 40`, the division rounding toward zero.
pub open spec fn combat_hardened_spec(raw: int) -> int {
    if raw >= 0 {
        raw * 50 / 100 + 40
    } else {
        40 - (-raw) * 50 / 100
    }
}

pub fn combat_hardened(raw: i16) -> (r: i16)
    ensures
        r as int == combat_hardened_spec(raw as int),
{
    let v = raw as i32;
    let r = if v >= 0 {
        v * 50 / 100 + 40
    } else {
        40 - (-v) * 50 / 100
    };
    r as i16
}

} // verus!
