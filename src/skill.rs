//! Skills: level, experience, progress to the next level and rust.

use vstd::prelude::*;
use crate::gamedata::GameData;
use crate::memory::ProcessMemory;

verus! {

/// Levels above this are shown as this level.
pub const MAX_SKILL_LEVEL: i32 = 20;

/// Experience recorded for a skill above the highest shown level.
pub const CAPPED_EXPERIENCE: i64 = 29000;

/// Experience needed to reach `level` from nothing.
pub open spec fn xp_for(level: int) -> int {
    if level < 0 {
        0
    } else {
        50 * level * (level + 9)
    }
}

/// Experience between `level` and the next level.
pub open spec fn level_span(level: int) -> int {
    xp_for(level + 1) - xp_for(level)
}

/// Experience toward the next level, counted at most up to the full span.
pub open spec fn progress_num(level: int, raw_xp: int) -> int {
    if raw_xp > level_span(level) {
        level_span(level)
    } else {
        raw_xp
    }
}

/// Whether the experience counter has run past the next level.
pub open spec fn losing_spec(level: int, raw_xp: int) -> bool {
    level_span(level) > 0 && raw_xp > level_span(level)
}

/// The rust tier: 0 none, 1 rusty, 2 very rusty, 3 losing experience.
/// The level plus its progress fraction is compared with the rust counter.
pub open spec fn rust_tier(level: int, raw_xp: int, rust: int) -> int {
    let d = level_span(level);
    let q = progress_num(level, raw_xp);
    let very = if d > 0 {
        level * d + q >= 4 * d && 3 * (level * d + q) <= 4 * rust * d
    } else {
        level >= 4 && 3 * level <= 4 * rust
    };
    if very {
        2
    } else if level > 0 && level <= 2 * rust {
        1
    } else if losing_spec(level, raw_xp) {
        3
    } else {
        0
    }
}

/// Progress toward the next level in whole percent; 0 where there is no
/// next level or the counter is negative.
pub open spec fn progress_percent(level: int, raw_xp: int) -> int {
    let d = level_span(level);
    let q = progress_num(level, raw_xp);
    if d > 0 && q >= 0 {
        100 * q / d
    } else {
        0
    }
}

/// The level that `xp` experience reaches: the largest level whose
/// threshold it meets.
pub open spec fn is_level_of(level: int, xp: int) -> bool {
    level >= 0 && xp_for(level) <= xp && xp < xp_for(level + 1)
}

/// A skill of a creature, with the values derived from its raw counters.
#[derive(Debug)]
pub struct Skill {
    pub id: i32,
    pub name: String,
    pub raw_level: i32,
    pub raw_experience: i32,
    pub rust: i32,
    pub level: i32,
    pub level_capped: bool,
    pub experience: i64,
    pub experience_progress: i64,
    pub losing_exp: bool,
    pub rust_level: i32,
}

impl Skill {
    /// Experience needed to reach `level` from nothing: `50·level·(level+9)`,
    /// or 0 for a negative level.
    pub fn xp_for_level(level: i32) -> (r: i64)
        requires
            level <= 400_000_000,
        ensures
            r as int == xp_for(level as int),
    {
        if level < 0 {
            0
        } else {
            let l = level as i64;
            assert(0 <= 50 * l * (l + 9) <= 50 * 400_000_000 * 400_000_009) by (nonlinear_arith)
                requires
                    0 <= l <= 400_000_000,
            ;
            50 * l * (l + 9)
        }
    }

    /// The level that `xp` experience reaches; 0 for no experience.
    pub fn get_level_from_xp(xp: i32) -> (r: i32)
        ensures
            xp >= 0 ==> is_level_of(r as int, xp as int),
            xp < 0 ==> r == 0,
    {
        if xp < 0 {
            return 0;
        }
        let mut level: i32 = 0;
        while Self::xp_for_level(level + 1) <= xp as i64
            invariant
                0 <= level <= 10000,
                xp_for(level as int) <= xp,
                xp >= 0,
            decreases 10000 - level,
        {
            assert(level + 1 < 10000) by (nonlinear_arith)
                requires
                    50 * (level + 1) * (level + 10) <= xp,
                    xp < 0x8000_0000,
                    level >= 0,
            ;
            level = level + 1;
        }
        level
    }

    /// The derived values of a skill whose raw level, experience and rust
    /// counter are given. Above the highest shown level the level is that
    /// level and the experience is the cap.
    pub fn from_raw(id: i32, name: String, raw_level: i16, raw_experience: i32, rust: i32) -> (r: Skill)
        ensures
            r.id == id,
            r.name == name,
            r.raw_level == raw_level,
            r.rust == rust,
            r.raw_experience == (if raw_level == 0 && rust > 0 && raw_experience == 0 { 1 } else { raw_experience }),
            raw_level > MAX_SKILL_LEVEL ==> r.level == MAX_SKILL_LEVEL && r.level_capped && r.experience == CAPPED_EXPERIENCE,
            raw_level <= MAX_SKILL_LEVEL ==> r.level == raw_level && !r.level_capped && r.experience
                == r.raw_experience + xp_for(raw_level as int),
            r.losing_exp == losing_spec(raw_level as int, r.raw_experience as int),
            r.rust_level == rust_tier(raw_level as int, r.raw_experience as int, rust as int),
            r.experience_progress == progress_percent(raw_level as int, r.raw_experience as int),
            0 <= r.experience_progress <= 100,
            r.losing_exp ==> r.experience_progress == 100,
            0 <= r.rust_level <= 3,
            rust <= 0 && !r.losing_exp ==> r.rust_level == 0,
            raw_level == 0 && raw_experience == 0 && rust == 0 ==> r.rust_level == 0 && !r.losing_exp,
    {
        let raw_level = raw_level as i32;
        let raw_xp: i32 = if raw_level == 0 && rust > 0 && raw_experience == 0 {
            1
        } else {
            raw_experience
        };
        let base = Self::xp_for_level(raw_level);
        assert(0 <= base <= 50 * 0x8000 * 0x8009) by (nonlinear_arith)
            requires
                base == xp_for(raw_level as int),
                raw_level < 0x8000,
        ;
        let (level, capped, experience) = if raw_level > MAX_SKILL_LEVEL {
            (MAX_SKILL_LEVEL, true, CAPPED_EXPERIENCE)
        } else {
            (raw_level, false, raw_xp as i64 + base)
        };
        let next = Self::xp_for_level(raw_level + 1);
        assert(next - base == if raw_level >= 0 { 100 * raw_level + 500 } else if raw_level == -1 { 0 } else { 0 }) by (nonlinear_arith)
            requires
                next == xp_for(raw_level + 1),
                base == xp_for(raw_level as int),
        ;
        let d: i64 = next - base;
        let x = raw_xp as i64;
        let l = raw_level as i64;
        let q: i64 = if x > d { d } else { x };
        let losing = d > 0 && x > d;
        let very = if d > 0 {
            assert(-0x100_0000_0000 <= l * d <= 0x100_0000_0000) by (nonlinear_arith)
                requires
                    -0x8000 <= l < 0x8000,
                    0 < d <= 100 * 0x8000 + 500,
            ;
            assert(-0x100_0000_0000_0000 <= 4 * (rust as i64) * d <= 0x100_0000_0000_0000) by (nonlinear_arith)
                requires
                    -0x8000_0000 <= rust < 0x8000_0000,
                    0 < d <= 100 * 0x8000 + 500,
            ;
            l * d + q >= 4 * d && 3 * (l * d + q) <= 4 * (rust as i64) * d
        } else {
            l >= 4 && 3 * l <= 4 * (rust as i64)
        };
        let tier: i32 = if very {
            2
        } else if l > 0 && l <= 2 * (rust as i64) {
            1
        } else if losing {
            3
        } else {
            0
        };
        let percent: i64 = if d > 0 && q >= 0 {
            assert(0 <= (100 * q) as int / d as int <= 100) by (nonlinear_arith)
                requires
                    0 <= q <= d,
                    d > 0,
            ;
            assert(q == d ==> (100 * q) as int / d as int == 100) by (nonlinear_arith)
                requires
                    d > 0,
            ;
            100 * q / d
        } else {
            0
        };
        proof {
            if rust <= 0 && d > 0 && l * d + q >= 4 * d {
                assert(3 * (l * d + q) > 4 * (rust as i64) * d) by (nonlinear_arith)
                    requires
                        rust <= 0,
                        d > 0,
                        l * d + q >= 4 * d,
                ;
            }
        }
        Skill {
            id,
            name,
            raw_level,
            raw_experience: raw_xp,
            rust,
            level,
            level_capped: capped,
            experience,
            experience_progress: percent,
            losing_exp: losing,
            rust_level: tier,
        }
    }

    /// Decodes the skill record at `addr`: id, level, experience and rust
    /// counter. A skill id that the catalog lacks gives `None`.
    pub fn new(mem: &ProcessMemory, data: &GameData, addr: u64) -> (r: Option<Skill>)
        ensures
            (0 <= mem.i16_at(addr as int) < data.skills@.len()) <==> r is Some,
            r matches Some(sk) ==> {
                let raw_level = mem.i16_at(addr + 4);
                let raw_xp = mem.i32_at(addr + 8);
                let rust = mem.i32_at(addr + 16);
                let xp = if raw_level == 0 && rust > 0 && raw_xp == 0 { 1 } else { raw_xp };
                &&& sk.id as int == mem.i16_at(addr as int)
                &&& sk.name@ == data.skills@[sk.id as int].name@
                &&& sk.raw_level as int == raw_level
                &&& sk.rust as int == rust
                &&& sk.raw_experience as int == xp
                &&& (raw_level > MAX_SKILL_LEVEL ==> sk.level == MAX_SKILL_LEVEL && sk.level_capped && sk.experience == CAPPED_EXPERIENCE)
                &&& (raw_level <= MAX_SKILL_LEVEL ==> sk.level as int == raw_level && !sk.level_capped && sk.experience == xp + xp_for(raw_level))
                &&& sk.losing_exp == losing_spec(raw_level, xp)
                &&& sk.experience_progress == progress_percent(raw_level, xp)
                &&& sk.rust_level == rust_tier(raw_level, xp, rust)
                &&& 0 <= sk.experience_progress <= 100
                &&& (sk.losing_exp ==> sk.experience_progress == 100)
                &&& 0 <= sk.rust_level <= 3
                &&& (rust <= 0 && !sk.losing_exp ==> sk.rust_level == 0)
                &&& (raw_level == 0 && raw_xp == 0 && rust == 0 ==> sk.rust_level == 0 && !sk.losing_exp)
            },
    {
        let id = mem.read_i16(addr, 0);
        if id < 0 || id as usize >= data.skills.len() {
            return None;
        }
        let raw_level = mem.read_i16(addr, 4);
        let raw_experience = mem.read_i32(addr, 8);
        let rust = mem.read_i32(addr, 16);
        let name = data.skills[id as usize].name.clone();
        Some(Skill::from_raw(id as i32, name, raw_level, raw_experience, rust))
    }
}

} // verus!
