//! Stream quality levels of the server and how it moves between them.

use vstd::prelude::*;

verus! {

/// A streaming quality level, from the best (`Level0`) to the lowest.
#[derive(Debug, Clone, Copy, PartialEq, Eq, Structural)]
pub enum QualityLevel {
    Level0,
    Level1,
    Level2,
    Level3,
    Level4,
}

/// The rank of a level: 0 for the best, 4 for the lowest.
pub open spec fn rank(q: QualityLevel) -> int {
    match q {
        QualityLevel::Level0 => 0,
        QualityLevel::Level1 => 1,
        QualityLevel::Level2 => 2,
        QualityLevel::Level3 => 3,
        QualityLevel::Level4 => 4,
    }
}

/// The level of a rank.
pub open spec fn level_of_rank(r: int) -> QualityLevel {
    if r <= 0 {
        QualityLevel::Level0
    } else if r == 1 {
        QualityLevel::Level1
    } else if r == 2 {
        QualityLevel::Level2
    } else if r == 3 {
        QualityLevel::Level3
    } else {
        QualityLevel::Level4
    }
}

/// Resolution of each level.
pub open spec fn spec_resolution(q: QualityLevel) -> (u16, u16) {
    match q {
        QualityLevel::Level0 => (1920, 1080),
        QualityLevel::Level1 => (1920, 1080),
        QualityLevel::Level2 => (1600, 900),
        QualityLevel::Level3 => (1280, 720),
        QualityLevel::Level4 => (1024, 576),
    }
}

/// Frame rate of each level.
pub open spec fn spec_fps(q: QualityLevel) -> u8 {
    match q {
        QualityLevel::Level0 | QualityLevel::Level1 | QualityLevel::Level2 => 30,
        QualityLevel::Level3 | QualityLevel::Level4 => 24,
    }
}

/// Bitrate of each level in kbit/s.
pub open spec fn spec_bitrate(q: QualityLevel) -> u16 {
    match q {
        QualityLevel::Level0 => 8000,
        QualityLevel::Level1 => 5000,
        QualityLevel::Level2 => 3000,
        QualityLevel::Level3 => 2000,
        QualityLevel::Level4 => 1500,
    }
}

/// The next lower level; the lowest stays.
pub open spec fn spec_decrease(q: QualityLevel) -> QualityLevel {
    level_of_rank(if rank(q) < 4 {
        rank(q) + 1
    } else {
        4
    })
}

/// The next better level; the best stays.
pub open spec fn spec_increase(q: QualityLevel) -> QualityLevel {
    level_of_rank(if rank(q) > 0 {
        rank(q) - 1
    } else {
        0
    })
}

/// The level that a requested bitrate selects: the best level whose bitrate
/// the request reaches, and the lowest level below 2000 kbit/s.
pub open spec fn spec_level_for_bitrate(b: u16) -> QualityLevel {
    if b >= 8000 {
        QualityLevel::Level0
    } else if b >= 5000 {
        QualityLevel::Level1
    } else if b >= 3000 {
        QualityLevel::Level2
    } else if b >= 2000 {
        QualityLevel::Level3
    } else {
        QualityLevel::Level4
    }
}

impl QualityLevel {
    /// The level's resolution as (width, height).
    pub fn resolution(&self) -> (r: (u16, u16))
        ensures
            r == spec_resolution(*self),
    {
        match self {
            QualityLevel::Level0 => (1920, 1080),
            QualityLevel::Level1 => (1920, 1080),
            QualityLevel::Level2 => (1600, 900),
            QualityLevel::Level3 => (1280, 720),
            QualityLevel::Level4 => (1024, 576),
        }
    }

    /// The level's frame rate.
    pub fn fps(&self) -> (r: u8)
        ensures
            r == spec_fps(*self),
    {
        match self {
            QualityLevel::Level0 | QualityLevel::Level1 | QualityLevel::Level2 => 30,
            QualityLevel::Level3 | QualityLevel::Level4 => 24,
        }
    }

    /// The level's bitrate in kbit/s.
    pub fn bitrate_kbps(&self) -> (r: u16)
        ensures
            r == spec_bitrate(*self),
    {
        match self {
            QualityLevel::Level0 => 8000,
            QualityLevel::Level1 => 5000,
            QualityLevel::Level2 => 3000,
            QualityLevel::Level3 => 2000,
            QualityLevel::Level4 => 1500,
        }
    }

    /// The next lower level; the lowest stays.
    pub fn decrease(&self) -> (r: QualityLevel)
        ensures
            r == spec_decrease(*self),
    {
        match self {
            QualityLevel::Level0 => QualityLevel::Level1,
            QualityLevel::Level1 => QualityLevel::Level2,
            QualityLevel::Level2 => QualityLevel::Level3,
            QualityLevel::Level3 => QualityLevel::Level4,
            QualityLevel::Level4 => QualityLevel::Level4,
        }
    }

    /// The next better level; the best stays.
    pub fn increase(&self) -> (r: QualityLevel)
        ensures
            r == spec_increase(*self),
    {
        match self {
            QualityLevel::Level0 => QualityLevel::Level0,
            QualityLevel::Level1 => QualityLevel::Level0,
            QualityLevel::Level2 => QualityLevel::Level1,
            QualityLevel::Level3 => QualityLevel::Level2,
            QualityLevel::Level4 => QualityLevel::Level3,
        }
    }
}

/// The quality level that a requested bitrate selects.
pub fn level_for_bitrate(bitrate: u16) -> (q: QualityLevel)
    ensures
        q == spec_level_for_bitrate(bitrate),
{
    if bitrate >= 8000 {
        QualityLevel::Level0
    } else if bitrate >= 5000 {
        QualityLevel::Level1
    } else if bitrate >= 3000 {
        QualityLevel::Level2
    } else if bitrate >= 2000 {
        QualityLevel::Level3
    } else {
        QualityLevel::Level4
    }
}

/// A level is determined by its rank.
pub proof fn lemma_rank_determines_level(q: QualityLevel)
    ensures
        level_of_rank(rank(q)) == q,
        0 <= rank(q) <= 4,
{
}

/// Going down a level never raises the bitrate, resolution or frame rate, and
/// going up never lowers them.
pub proof fn lemma_levels_monotone(p: QualityLevel, q: QualityLevel)
    requires
        rank(p) <= rank(q),
    ensures
        spec_bitrate(p) >= spec_bitrate(q),
        spec_resolution(p).0 >= spec_resolution(q).0,
        spec_resolution(p).1 >= spec_resolution(q).1,
        spec_fps(p) >= spec_fps(q),
{
}

/// Going up one level undoes going down one, except from the lowest level;
/// going down undoes going up, except from the best.
pub proof fn lemma_increase_undoes_decrease(q: QualityLevel)
    ensures
        rank(q) < 4 ==> spec_increase(spec_decrease(q)) == q,
        rank(q) > 0 ==> spec_decrease(spec_increase(q)) == q,
        rank(spec_decrease(q)) >= rank(q),
        rank(spec_increase(q)) <= rank(q),
{
}

/// Asking for a level's own bitrate selects that level.
pub proof fn lemma_bitrate_selects_level(q: QualityLevel)
    ensures
        spec_level_for_bitrate(spec_bitrate(q)) == q,
{
}

/// A higher requested bitrate never selects a lower level.
pub proof fn lemma_bitrate_selection_monotone(a: u16, b: u16)
    requires
        a <= b,
    ensures
        rank(spec_level_for_bitrate(b)) <= rank(spec_level_for_bitrate(a)),
{
}

} // verus!
