//! The level-progression tables: per-level spawn points, teleporter and
//! clock positions, the teleporter ring order, the clock codes, and the
//! per-level capability flags.

use vstd::prelude::*;

use crate::vec3::{dist_sq, dist_sq_i128, Vec3Fix};

verus! {

/// The game's levels, in the order the teleporters ring through them.
#[derive(Clone, Copy, PartialEq, Eq, Structural, Debug, Hash)]
pub enum GameLevel {
    Kitchen,
    Houses,
    Urban,
    Shower,
    Copier,
    Bathroom,
    BFStart,
    BF1,
    BFA1,
    BFA2,
    BFA3,
    ControlRoom,
}

impl Default for GameLevel {
    /// The game opens in the kitchen.
    fn default() -> (r: Self)
        ensures
            r is Kitchen,
    {
        GameLevel::Kitchen
    }
}

/// Whether `pos` lies within the (squared) radius of an anchor point.
fn within(pos: Vec3Fix, x: i64, y: i64, z: i64, radius_sq: i128) -> (r: bool)
    requires
        pos.in_range(),
        -1_000_000_000 <= x <= 1_000_000_000,
        -1_000_000_000 <= y <= 1_000_000_000,
        -1_000_000_000 <= z <= 1_000_000_000,
    ensures
        r == (dist_sq(Vec3Fix { x, y, z }, pos) < radius_sq),
{
    let anchor = Vec3Fix { x, y, z };
    let sq = dist_sq_i128(anchor, pos);
    sq < radius_sq
}

/// Whether a four-character code reads exactly `a b c d`.
fn code_is(code: &str, a: char, b: char, c: char, d: char) -> (r: bool)
    ensures
        r == (code@ == seq![a, b, c, d]),
{
    let n = code.unicode_len();
    if n != 4 {
        return false;
    }
    let c0 = code.get_char(0);
    let c1 = code.get_char(1);
    let c2 = code.get_char(2);
    let c3 = code.get_char(3);
    let eq = c0 == a && c1 == b && c2 == c && c3 == d;
    proof {
        if eq {
            assert(code@ =~= seq![a, b, c, d]);
        } else {
            assert(seq![a, b, c, d][0] == a && seq![a, b, c, d][1] == b && seq![a, b, c, d][2] == c
                && seq![a, b, c, d][3] == d);
        }
    }
    eq
}

impl GameLevel {
    /// Where the player stands when a level starts.
    pub open spec fn spec_spawn_pos(self) -> Vec3Fix {
        match self {
            GameLevel::BFA1 => Vec3Fix { x: -271_000_000i64, y: 200_000i64, z: 44_000_000i64 },
            GameLevel::BFA2 => Vec3Fix { x: -1_350_000i64, y: 200_000i64, z: 23_000_000i64 },
            GameLevel::BFA3 => Vec3Fix { x: 372_000_000i64, y: 200_000i64, z: -9_500_000i64 },
            _ => Vec3Fix { x: 0i64, y: 100_000i64, z: 0i64 },
        }
    }

    pub fn spawn_pos(&self) -> (r: Vec3Fix)
        ensures
            r == self.spec_spawn_pos(),
    {
        match self {
            GameLevel::BFA1 => Vec3Fix { x: -271_000_000i64, y: 200_000i64, z: 44_000_000i64 },
            GameLevel::BFA2 => Vec3Fix { x: -1_350_000i64, y: 200_000i64, z: 23_000_000i64 },
            GameLevel::BFA3 => Vec3Fix { x: 372_000_000i64, y: 200_000i64, z: -9_500_000i64 },
            _ => Vec3Fix { x: 0i64, y: 100_000i64, z: 0i64 },
        }
    }

    /// Whether `pos` stands close enough to the level's teleporter to
    /// take it; levels without a teleporter accept nowhere.
    pub open spec fn spec_teleporter_pos_close_enough(self, pos: Vec3Fix) -> bool {
        match self {
            GameLevel::BFStart => dist_sq(
                Vec3Fix { x: -106_310_000i64, y: -35_400_000i64, z: -44_725_000i64 },
                pos,
            ) < 225_000_000_000_000,
            GameLevel::BF1 => dist_sq(
                Vec3Fix { x: 58_638_900i64, y: -453_065_000i64, z: -640_837_000i64 },
                pos,
            ) < 64_000_000_000_000,
            GameLevel::BFA1 => dist_sq(Vec3Fix { x: -350_534_000i64, y: 0i64, z: -79_125_300i64 }, pos)
                < 64_000_000_000_000,
            GameLevel::BFA2 => dist_sq(Vec3Fix { x: -1_535_350i64, y: 0i64, z: -195_286_000i64 }, pos)
                < 64_000_000_000_000,
            GameLevel::BFA3 => dist_sq(Vec3Fix { x: 372_869_000i64, y: 0i64, z: -91_508_400i64 }, pos)
                < 64_000_000_000_000,
            _ => false,
        }
    }

    pub fn teleporter_pos_close_enough(&self, pos: Vec3Fix) -> (r: bool)
        requires
            pos.in_range(),
        ensures
            r == self.spec_teleporter_pos_close_enough(pos),
    {
        match self {
            GameLevel::BFStart => within(
                pos,
                -106_310_000,
                -35_400_000,
                -44_725_000,
                225_000_000_000_000,
            ),
            GameLevel::BF1 => within(pos, 58_638_900, -453_065_000, -640_837_000, 64_000_000_000_000),
            GameLevel::BFA1 => within(pos, -350_534_000, 0, -79_125_300, 64_000_000_000_000),
            GameLevel::BFA2 => within(pos, -1_535_350, 0, -195_286_000, 64_000_000_000_000),
            GameLevel::BFA3 => within(pos, 372_869_000, 0, -91_508_400, 64_000_000_000_000),
            _ => false,
        }
    }

    /// Whether `pos` stands close enough to the level's wall clock to
    /// set it; levels without a clock accept nowhere.
    pub open spec fn spec_clock_position_close_enough(self, pos: Vec3Fix) -> bool {
        match self {
            GameLevel::Houses => dist_sq(Vec3Fix { x: -50_363_600i64, y: 0i64, z: -12_644_600i64 }, pos)
                < 2_250_000_000_000,
            GameLevel::Kitchen => dist_sq(Vec3Fix { x: -139_801i64, y: 0i64, z: 2_027_680i64 }, pos)
                < 2_250_000_000_000,
            GameLevel::Urban => dist_sq(Vec3Fix { x: -4_659_480i64, y: 0i64, z: -7_787_060i64 }, pos)
                < 2_250_000_000_000,
            GameLevel::Shower => dist_sq(Vec3Fix { x: 1_000_830i64, y: 0i64, z: -709_787i64 }, pos)
                < 640_000_000_000,
            GameLevel::Copier => dist_sq(Vec3Fix { x: -213_056i64, y: 0i64, z: -637_783i64 }, pos)
                < 640_000_000_000,
            GameLevel::Bathroom => dist_sq(Vec3Fix { x: 301_600i64, y: 0i64, z: 410_778i64 }, pos)
                < 2_250_000_000_000,
            _ => false,
        }
    }

    pub fn clock_position_close_enough(&self, pos: Vec3Fix) -> (r: bool)
        requires
            pos.in_range(),
        ensures
            r == self.spec_clock_position_close_enough(pos),
    {
        match self {
            GameLevel::Houses => within(pos, -50_363_600, 0, -12_644_600, 2_250_000_000_000),
            GameLevel::Kitchen => within(pos, -139_801, 0, 2_027_680, 2_250_000_000_000),
            GameLevel::Urban => within(pos, -4_659_480, 0, -7_787_060, 2_250_000_000_000),
            GameLevel::Shower => within(pos, 1_000_830, 0, -709_787, 640_000_000_000),
            GameLevel::Copier => within(pos, -213_056, 0, -637_783, 640_000_000_000),
            GameLevel::Bathroom => within(pos, 301_600, 0, 410_778, 2_250_000_000_000),
            _ => false,
        }
    }

    /// The level a teleporter leads to: the fixed ring through the game.
    pub open spec fn spec_teleporter_dest(self) -> GameLevel {
        match self {
            GameLevel::Kitchen => GameLevel::BFStart,
            GameLevel::BFStart => GameLevel::Shower,
            GameLevel::Shower => GameLevel::BFA1,
            GameLevel::BFA1 => GameLevel::Copier,
            GameLevel::Copier => GameLevel::BFA2,
            GameLevel::BFA2 => GameLevel::Bathroom,
            GameLevel::Bathroom => GameLevel::BFA3,
            GameLevel::BFA3 => GameLevel::Houses,
            GameLevel::Houses => GameLevel::BF1,
            GameLevel::BF1 => GameLevel::Urban,
            GameLevel::Urban => GameLevel::ControlRoom,
            GameLevel::ControlRoom => GameLevel::Kitchen,
        }
    }

    pub fn teleporter_dest(&self) -> (r: GameLevel)
        ensures
            r == self.spec_teleporter_dest(),
    {
        match self {
            GameLevel::Kitchen => GameLevel::BFStart,
            GameLevel::BFStart => GameLevel::Shower,
            GameLevel::Shower => GameLevel::BFA1,
            GameLevel::BFA1 => GameLevel::Copier,
            GameLevel::Copier => GameLevel::BFA2,
            GameLevel::BFA2 => GameLevel::Bathroom,
            GameLevel::Bathroom => GameLevel::BFA3,
            GameLevel::BFA3 => GameLevel::Houses,
            GameLevel::Houses => GameLevel::BF1,
            GameLevel::BF1 => GameLevel::Urban,
            GameLevel::Urban => GameLevel::ControlRoom,
            GameLevel::ControlRoom => GameLevel::Kitchen,
        }
    }

    /// The level each four-digit clock code teleports to, if any.
    pub open spec fn spec_teleporter_code(code: Seq<char>) -> Option<GameLevel> {
        if code == seq!['0', '6', '2', '5'] {
            Some(GameLevel::Kitchen)
        } else if code == seq!['1', '3', '3', '2'] {
            Some(GameLevel::BFStart)
        } else if code == seq!['0', '7', '1', '9'] {
            Some(GameLevel::Shower)
        } else if code == seq!['1', '5', '1', '2'] {
            Some(GameLevel::BFA1)
        } else if code == seq!['1', '5', '1', '4'] {
            Some(GameLevel::Copier)
        } else if code == seq!['0', '6', '5', '5'] {
            Some(GameLevel::BFA2)
        } else if code == seq!['1', '2', '0', '7'] {
            Some(GameLevel::Bathroom)
        } else if code == seq!['0', '2', '0', '1'] {
            Some(GameLevel::BFA3)
        } else if code == seq!['2', '1', '4', '2'] {
            Some(GameLevel::Houses)
        } else if code == seq!['0', '7', '2', '2'] {
            Some(GameLevel::BF1)
        } else if code == seq!['2', '3', '0', '6'] {
            Some(GameLevel::Urban)
        } else if code == seq!['0', '1', '2', '1'] {
            Some(GameLevel::ControlRoom)
        } else {
            None
        }
    }

    pub fn teleporter_code(code: &str) -> (r: Option<GameLevel>)
        ensures
            r == GameLevel::spec_teleporter_code(code@),
    {
        if code_is(code, '0', '6', '2', '5') {
            Some(GameLevel::Kitchen)
        } else if code_is(code, '1', '3', '3', '2') {
            Some(GameLevel::BFStart)
        } else if code_is(code, '0', '7', '1', '9') {
            Some(GameLevel::Shower)
        } else if code_is(code, '1', '5', '1', '2') {
            Some(GameLevel::BFA1)
        } else if code_is(code, '1', '5', '1', '4') {
            Some(GameLevel::Copier)
        } else if code_is(code, '0', '6', '5', '5') {
            Some(GameLevel::BFA2)
        } else if code_is(code, '1', '2', '0', '7') {
            Some(GameLevel::Bathroom)
        } else if code_is(code, '0', '2', '0', '1') {
            Some(GameLevel::BFA3)
        } else if code_is(code, '2', '1', '4', '2') {
            Some(GameLevel::Houses)
        } else if code_is(code, '0', '7', '2', '2') {
            Some(GameLevel::BF1)
        } else if code_is(code, '2', '3', '0', '6') {
            Some(GameLevel::Urban)
        } else if code_is(code, '0', '1', '2', '1') {
            Some(GameLevel::ControlRoom)
        } else {
            None
        }
    }

    /// Whether the player can jump in this level.
    pub open spec fn spec_player_can_jump(self) -> bool {
        match self {
            GameLevel::BFStart => true,
            GameLevel::BFA1 => true,
            GameLevel::BFA2 => true,
            GameLevel::BFA3 => true,
            GameLevel::BF1 => true,
            GameLevel::ControlRoom => true,
            _ => false,
        }
    }

    pub fn player_can_jump(&self) -> (r: bool)
        ensures
            r == self.spec_player_can_jump(),
    {
        match self {
            GameLevel::BFStart => true,
            GameLevel::BFA1 => true,
            GameLevel::BFA2 => true,
            GameLevel::BFA3 => true,
            GameLevel::BF1 => true,
            GameLevel::ControlRoom => true,
            _ => false,
        }
    }

    /// Whether the gun shows (and can fire) in this level: the same
    /// levels that allow jumping.
    pub open spec fn spec_show_gun(self) -> bool {
        match self {
            GameLevel::BFStart => true,
            GameLevel::BFA1 => true,
            GameLevel::BFA2 => true,
            GameLevel::BFA3 => true,
            GameLevel::BF1 => true,
            GameLevel::ControlRoom => true,
            _ => false,
        }
    }

    pub fn show_gun(&self) -> (r: bool)
        ensures
            r == self.spec_show_gun(),
    {
        match self {
            GameLevel::BFStart => true,
            GameLevel::BFA1 => true,
            GameLevel::BFA2 => true,
            GameLevel::BFA3 => true,
            GameLevel::BF1 => true,
            GameLevel::ControlRoom => true,
            _ => false,
        }
    }

    /// Whether the all-drones-eliminated message shows in this level.
    pub open spec fn spec_show_drones_dead_msg(self) -> bool {
        match self {
            GameLevel::BFA1 => true,
            GameLevel::BFA2 => true,
            GameLevel::BFA3 => true,
            GameLevel::BF1 => true,
            GameLevel::ControlRoom => true,
            _ => false,
        }
    }

    pub fn show_drones_dead_msg(&self) -> (r: bool)
        ensures
            r == self.spec_show_drones_dead_msg(),
    {
        match self {
            GameLevel::BFA1 => true,
            GameLevel::BFA2 => true,
            GameLevel::BFA3 => true,
            GameLevel::BF1 => true,
            GameLevel::ControlRoom => true,
            _ => false,
        }
    }
}

} // verus!
