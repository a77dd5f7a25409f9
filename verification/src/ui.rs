//! The HUD's decision logic: the clock-code entry, the text feed, the
//! drones-eliminated message, and what taking a teleporter resets.

use vstd::prelude::*;

use crate::levels::GameLevel;
use crate::math::SCALE;
use crate::units::UnitEntity;
use crate::vec3::Vec3Fix;
use crate::Health;

verus! {

/// The code the player has typed into the clock, digits only.
pub struct PlayerCode(pub String);

impl Default for PlayerCode {
    fn default() -> (r: Self)
        ensures
            r.0@.len() == 0,
    {
        PlayerCode(String::new())
    }
}

/// Whether the clock-setting window is open.
#[derive(Clone, Copy, PartialEq, Eq, Structural, Debug)]
pub struct SettingClock(pub bool);

impl Default for SettingClock {
    fn default() -> (r: Self)
        ensures
            !r.0,
    {
        SettingClock(false)
    }
}

/// The running message feed shown at the screen's corner.
pub struct TextFeed(pub String);

impl Default for TextFeed {
    fn default() -> (r: Self)
        ensures
            r.0@.len() == 0,
    {
        TextFeed(String::new())
    }
}

impl TextFeed {
    /// Append a message under a fresh prompt line.
    pub fn push(&mut self, text: &str)
        ensures
            final(self).0@ == old(self).0@ + "\n\n> "@ + text@,
    {
        self.0.append("\n\n> ");
        self.0.append(text);
    }
}

/// When the run started, in time subunits, once the game is under way.
#[derive(Clone, Copy, PartialEq, Eq, Structural, Debug)]
pub struct GameElapsedTime(pub Option<i64>);

impl Default for GameElapsedTime {
    fn default() -> (r: Self)
        ensures
            r.0.is_none(),
    {
        GameElapsedTime(None)
    }
}

/// Whether the player has reached the control room.
#[derive(Clone, Copy, PartialEq, Eq, Structural, Debug)]
pub struct HasEnteredControlRoom(pub bool);

impl Default for HasEnteredControlRoom {
    fn default() -> (r: Self)
        ensures
            !r.0,
    {
        HasEnteredControlRoom(false)
    }
}

/// Whether the game has been finished, and when.
#[derive(Clone, Copy, PartialEq, Eq, Debug)]
pub struct FinishedGame(pub (bool, i64));

impl Default for FinishedGame {
    fn default() -> (r: Self)
        ensures
            !r.0.0 && r.0.1 == 0,
    {
        FinishedGame((false, 0))
    }
}

/// Whether a character counts as numeric.
pub uninterp spec fn is_unicode_numeric(c: char) -> bool;

/// Relies on `char::is_numeric`: whether the character is in a Unicode
/// numeric category; the verdict depends on the character alone.
#[verifier::external_body]
fn char_is_numeric(c: char) -> (r: bool)
    ensures
        r == is_unicode_numeric(c),
{
    c.is_numeric()
}

/// Relies on `String::push`: appends one character at the end.
#[verifier::external_body]
fn string_push(s: &mut String, c: char)
    ensures
        final(s)@ == old(s)@.push(c),
{
    s.push(c);
}

/// The numeric characters of a string, in order.
pub open spec fn numeric_chars(s: Seq<char>) -> Seq<char> {
    s.filter(|c: char| is_unicode_numeric(c))
}

/// Drop every character that is not numeric: what the clock-code entry
/// does to whatever the player types.
pub fn strip_non_numeric(input: &str) -> (r: String)
    ensures
        r@ == numeric_chars(input@),
{
    let n = input.unicode_len();
    let mut out = String::new();
    let mut i: usize = 0;
    proof {
        reveal(Seq::filter);
        assert(input@.take(0) =~= Seq::<char>::empty());
        assert(numeric_chars(Seq::<char>::empty()) =~= Seq::<char>::empty());
    }
    while i < n
        invariant
            n == input@.len(),
            0 <= i <= n,
            out@ == numeric_chars(input@.take(i as int)),
        decreases n - i,
    {
        let c = input.get_char(i);
        proof {
            reveal(Seq::filter);
            assert(input@.take(i + 1).drop_last() =~= input@.take(i as int));
            assert(input@.take(i + 1).last() == input@[i as int]);
        }
        if char_is_numeric(c) {
            string_push(&mut out, c);
        }
        i = i + 1;
    }
    proof {
        assert(input@.take(n as int) =~= input@);
    }
    out
}

/// Whether the drones-eliminated message is due: the last drone just
/// fell, in a level that announces it.
pub fn drones_dead_msg_due(one_bot_left: bool, drones_remaining: usize, level: &GameLevel) -> (r:
    bool)
    ensures
        r == (one_bot_left && drones_remaining == 0 && level.spec_show_drones_dead_msg()),
{
    one_bot_left && drones_remaining == 0 && level.show_drones_dead_msg()
}

/// Where the teleporter sends the player, if it is ready: every drone
/// down and the player standing at it.
pub fn teleporter_ready(drones_remaining: usize, level: &GameLevel, player_pos: Vec3Fix) -> (r:
    Option<GameLevel>)
    requires
        player_pos.in_range(),
    ensures
        r == (if drones_remaining == 0 && level.spec_teleporter_pos_close_enough(player_pos) {
            Some(level.spec_teleporter_dest())
        } else {
            None::<GameLevel>
        }),
{
    if drones_remaining == 0 && level.teleporter_pos_close_enough(player_pos) {
        Some(level.teleporter_dest())
    } else {
        None
    }
}

/// Take a teleporter (or respawn): full health, the destination level's
/// spawn point, every unit despawned; returns the jump speed the
/// destination level allows.
pub fn teleport(
    health: &mut Health,
    level: &GameLevel,
    pos: &mut Vec3Fix,
    units: &mut Vec<UnitEntity>,
) -> (jump_speed: i64)
    ensures
        final(health).0 == SCALE,
        *final(pos) == level.spec_spawn_pos(),
        final(units)@.len() == 0,
        jump_speed == (if level.spec_player_can_jump() {
            crate::character_controller::JUMP_SPEED as int
        } else {
            0
        }),
{
    health.0 = SCALE;
    *pos = level.spawn_pos();
    units.clear();
    if level.player_can_jump() {
        crate::character_controller::JUMP_SPEED
    } else {
        0
    }
}

} // verus!
