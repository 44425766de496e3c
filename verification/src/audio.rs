use vstd::prelude::*;

verus! {

/// The volume levels of the game's music and sound effects, in hundredths:
/// 100 is the normal level. While dimmed (behind a menu) both play at
/// `dimmed_percent` percent of their level.
#[derive(Debug, Clone, Copy, PartialEq, Eq, Structural)]
pub struct AudioLevels {
    pub base_music_volume: i32,
    pub base_sfx_volume: i32,
    pub dimmed_percent: i32,
    pub is_dimmed: bool,
}

/// The highest volume level, in hundredths.
pub const MAX_VOLUME: i32 = 200;

/// A volume level rounded to the nearest step of 5 hundredths and held to
/// `0..=200`.
pub open spec fn limited_volume(vol: int) -> int {
    let rounded = if vol >= 0 { (vol + 2) / 5 * 5 } else { 0 };
    if rounded > MAX_VOLUME { MAX_VOLUME as int } else { rounded }
}

impl AudioLevels {
    /// The music level that plays, in ten-thousandths of the normal level.
    pub open spec fn music_level(self) -> int {
        if self.is_dimmed { self.base_music_volume * self.dimmed_percent } else { self.base_music_volume * 100 }
    }

    /// The sound-effect level that plays, in ten-thousandths.
    pub open spec fn sfx_level(self) -> int {
        if self.is_dimmed { self.base_sfx_volume * self.dimmed_percent } else { self.base_sfx_volume * 100 }
    }
}

/// `a * b`, which always fits an `i64`.
fn scaled(a: i32, b: i32) -> (r: i64)
    ensures
        r == a * b,
{
    assert(i64::MIN <= (a as int) * (b as int) <= i64::MAX) by (nonlinear_arith)
        requires
            i32::MIN <= a <= i32::MAX,
            i32::MIN <= b <= i32::MAX,
    ;
    (a as i64) * (b as i64)
}

/// Rounds a volume level to a step of 5 hundredths within `0..=200`.
pub fn limit_volume(vol: i32) -> (r: i32)
    ensures
        r == limited_volume(vol as int),
        0 <= r <= MAX_VOLUME,
        r % 5 == 0,
{
    let rounded: i64 = if vol >= 0 { ((vol as i64) + 2) / 5 * 5 } else { 0 };
    if rounded > MAX_VOLUME as i64 {
        MAX_VOLUME
    } else {
        rounded as i32
    }
}

impl AudioLevels {
    /// Music and sound effects at 5 hundredths, dimmed to half when dimmed,
    /// not dimmed now.
    pub fn new() -> (r: Self)
        ensures
            r.base_music_volume == 5,
            r.base_sfx_volume == 5,
            r.dimmed_percent == 50,
            !r.is_dimmed,
    {
        AudioLevels { base_music_volume: 5, base_sfx_volume: 5, dimmed_percent: 50, is_dimmed: false }
    }

    /// The music level that plays, in ten-thousandths.
    pub fn curr_music_volume(&self) -> (r: i64)
        ensures
            r == self.music_level(),
    {
        if self.is_dimmed {
            scaled(self.base_music_volume, self.dimmed_percent)
        } else {
            (self.base_music_volume as i64) * 100
        }
    }

    /// The sound-effect level that plays, in ten-thousandths.
    pub fn curr_sfx_volume(&self) -> (r: i64)
        ensures
            r == self.sfx_level(),
    {
        if self.is_dimmed {
            scaled(self.base_sfx_volume, self.dimmed_percent)
        } else {
            (self.base_sfx_volume as i64) * 100
        }
    }

    /// Sets the music level (rounded and held to its range) unless it is
    /// already at `new_level` and no update is forced; returns the music
    /// level that plays when the level was set.
    pub fn set_music_volume_force(&mut self, new_level: i32, force_update: bool) -> (r: Option<i64>)
        ensures
            !force_update && old(self).base_music_volume == new_level ==> r is None && *final(self) == *old(self),
            force_update || old(self).base_music_volume != new_level ==> *final(self) == (AudioLevels {
                base_music_volume: limited_volume(new_level as int) as i32,
                ..*old(self)
            }) && r is Some && r->0 == final(self).music_level(),
    {
        if !force_update && self.base_music_volume == new_level {
            return None;
        }
        self.base_music_volume = limit_volume(new_level);
        Some(self.curr_music_volume())
    }

    /// Sets the music level unless it is already at `new_level`.
    pub fn set_music_volume(&mut self, new_level: i32) -> (r: Option<i64>)
        ensures
            old(self).base_music_volume == new_level ==> r is None && *final(self) == *old(self),
            old(self).base_music_volume != new_level ==> *final(self) == (AudioLevels {
                base_music_volume: limited_volume(new_level as int) as i32,
                ..*old(self)
            }) && r is Some && r->0 == final(self).music_level(),
    {
        self.set_music_volume_force(new_level, false)
    }

    /// Raises the music level by one step of 5 hundredths, up to the top.
    pub fn incr_music_volume(&mut self) -> (r: Option<i64>)
        requires
            old(self).base_music_volume <= i32::MAX - 5,
        ensures
            final(self).base_music_volume == limited_volume(old(self).base_music_volume + 5),
            final(self).base_sfx_volume == old(self).base_sfx_volume,
            final(self).is_dimmed == old(self).is_dimmed,
            final(self).dimmed_percent == old(self).dimmed_percent,
    {
        let new_level = limit_volume(self.base_music_volume + 5);
        self.set_music_volume(new_level)
    }

    /// Lowers the music level by one step of 5 hundredths, down to silence.
    pub fn decr_music_volume(&mut self) -> (r: Option<i64>)
        requires
            old(self).base_music_volume >= i32::MIN + 5,
        ensures
            final(self).base_music_volume == limited_volume(old(self).base_music_volume - 5),
            final(self).base_sfx_volume == old(self).base_sfx_volume,
            final(self).is_dimmed == old(self).is_dimmed,
            final(self).dimmed_percent == old(self).dimmed_percent,
    {
        let new_level = limit_volume(self.base_music_volume - 5);
        self.set_music_volume(new_level)
    }

    /// Dims or undims the sound; returns the music level that now plays.
    pub fn set_dimmed(&mut self, dimmed: bool) -> (r: i64)
        ensures
            *final(self) == (AudioLevels {
                is_dimmed: dimmed,
                base_music_volume: limited_volume(old(self).base_music_volume as int) as i32,
                ..*old(self)
            }),
            r == final(self).music_level(),
    {
        self.is_dimmed = dimmed;
        let level = self.base_music_volume;
        match self.set_music_volume_force(level, true) {
            Some(v) => v,
            None => self.curr_music_volume(),
        }
    }

    /// Sets the sound-effect level; nothing changes when the *music* level
    /// already equals `new_level` and no update is forced. Returns the
    /// sound-effect level that plays when the level was set.
    pub fn set_sfx_volume_force(&mut self, new_level: i32, force_update: bool) -> (r: Option<i64>)
        ensures
            !force_update && old(self).base_music_volume == new_level ==> r is None && *final(self) == *old(self),
            force_update || old(self).base_music_volume != new_level ==> *final(self) == (AudioLevels {
                base_sfx_volume: new_level,
                ..*old(self)
            }) && r is Some && r->0 == final(self).sfx_level(),
    {
        if !force_update && self.base_music_volume == new_level {
            return None;
        }
        self.base_sfx_volume = new_level;
        Some(self.curr_sfx_volume())
    }

    /// Sets the sound-effect level, as `set_sfx_volume_force` without
    /// forcing.
    pub fn set_sfx_volume(&mut self, new_level: i32) -> (r: Option<i64>)
        ensures
            old(self).base_music_volume == new_level ==> r is None && *final(self) == *old(self),
            old(self).base_music_volume != new_level ==> *final(self) == (AudioLevels {
                base_sfx_volume: new_level,
                ..*old(self)
            }) && r is Some && r->0 == final(self).sfx_level(),
    {
        self.set_sfx_volume_force(new_level, false)
    }
}

/// A limited level stays as it is when limited again, and one step up
/// followed by one step down returns to it (below the top of the range).
pub proof fn law_volume_steps(v: int)
    requires
        0 <= v <= MAX_VOLUME - 5,
        v % 5 == 0,
    ensures
        limited_volume(v) == v,
        limited_volume(limited_volume(v + 5) - 5) == v,
{
}

/// Dimming and undimming the music round its level each time; rounding a
/// rounded level changes nothing, so the level ends where one rounding put
/// it.
pub proof fn law_dimming_keeps_level(levels: AudioLevels)
    ensures
        limited_volume(limited_volume(levels.base_music_volume as int)) == limited_volume(
            levels.base_music_volume as int,
        ),
{
}

} // verus!
