use vstd::prelude::*;
use crate::random::random_u32;
use crate::geometry::rust_rem;

verus! {

/// How a sprite sheet is cut into frames: `cols x rows` cells, read row by
/// row.
#[derive(Debug, Clone, Copy, PartialEq, Eq, Structural)]
pub struct AnimGridLayout {
    pub cols: i32,
    pub rows: i32,
}

/// A named animation: its frames as (cell of the sheet, length in
/// milliseconds), whether it loops or runs backwards, and what follows it.
#[derive(Debug, Clone)]
pub struct AnimationDef {
    pub name: String,
    pub frames: Vec<(i32, u32)>,
    pub looped: bool,
    pub reverse: bool,
    pub end_anim: Option<Vec<String>>,
}

/// The animation state of a sprite-sheet sprite. Frame lengths and the frame
/// timer are in milliseconds.
#[derive(Debug, Clone)]
pub struct AnimSpriteComponent {
    pub path: String,
    pub visible: bool,
    pub toggleable: bool,
    pub shader: Option<String>,
    pub grid_layout: Option<AnimGridLayout>,
    pub animations: Option<Vec<AnimationDef>>,
    pub start_animation: Option<Vec<String>>,
    pub curr_animation: String,
    pub frame: i32,
    pub frame_index: i32,
    pub frame_timer_ms: u64,
    pub curr_frame_length_ms: u32,
    pub is_enabled: bool,
    pub pos_dir: bool,
}

/// The frames of the last animation in `anims` named `name`.
pub open spec fn last_frames(anims: Seq<AnimationDef>, name: Seq<char>) -> Option<Seq<(i32, u32)>>
    decreases anims.len(),
{
    if anims.len() == 0 {
        None
    } else if anims.last().name@ == name {
        Some(anims.last().frames@)
    } else {
        last_frames(anims.drop_last(), name)
    }
}

/// Frame number `frame` of the last animation named `name` that has such a
/// frame.
pub open spec fn frame_def(anims: Seq<AnimationDef>, name: Seq<char>, frame: int) -> Option<(i32, u32)>
    decreases anims.len(),
{
    if anims.len() == 0 {
        None
    } else if anims.last().name@ == name && 0 <= frame < anims.last().frames@.len() {
        Some(anims.last().frames@[frame])
    } else {
        frame_def(anims.drop_last(), name, frame)
    }
}

/// The number of frames that counts for animation `name`: that of its last
/// definition, as an `i32`; 0 without one.
pub open spec fn frame_count(anims: Option<Vec<AnimationDef>>, name: Seq<char>) -> i32 {
    match anims {
        Some(a) => match last_frames(a@, name) {
            Some(f) => f.len() as i32,
            None => 0,
        },
        None => 0,
    }
}

/// The definition of frame `frame` of animation `name`, if any.
pub open spec fn frame_lookup(anims: Option<Vec<AnimationDef>>, name: Seq<char>, frame: int) -> Option<(i32, u32)> {
    match anims {
        Some(a) => frame_def(a@, name, frame),
        None => None,
    }
}

/// The cell `(col, row)` of frame `k` in a sheet of `cols x rows` cells;
/// frames past the sheet fall back to the first cell.
pub open spec fn frame_cell_of(k: int, cols: int, rows: int) -> (int, int) {
    if 0 <= k < cols * rows {
        (k % cols, k / cols)
    } else {
        (0, 0)
    }
}

/// The sheet width or height in cells: at least one.
pub open spec fn at_least_one(n: i32) -> i32 {
    if n >= 1 { n } else { 1 }
}

impl AnimSpriteComponent {
    /// The state after `set_frame(frame)`: the frame number is stored; when
    /// the current animation defines that frame with a positive length and a
    /// cell, the cell is shown and its timer restarts.
    pub open spec fn with_frame(self, frame: i32) -> AnimSpriteComponent {
        match frame_lookup(self.animations, self.curr_animation@, frame as int) {
            Some((cell, len)) => if len > 0 && cell >= 0 {
                AnimSpriteComponent {
                    frame,
                    frame_index: cell,
                    frame_timer_ms: 0,
                    curr_frame_length_ms: len,
                    ..self
                }
            } else {
                AnimSpriteComponent { frame, ..self }
            },
            None => AnimSpriteComponent { frame, ..self },
        }
    }

    /// The frame `offset` frames on, wrapping as Rust's `%` does.
    pub open spec fn offset_frame(self, offset: i32) -> i32 {
        let n = frame_count(self.animations, self.curr_animation@) as int;
        let f = self.frame + offset;
        (if f >= n || f < 0 { rust_rem(f, n) } else { f }) as i32
    }

    /// The animation in use once a sprite without one starts.
    pub open spec fn started_animation(self) -> Seq<char> {
        if self.curr_animation@ == Seq::<char>::empty() && self.start_animation is Some
            && self.start_animation->0@.len() > 0 {
            self.start_animation->0@[0]@
        } else {
            self.curr_animation@
        }
    }

    /// An update of `dt` milliseconds cannot fail: a frame that runs out
    /// has frames to move on to, and a sprite that starts its animation has
    /// frames to start from.
    pub open spec fn update_ready(self, dt: u32) -> bool {
        &&& (self.is_enabled && self.curr_frame_length_ms > 0
            && self.frame_timer_ms + dt >= self.curr_frame_length_ms) ==> (
                frame_count(self.animations, self.curr_animation@) > 0 && self.frame + 2 <= i32::MAX)
        &&& (self.is_enabled && self.curr_frame_length_ms == 0 && self.curr_animation@ == Seq::<char>::empty())
            ==> frame_count(self.animations, self.started_animation()) as u32 != 0
    }

    /// The state after an update of `dt` milliseconds, with `roll` the
    /// random number that picks the first frame of a starting animation.
    pub open spec fn updated(self, dt: u32, roll: u32) -> AnimSpriteComponent {
        if !self.is_enabled {
            self
        } else if self.curr_frame_length_ms > 0 {
            let timer = if self.frame_timer_ms + dt > u64::MAX { u64::MAX } else { (self.frame_timer_ms + dt) as u64 };
            let timed = AnimSpriteComponent { frame_timer_ms: timer, ..self };
            if timer >= self.curr_frame_length_ms {
                timed.with_frame(timed.offset_frame(if self.pos_dir { 1 } else { 2 }))
            } else {
                timed
            }
        } else if self.curr_animation@ == Seq::<char>::empty() {
            let n = frame_count(self.animations, self.started_animation()) as u32;
            let started = if self.start_animation is Some && self.start_animation->0@.len() > 0 {
                AnimSpriteComponent { curr_animation: self.start_animation->0@[0], ..self }
            } else {
                self
            };
            started.with_frame((roll % n) as i32)
        } else {
            self
        }
    }
}


impl AnimSpriteComponent {
    /// A sprite of the image at `path`, shown, enabled, with no animation.
    pub fn new(path: &String) -> (r: AnimSpriteComponent)
        ensures
            r.path@ == path@,
            r.visible,
            !r.toggleable,
            r.shader is None,
            r.grid_layout is None,
            r.animations is None,
            r.start_animation is None,
            r.curr_animation@ == Seq::<char>::empty(),
            r.frame == 0,
            r.frame_index == 0,
            r.frame_timer_ms == 0,
            r.curr_frame_length_ms == 0,
            r.is_enabled,
            r.pos_dir,
    {
        AnimSpriteComponent {
            path: path.clone(),
            visible: true,
            toggleable: false,
            shader: None,
            grid_layout: None,
            animations: None,
            start_animation: None,
            curr_animation: String::new(),
            frame: 0,
            frame_index: 0,
            frame_timer_ms: 0,
            curr_frame_length_ms: 0,
            is_enabled: true,
            pos_dir: true,
        }
    }

    /// The number of frames of the current animation.
    pub fn get_num_frames(&self) -> (r: i32)
        ensures
            r == frame_count(self.animations, self.curr_animation@),
    {
        let mut num_frames: i32 = 0;
        if let Some(anims) = &self.animations {
            let mut i: usize = 0;
            while i < anims.len()
                invariant
                    i <= anims@.len(),
                    num_frames == (match last_frames(anims@.take(i as int), self.curr_animation@) {
                        Some(f) => f.len() as i32,
                        None => 0i32,
                    }),
                decreases anims.len() - i,
            {
                assert(anims@.take(i + 1).drop_last() =~= anims@.take(i as int));
                if anims[i].name == self.curr_animation {
                    num_frames = anims[i].frames.len() as i32;
                }
                i += 1;
            }
            assert(anims@.take(i as int) =~= anims@);
        }
        num_frames
    }

    /// Shows frame `frame` of the current animation.
    pub fn set_frame(&mut self, frame: i32)
        ensures
            *final(self) == old(self).with_frame(frame),
    {
        self.frame = frame;
        let mut new_frame_idx: i32 = -1;
        let mut new_frame_len: u32 = 0;
        let ghost name = self.curr_animation@;
        if let Some(anims) = &self.animations {
            let mut i: usize = 0;
            while i < anims.len()
                invariant
                    i <= anims@.len(),
                    name == self.curr_animation@,
                    (match frame_def(anims@.take(i as int), name, frame as int) {
                        Some(d) => (new_frame_idx, new_frame_len) == d,
                        None => new_frame_idx == -1 && new_frame_len == 0,
                    }),
                decreases anims.len() - i,
            {
                assert(anims@.take(i + 1).drop_last() =~= anims@.take(i as int));
                if anims[i].name == self.curr_animation {
                    let frames = &anims[i].frames;
                    let mut j: usize = 0;
                    while j < frames.len()
                        invariant
                            j <= frames@.len(),
                            frames@ == anims@[i as int].frames@,
                            anims@[i as int].name@ == name,
                            (0 <= frame < j) ==> (new_frame_idx, new_frame_len) == frames@[frame as int],
                            !(0 <= frame < j) ==> (match frame_def(anims@.take(i as int), name, frame as int) {
                                Some(d) => (new_frame_idx, new_frame_len) == d,
                                None => new_frame_idx == -1 && new_frame_len == 0,
                            }),
                        decreases frames.len() - j,
                    {
                        if frame >= 0 && j == frame as usize {
                            new_frame_idx = frames[j].0;
                            new_frame_len = frames[j].1;
                        }
                        j += 1;
                    }
                }
                i += 1;
            }
            assert(anims@.take(i as int) =~= anims@);
        }
        if new_frame_len > 0 && new_frame_idx >= 0 {
            self.frame_index = new_frame_idx;
            self.frame_timer_ms = 0;
            self.curr_frame_length_ms = new_frame_len;
        }
    }

    /// Moves `offset` frames on, wrapping around the current animation.
    pub fn advance_frame_offset(&mut self, offset: i32)
        requires
            frame_count(old(self).animations, old(self).curr_animation@) > 0,
            i32::MIN <= old(self).frame + offset <= i32::MAX,
        ensures
            *final(self) == old(self).with_frame(old(self).offset_frame(offset)),
    {
        let num_frames = self.get_num_frames();
        let mut new_frame = self.frame + offset;
        if new_frame >= num_frames || new_frame < 0 {
            new_frame = new_frame % num_frames;
        }
        self.set_frame(new_frame);
    }

    /// The length of a frame for a sheet sprite (300 ms), 0 for another.
    pub fn get_frame_time(&self) -> (r: u32)
        ensures
            r == (if self.grid_layout is Some { 300u32 } else { 0u32 }),
    {
        if self.grid_layout.is_some() {
            300
        } else {
            0
        }
    }

    /// Where the frame shown is taken from in its sheet: its cell, with the
    /// sheet size in cells, `(col, row, cols, rows)` (the drawing scales
    /// these to the image); `None` for a sprite that is not a sheet.
    pub fn get_frame_src(&self) -> (r: Option<(i32, i32, i32, i32)>)
        ensures
            self.grid_layout is None ==> r is None,
            self.grid_layout is Some ==> r is Some && ({
                let g = self.grid_layout->0;
                let c = frame_cell_of(self.frame_index as int, at_least_one(g.cols) as int, at_least_one(g.rows) as int);
                r->0 == (c.0 as i32, c.1 as i32, at_least_one(g.cols), at_least_one(g.rows))
            }),
    {
        match &self.grid_layout {
            None => None,
            Some(grid_layout) => {
                let max_cols: i32 = if grid_layout.cols >= 1 { grid_layout.cols } else { 1 };
                let max_rows: i32 = if grid_layout.rows >= 1 { grid_layout.rows } else { 1 };
                let k: i32 = if self.frame_index > 0 { self.frame_index } else { 0 };
                let mut col: i32 = 0;
                let mut row: i32 = 0;
                let mut f: i32 = 0;
                let mut wrapped = false;
                assert(0 < (max_cols as int) * (max_rows as int)) by (nonlinear_arith)
                    requires
                        max_cols >= 1,
                        max_rows >= 1,
                ;
                while f < k
                    invariant_except_break
                        !wrapped,
                        0 <= f <= k,
                        0 <= col < max_cols,
                        0 <= row < max_rows,
                        row * max_cols + col == f,
                        (f as int) < (max_cols as int) * (max_rows as int),
                    invariant
                        max_cols >= 1,
                        max_rows >= 1,
                    ensures
                        wrapped ==> col == 0 && row == 0 && k >= (max_cols as int) * (max_rows as int),
                        !wrapped ==> f == k && 0 <= col < max_cols && 0 <= row < max_rows && row * max_cols + col == k,
                        !wrapped ==> k < (max_cols as int) * (max_rows as int),
                    decreases k - f,
                {
                    let ghost f0 = f;
                    let ghost row0 = row;
                    let ghost col0 = col;
                    col += 1;
                    if col >= max_cols {
                        col = 0;
                        row += 1;
                        assert(row0 * max_cols + max_cols == row * max_cols) by (nonlinear_arith)
                            requires
                                row == row0 + 1,
                        ;
                        if row >= max_rows {
                            assert(row * max_cols == (max_cols as int) * (max_rows as int)) by (nonlinear_arith)
                                requires
                                    row == max_rows,
                            ;
                            assert(col0 == max_cols - 1);
                            assert(f0 + 1 == row * max_cols);
                            assert(k >= (max_cols as int) * (max_rows as int));
                            col = 0;
                            row = 0;
                            wrapped = true;
                            break;
                        }
                    }
                    f += 1;
                    assert((row as int) * (max_cols as int) + (col as int) < (max_cols as int) * (max_rows as int)) by (nonlinear_arith)
                        requires
                            0 <= row < max_rows,
                            0 <= col < max_cols,
                    ;
                }
                proof {
                    if !wrapped {
                        vstd::arithmetic::div_mod::lemma_fundamental_div_mod_converse(
                            k as int, max_cols as int, row as int, col as int);
                        if self.frame_index <= 0 {
                            assert(col == 0 && row == 0) by (nonlinear_arith)
                                requires
                                    row * max_cols + col == 0,
                                    0 <= col < max_cols,
                                    0 <= row,
                            ;
                        }
                    }
                }
                Some((col, row, max_cols, max_rows))
            },
        }
    }

    /// One update of `dt` milliseconds, with `roll` the number that picks
    /// the first frame of a starting animation: the frame timer runs, and a
    /// frame that has run its length gives way to the next one (the one
    /// after it when playing backwards is off, two on otherwise); a sprite
    /// without an animation starts its first start animation at a frame
    /// chosen by `roll`.
    pub fn update_with_roll(&mut self, dt: u32, roll: u32)
        requires
            old(self).update_ready(dt),
        ensures
            *final(self) == old(self).updated(dt, roll),
    {
        if !self.is_enabled {
            return;
        }
        if self.curr_frame_length_ms > 0 {
            self.frame_timer_ms = self.frame_timer_ms.saturating_add(dt as u64);
            if self.frame_timer_ms >= self.curr_frame_length_ms as u64 {
                let frame_offset: i32 = if self.pos_dir { 1 } else { 2 };
                self.advance_frame_offset(frame_offset);
            }
        } else {
            if self.curr_animation.as_str().unicode_len() == 0 {
                let ghost before = *self;
                assert(before.curr_animation@ == Seq::<char>::empty());
                if let Some(defaults) = &self.start_animation {
                    if defaults.len() > 0 {
                        let first = defaults[0].clone();
                        assert(first@ == before.start_animation->0@[0]@);
                        self.curr_animation = first;
                    }
                }
                assert(self.curr_animation@ == before.started_animation());
                let num_f = self.get_num_frames() as u32;
                let init_frame = (roll % num_f) as i32;
                self.set_frame(init_frame);
            }
        }
    }

    /// One update of `dt` milliseconds, with the first frame of a starting
    /// animation drawn at random.
    pub fn update(&mut self, dt: u32)
        requires
            old(self).update_ready(dt),
        ensures
            exists|roll: u32| *final(self) == #[trigger] old(self).updated(dt, roll),
    {
        let roll = random_u32();
        self.update_with_roll(dt, roll);
    }
}

/// Moving one or two frames on from a frame of the animation lands on a
/// frame of the animation: past the end it wraps to the start.
pub proof fn law_advance_stays_in_animation(s: AnimSpriteComponent, offset: i32)
    requires
        frame_count(s.animations, s.curr_animation@) > 0,
        0 <= s.frame < frame_count(s.animations, s.curr_animation@),
        1 <= offset <= 2,
    ensures
        0 <= s.offset_frame(offset) < frame_count(s.animations, s.curr_animation@),
        s.frame + offset < frame_count(s.animations, s.curr_animation@) ==> s.offset_frame(offset) == s.frame + offset,
{
}

} // verus!
