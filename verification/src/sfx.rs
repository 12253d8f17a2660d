//! Frame-counted audio sequencing. The mixer itself lives outside this
//! crate; these functions only decide, per frame, which clip to start.
//! New instances layer over whatever is still playing.

use vstd::prelude::*;

verus! {

/// Frame at which the main loop clip first layers over the intro.
pub const TRIGGER_MUSIC_POINT: i32 = 662;

/// Period, in frames, at which the main loop clip re-triggers.
pub const LOOP_MUSIC: i32 = 5141;

/// Number of pre-rendered one-shot clips per sound effect.
pub const EFFECT_CLIP_COUNT: usize = 3;

/// What the sequencer starts this frame, layered on whatever is playing.
#[derive(Clone, Copy, PartialEq, Eq, Structural, Debug)]
pub enum MusicAction {
    PlayIntro,
    PlayLoop,
    Silent,
}

/// The music cue owed at frame `f`: the intro at frame zero, the main
/// loop at the trigger point and every loop period after it, silence
/// otherwise.
pub open spec fn music_cue(f: int) -> MusicAction {
    if f == 0 {
        MusicAction::PlayIntro
    } else if f >= TRIGGER_MUSIC_POINT && (f - TRIGGER_MUSIC_POINT) % (LOOP_MUSIC as int) == 0 {
        MusicAction::PlayLoop
    } else {
        MusicAction::Silent
    }
}

pub struct MusicBox {
    pub frame: i32,
}

impl MusicBox {
    pub fn new() -> (m: MusicBox)
        ensures
            m.frame == 0,
    {
        MusicBox { frame: 0 }
    }

    /// Advance one frame and say which music clip to start, if any.
    pub fn after_blank(&mut self) -> (cue: MusicAction)
        requires
            0 <= old(self).frame < i32::MAX,
        ensures
            final(self).frame == old(self).frame + 1,
            cue == music_cue(old(self).frame as int),
    {
        let cue = if self.frame == 0 {
            MusicAction::PlayIntro
        } else if self.frame >= TRIGGER_MUSIC_POINT && ((self.frame - TRIGGER_MUSIC_POINT) as u32)
            % (LOOP_MUSIC as u32) == 0 {
            MusicAction::PlayLoop
        } else {
            MusicAction::Silent
        };
        self.frame = self.frame + 1;
        cue
    }

    /// One-shot clip index for a catch: picked by the frame counter, so
    /// the choice is deterministic and reproducible.
    pub fn catch(&self) -> (clip: usize)
        requires
            0 <= self.frame,
        ensures
            clip == (self.frame as int) % (EFFECT_CLIP_COUNT as int),
    {
        self.effect_index(EFFECT_CLIP_COUNT)
    }

    /// One-shot clip index for a throw, picked the same way.
    pub fn throw(&self) -> (clip: usize)
        requires
            0 <= self.frame,
        ensures
            clip == (self.frame as int) % (EFFECT_CLIP_COUNT as int),
    {
        self.effect_index(EFFECT_CLIP_COUNT)
    }

    /// Index into a bank of `count` clips, by frame counter.
    fn effect_index(&self, count: usize) -> (clip: usize)
        requires
            0 <= self.frame,
            0 < count,
        ensures
            clip == (self.frame as int) % (count as int),
    {
        (self.frame as usize) % count
    }
}

} // verus!
