//! The per-frame orchestrator: one instance per session, running
//! exactly one update per vertical blank — advance the frame counter,
//! run the player against the level, and hand back both sprites'
//! screen-space commits for the renderer to flush.

use vstd::prelude::*;
use crate::fixed::Vec2;
use crate::fixed::v2;
use crate::entity::SpriteCommit;
use crate::entity::screen_point;
use crate::entity::on_screen;
use crate::player::Player;
use crate::player::InputState;
use crate::player::player_step;
use crate::player::player_wf;
use crate::player::player_init;
use crate::player::WIZARD_POS_LIMIT;
use crate::level::Level;

verus! {

pub struct PlayingLevel {
    pub timer: i32,
    pub level: Level,
    /// Camera/map offset. Present in the model; static in this scope.
    pub position: Vec2,
    pub player: Player,
}

impl PlayingLevel {
    pub open spec fn wf(self) -> bool {
        &&& self.level.wf()
        &&& player_wf(self.player@)
        &&& 0 <= self.timer
        &&& -WIZARD_POS_LIMIT <= self.position@.x <= WIZARD_POS_LIMIT
        &&& -WIZARD_POS_LIMIT <= self.position@.y <= WIZARD_POS_LIMIT
    }

    /// Start a session on a level: frame counter at zero, camera at the
    /// origin, a fresh player. (Drawing the tile layers themselves is
    /// the renderer's job.)
    pub fn open_level(level: Level) -> (s: PlayingLevel)
        requires
            level.wf(),
        ensures
            s.wf(),
            s.timer == 0,
            s.level == level,
            s.position@ == v2(0, 0),
            s.player@ == player_init(),
    {
        PlayingLevel { timer: 0, level, position: Vec2::zero(), player: Player::new() }
    }

    /// One frame: advance the counter, refresh against this frame's
    /// input snapshot, run the player update, and compute both sprites'
    /// screen commits relative to the camera — wizard first, hat second.
    pub fn update_frame(&mut self, input: &InputState) -> (commits: (SpriteCommit, SpriteCommit))
        requires
            old(self).wf(),
            old(self).timer < i32::MAX,
        ensures
            final(self).wf(),
            final(self).timer == old(self).timer + 1,
            final(self).level == old(self).level,
            final(self).position == old(self).position,
            final(self).player@ == player_step(
                old(self).player@,
                *input,
                old(self).timer + 1,
                old(self).level,
            ),
            commits.0.x == screen_point(final(self).player@.wizard.position, old(self).position@).x
                - 8,
            commits.0.y == screen_point(final(self).player@.wizard.position, old(self).position@).y
                - 8,
            commits.0.visible == on_screen(
                screen_point(final(self).player@.wizard.position, old(self).position@),
            ),
            commits.1.x == screen_point(final(self).player@.hat.position, old(self).position@).x
                - 8,
            commits.1.y == screen_point(final(self).player@.hat.position, old(self).position@).y
                - 8,
            commits.1.visible == on_screen(
                screen_point(final(self).player@.hat.position, old(self).position@),
            ),
    {
        self.timer = self.timer + 1;
        self.player.update_frame(input, self.timer, &self.level);
        let wizard_commit = self.player.wizard.commit_position(self.position);
        let hat_commit = self.player.hat.commit_position(self.position);
        (wizard_commit, hat_commit)
    }
}

} // verus!
