//! Score and level: what the settlings of a game add up to, and when the
//! music follows the level.

use crate::board::BOARD_HEIGHT;
use crate::pieces::SHAPE_SIZE;
use crate::rows::line_clear_points;
use vstd::prelude::*;

verus! {

/// Completed rows per level.
pub const LEVEL_INC_LINES: u32 = 5;

/// Levels per song.
pub const MUSIC_INC_LEVEL: u32 = 6;

/// Points earned and rows completed.
#[derive(Clone, Copy, Debug, PartialEq, Eq, Structural)]
pub struct Score {
    pub points: u64,
    pub lines_destroyed: u64,
}

/// What a change of level asks of the music.
#[derive(Clone, Copy, Debug, PartialEq, Eq, Structural)]
pub enum MusicChange {
    /// Nothing changes.
    Unchanged,
    /// The next song starts.
    NextSong,
    /// The song goes on, this many semitones higher and faster.
    Rate(u32),
}

/// The number of rows that a settling completed, read off its points. The
/// points of one to four rows lie far enough apart for the bonus of a drop
/// not to blur them.
pub open spec fn lines_of_points(points: nat) -> nat {
    if points == 0 {
        0
    } else if points < line_clear_points(2) {
        1
    } else if points < line_clear_points(3) {
        2
    } else if points < line_clear_points(4) {
        3
    } else {
        4
    }
}

/// The level reached with a number of completed rows.
pub open spec fn level_of(lines_destroyed: u64) -> u32 {
    ((lines_destroyed as u32) / LEVEL_INC_LINES) as u32
}

/// What the music does when the level goes from `before` to `after`: a
/// level that did not rise changes nothing; every sixth level starts the
/// next song; any other level raises the rate, by one step more for each
/// level since the song began.
pub open spec fn music_change(before: u32, after: u32) -> MusicChange {
    if after <= before {
        MusicChange::Unchanged
    } else if after % MUSIC_INC_LEVEL == 0 {
        MusicChange::NextSong
    } else {
        MusicChange::Rate((after % MUSIC_INC_LEVEL + 1) as u32)
    }
}

/// The points of a settling tell how many rows it completed, with or
/// without the bonus of a drop.
pub proof fn lemma_lines_of_points(lines: nat, bonus: nat)
    requires
        lines <= SHAPE_SIZE,
        bonus <= BOARD_HEIGHT + SHAPE_SIZE,
    ensures
        lines_of_points(line_clear_points(lines)) == lines,
        lines > 0 ==> lines_of_points(line_clear_points(lines) + bonus) == lines,
{
}

impl Default for Score {
    fn default() -> (score: Self)
        ensures
            score == (Score { points: 0, lines_destroyed: 0 }),
    {
        Score { points: 0, lines_destroyed: 0 }
    }
}

impl Score {
    /// The score of one settling that earned `points`.
    pub fn of_settling(points: u64) -> (score: Self)
        ensures
            score.points == points,
            score.lines_destroyed == lines_of_points(points as nat),
    {
        let lines_destroyed: u64 = if points == 0 {
            0
        } else if points < 100 {
            1
        } else if points < 300 {
            2
        } else if points < 1200 {
            3
        } else {
            4
        };
        Score { points, lines_destroyed }
    }

    /// Adds another score to this one.
    pub fn increment(&mut self, score: Score)
        requires
            old(self).points + score.points <= u64::MAX,
            old(self).lines_destroyed + score.lines_destroyed <= u64::MAX,
        ensures
            final(self).points == old(self).points + score.points,
            final(self).lines_destroyed == old(self).lines_destroyed + score.lines_destroyed,
    {
        self.points += score.points;
        self.lines_destroyed += score.lines_destroyed;
    }
}

/// The score of a game and the level it has reached.
pub struct Progress {
    score: Score,
    level: u32,
}

impl View for Progress {
    type V = (Score, u32);

    closed spec fn view(&self) -> (Score, u32) {
        (self.score, self.level)
    }
}

impl Progress {
    /// No points, no rows, the first level.
    pub fn new() -> (progress: Self)
        ensures
            progress@ == (Score { points: 0, lines_destroyed: 0 }, 0u32),
    {
        Progress { score: Score::default(), level: 0 }
    }

    pub fn score(&self) -> (score: Score)
        ensures
            score == self@.0,
    {
        self.score
    }

    /// The level, counted from zero.
    pub fn level(&self) -> (level: u32)
        ensures
            level == self@.1,
    {
        self.level
    }

    /// Adds the score of a settling, sets the level that the rows completed
    /// so far amount to, and says what the music does about it.
    pub fn increment_score(&mut self, score: Score) -> (change: MusicChange)
        requires
            old(self)@.0.points + score.points <= u64::MAX,
            old(self)@.0.lines_destroyed + score.lines_destroyed <= u64::MAX,
        ensures
            final(self)@.0.points == old(self)@.0.points + score.points,
            final(self)@.0.lines_destroyed == old(self)@.0.lines_destroyed + score.lines_destroyed,
            final(self)@.1 == level_of(final(self)@.0.lines_destroyed),
            change == music_change(old(self)@.1, final(self)@.1),
    {
        let prev_level = self.level;

        self.score.increment(score);
        self.level = #[verifier::truncate]
        (self.score.lines_destroyed as u32) / LEVEL_INC_LINES;

        if self.level > prev_level {
            if self.level % MUSIC_INC_LEVEL == 0 {
                MusicChange::NextSong
            } else {
                MusicChange::Rate(self.level % MUSIC_INC_LEVEL + 1)
            }
        } else {
            MusicChange::Unchanged
        }
    }
}

} // verus!
