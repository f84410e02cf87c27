//! Ten-pin bowling scoring over a flat, append-only roll log.
//!
//! A [`Game`] records the pins knocked down by each throw in chronological
//! order and computes the total score on demand by walking ten logical
//! frames: a strike frame earns ten plus the next two rolls, a spare frame
//! ten plus the next roll, an open frame the sum of its own two rolls. The
//! tenth frame needs no special case: its bonus rolls are simply the rolls
//! the walk reads ahead into. A log too short to resolve all ten frames is
//! reported as an explicit error, never an out-of-bounds fault.

use vstd::prelude::*;

pub mod scoring;

use crate::scoring::FRAMES_PER_GAME;
use crate::scoring::PINS_PER_FRAME;
use crate::scoring::complete_from;
use crate::scoring::frame_in_bounds;
use crate::scoring::frame_score_at;
use crate::scoring::game_complete;
use crate::scoring::game_score;
use crate::scoring::is_spare_at;
use crate::scoring::is_strike_at;
use crate::scoring::rolls_valid;
use crate::scoring::score_from;

verus! {

/// Why a score could not be computed.
#[derive(Debug, PartialEq, Eq, Structural)]
pub enum GameError {
    /// The roll log is too short to resolve all ten frames, bonus rolls
    /// included: the game is not finished (or required bonus rolls are
    /// missing).
    IncompleteGame,
}

/// A single game of ten-pin bowling: the ordered log of per-throw pin
/// counts. Created empty, grown one roll at a time, scored any number of
/// times.
pub struct Game {
    rolls: Vec<usize>,
}

impl View for Game {
    type V = Seq<usize>;

    /// A game is abstractly its roll log, in chronological order.
    closed spec fn view(&self) -> Seq<usize> {
        self.rolls@
    }
}

/// What `Game::score` promises of its result: a score exactly when the log
/// records a complete game, and the incomplete-game error otherwise.
pub open spec fn score_result_matches(rolls: Seq<usize>, r: Result<usize, GameError>) -> bool {
    match r {
        Ok(s) => game_complete(rolls) && s == game_score(rolls),
        Err(e) => !game_complete(rolls) && e == GameError::IncompleteGame,
    }
}

/// Law: scoring is a pure read of the roll log. Any two results that meet
/// the score contract for one and the same log are equal, so repeated
/// `score` calls with no intervening `roll` return the same value.
pub proof fn lemma_score_deterministic(
    rolls: Seq<usize>,
    r1: Result<usize, GameError>,
    r2: Result<usize, GameError>,
)
    requires
        score_result_matches(rolls, r1),
        score_result_matches(rolls, r2),
    ensures
        r1 == r2,
{
}

impl Game {
    /// A new game with no rolls recorded.
    pub fn new() -> (g: Game)
        ensures
            g@ == Seq::<usize>::empty(),
    {
        Game { rolls: Vec::new() }
    }

    /// Appends one throw's pin count to the log. Never fails and checks
    /// nothing: well-formed pin counts are the caller's responsibility.
    pub fn roll(&mut self, pins: usize)
        ensures
            final(self)@ == old(self)@.push(pins),
    {
        self.rolls.push(pins)
    }

    /// The total score of the recorded game, or `IncompleteGame` when the
    /// log is too short to resolve all ten frames (bonus rolls included).
    pub fn score(&self) -> (r: Result<usize, GameError>)
        requires
            rolls_valid(self@),
        ensures
            score_result_matches(self@, r),
    {
        let mut total: usize = 0;
        let mut roll_index: usize = 0;
        let mut frame: usize = 0;
        while frame < FRAMES_PER_GAME
            invariant
                rolls_valid(self@),
                frame <= FRAMES_PER_GAME,
                total <= 30 * frame,
                roll_index <= self.rolls.len(),
                game_complete(self@) <==> complete_from(
                    self@,
                    roll_index as int,
                    (FRAMES_PER_GAME - frame) as nat,
                ),
                game_complete(self@) ==> game_score(self@) == total + score_from(
                    self@,
                    roll_index as int,
                    (FRAMES_PER_GAME - frame) as nat,
                ),
            decreases FRAMES_PER_GAME - frame,
        {
            if !self.frame_fits(roll_index) {
                return Err(GameError::IncompleteGame);
            }
            total = total + self.frame_score(roll_index);
            roll_index = roll_index + (if self.is_strike(roll_index) {
                1
            } else {
                2
            });
            frame = frame + 1;
        }
        Ok(total)
    }

    /// Whether the log holds every roll the frame starting at `index`
    /// needs: its own rolls and any bonus roll(s) a strike or spare there
    /// reads ahead into. All log access during scoring goes through this
    /// check, so scoring never indexes out of range.
    fn frame_fits(&self, index: usize) -> (r: bool)
        requires
            rolls_valid(self@),
        ensures
            r == frame_in_bounds(self@, index as int),
    {
        let n = self.rolls.len();
        if index >= n {
            false
        } else if self.is_strike(index) {
            n - index >= 3
        } else if n - index < 2 {
            false
        } else if self.is_spare(index) {
            n - index >= 3
        } else {
            true
        }
    }

    /// The score of the frame whose first roll sits at `index`. Strike
    /// detection comes first: a strike is a single-roll frame, and the
    /// spare test (which reads two rolls starting at `index`) is only
    /// meaningful once a strike has been ruled out.
    fn frame_score(&self, index: usize) -> (s: usize)
        requires
            rolls_valid(self@),
            frame_in_bounds(self@, index as int),
        ensures
            s == frame_score_at(self@, index as int),
            s <= 30,
    {
        proof {
            vstd::std_specs::vec::axiom_spec_len(&self.rolls);
        }
        if self.is_strike(index) {
            PINS_PER_FRAME + self.sum_of_consecutive_rolls(index + 1)
        } else {
            if self.is_spare(index) {
                PINS_PER_FRAME + self.rolls[index + 2]
            } else {
                self.sum_of_consecutive_rolls(index)
            }
        }
    }

    /// The two rolls starting at `index` knock down all ten pins.
    fn is_spare(&self, index: usize) -> (r: bool)
        requires
            rolls_valid(self@),
            index + 1 < self@.len(),
        ensures
            r == is_spare_at(self@, index as int),
    {
        self.sum_of_consecutive_rolls(index) == PINS_PER_FRAME
    }

    /// The roll at `index` knocked down all ten pins.
    fn is_strike(&self, index: usize) -> (r: bool)
        requires
            index < self@.len(),
        ensures
            r == is_strike_at(self@, index as int),
    {
        self.rolls[index] == PINS_PER_FRAME
    }

    /// The sum of the roll at `index` and the one after it.
    fn sum_of_consecutive_rolls(&self, index: usize) -> (s: usize)
        requires
            rolls_valid(self@),
            index + 1 < self@.len(),
        ensures
            s == self@[index as int] + self@[index as int + 1],
            s <= 20,
    {
        proof {
            vstd::std_specs::vec::axiom_spec_len(&self.rolls);
        }
        self.rolls[index] + self.rolls[index + 1]
    }
}

} // verus!
