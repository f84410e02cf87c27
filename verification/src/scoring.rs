//! The mathematical model of ten-pin bowling scoring: frame-by-frame
//! predicates over the flat roll log, the completeness condition, and the
//! total score, all as spec functions over a `Seq<usize>` of pin counts.

use vstd::prelude::*;

verus! {

/// How many frames make up one game.
pub const FRAMES_PER_GAME: usize = 10;

/// How many pins stand at the start of a frame.
pub const PINS_PER_FRAME: usize = 10;

/// Every recorded pin count is a physically possible single-throw count.
pub open spec fn rolls_valid(rolls: Seq<usize>) -> bool {
    forall|i: int| 0 <= i < rolls.len() ==> rolls[i] <= PINS_PER_FRAME
}

/// The frame whose first roll sits at `i` is a strike: all ten pins fell on
/// that one throw.
pub open spec fn is_strike_at(rolls: Seq<usize>, i: int) -> bool {
    rolls[i] == PINS_PER_FRAME
}

/// The two rolls starting at `i` together knock down all ten pins. Callers
/// check `is_strike_at` first: this predicate only classifies a frame once a
/// strike has been ruled out.
pub open spec fn is_spare_at(rolls: Seq<usize>, i: int) -> bool {
    rolls[i] + rolls[i + 1] == PINS_PER_FRAME
}

/// By how many rolls the cursor moves past the frame starting at `i`:
/// a strike frame owns one roll, every other frame owns two.
pub open spec fn frame_advance(rolls: Seq<usize>, i: int) -> int {
    if is_strike_at(rolls, i) {
        1
    } else {
        2
    }
}

/// The score of the frame starting at `i`: a strike earns ten plus the next
/// two rolls, a spare ten plus the next roll, an open frame its own two rolls.
pub open spec fn frame_score_at(rolls: Seq<usize>, i: int) -> int {
    if is_strike_at(rolls, i) {
        PINS_PER_FRAME + rolls[i + 1] + rolls[i + 2]
    } else if is_spare_at(rolls, i) {
        PINS_PER_FRAME + rolls[i + 2]
    } else {
        rolls[i] + rolls[i + 1]
    }
}

/// The log holds every roll the frame starting at `i` needs: its own rolls
/// and, for a strike or spare, the bonus roll(s) it reads ahead into.
pub open spec fn frame_in_bounds(rolls: Seq<usize>, i: int) -> bool {
    &&& 0 <= i < rolls.len()
    &&& if is_strike_at(rolls, i) {
        i + 2 < rolls.len()
    } else {
        &&& i + 1 < rolls.len()
        &&& (is_spare_at(rolls, i) ==> i + 2 < rolls.len())
    }
}

/// Walking `frames` frames forward from cursor `i` stays inside the log.
pub open spec fn complete_from(rolls: Seq<usize>, i: int, frames: nat) -> bool
    decreases frames,
{
    frames == 0 || (frame_in_bounds(rolls, i) && complete_from(
        rolls,
        i + frame_advance(rolls, i),
        (frames - 1) as nat,
    ))
}

/// The sum of the scores of `frames` frames, walking forward from cursor `i`.
pub open spec fn score_from(rolls: Seq<usize>, i: int, frames: nat) -> int
    decreases frames,
{
    if frames == 0 {
        0
    } else {
        frame_score_at(rolls, i) + score_from(
            rolls,
            i + frame_advance(rolls, i),
            (frames - 1) as nat,
        )
    }
}

/// The log records a scoreable complete game: all ten frames, bonus rolls
/// included, can be resolved from it.
pub open spec fn game_complete(rolls: Seq<usize>) -> bool {
    complete_from(rolls, 0, FRAMES_PER_GAME as nat)
}

/// The total score of the game recorded in the log.
pub open spec fn game_score(rolls: Seq<usize>) -> int {
    score_from(rolls, 0, FRAMES_PER_GAME as nat)
}

/// Every frame of a log whose rolls all show the same count `c`, with `c`
/// neither a strike nor half a spare, is an open frame worth `c + c`; the
/// walk advances two rolls per frame.
proof fn lemma_uniform_open_frames(rolls: Seq<usize>, i: int, frames: nat, c: usize)
    requires
        c < PINS_PER_FRAME,
        c + c != PINS_PER_FRAME,
        forall|j: int| 0 <= j < rolls.len() ==> rolls[j] == c,
        0 <= i,
        i + 2 * frames <= rolls.len(),
    ensures
        complete_from(rolls, i, frames),
        score_from(rolls, i, frames) == (c + c) * frames,
    decreases frames,
{
    if frames > 0 {
        assert(!is_strike_at(rolls, i));
        assert(!is_spare_at(rolls, i));
        lemma_uniform_open_frames(rolls, i + 2, (frames - 1) as nat, c);
        assert((c + c) * frames == (c + c) + (c + c) * (frames - 1)) by (nonlinear_arith);
    }
}

/// Law: a game of nothing but gutter balls, with at least the twenty rolls
/// a bonus-free game takes, is complete and scores zero.
pub proof fn lemma_gutter_game_scores_zero(rolls: Seq<usize>)
    requires
        rolls.len() >= 2 * FRAMES_PER_GAME,
        forall|j: int| 0 <= j < rolls.len() ==> rolls[j] == 0,
    ensures
        game_complete(rolls),
        game_score(rolls) == 0,
{
    lemma_uniform_open_frames(rolls, 0, FRAMES_PER_GAME as nat, 0);
}

/// Law: a game of nothing but single-pin rolls, with at least the twenty
/// rolls a bonus-free game takes, is complete and scores twenty — one pin
/// per roll, two rolls per frame, no strike or spare bonus anywhere.
pub proof fn lemma_ones_game_scores_twenty(rolls: Seq<usize>)
    requires
        rolls.len() >= 2 * FRAMES_PER_GAME,
        forall|j: int| 0 <= j < rolls.len() ==> rolls[j] == 1,
    ensures
        game_complete(rolls),
        game_score(rolls) == 2 * FRAMES_PER_GAME,
{
    lemma_uniform_open_frames(rolls, 0, FRAMES_PER_GAME as nat, 1);
}

/// Every frame of a log whose rolls are all strikes is worth thirty — ten
/// for its own roll plus the two strike rolls it reads ahead into — and the
/// walk advances one roll per frame.
proof fn lemma_all_strike_frames(rolls: Seq<usize>, i: int, frames: nat)
    requires
        forall|j: int| 0 <= j < rolls.len() ==> rolls[j] == PINS_PER_FRAME,
        0 <= i,
        i + frames + 1 < rolls.len(),
    ensures
        complete_from(rolls, i, frames),
        score_from(rolls, i, frames) == 30 * frames,
    decreases frames,
{
    if frames > 0 {
        assert(is_strike_at(rolls, i));
        lemma_all_strike_frames(rolls, i + 1, (frames - 1) as nat);
    }
}

/// Law: a perfect game — every roll a strike, twelve rolls deep so the
/// tenth frame's two bonus strikes are on the log — is complete and scores
/// three hundred.
pub proof fn lemma_perfect_game_scores_three_hundred(rolls: Seq<usize>)
    requires
        rolls.len() >= 12,
        forall|j: int| 0 <= j < rolls.len() ==> rolls[j] == PINS_PER_FRAME,
    ensures
        game_complete(rolls),
        game_score(rolls) == 300,
{
    lemma_all_strike_frames(rolls, 0, FRAMES_PER_GAME as nat);
}

/// A complete walk of one or more frames from cursor `i` reads past index
/// `i + frames`: every frame consumes at least one roll and the last frame
/// reads at least one roll beyond its own first.
proof fn lemma_complete_from_needs_rolls(rolls: Seq<usize>, i: int, frames: nat)
    requires
        frames > 0,
        complete_from(rolls, i, frames),
    ensures
        i + frames < rolls.len(),
    decreases frames,
{
    if frames > 1 {
        lemma_complete_from_needs_rolls(rolls, i + frame_advance(rolls, i), (frames - 1) as nat);
    }
}

/// Law: a log of ten rolls or fewer — the empty log included — never
/// records a complete game: even ten straight strikes leave bonus rolls
/// unresolved.
pub proof fn lemma_short_log_incomplete(rolls: Seq<usize>)
    requires
        rolls.len() <= FRAMES_PER_GAME,
    ensures
        !game_complete(rolls),
{
    if game_complete(rolls) {
        lemma_complete_from_needs_rolls(rolls, 0, FRAMES_PER_GAME as nat);
    }
}

} // verus!
