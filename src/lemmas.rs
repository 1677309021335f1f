use vstd::prelude::*;

use crate::game::GameView;
use crate::geometry::{Direction, Point};

verus! {

/// Putting a point that `s` does not hold in front of `s` keeps its points distinct.
pub proof fn lemma_push_front_distinct(s: Seq<Point>, p: Point)
    requires
        s.no_duplicates(),
        !s.contains(p),
    ensures
        (seq![p] + s).no_duplicates(),
{
    let g = seq![p] + s;
    assert forall|i: int, j: int| 0 <= i < g.len() && 0 <= j < g.len() && i != j implies g[i] != g[j] by {
        if i == 0 {
            assert(s[j - 1] == g[j]);
        } else if j == 0 {
            assert(s[i - 1] == g[i]);
        } else {
            assert(g[i] == s[i - 1] && g[j] == s[j - 1]);
        }
    }
}

/// Dropping the last point keeps the points of a sequence distinct.
pub proof fn lemma_drop_last_distinct(s: Seq<Point>)
    requires
        s.len() > 0,
        s.no_duplicates(),
    ensures
        s.drop_last().no_duplicates(),
{
    let d = s.drop_last();
    assert forall|i: int, j: int| 0 <= i < d.len() && 0 <= j < d.len() && i != j implies d[i] != d[j] by {
        assert(d[i] == s[i] && d[j] == s[j]);
    }
}

/// A step keeps every state good: the body stays non-empty and, while the
/// game runs, on the board with no two segments on one cell.
pub proof fn lemma_step_keeps_wf(before: GameView, after: GameView)
    requires
        before.wf(),
        before.steps_to(after),
    ensures
        after.wf(),
        !after.terminated ==> after.snake.no_duplicates(),
{
    if !before.terminated && !before.hits_wall() && !before.hits_self() {
        let n = before.next_head();
        let grown = seq![n] + before.snake;
        assert(n.within(before.width, before.height));
        lemma_push_front_distinct(before.snake, n);
        assert forall|i: int| 0 <= i < grown.len() implies (#[trigger] grown[i]).within(
            before.width,
            before.height,
        ) by {
            if i > 0 {
                assert(grown[i] == before.snake[i - 1]);
            }
        }
        if n != before.food {
            lemma_drop_last_distinct(grown);
            assert forall|i: int| 0 <= i < grown.drop_last().len() implies (
            #[trigger] grown.drop_last()[i]).within(before.width, before.height) by {
                assert(grown.drop_last()[i] == grown[i]);
            }
        }
    }
}

/// A step that eats grows the body by one segment and raises the score by
/// one; any other step keeps both the length and the score.
pub proof fn lemma_step_growth(before: GameView, after: GameView)
    requires
        before.wf(),
        before.steps_to(after),
    ensures
        before.eats() ==> after.snake.len() == before.snake.len() + 1,
        before.eats() ==> after.score == before.score + 1,
        !before.eats() ==> after.snake.len() == before.snake.len(),
        !before.eats() ==> after.score == before.score,
{
}

/// A running snake at the right edge, heading right, ends the game with its
/// next step and keeps its body as it was.
pub proof fn lemma_wall_ends_game(before: GameView, after: GameView)
    requires
        before.wf(),
        !before.terminated,
        before.dir == Direction::Right,
        before.head().x == before.width - 1,
        before.steps_to(after),
    ensures
        after.terminated,
        after.snake == before.snake,
{
}

/// Food that a step puts back on a running board lies on the board and off
/// the body.
pub proof fn lemma_food_placed_off_body(before: GameView, after: GameView)
    requires
        before.wf(),
        before.eats(),
        before.steps_to(after),
        !after.terminated,
    ensures
        after.food.within(after.width, after.height),
        !after.snake.contains(after.food),
{
}

/// How many of the steps along `run` ate, each state leading to the next.
pub open spec fn meals(run: Seq<GameView>) -> nat
    decreases run.len(),
{
    if run.len() <= 1 {
        0
    } else {
        meals(run.drop_last()) + if run[run.len() - 2].eats() {
            1nat
        } else {
            0nat
        }
    }
}

/// Along any run of steps the score never falls, and it rises by exactly
/// one for each step that ate.
pub proof fn lemma_score_counts_meals(run: Seq<GameView>)
    requires
        run.len() > 0,
        forall|i: int| 0 <= i < run.len() - 1 ==> (#[trigger] run[i]).steps_to(run[i + 1]),
    ensures
        run.last().score == run[0].score + meals(run),
        run.last().score >= run[0].score,
    decreases run.len(),
{
    if run.len() > 1 {
        let prefix = run.drop_last();
        assert forall|i: int| 0 <= i < prefix.len() - 1 implies (#[trigger] prefix[i]).steps_to(
            prefix[i + 1],
        ) by {
            assert(prefix[i] == run[i] && prefix[i + 1] == run[i + 1]);
            assert(run[i].steps_to(run[i + 1]));
        }
        lemma_score_counts_meals(prefix);
        let k = run.len() - 2;
        assert(run[k].steps_to(run[k + 1]));
        assert(prefix.last() == run[k]);
    }
}

} // verus!
