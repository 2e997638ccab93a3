//! What holds of every board, whatever the sequence of ticks.
use crate::apple::AppleView;
use crate::board::{latest_turn, BoardView, TurnView};
use crate::snake::{Direction, SegmentView};
use vstd::prelude::*;

verus! {

/// What one tick is given: the intended direction, and the item that
/// replaces the present one if the head reaches it.
pub struct TickInput {
    pub direction: Direction,
    pub spawn: AppleView,
}

impl BoardView {
    /// The board after the ticks of `inputs`, first to last.
    pub open spec fn run(self, inputs: Seq<TickInput>) -> BoardView
        decreases inputs.len(),
    {
        if inputs.len() == 0 {
            self
        } else {
            self.run(inputs.drop_last()).step(inputs.last().direction, inputs.last().spawn)
        }
    }

    /// Whether body segment `i` stands on a cell without a recorded turn when
    /// tick number `k` of `inputs` moves the body. The turn that the head
    /// makes in that very tick counts as recorded.
    pub open spec fn meets_no_turn(self, inputs: Seq<TickInput>, k: int, i: int) -> bool {
        let before = self.run(inputs.take(k));
        latest_turn(before.steered(inputs[k].direction).turns, before.tail[i].x, before.tail[i].y)
            is None
    }
}

/// Recording a turn makes it the answer for its own cell and changes the
/// answer for no other cell.
pub proof fn lemma_latest_turn_after_record(turns: Seq<TurnView>, turn: TurnView, x: int, y: int)
    ensures
        latest_turn(turns.push(turn), x, y) == if turn.x == x && turn.y == y {
            Some(turn.direction)
        } else {
            latest_turn(turns, x, y)
        },
{
    assert(turns.push(turn).drop_last() =~= turns);
}

/// A lookup finds nothing exactly where no turn was recorded at the cell.
/// What it finds is the direction of a turn recorded at the cell after which
/// no other turn was recorded there.
pub proof fn lemma_latest_turn_is_last_recorded(turns: Seq<TurnView>, x: int, y: int)
    ensures
        latest_turn(turns, x, y) is None <==> forall|k: int|
            0 <= k < turns.len() ==> !((#[trigger] turns[k]).x == x && turns[k].y == y),
        latest_turn(turns, x, y) is Some ==> exists|k: int|
            {
                &&& 0 <= k < turns.len()
                &&& (#[trigger] turns[k]).x == x
                &&& turns[k].y == y
                &&& latest_turn(turns, x, y) == Some(turns[k].direction)
                &&& forall|j: int|
                    k < j < turns.len() ==> !((#[trigger] turns[j]).x == x && turns[j].y == y)
            },
    decreases turns.len(),
{
    if turns.len() > 0 {
        let earlier = turns.drop_last();
        lemma_latest_turn_is_last_recorded(earlier, x, y);
        if turns.last().x == x && turns.last().y == y {
            assert(turns[turns.len() - 1] == turns.last());
        } else {
            if latest_turn(earlier, x, y) is Some {
                let k = choose|k: int|
                    {
                        &&& 0 <= k < earlier.len()
                        &&& (#[trigger] earlier[k]).x == x
                        &&& earlier[k].y == y
                        &&& latest_turn(earlier, x, y) == Some(earlier[k].direction)
                        &&& forall|j: int|
                            k < j < earlier.len() ==> !((#[trigger] earlier[j]).x == x
                                && earlier[j].y == y)
                    };
                assert forall|j: int| k < j < turns.len() implies !((#[trigger] turns[j]).x == x
                    && turns[j].y == y) by {
                    if j < earlier.len() {
                        assert(earlier[j] == turns[j]);
                    }
                }
            } else {
                assert forall|k: int| 0 <= k < turns.len() implies !((#[trigger] turns[k]).x == x
                    && turns[k].y == y) by {
                    if k < earlier.len() {
                        assert(earlier[k] == turns[k]);
                    }
                }
            }
        }
    }
}

/// A body segment that stands on a cell with a recorded turn when the body
/// moves leaves the tick facing the recorded direction, one cell further
/// along that direction and not along the facing it had. The tick that
/// appends a segment moves no segment and is left out.
pub proof fn lemma_turn_adoption(
    board: BoardView,
    direction: Direction,
    spawn: AppleView,
    i: int,
    recorded: Direction,
)
    requires
        0 <= i < board.tail.len(),
        !board.growing,
        latest_turn(board.steered(direction).turns, board.tail[i].x, board.tail[i].y) == Some(
            recorded,
        ),
    ensures
        board.step(direction, spawn).tail.len() == board.tail.len(),
        board.step(direction, spawn).tail[i] == (SegmentView {
            x: board.tail[i].x + recorded.dx(),
            y: board.tail[i].y + recorded.dy(),
            facing: recorded,
        }),
{
}

/// A body segment that stands on a cell without a recorded turn when the
/// body moves keeps its facing and advances along it.
pub proof fn lemma_no_adoption_without_match(
    board: BoardView,
    direction: Direction,
    spawn: AppleView,
    i: int,
)
    requires
        0 <= i < board.tail.len(),
        !board.growing,
        latest_turn(board.steered(direction).turns, board.tail[i].x, board.tail[i].y) is None,
    ensures
        board.step(direction, spawn).tail.len() == board.tail.len(),
        board.step(direction, spawn).tail[i] == board.tail[i].advanced(),
{
}

/// A body segment that in none of the ticks of `inputs` stands on a cell
/// with a recorded turn has, after all of them, the facing it started with.
pub proof fn lemma_facing_kept_without_match(board: BoardView, inputs: Seq<TickInput>, i: int)
    requires
        0 <= i < board.tail.len(),
        forall|k: int| 0 <= k < inputs.len() ==> #[trigger] board.meets_no_turn(inputs, k, i),
    ensures
        i < board.run(inputs).tail.len(),
        board.run(inputs).tail[i].facing == board.tail[i].facing,
    decreases inputs.len(),
{
    if inputs.len() > 0 {
        let earlier = inputs.drop_last();
        assert forall|k: int| 0 <= k < earlier.len() implies #[trigger] board.meets_no_turn(
            earlier,
            k,
            i,
        ) by {
            assert(board.meets_no_turn(inputs, k, i));
            assert(earlier.take(k) =~= inputs.take(k));
        }
        lemma_facing_kept_without_match(board, earlier, i);
        let last = inputs.len() - 1;
        assert(board.meets_no_turn(inputs, last, i));
    }
}

/// The tick after one in which the head reached the item appends exactly
/// one segment, on the cell where the item was eaten, which is the cell that
/// the head leaves in that tick. No other segment moves or turns in it.
pub proof fn lemma_growth_placement(board: BoardView, first: TickInput, second: TickInput)
    requires
        board.eats(first.direction),
    ensures
        ({
            let eaten = board.step(first.direction, first.spawn);
            let grown = eaten.step(second.direction, second.spawn);
            &&& eaten.growing
            &&& eaten.head.is_at(board.item.x, board.item.y)
            &&& grown.tail.len() == eaten.tail.len() + 1
            &&& grown.tail.last().is_at(eaten.head.x, eaten.head.y)
            &&& grown.tail.last().facing == Direction::Down
            &&& forall|j: int| 0 <= j < eaten.tail.len() ==> grown.tail[j] == eaten.tail[j]
            &&& grown.head == eaten.head.turned(second.direction).advanced()
        }),
{
}

/// A tick on which growth is pending appends one segment on the head's cell
/// and leaves every other segment where and as it was.
pub proof fn lemma_growth_moves_no_segment(board: BoardView, direction: Direction, spawn: AppleView)
    requires
        board.growing,
    ensures
        board.step(direction, spawn).tail == board.tail.push(
            SegmentView { x: board.head.x, y: board.head.y, facing: Direction::Down },
        ),
{
}

/// A tick changes the length of the body only by appending: by one segment
/// where growth was pending, by none otherwise.
pub proof fn lemma_tail_length(board: BoardView, direction: Direction, spawn: AppleView)
    ensures
        board.step(direction, spawn).tail.len() == board.tail.len() + if board.growing {
            1int
        } else {
            0int
        },
{
}

/// A tick raises the score by one exactly when it ends with the head on the
/// item, and then replaces the item by the spawned one and leaves growth
/// pending. Any other tick keeps score and item.
pub proof fn lemma_score_step(board: BoardView, direction: Direction, spawn: AppleView)
    ensures
        board.eats(direction) ==> {
            &&& board.step(direction, spawn).score == board.score + 1
            &&& board.step(direction, spawn).item == spawn
            &&& board.step(direction, spawn).growing
        },
        !board.eats(direction) ==> {
            &&& board.step(direction, spawn).score == board.score
            &&& board.step(direction, spawn).item == board.item
        },
{
}

/// Over any sequence of ticks the score never falls, and it rises by at most
/// one per tick.
pub proof fn lemma_score_never_falls(board: BoardView, inputs: Seq<TickInput>)
    ensures
        board.score <= board.run(inputs).score <= board.score + inputs.len(),
    decreases inputs.len(),
{
    if inputs.len() > 0 {
        lemma_score_never_falls(board, inputs.drop_last());
    }
}

/// The head always advances: after a tick it stands one cell from where it
/// stood, along the intended direction, and faces that direction.
pub proof fn lemma_head_always_advances(board: BoardView, direction: Direction, spawn: AppleView)
    ensures
        board.step(direction, spawn).head == (SegmentView {
            x: board.head.x + direction.dx(),
            y: board.head.y + direction.dy(),
            facing: direction,
        }),
{
}

/// The head's turn is recorded at the cell where it was made, so that a
/// lookup of that cell gives the new direction; a tick that keeps the
/// head's facing records nothing.
pub proof fn lemma_turn_recorded_where_made(board: BoardView, direction: Direction, spawn: AppleView)
    ensures
        direction != board.head.facing ==> {
            &&& board.step(direction, spawn).turns == board.turns.push(
                TurnView { x: board.head.x, y: board.head.y, direction },
            )
            &&& latest_turn(board.step(direction, spawn).turns, board.head.x, board.head.y)
                == Some(direction)
        },
        direction == board.head.facing ==> board.step(direction, spawn).turns == board.turns,
{
    if direction != board.head.facing {
        lemma_latest_turn_after_record(
            board.turns,
            TurnView { x: board.head.x, y: board.head.y, direction },
            board.head.x,
            board.head.y,
        );
    }
}

/// The item is drawn first and the head last, with the body between them in
/// its own order, whatever the length of the body.
pub proof fn lemma_render_order(board: BoardView)
    ensures
        board.renderables().len() == board.tail.len() + 2,
        board.renderables().first() == board.item.render(),
        board.renderables().last() == board.head.render(),
        forall|i: int|
            0 <= i < board.tail.len() ==> #[trigger] board.renderables()[i + 1]
                == board.tail[i].render(),
{
}

} // verus!
