//! The board: the head, the body that follows it, the item, the record of
//! turns and the score, advanced one step per tick.
use crate::apple::{Apple, AppleView};
use crate::screen_representation::{RenderView, ScreenRepresentable, ScreenRepresentation};
use crate::snake::{Direction, SegmentView, SnakeNode};
use vstd::prelude::*;

verus! {

/// Number of columns of the grid.
pub const SCREEN_WIDTH: i32 = 80;

/// Number of rows of the grid.
pub const SCREEN_HEIGHT: i32 = 50;

/// Something that stands on a cell of the grid.
pub trait Position {
    /// The column of the cell.
    spec fn x_position(&self) -> int;

    /// The row of the cell.
    spec fn y_position(&self) -> int;

    /// The column of the cell.
    fn get_x_position(&self) -> (x: i32)
        ensures
            x == self.x_position(),
    ;

    /// The row of the cell.
    fn get_y_position(&self) -> (y: i32)
        ensures
            y == self.y_position(),
    ;
}

/// A recorded turn as the contracts see it: whoever stands on the cell
/// `(x, y)` is to face `direction`.
pub struct TurnView {
    pub x: int,
    pub y: int,
    pub direction: Direction,
}

/// The record that the head changed its facing on a cell.
#[derive(Clone, Copy, Debug)]
pub struct Turn {
    pub x_position: i32,
    pub y_position: i32,
    pub direction: Direction,
}

impl View for Turn {
    type V = TurnView;

    open spec fn view(&self) -> TurnView {
        TurnView { x: self.x_position as int, y: self.y_position as int, direction: self.direction }
    }
}

impl Turn {
    /// A turn to `direction` recorded at the given cell.
    pub fn new(x_position: i32, y_position: i32, direction: Direction) -> (turn: Self)
        ensures
            turn@ == (TurnView { x: x_position as int, y: y_position as int, direction }),
    {
        Turn { x_position, y_position, direction }
    }
}

impl Position for Turn {
    open spec fn x_position(&self) -> int {
        self@.x
    }

    open spec fn y_position(&self) -> int {
        self@.y
    }

    fn get_x_position(&self) -> (x: i32) {
        self.x_position
    }

    fn get_y_position(&self) -> (y: i32) {
        self.y_position
    }
}

/// The direction that the record holds for the cell `(x, y)`: that of the
/// turn recorded there last, or nothing where no turn was recorded.
pub open spec fn latest_turn(turns: Seq<TurnView>, x: int, y: int) -> Option<Direction>
    decreases turns.len(),
{
    if turns.len() == 0 {
        None
    } else if turns.last().x == x && turns.last().y == y {
        Some(turns.last().direction)
    } else {
        latest_turn(turns.drop_last(), x, y)
    }
}

impl SegmentView {
    /// The segment after it has looked its own cell up in the record: it
    /// faces the way recorded there, or keeps its facing where nothing is.
    pub open spec fn steered_by(self, turns: Seq<TurnView>) -> SegmentView {
        match latest_turn(turns, self.x, self.y) {
            Some(direction) => self.turned(direction),
            None => self,
        }
    }

    /// One step of a body segment: adopt the turn recorded at its cell, if
    /// any, then advance one cell along the facing it then has.
    pub open spec fn followed(self, turns: Seq<TurnView>) -> SegmentView {
        self.steered_by(turns).advanced()
    }
}

/// The views of a vector of segments, in order.
pub open spec fn segment_views(nodes: Seq<SnakeNode>) -> Seq<SegmentView> {
    nodes.map_values(|node: SnakeNode| node@)
}

/// The views of a vector of turns, in order.
pub open spec fn turn_views(turns: Seq<Turn>) -> Seq<TurnView> {
    turns.map_values(|turn: Turn| turn@)
}

/// The views of a vector of drawable records, in order.
pub open spec fn render_views(representations: Seq<ScreenRepresentation>) -> Seq<RenderView> {
    representations.map_values(|representation: ScreenRepresentation| representation@)
}

/// The board as the contracts see it, on the unbounded integer grid.
pub struct BoardView {
    /// How often the head has reached the item.
    pub score: int,
    pub head: SegmentView,
    /// The body, in the order in which the segments were appended.
    pub tail: Seq<SegmentView>,
    /// Whether the next tick appends a segment in place of moving the body.
    pub growing: bool,
    pub item: AppleView,
    /// Every turn of the head, oldest first.
    pub turns: Seq<TurnView>,
}

impl BoardView {
    /// The head takes the intended direction. Where that changes its facing,
    /// the turn is recorded at the head's cell.
    pub open spec fn steered(self, direction: Direction) -> BoardView {
        if direction != self.head.facing {
            BoardView {
                head: self.head.turned(direction),
                turns: self.turns.push(
                    TurnView { x: self.head.x, y: self.head.y, direction },
                ),
                ..self
            }
        } else {
            self
        }
    }

    /// The body's part of a tick. Where growth is pending, one segment is
    /// appended on the head's cell, facing down, and no segment moves.
    /// Otherwise every segment adopts the turn recorded at its cell and
    /// advances.
    pub open spec fn tail_stepped(self) -> BoardView {
        if self.growing {
            BoardView {
                tail: self.tail.push(
                    SegmentView { x: self.head.x, y: self.head.y, facing: Direction::Down },
                ),
                growing: false,
                ..self
            }
        } else {
            BoardView {
                tail: self.tail.map_values(|segment: SegmentView| segment.followed(self.turns)),
                ..self
            }
        }
    }

    /// The head advances one cell.
    pub open spec fn head_stepped(self) -> BoardView {
        BoardView { head: self.head.advanced(), ..self }
    }

    /// The movement of a tick: steer the head, step the body, advance the head.
    pub open spec fn moved(self, direction: Direction) -> BoardView {
        self.steered(direction).tail_stepped().head_stepped()
    }

    /// Whether the head stands on the item.
    pub open spec fn head_on_item(self) -> bool {
        self.head.is_at(self.item.x, self.item.y)
    }

    /// The end of a tick. Where the head stands on the item, the score goes
    /// up by one, the item is replaced by `spawn` and growth is pending.
    pub open spec fn settled(self, spawn: AppleView) -> BoardView {
        if self.head_on_item() {
            BoardView { score: self.score + 1, item: spawn, growing: true, ..self }
        } else {
            self
        }
    }

    /// One whole tick with the intended direction, where `spawn` is the item
    /// that replaces an eaten one.
    pub open spec fn step(self, direction: Direction, spawn: AppleView) -> BoardView {
        self.moved(direction).settled(spawn)
    }

    /// Whether a tick with `direction` ends with the head on the item.
    pub open spec fn eats(self, direction: Direction) -> bool {
        self.moved(direction).head_on_item()
    }

    /// Whether every number of the board can be held in an `i32`.
    pub open spec fn fits(self) -> bool {
        &&& i32::MIN <= self.score <= i32::MAX
        &&& self.head.fits()
        &&& forall|i: int| 0 <= i < self.tail.len() ==> (#[trigger] self.tail[i]).fits()
    }

    /// What a renderer is given: the item first, then the body in the order
    /// in which its segments were appended, then the head.
    pub open spec fn renderables(self) -> Seq<RenderView> {
        seq![self.item.render()] + self.tail.map_values(|segment: SegmentView| segment.render())
            + seq![self.head.render()]
    }
}

/// The simulation: one head, its body, one item, the turns recorded so far
/// and the score.
pub struct Board {
    pub score: i32,
    pub snake_head: SnakeNode,
    pub snake_tail: Vec<SnakeNode>,
    pub should_add_to_tail: bool,
    pub apple: Apple,
    pub turns: Vec<Turn>,
}

impl View for Board {
    type V = BoardView;

    open spec fn view(&self) -> BoardView {
        BoardView {
            score: self.score as int,
            head: self.snake_head@,
            tail: segment_views(self.snake_tail@),
            growing: self.should_add_to_tail,
            item: self.apple@,
            turns: turn_views(self.turns@),
        }
    }
}

impl Board {
    /// The opening position: the head on (10, 10) facing down, no body, the
    /// item on (20, 20), no turn recorded, a score of 0.
    pub fn new() -> (board: Self)
        ensures
            board@ == (BoardView {
                score: 0,
                head: SegmentView { x: 10, y: 10, facing: Direction::Down },
                tail: Seq::empty(),
                growing: false,
                item: AppleView { x: 20, y: 20 },
                turns: Seq::empty(),
            }),
    {
        let board = Board {
            score: 0,
            snake_head: SnakeNode::new(10, 10),
            snake_tail: Vec::new(),
            should_add_to_tail: false,
            apple: Apple::new(20, 20),
            turns: Vec::new(),
        };
        assert(board@.tail =~= Seq::empty());
        assert(board@.turns =~= Seq::empty());
        board
    }

    /// The score. The board is left as it was.
    pub fn get_score(&mut self) -> (score: i32)
        ensures
            score == old(self)@.score,
            *final(self) == *old(self),
    {
        return self.score;
    }

    /// Whether two things stand on the same cell.
    pub fn are_at_same_position(a: &impl Position, b: &impl Position) -> (same: bool)
        ensures
            same == (a.x_position() == b.x_position() && a.y_position() == b.y_position()),
    {
        a.get_x_position() == b.get_x_position() && a.get_y_position() == b.get_y_position()
    }

    /// Replaces the item by one on a random cell of the grid, with both
    /// coordinates at least 1. Nothing else changes.
    pub fn generate_random_apple(&mut self)
        ensures
            final(self)@ == (BoardView { item: final(self)@.item, ..old(self)@ }),
            final(self)@.item.spawnable(SCREEN_WIDTH as int, SCREEN_HEIGHT as int),
    {
        self.apple = Apple::spawn(SCREEN_WIDTH, SCREEN_HEIGHT);
    }

    /// Records a turn to the head's facing at the head's cell.
    pub fn add_turn_at_player_position_with_player_facing(&mut self)
        ensures
            final(self)@ == (BoardView {
                turns: old(self)@.turns.push(
                    TurnView {
                        x: old(self)@.head.x,
                        y: old(self)@.head.y,
                        direction: old(self)@.head.facing,
                    },
                ),
                ..old(self)@
            }),
    {
        let x_position = self.snake_head.get_x_position();
        let y_position = self.snake_head.get_y_position();

        self.turns.push(Turn::new(x_position, y_position, self.snake_head.get_facing()));
        assert(self@.turns =~= old(self)@.turns.push(
            TurnView {
                x: old(self)@.head.x,
                y: old(self)@.head.y,
                direction: old(self)@.head.facing,
            },
        ));
    }

    /// Looks a cell up in a record of turns: the direction of the turn that
    /// was recorded last at the cell where `place` stands, if there is one.
    pub fn find_turn(turns: &Vec<Turn>, place: &impl Position) -> (found: Option<Direction>)
        ensures
            found == latest_turn(turn_views(turns@), place.x_position(), place.y_position()),
    {
        let mut found: Option<Direction> = None;
        let mut turn_index: usize = 0;
        while turn_index < turns.len()
            invariant
                turn_index <= turns.len(),
                found == latest_turn(
                    turn_views(turns@).take(turn_index as int),
                    place.x_position(),
                    place.y_position(),
                ),
            decreases turns.len() - turn_index,
        {
            if Self::are_at_same_position(place, &turns[turn_index]) {
                found = Some(turns[turn_index].direction);
            }
            proof {
                let seen = turn_views(turns@).take(turn_index + 1);
                assert(seen.drop_last() =~= turn_views(turns@).take(turn_index as int));
            }
            turn_index += 1;
        }
        assert(turn_views(turns@).take(turns.len() as int) =~= turn_views(turns@));
        found
    }

    /// The movement of a tick. The head takes `new_direction`, and a change
    /// of facing is recorded at its cell. Then either the pending segment is
    /// appended on the head's cell, or every body segment adopts the turn
    /// recorded at its cell and advances. Last the head advances.
    pub fn move_snake(&mut self, new_direction: Direction)
        requires
            old(self)@.moved(new_direction).fits(),
        ensures
            final(self)@ == old(self)@.moved(new_direction),
    {
        if new_direction != self.snake_head.get_facing() {
            self.snake_head.change_facing(new_direction);
            self.add_turn_at_player_position_with_player_facing();
        }
        let ghost steered = self@;

        if self.should_add_to_tail {
            self.snake_tail.push(
                SnakeNode::new(self.snake_head.get_x_position(), self.snake_head.get_y_position()),
            );

            self.should_add_to_tail = false;
            assert(self@.tail =~= steered.tail_stepped().tail);
        } else {
            let tail_length = self.snake_tail.len();
            let mut tail_index: usize = 0;
            assert forall|i: int| 0 <= i < tail_length implies (#[trigger] steered.tail[i]).followed(
                steered.turns,
            ).fits() by {
                assert(old(self)@.moved(new_direction).tail[i].fits());
            }
            while tail_index < tail_length
                invariant
                    tail_index <= tail_length,
                    tail_length == self.snake_tail.len(),
                    steered.tail.len() == tail_length,
                    self@ == (BoardView { tail: self@.tail, ..steered }),
                    forall|i: int|
                        0 <= i < tail_length ==> (#[trigger] steered.tail[i]).followed(
                            steered.turns,
                        ).fits(),
                    forall|i: int|
                        0 <= i < tail_index ==> (#[trigger] self.snake_tail@[i])@
                            == steered.tail[i].followed(steered.turns),
                    forall|i: int|
                        tail_index <= i < tail_length ==> (#[trigger] self.snake_tail@[i])@
                            == steered.tail[i],
                decreases tail_length - tail_index,
            {
                let mut node = self.snake_tail[tail_index];
                if let Some(direction) = Self::find_turn(&self.turns, &node) {
                    node.change_facing(direction);
                }
                node.move_forward();
                self.snake_tail[tail_index] = node;
                tail_index += 1;
            }
            assert(self@.tail =~= steered.tail_stepped().tail);
        }

        self.snake_head.move_forward();
    }

    /// One tick with the intended direction, where `spawn` is the item that
    /// takes the place of the present one if the head reaches it. After the
    /// movement, a head that stands on the item scores one point, has the
    /// item replaced and makes the next tick append a segment.
    pub fn tick_with_apple(&mut self, new_direction: Direction, spawn: Apple)
        requires
            old(self)@.step(new_direction, spawn@).fits(),
        ensures
            final(self)@ == old(self)@.step(new_direction, spawn@),
    {
        assert(old(self)@.step(new_direction, spawn@).tail == old(self)@.moved(new_direction).tail);
        self.move_snake(new_direction);

        if Self::are_at_same_position(&self.snake_head, &self.apple) {
            self.score += 1;
            self.apple = spawn;
            self.should_add_to_tail = true;
        }
    }

    /// One tick with the intended direction. It is `tick_with_apple` with an
    /// item that, where the head reaches the present one, is drawn at random
    /// from the cells of the grid with both coordinates at least 1.
    pub fn tick(&mut self, new_direction: Direction)
        requires
            old(self)@.step(new_direction, old(self)@.item).fits(),
        ensures
            exists|spawn: AppleView|
                spawn.spawnable(SCREEN_WIDTH as int, SCREEN_HEIGHT as int) && final(self)@
                    == #[trigger] old(self)@.step(new_direction, spawn),
            final(self)@ == old(self)@.step(new_direction, final(self)@.item),
            old(self)@.eats(new_direction) ==> final(self)@.item.spawnable(
                SCREEN_WIDTH as int,
                SCREEN_HEIGHT as int,
            ),
            !old(self)@.eats(new_direction) ==> final(self)@.item == old(self)@.item,
    {
        assert(old(self)@.step(new_direction, old(self)@.item).tail == old(self)@.moved(
            new_direction,
        ).tail);
        self.move_snake(new_direction);

        if Self::are_at_same_position(&self.snake_head, &self.apple) {
            self.score += 1;
            self.generate_random_apple();
            self.should_add_to_tail = true;
        } else {
            assert(self@ == old(self)@.step(new_direction, AppleView { x: 1, y: 1 }));
        }
    }

    /// The direction that a tick is to be given for the input of a frame:
    /// the direction pressed, or the head's present facing where none was.
    pub fn intended_direction(&self, pressed: Option<Direction>) -> (direction: Direction)
        ensures
            direction == match pressed {
                Some(chosen) => chosen,
                None => self@.head.facing,
            },
    {
        match pressed {
            Some(chosen) => chosen,
            None => self.snake_head.facing,
        }
    }

    /// Whether `tick` and `tick_with_apple` may be called with this
    /// direction: no coordinate and no score would leave the range of `i32`.
    pub fn can_tick(&self, new_direction: Direction) -> (ok: bool)
        ensures
            ok == self@.step(new_direction, self@.item).fits(),
            forall|spawn: AppleView|
                ok == #[trigger] self@.step(new_direction, spawn).fits(),
    {
        let ghost steered = self@.steered(new_direction);
        let ghost stepped = self@.step(new_direction, self@.item);
        assert forall|spawn: AppleView|
            stepped.fits() == #[trigger] self@.step(new_direction, spawn).fits() by {
            assert(self@.step(new_direction, spawn).tail == stepped.tail);
        }

        let turns_here = new_direction != self.snake_head.facing;
        let mut head = self.snake_head;
        head.change_facing(new_direction);
        if !head.can_move_forward() {
            return false;
        }
        head.move_forward();
        if self.score == i32::MAX && Self::are_at_same_position(&head, &self.apple) {
            return false;
        }
        if self.should_add_to_tail {
            return true;
        }
        let mut tail_index: usize = 0;
        while tail_index < self.snake_tail.len()
            invariant
                tail_index <= self.snake_tail.len(),
                steered == self@.steered(new_direction),
                stepped == self@.step(new_direction, self@.item),
                stepped.tail == steered.tail_stepped().tail,
                stepped.head.fits(),
                i32::MIN <= stepped.score <= i32::MAX,
                forall|spawn: AppleView|
                    stepped.fits() == #[trigger] self@.step(new_direction, spawn).fits(),
                !self.should_add_to_tail,
                turns_here == (new_direction != self.snake_head.facing),
                forall|i: int|
                    0 <= i < tail_index ==> (#[trigger] self@.tail[i]).followed(
                        steered.turns,
                    ).fits(),
            decreases self.snake_tail.len() - tail_index,
        {
            let mut node = self.snake_tail[tail_index];
            let found = if turns_here && Self::are_at_same_position(&node, &self.snake_head) {
                Some(new_direction)
            } else {
                Self::find_turn(&self.turns, &node)
            };
            proof {
                if turns_here {
                    assert(steered.turns.drop_last() =~= self@.turns);
                }
            }
            if let Some(direction) = found {
                node.change_facing(direction);
            }
            if !node.can_move_forward() {
                assert(!stepped.tail[tail_index as int].fits());
                return false;
            }
            tail_index += 1;
        }
        assert forall|i: int| 0 <= i < stepped.tail.len() implies (#[trigger] stepped.tail[i]).fits() by {
        }
        true
    }

    /// The drawable records of the body, in the order of the body.
    pub fn get_screen_representations_from_tail(&mut self) -> (representations: Vec<
        ScreenRepresentation,
    >)
        ensures
            render_views(representations@) == old(self)@.tail.map_values(
                |segment: SegmentView| segment.render(),
            ),
            *final(self) == *old(self),
    {
        let mut representations: Vec<ScreenRepresentation> = Vec::new();
        let mut tail_index: usize = 0;
        while tail_index < self.snake_tail.len()
            invariant
                *self == *old(self),
                tail_index <= self.snake_tail.len(),
                representations@.len() == tail_index,
                forall|i: int|
                    0 <= i < tail_index ==> representations@[i]@ == self@.tail[i].render(),
            decreases self.snake_tail.len() - tail_index,
        {
            representations.push(self.snake_tail[tail_index].get_screen_representation());
            tail_index += 1;
        }
        representations
    }

    /// What a renderer is to draw, in drawing order: the item first, then
    /// the body in the order in which its segments were appended, then the
    /// head, so that the head is drawn over everything else.
    pub fn get_screen_representations(&mut self) -> (representations: Vec<ScreenRepresentation>)
        ensures
            render_views(representations@) == old(self)@.renderables(),
            representations@.len() == old(self)@.tail.len() + 2,
            representations@.first()@ == old(self)@.item.render(),
            representations@.last()@ == old(self)@.head.render(),
            forall|i: int|
                0 <= i < old(self)@.tail.len() ==> (#[trigger] representations@[i + 1])@
                    == old(self)@.tail[i].render(),
            *final(self) == *old(self),
    {
        let mut representable_objects: Vec<ScreenRepresentation> = Vec::new();

        representable_objects.push(self.apple.get_screen_representation());
        let mut from_tail = self.get_screen_representations_from_tail();
        representable_objects.append(&mut from_tail);
        representable_objects.push(self.snake_head.get_screen_representation());

        assert forall|i: int| 0 <= i < self@.tail.len() implies (#[trigger] representable_objects@[i
            + 1])@ == self@.tail[i].render() by {
            assert(render_views(representable_objects@)[i + 1] == self@.renderables()[i + 1]);
        }
        return representable_objects;
    }
}

} // verus!
