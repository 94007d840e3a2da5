//! The store of the entities on the board: the snake's segments, ordered from
//! head to tail, and the food.

use vstd::prelude::*;
use crate::components::{Food, GridPosition, SnakeSegment};

verus! {

/// What the store holds: the cells of the snake from head to tail, and the
/// food's cell if there is food. The segment at place `i` has index `i`.
pub struct Entities {
    pub snake: Seq<GridPosition>,
    pub food: Option<GridPosition>,
}

impl Entities {
    /// The segment with index `i`.
    pub open spec fn segment(self, i: int) -> SnakeSegment
        recommends
            0 <= i < self.snake.len(),
    {
        SnakeSegment { index: i as u32, position: self.snake[i] }
    }

    /// The segments from head to tail.
    pub open spec fn segments(self) -> Seq<SnakeSegment> {
        Seq::new(self.snake.len(), |i: int| self.segment(i))
    }

    /// Whether no segment of the snake lies on `cell`.
    pub open spec fn is_free(self, cell: GridPosition) -> bool {
        forall|i: int| 0 <= i < self.snake.len() ==> #[trigger] self.snake[i] != cell
    }

    /// Whether the head lies on a cell that another segment occupies too.
    pub open spec fn head_hits_body(self) -> bool {
        exists|i: int| 1 <= i < self.snake.len() && #[trigger] self.snake[i] == self.snake[0]
    }

    /// Whether the head lies on the food.
    pub open spec fn head_on_food(self) -> bool {
        self.snake.len() > 0 && self.food == Some(self.snake[0])
    }

    /// Whether the snake can take one more segment: it has a tail to grow
    /// from, and the new segment's index fits in 32 bits.
    pub open spec fn can_grow(self) -> bool {
        0 < self.snake.len() < u32::MAX
    }

    /// The snake after one step that takes the head to `head_to`: every other
    /// segment takes the cell that the segment before it had, and with `grow`
    /// a new last segment appears on the cell that the tail had.
    pub open spec fn shifted(self, head_to: GridPosition, grow: bool) -> Seq<GridPosition> {
        if self.snake.len() == 0 {
            self.snake
        } else if grow && self.can_grow() {
            seq![head_to] + self.snake
        } else {
            seq![head_to] + self.snake.drop_last()
        }
    }
}

/// The entities on the board.
pub struct EntityStore {
    segments: Vec<SnakeSegment>,
    food: Option<Food>,
}

impl View for EntityStore {
    type V = Entities;

    closed spec fn view(&self) -> Entities {
        Entities {
            snake: Seq::new(self.segments@.len(), |i: int| self.segments@[i].position),
            food: match self.food {
                Some(food) => Some(food.position),
                None => None,
            },
        }
    }
}

impl EntityStore {
    /// Indices are contiguous from zero, in storage order, and fit in 32 bits.
    #[verifier::type_invariant]
    spec fn indexed_from_head(self) -> bool {
        &&& self.segments@.len() <= u32::MAX
        &&& forall|i: int| 0 <= i < self.segments@.len() ==> (#[trigger] self.segments@[i]).index == i
    }

    /// An empty store.
    pub fn new() -> (store: EntityStore)
        ensures
            store@.snake.len() == 0,
            store@.food is None,
    {
        EntityStore { segments: Vec::new(), food: None }
    }

    /// The number of segments of the snake.
    pub fn segment_count(&self) -> (count: usize)
        ensures
            count == self@.snake.len(),
            count <= u32::MAX,
    {
        proof {
            use_type_invariant(self);
        }
        self.segments.len()
    }

    /// The segment with the given index, if the snake has one.
    pub fn segment(&self, index: usize) -> (found: Option<SnakeSegment>)
        ensures
            found == if index < self@.snake.len() {
                Some(self@.segment(index as int))
            } else {
                None
            },
    {
        proof {
            use_type_invariant(self);
        }
        if index < self.segments.len() {
            Some(self.segments[index])
        } else {
            None
        }
    }

    /// All segments, from head to tail.
    pub fn segments(&self) -> (all: Vec<SnakeSegment>)
        ensures
            all@ == self@.segments(),
    {
        proof {
            use_type_invariant(self);
        }
        let all: Vec<SnakeSegment> = self.segments.clone();
        assert(all@ =~= self@.segments());
        all
    }

    /// The head's cell, if the snake has a segment.
    pub fn head(&self) -> (cell: Option<GridPosition>)
        ensures
            cell == if self@.snake.len() > 0 {
                Some(self@.snake[0])
            } else {
                None
            },
    {
        if self.segments.len() > 0 {
            Some(self.segments[0].position)
        } else {
            None
        }
    }

    /// The food, if there is any.
    pub fn food(&self) -> (food: Option<Food>)
        ensures
            food == match self@.food {
                Some(cell) => Some(Food { position: cell }),
                None => None,
            },
    {
        self.food
    }

    /// Adds a segment on `position` behind the tail and returns its index. A
    /// store that holds `u32::MAX` segments stays as it is.
    pub fn spawn_segment(&mut self, position: GridPosition) -> (index: Option<u32>)
        ensures
            old(self)@.snake.len() < u32::MAX ==> index == Some(old(self)@.snake.len() as u32)
                && final(self)@.snake == old(self)@.snake.push(position),
            old(self)@.snake.len() >= u32::MAX ==> index is None && final(self)@.snake == old(self)@.snake,
            final(self)@.food == old(self)@.food,
    {
        proof {
            use_type_invariant(&*self);
        }
        let count: usize = self.segments.len();
        if count < u32::MAX as usize {
            let index: u32 = count as u32;
            let mut segments: Vec<SnakeSegment> = Vec::new();
            std::mem::swap(&mut segments, &mut self.segments);
            segments.push(SnakeSegment { index, position });
            self.segments = segments;
            assert(self@.snake =~= old(self)@.snake.push(position));
            Some(index)
        } else {
            None
        }
    }

    /// Whether no segment of the snake lies on `cell`.
    pub fn is_free(&self, cell: GridPosition) -> (free: bool)
        ensures
            free == self@.is_free(cell),
    {
        let count: usize = self.segments.len();
        let mut i: usize = 0;
        while i < count
            invariant
                i <= count,
                count == self.segments@.len(),
                forall|j: int| 0 <= j < i ==> #[trigger] self@.snake[j] != cell,
            decreases count - i,
        {
            let occupied: GridPosition = self.segments[i].position;
            if occupied.x == cell.x && occupied.y == cell.y {
                assert(self@.snake[i as int] == cell);
                return false;
            }
            i += 1;
        }
        true
    }

    /// Whether the head lies on a cell that another segment occupies too.
    pub fn head_hits_body(&self) -> (hit: bool)
        ensures
            hit == self@.head_hits_body(),
    {
        let count: usize = self.segments.len();
        if count == 0 {
            return false;
        }
        let head: GridPosition = self.segments[0].position;
        let mut i: usize = 1;
        while i < count
            invariant
                1 <= i <= count,
                count == self.segments@.len(),
                head == self@.snake[0],
                forall|j: int| 1 <= j < i ==> #[trigger] self@.snake[j] != head,
            decreases count - i,
        {
            let body: GridPosition = self.segments[i].position;
            if body.x == head.x && body.y == head.y {
                assert(self@.snake[i as int] == self@.snake[0]);
                return true;
            }
            i += 1;
        }
        false
    }

    /// Whether the head lies on the food.
    pub fn head_on_food(&self) -> (on_food: bool)
        ensures
            on_food == self@.head_on_food(),
    {
        match self.food {
            Some(food) => {
                if self.segments.len() > 0 {
                    let head: GridPosition = self.segments[0].position;
                    head.x == food.position.x && head.y == food.position.y
                } else {
                    false
                }
            },
            None => false,
        }
    }

    /// Moves the snake one step, taking the head to `head_to`: every other
    /// segment takes the cell that the segment before it had. With `grow`, a
    /// new last segment appears on the cell that the tail had, unless the
    /// snake has no segment or already `u32::MAX` of them. Returns whether the
    /// snake grew.
    pub fn shift_snake(&mut self, head_to: GridPosition, grow: bool) -> (grew: bool)
        ensures
            final(self)@.snake == old(self)@.shifted(head_to, grow),
            final(self)@.food == old(self)@.food,
            grew == (grow && old(self)@.can_grow()),
    {
        proof {
            use_type_invariant(&*self);
        }
        let count: usize = self.segments.len();
        if count == 0 {
            return false;
        }
        let grows: bool = grow && count < u32::MAX as usize;
        let limit: usize = if grows { count + 1 } else { count };
        let mut next: Vec<SnakeSegment> = Vec::new();
        next.push(SnakeSegment { index: 0, position: head_to });
        let mut i: usize = 1;
        while i < limit
            invariant
                1 <= i <= limit,
                limit <= count + 1,
                limit <= u32::MAX,
                count == self.segments@.len(),
                next@.len() == i,
                next@[0].position == head_to,
                forall|j: int| 0 <= j < i ==> (#[trigger] next@[j]).index == j,
                forall|j: int| 1 <= j < i ==> (#[trigger] next@[j]).position == self.segments@[j - 1].position,
            decreases limit - i,
        {
            next.push(SnakeSegment { index: i as u32, position: self.segments[i - 1].position });
            i += 1;
        }
        self.segments = next;
        assert(self@.snake =~= old(self)@.shifted(head_to, grow));
        grows
    }

    /// Removes every segment of the snake.
    pub fn clear_segments(&mut self)
        ensures
            final(self)@.snake.len() == 0,
            final(self)@.food == old(self)@.food,
    {
        self.segments = Vec::new();
    }

    /// Puts the food on `position`, replacing any food there was.
    pub fn place_food(&mut self, position: GridPosition)
        ensures
            final(self)@.food == Some(position),
            final(self)@.snake == old(self)@.snake,
    {
        proof {
            use_type_invariant(&*self);
        }
        self.food = Some(Food { position });
    }

    /// Removes the food.
    pub fn remove_food(&mut self)
        ensures
            final(self)@.food is None,
            final(self)@.snake == old(self)@.snake,
    {
        proof {
            use_type_invariant(&*self);
        }
        self.food = None;
    }
}

} // verus!
