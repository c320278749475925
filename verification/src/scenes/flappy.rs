//! The rules of the side-scrolling game: when a pipe appears, when it is
//! gone, and when the player has hit one or left the screen. The player's
//! flight itself is computed by the caller, who hands in the pixel row that
//! the player is on.

use vstd::prelude::*;
use crate::consts;

verus! {

/// Pixels that the pipes move to the left in a tick.
pub const SCROLL_SPEED: i32 = 1;

/// Horizontal distance between two pipes.
pub const SPACING: i32 = 100;

/// Width of a pipe.
pub const PIPE_WIDTH: u32 = 32;

/// Smallest height of the gap of a pipe.
pub const GAP_HEIGHT_MIN: i32 = 64;

/// The height of the gap of a pipe stays below this.
pub const GAP_HEIGHT_END: i32 = 128;

/// Lowest offset of the centre of a gap from the middle of the screen.
pub const GAP_CENTER_MIN: i32 = -64;

/// The offset of the centre of a gap stays below this.
pub const GAP_CENTER_END: i32 = 64;

/// Radius of the player.
pub const PLAYER_RADIUS: u32 = 8;

/// Column of the player's centre.
pub const PLAYER_X: i32 = 32;

/// Number of pipes that can be on their way at once.
pub const PIPE_CAPACITY: usize = 8;

/// One pipe: the column of its left edge, and the centre and the height of
/// its gap.
#[derive(Debug, Clone, Copy, PartialEq, Eq, Structural)]
pub struct Pipe {
    pub x: i32,
    pub center_y: i32,
    pub gap_height: i32,
}

/// Half of a height, rounded towards zero.
pub open spec fn half(height: int) -> int {
    if height >= 0 {
        height / 2
    } else {
        -((-height) / 2)
    }
}

/// Whether a new pipe is due: there is none, or the newest one has moved
/// `SPACING` columns in from the right edge.
pub open spec fn spec_spawn_due(newest_x: Option<i32>) -> bool {
    match newest_x {
        None => true,
        Some(x) => x < consts::WIDTH - SPACING,
    }
}

/// Whether the player's disc, centred in row `y`, is on the screen in full.
pub open spec fn spec_player_in_bounds(y: i32) -> bool {
    y - PLAYER_RADIUS >= 0 && y + PLAYER_RADIUS <= consts::HEIGHT
}

impl Pipe {
    /// Whether the pipe has left the screen by more than `SPACING` columns.
    pub open spec fn spec_is_gone(&self) -> bool {
        self.x < -SPACING
    }

    /// Whether the pipe is still to the right of a player centred in column
    /// `player_x`.
    pub open spec fn spec_is_ahead_of(&self, player_x: i32) -> bool {
        self.x > player_x + PLAYER_RADIUS
    }

    /// Whether the player, centred at (`player_x`, `y`), touches the pipe: its
    /// disc reaches into the columns of the pipe and out of the rows of the
    /// gap.
    pub open spec fn spec_hits(&self, player_x: i32, y: i32) -> bool {
        let in_columns = player_x + PLAYER_RADIUS > self.x && player_x - PLAYER_RADIUS < self.x
            + PIPE_WIDTH;
        let out_of_gap = y - PLAYER_RADIUS < self.center_y - half(self.gap_height as int) || y
            + PLAYER_RADIUS > self.center_y + half(self.gap_height as int);
        in_columns && out_of_gap
    }

    /// A pipe at the right edge of the screen, with the centre of its gap
    /// `center_offset` rows below the middle.
    pub fn new(center_offset: i32, gap_height: i32) -> (pipe: Pipe)
        requires
            GAP_CENTER_MIN <= center_offset < GAP_CENTER_END,
            GAP_HEIGHT_MIN <= gap_height < GAP_HEIGHT_END,
        ensures
            pipe == (Pipe {
                x: consts::WIDTH as i32,
                center_y: (consts::HEIGHT / 2 + center_offset) as i32,
                gap_height,
            }),
    {
        Pipe {
            x: consts::WIDTH as i32,
            center_y: (consts::HEIGHT / 2) as i32 + center_offset,
            gap_height,
        }
    }

    /// Moves the pipe by one tick.
    pub fn scroll(&mut self)
        requires
            old(self).x >= i32::MIN + SCROLL_SPEED,
        ensures
            *final(self) == (Pipe { x: (old(self).x - SCROLL_SPEED) as i32, ..*old(self) }),
    {
        self.x = self.x - SCROLL_SPEED;
    }

    #[verifier::when_used_as_spec(spec_is_gone)]
    pub fn is_gone(&self) -> (gone: bool)
        ensures
            gone == self.spec_is_gone(),
    {
        self.x < -SPACING
    }

    #[verifier::when_used_as_spec(spec_is_ahead_of)]
    pub fn is_ahead_of(&self, player_x: i32) -> (ahead: bool)
        ensures
            ahead == self.spec_is_ahead_of(player_x),
    {
        (self.x as i64) > (player_x as i64) + (PLAYER_RADIUS as i64)
    }

    #[verifier::when_used_as_spec(spec_hits)]
    pub fn hits(&self, player_x: i32, y: i32) -> (hit: bool)
        ensures
            hit == self.spec_hits(player_x, y),
    {
        let radius: i64 = PLAYER_RADIUS as i64;
        let left: i64 = self.x as i64;
        let gap: i64 = self.gap_height as i64;
        let half_gap: i64 = if gap >= 0 {
            gap / 2
        } else {
            -((-gap) / 2)
        };
        let has_x_overlap = (player_x as i64) + radius > left && (player_x as i64) - radius < left
            + (PIPE_WIDTH as i64);
        let has_y_overlap = (y as i64) - radius < (self.center_y as i64) - half_gap || (y as i64)
            + radius > (self.center_y as i64) + half_gap;
        has_x_overlap && has_y_overlap
    }
}

/// Computes `spec_spawn_due` from the column of the newest pipe.
#[verifier::when_used_as_spec(spec_spawn_due)]
pub fn spawn_due(newest_x: Option<i32>) -> (due: bool)
    ensures
        due == spec_spawn_due(newest_x),
{
    match newest_x {
        None => true,
        Some(x) => (x as i64) < (consts::WIDTH as i64) - (SPACING as i64),
    }
}

/// Computes `spec_player_in_bounds`.
#[verifier::when_used_as_spec(spec_player_in_bounds)]
pub fn player_in_bounds(y: i32) -> (inside: bool)
    ensures
        inside == spec_player_in_bounds(y),
{
    (y as i64) - (PLAYER_RADIUS as i64) >= 0 && (y as i64) + (PLAYER_RADIUS as i64)
        <= (consts::HEIGHT as i64)
}

/// A player in the gap of a pipe does not hit it, and a player whose disc
/// does not reach the columns of a pipe does not hit it either.
pub proof fn lemma_safe_passage(pipe: Pipe, player_x: i32, y: i32)
    ensures
        pipe.spec_is_ahead_of(player_x) ==> !pipe.spec_hits(player_x, y),
        y - PLAYER_RADIUS >= pipe.center_y - half(pipe.gap_height as int) && y + PLAYER_RADIUS
            <= pipe.center_y + half(pipe.gap_height as int) ==> !pipe.spec_hits(player_x, y),
{
}


#[verifier::external_type_specification]
#[verifier::external_body]
pub struct ExSmallRng(rand::rngs::SmallRng);

/// `rand::Rng::random_range` on a half-open range of `i32`: some value of
/// the range. The range must not be empty.
#[verifier::external_body]
fn random_in(rng: &mut rand::rngs::SmallRng, low: i32, end: i32) -> (value: i32)
    requires
        low < end,
    ensures
        low <= value < end,
{
    rand::Rng::random_range(rng, low..end)
}

/// The pipes that a queue holds, the oldest first.
pub uninterp spec fn queued_pipes(queue: heapless::Deque<Pipe, 8>) -> Seq<Pipe>;

/// `heapless::Deque::new`: an empty queue.
#[verifier::external_body]
fn queue_new() -> (queue: heapless::Deque<Pipe, 8>)
    ensures
        queued_pipes(queue) == Seq::<Pipe>::empty(),
{
    heapless::Deque::new()
}

/// `heapless::Deque::len`: the number of pipes, which is never above the
/// capacity of 8.
#[verifier::external_body]
fn queue_len(queue: &heapless::Deque<Pipe, 8>) -> (len: usize)
    ensures
        len == queued_pipes(*queue).len(),
        len <= 8,
{
    queue.len()
}

/// `heapless::Deque::front`: the oldest pipe, if there is one.
#[verifier::external_body]
fn queue_front(queue: &heapless::Deque<Pipe, 8>) -> (front: Option<Pipe>)
    ensures
        front == if queued_pipes(*queue).len() > 0 {
            Some(queued_pipes(*queue)[0])
        } else {
            None
        },
{
    queue.front().copied()
}

/// `heapless::Deque::back`: the newest pipe, if there is one.
#[verifier::external_body]
fn queue_back(queue: &heapless::Deque<Pipe, 8>) -> (back: Option<Pipe>)
    ensures
        back == if queued_pipes(*queue).len() > 0 {
            Some(queued_pipes(*queue).last())
        } else {
            None
        },
{
    queue.back().copied()
}

/// `heapless::Deque::pop_front`: takes the oldest pipe out, if there is one.
#[verifier::external_body]
fn queue_pop_front(queue: &mut heapless::Deque<Pipe, 8>) -> (front: Option<Pipe>)
    ensures
        front == if queued_pipes(*old(queue)).len() > 0 {
            Some(queued_pipes(*old(queue))[0])
        } else {
            None
        },
        queued_pipes(*final(queue)) == if queued_pipes(*old(queue)).len() > 0 {
            queued_pipes(*old(queue)).drop_first()
        } else {
            queued_pipes(*old(queue))
        },
{
    queue.pop_front()
}

/// `heapless::Deque::push_back`: appends the pipe as the newest if the queue
/// is not full, and otherwise hands it back and leaves the queue as it is.
#[verifier::external_body]
fn queue_push_back(
    queue: &mut heapless::Deque<Pipe, 8>,
    pipe: Pipe,
) -> (pushed: Result<(), Pipe>)
    ensures
        pushed is Ok <==> queued_pipes(*old(queue)).len() < 8,
        pushed matches Err(back) ==> back == pipe,
        queued_pipes(*final(queue)) == if queued_pipes(*old(queue)).len() < 8 {
            queued_pipes(*old(queue)).push(pipe)
        } else {
            queued_pipes(*old(queue))
        },
{
    queue.push_back(pipe)
}

/// `heapless::Deque::iter`: the pipes from the oldest to the newest.
#[verifier::external_body]
fn queue_iter(queue: &heapless::Deque<Pipe, 8>) -> (pipes: Vec<Pipe>)
    ensures
        pipes@ == queued_pipes(*queue),
{
    queue.iter().copied().collect()
}

/// Whether the pipes are on their way as the game sends them: none has gone
/// further than it may, the newest is on the screen or at its edge, and each
/// follows the one before it at more than `SPACING` columns.
pub open spec fn on_their_way(pipes: Seq<Pipe>) -> bool {
    &&& forall|i: int| 0 <= i < pipes.len() ==> -SPACING <= (#[trigger] pipes[i]).x <= consts::WIDTH
    &&& forall|i: int|
        0 <= i < pipes.len() - 1 ==> (#[trigger] pipes[i]).x + SPACING < pipes[i + 1].x
}

/// The pipes after each has moved by one tick.
pub open spec fn scrolled(pipes: Seq<Pipe>) -> Seq<Pipe> {
    Seq::new(pipes.len(), |i: int| Pipe { x: (pipes[i].x - SCROLL_SPEED) as i32, ..pipes[i] })
}

/// The pipes without the oldest, if that one is gone.
pub open spec fn without_gone(pipes: Seq<Pipe>) -> Seq<Pipe> {
    if pipes.len() > 0 && pipes[0].spec_is_gone() {
        pipes.drop_first()
    } else {
        pipes
    }
}

/// The pipes with a new one at the right edge, if one is due.
pub open spec fn with_spawned(pipes: Seq<Pipe>, center_offset: i32, gap_height: i32) -> Seq<Pipe> {
    if pipes.len() == 0 || pipes.last().x < consts::WIDTH - SPACING {
        pipes.push(
            Pipe {
                x: consts::WIDTH as i32,
                center_y: (consts::HEIGHT / 2 + center_offset) as i32,
                gap_height,
            },
        )
    } else {
        pipes
    }
}

/// The pipes after a tick in which a new pipe, if one is due, gets the given
/// gap.
pub open spec fn after_tick(pipes: Seq<Pipe>, center_offset: i32, gap_height: i32) -> Seq<Pipe> {
    without_gone(scrolled(with_spawned(pipes, center_offset, gap_height)))
}

/// Whether the player touches one of the pipes.
pub open spec fn any_hit(pipes: Seq<Pipe>, player_x: i32, y: i32) -> bool {
    exists|i: int| 0 <= i < pipes.len() && (#[trigger] pipes[i]).spec_hits(player_x, y)
}

/// Pipes on their way are at most four, however long the game runs: the
/// queue never has to take a pipe that it has no room for.
pub proof fn lemma_at_most_four(pipes: Seq<Pipe>)
    requires
        on_their_way(pipes),
    ensures
        pipes.len() <= 4,
{
    if pipes.len() > 4 {
        assert(pipes[0].x + SPACING < pipes[1].x);
        assert(pipes[1].x + SPACING < pipes[2].x);
        assert(pipes[2].x + SPACING < pipes[3].x);
        assert(pipes[3].x + SPACING < pipes[4].x);
    }
}

/// A tick keeps the pipes on their way.
pub proof fn lemma_tick_keeps_on_their_way(pipes: Seq<Pipe>, center_offset: i32, gap_height: i32)
    requires
        on_their_way(pipes),
    ensures
        on_their_way(after_tick(pipes, center_offset, gap_height)),
{
    let spawned = with_spawned(pipes, center_offset, gap_height);
    let moved = scrolled(spawned);
    let kept = without_gone(moved);
    assert forall|i: int| 0 <= i < moved.len() - 1 implies (#[trigger] moved[i]).x + SPACING
        < moved[i + 1].x by {
        if i + 1 < pipes.len() {
            assert(pipes[i].x + SPACING < pipes[i + 1].x);
        }
    }
    assert forall|i: int| 0 <= i < kept.len() implies -SPACING <= (#[trigger] kept[i]).x
        <= consts::WIDTH by {
        if kept.len() == moved.len() {
            if i > 0 {
                assert(moved[i - 1].x + SPACING < moved[i].x);
            }
        } else {
            assert(moved[i].x + SPACING < moved[i + 1].x);
        }
    }
    assert forall|i: int| 0 <= i < kept.len() - 1 implies (#[trigger] kept[i]).x + SPACING < kept[i
        + 1].x by {
        if kept.len() == moved.len() {
            assert(moved[i].x + SPACING < moved[i + 1].x);
        } else {
            assert(moved[i + 1].x + SPACING < moved[i + 2].x);
        }
    }
}

/// The pipes of the game, in a queue of fixed size.
pub struct PipeQueue {
    pipes: heapless::Deque<Pipe, 8>,
}

impl View for PipeQueue {
    type V = Seq<Pipe>;

    closed spec fn view(&self) -> Seq<Pipe> {
        queued_pipes(self.pipes)
    }
}

impl PipeQueue {
    /// No pipe yet.
    pub fn new() -> (queue: Self)
        ensures
            queue@ == Seq::<Pipe>::empty(),
            on_their_way(queue@),
    {
        Self { pipes: queue_new() }
    }

    /// The pipes, the oldest first.
    pub fn pipes(&self) -> (pipes: Vec<Pipe>)
        ensures
            pipes@ == self@,
    {
        queue_iter(&self.pipes)
    }

    /// One tick with the gap of the next pipe given: a new pipe appears if
    /// one is due, every pipe moves, and the oldest leaves if it is gone.
    pub fn tick_with(&mut self, center_offset: i32, gap_height: i32)
        requires
            on_their_way(old(self)@),
            GAP_CENTER_MIN <= center_offset < GAP_CENTER_END,
            GAP_HEIGHT_MIN <= gap_height < GAP_HEIGHT_END,
        ensures
            final(self)@ == after_tick(old(self)@, center_offset, gap_height),
            on_their_way(final(self)@),
    {
        proof {
            lemma_at_most_four(self@);
            lemma_tick_keeps_on_their_way(self@, center_offset, gap_height);
        }
        let newest = queue_back(&self.pipes);
        let newest_x = match newest {
            Some(pipe) => Some(pipe.x),
            None => None,
        };
        if spawn_due(newest_x) {
            let _ = queue_push_back(&mut self.pipes, Pipe::new(center_offset, gap_height));
        }
        self.scroll_all();
        if let Some(front) = queue_front(&self.pipes) {
            if front.is_gone() {
                let _ = queue_pop_front(&mut self.pipes);
            }
        }
    }

    /// One tick; the gap of a new pipe is drawn from `rng`, its centre first.
    pub fn tick(&mut self, rng: &mut rand::rngs::SmallRng)
        requires
            on_their_way(old(self)@),
        ensures
            on_their_way(final(self)@),
            exists|center_offset: i32, gap_height: i32|
                GAP_CENTER_MIN <= center_offset < GAP_CENTER_END && GAP_HEIGHT_MIN <= gap_height
                    < GAP_HEIGHT_END && final(self)@ == #[trigger] after_tick(
                    old(self)@,
                    center_offset,
                    gap_height,
                ),
    {
        let newest = queue_back(&self.pipes);
        let newest_x = match newest {
            Some(pipe) => Some(pipe.x),
            None => None,
        };
        if spawn_due(newest_x) {
            let center_offset = random_in(rng, GAP_CENTER_MIN, GAP_CENTER_END);
            let gap_height = random_in(rng, GAP_HEIGHT_MIN, GAP_HEIGHT_END);
            self.tick_with(center_offset, gap_height);
        } else {
            self.tick_with(GAP_CENTER_MIN, GAP_HEIGHT_MIN);
        }
    }

    /// Moves every pipe by one tick.
    fn scroll_all(&mut self)
        requires
            forall|i: int|
                0 <= i < old(self)@.len() ==> (#[trigger] old(self)@[i]).x >= i32::MIN
                    + SCROLL_SPEED,
        ensures
            final(self)@ == scrolled(old(self)@),
    {
        let n = queue_len(&self.pipes);
        let mut i: usize = 0;
        while i < n
            invariant
                i <= n,
                n == old(self)@.len(),
                n <= 8,
                self@ == old(self)@.skip(i as int) + scrolled(old(self)@).take(i as int),
                forall|k: int|
                    0 <= k < old(self)@.len() ==> (#[trigger] old(self)@[k]).x >= i32::MIN
                        + SCROLL_SPEED,
            decreases n - i,
        {
            let ghost before = self@;
            if let Some(mut pipe) = queue_pop_front(&mut self.pipes) {
                pipe.scroll();
                let _ = queue_push_back(&mut self.pipes, pipe);
                proof {
                    assert(before[0] == old(self)@[i as int]);
                    assert(self@ =~= old(self)@.skip(i + 1) + scrolled(old(self)@).take(i + 1));
                }
            }
            i += 1;
        }
        proof {
            assert(self@ =~= scrolled(old(self)@));
        }
    }

    /// Whether the player, centred at (`player_x`, `y`), touches a pipe. The
    /// pipes are looked at from the oldest on, up to the first that is still
    /// ahead of the player.
    pub fn collides(&self, player_x: i32, y: i32) -> (hit: bool)
        requires
            on_their_way(self@),
        ensures
            hit == any_hit(self@, player_x, y),
    {
        let pipes = queue_iter(&self.pipes);
        let mut i: usize = 0;
        while i < pipes.len()
            invariant
                i <= pipes@.len(),
                pipes@ == self@,
                on_their_way(self@),
                forall|k: int| 0 <= k < i ==> !(#[trigger] pipes@[k]).spec_hits(player_x, y),
            decreases pipes@.len() - i,
        {
            let pipe = pipes[i];
            if pipe.is_ahead_of(player_x) {
                proof {
                    assert forall|k: int| i <= k < pipes@.len() implies !(#[trigger] pipes@[k]).spec_hits(
                        player_x,
                        y,
                    ) by {
                        lemma_later_pipes_are_ahead(pipes@, i as int, k, player_x);
                    }
                }
                return false;
            }
            if pipe.hits(player_x, y) {
                return true;
            }
            i += 1;
        }
        false
    }
}

/// Behind a pipe that is ahead of the player, every pipe is ahead of the
/// player.
pub proof fn lemma_later_pipes_are_ahead(pipes: Seq<Pipe>, i: int, k: int, player_x: i32)
    requires
        on_their_way(pipes),
        0 <= i <= k < pipes.len(),
        pipes[i].spec_is_ahead_of(player_x),
    ensures
        pipes[k].spec_is_ahead_of(player_x),
    decreases k - i,
{
    if i < k {
        assert(pipes[k - 1].x + SPACING < pipes[k].x);
        lemma_later_pipes_are_ahead(pipes, i, k - 1, player_x);
    }
}

} // verus!
