//! The game session: its state and the per-tick simulation step.
use vstd::prelude::*;

use crate::entity::{
    spawn_coordinate, velocity_of, Bean, Circle, Demon, SpawnDraw, UserInput, VelocityDraw,
    BEAN_RADIUS, DEMON_SIZE,
};

verus! {

/// Ticks in one session.
pub const DEFAULT_COUNTER: i32 = 1000;

/// Demons in one session.
pub const DEMON_COUNT: i32 = 5;

/// The demons of a session, in a fixed order.
pub struct Demons {
    pub inner: Vec<Demon>,
}

impl View for Demons {
    type V = Seq<Demon>;

    open spec fn view(&self) -> Seq<Demon> {
        self.inner@
    }
}

/// Number of demons in `demons` that stand in the zone.
pub open spec fn count_inside(zone: Circle, demons: Seq<Demon>) -> nat
    decreases demons.len(),
{
    if demons.len() == 0 {
        0
    } else {
        count_inside(zone, demons.drop_last()) + if zone.holds(
            demons.last().x as int,
            demons.last().y as int,
        ) {
            1nat
        } else {
            0nat
        }
    }
}

/// At most every demon stands in the zone.
pub proof fn lemma_count_inside_bounded(zone: Circle, demons: Seq<Demon>)
    ensures
        count_inside(zone, demons) <= demons.len(),
    decreases demons.len(),
{
    if demons.len() > 0 {
        lemma_count_inside_bounded(zone, demons.drop_last());
    }
}

impl Demons {
    /// Every demon can have its velocity negated.
    pub open spec fn wf(&self) -> bool {
        forall|i: int| 0 <= i < self@.len() ==> (#[trigger] self@[i]).wf()
    }

    /// Spawns `num` demons (none when `num` is not positive), the `i`-th from
    /// `draws[i]`.
    pub fn new(num: i32, canvas_width: i32, canvas_height: i32, draws: &Vec<SpawnDraw>) -> (r: Self)
        requires
            canvas_width >= 0,
            canvas_height >= 0,
            num <= draws.len(),
        ensures
            r@.len() == if num > 0 { num as int } else { 0 },
            forall|i: int|
                0 <= i < r@.len() ==> {
                    let d = #[trigger] r@[i];
                    let s = draws@[i];
                    &&& d.x == spawn_coordinate(canvas_width as int, s.x)
                    &&& d.y == spawn_coordinate(canvas_height as int, s.y)
                    &&& d.width == DEMON_SIZE
                    &&& d.height == DEMON_SIZE
                    &&& d.dx == velocity_of(s.dx)
                    &&& d.dy == velocity_of(s.dy)
                },
            r.wf(),
    {
        let mut demons: Vec<Demon> = Vec::new();
        let mut n: i32 = 0;
        while n < num
            invariant
                0 <= n,
                num > 0 ==> n <= num,
                num <= 0 ==> n == 0,
                num <= draws.len(),
                canvas_width >= 0,
                canvas_height >= 0,
                demons@.len() == n,
                forall|i: int|
                    0 <= i < n ==> {
                        let d = #[trigger] demons@[i];
                        let s = draws@[i];
                        &&& d.x == spawn_coordinate(canvas_width as int, s.x)
                        &&& d.y == spawn_coordinate(canvas_height as int, s.y)
                        &&& d.width == DEMON_SIZE
                        &&& d.height == DEMON_SIZE
                        &&& d.dx == velocity_of(s.dx)
                        &&& d.dy == velocity_of(s.dy)
                        &&& d.wf()
                    },
            decreases num - n,
        {
            let demon = Demon::new(canvas_width, canvas_height, draws[n as usize]);
            demons.push(demon);
            n = n + 1;
        }
        Demons { inner: demons }
    }
}

/// What a tick leaves the session in.
#[derive(Clone, Copy, Debug, PartialEq, Eq)]
pub enum TickOutcome {
    /// The countdown goes on: the next tick is to be scheduled.
    Running,
    /// The countdown has run out with this final score.
    Terminal(usize),
}

/// The counter after a tick: one less, or back to the initial value once the
/// countdown has run out.
pub open spec fn next_counter(counter: int) -> int {
    if counter - 1 <= 0 {
        DEFAULT_COUNTER as int
    } else {
        counter - 1
    }
}

/// Whether the tick that starts at `counter` ends the session.
pub open spec fn ends_at(counter: int) -> bool {
    counter - 1 <= 0
}

/// The counter after `k` ticks from `counter`.
pub open spec fn counter_after(counter: int, k: nat) -> int
    decreases k,
{
    if k == 0 {
        counter
    } else {
        next_counter(counter_after(counter, (k - 1) as nat))
    }
}

/// Before the session ends, each tick takes exactly one off the counter.
proof fn lemma_counter_after(counter: int, k: nat)
    requires
        k < counter,
    ensures
        counter_after(counter, k) == counter - k,
    decreases k,
{
    if k > 0 {
        lemma_counter_after(counter, (k - 1) as nat);
    }
}

/// A session whose counter stands at `counter >= 1` ends on its
/// `counter`-th tick: no earlier tick ends it, that one does, and it leaves
/// the counter at its initial value.
pub proof fn lemma_session_ends_on_last_tick(counter: int)
    requires
        counter >= 1,
    ensures
        forall|k: nat| k < counter - 1 ==> !ends_at(#[trigger] counter_after(counter, k)),
        ends_at(counter_after(counter, (counter - 1) as nat)),
        counter_after(counter, counter as nat) == DEFAULT_COUNTER,
{
    assert forall|k: nat| k < counter - 1 implies !ends_at(#[trigger] counter_after(counter, k)) by {
        lemma_counter_after(counter, k);
    }
    lemma_counter_after(counter, (counter - 1) as nat);
}

/// A session that starts from the full counter ends on its
/// `DEFAULT_COUNTER`-th tick, and on no earlier one.
pub proof fn lemma_full_session_length()
    ensures
        forall|k: nat| k < DEFAULT_COUNTER - 1 ==> !ends_at(#[trigger] counter_after(DEFAULT_COUNTER as int, k)),
        ends_at(counter_after(DEFAULT_COUNTER as int, (DEFAULT_COUNTER - 1) as nat)),
{
    lemma_session_ends_on_last_tick(DEFAULT_COUNTER as int);
}

/// The state of one session.
pub struct Game {
    pub canvas_width: i32,
    pub canvas_height: i32,
    pub circle: Circle,
    pub demons: Demons,
    pub bean: Bean,
    pub score: usize,
    pub counter: i32,
    pub user_input: UserInput,
}

impl Game {
    /// The session's invariant: the bean and every demon are well formed, the
    /// counter can be decremented, and the score counts at most every demon.
    pub open spec fn wf(&self) -> bool {
        &&& self.bean.wf()
        &&& self.demons.wf()
        &&& self.counter > i32::MIN
        &&& self.score <= self.demons@.len()
    }

    /// The demons after one tick's step: each answers the walls and the
    /// bean, rerolls its velocity if it stands still, and then moves.
    pub open spec fn stepped_demons(
        demons: Seq<Demon>,
        bean: Bean,
        arena_width: int,
        arena_height: int,
        draws: Seq<VelocityDraw>,
    ) -> Seq<Demon> {
        Seq::new(
            demons.len(),
            |i: int| demons[i].responded(bean, arena_width, arena_height).rerolled(draws[i]).moved(),
        )
    }

    /// A new session in an arena of the given size: the zone and the bean at
    /// its centre, `DEMON_COUNT` demons spawned from `draws`, no score and a
    /// full counter.
    pub fn new(canvas_width: i32, canvas_height: i32, draws: &Vec<SpawnDraw>) -> (r: Self)
        requires
            canvas_width >= 0,
            canvas_height >= 0,
            draws.len() >= DEMON_COUNT,
        ensures
            r.wf(),
            r.canvas_width == canvas_width,
            r.canvas_height == canvas_height,
            r.circle.x == canvas_width / 2,
            r.circle.y == canvas_height / 2,
            r.circle.radius == canvas_width / 3,
            r.bean.x == canvas_width / 2,
            r.bean.y == canvas_height / 2,
            r.bean.radius == BEAN_RADIUS,
            r.demons@.len() == DEMON_COUNT,
            forall|i: int|
                0 <= i < DEMON_COUNT ==> {
                    let d = #[trigger] r.demons@[i];
                    let s = draws@[i];
                    &&& d.x == spawn_coordinate(canvas_width as int, s.x)
                    &&& d.y == spawn_coordinate(canvas_height as int, s.y)
                    &&& d.width == DEMON_SIZE
                    &&& d.height == DEMON_SIZE
                    &&& d.dx == velocity_of(s.dx)
                    &&& d.dy == velocity_of(s.dy)
                },
            r.score == 0,
            r.counter == DEFAULT_COUNTER,
            r.user_input == (UserInput { mouse_x: 0, mouse_y: 0 }),
    {
        let circle = Circle { x: canvas_width / 2, y: canvas_height / 2, radius: canvas_width / 3 };
        let demons = Demons::new(DEMON_COUNT, canvas_width, canvas_height, draws);
        let bean = Bean { x: canvas_width / 2, y: canvas_height / 2, radius: BEAN_RADIUS };
        let user_input = UserInput { mouse_x: 0, mouse_y: 0 };
        Game {
            canvas_width,
            canvas_height,
            circle,
            demons,
            bean,
            score: 0,
            counter: DEFAULT_COUNTER,
            user_input,
        }
    }

    /// Extension point for further collision rules; it changes nothing.
    pub fn collision_detection(&mut self)
        ensures
            *final(self) == *old(self),
    {
    }

    /// Number of demons standing in the zone.
    pub fn count_score(&self) -> (r: usize)
        ensures
            r == count_inside(self.circle, self.demons@),
    {
        let mut score: usize = 0;
        let mut i: usize = 0;
        while i < self.demons.inner.len()
            invariant
                i <= self.demons@.len(),
                score == count_inside(self.circle, self.demons@.subrange(0, i as int)),
            decreases self.demons@.len() - i,
        {
            proof {
                let s = self.demons@.subrange(0, i as int + 1);
                assert(s.drop_last() == self.demons@.subrange(0, i as int));
                lemma_count_inside_bounded(self.circle, self.demons@.subrange(0, i as int));
            }
            if self.circle.contains(&self.demons.inner[i]) {
                score = score + 1;
            }
            i = i + 1;
        }
        assert(self.demons@.subrange(0, i as int) == self.demons@);
        score
    }

    /// One tick of the simulation step. The bean follows the pointer, whose
    /// viewport position is made canvas-local by the canvas's page offset
    /// `(offset_left, offset_top)`. Then every demon answers the walls and the
    /// bean at its prospective position and rerolls a motionless velocity from
    /// `draws` (the `i`-th demon from `draws[i]`), and only after that every
    /// demon moves. The score is recounted from scratch and the counter goes
    /// down by one; when it reaches zero the session ends with that score and
    /// the counter is back at its initial value.
    pub fn tick(&mut self, offset_left: i32, offset_top: i32, draws: &Vec<VelocityDraw>) -> (r:
        TickOutcome)
        requires
            old(self).wf(),
            draws.len() == old(self).demons@.len(),
        ensures
            final(self).wf(),
            final(self).canvas_width == old(self).canvas_width,
            final(self).canvas_height == old(self).canvas_height,
            final(self).circle == old(self).circle,
            final(self).user_input == old(self).user_input,
            final(self).bean == old(self).bean.followed(
                old(self).user_input,
                offset_left as int,
                offset_top as int,
                old(self).canvas_width as int,
                old(self).canvas_height as int,
            ),
            final(self).demons@ == Game::stepped_demons(
                old(self).demons@,
                final(self).bean,
                old(self).canvas_width as int,
                old(self).canvas_height as int,
                draws@,
            ),
            final(self).score == count_inside(final(self).circle, final(self).demons@),
            final(self).counter == next_counter(old(self).counter as int),
            r == if ends_at(old(self).counter as int) {
                TickOutcome::Terminal(final(self).score)
            } else {
                TickOutcome::Running
            },
    {
        self.collision_detection();
        let w = self.canvas_width;
        let h = self.canvas_height;
        self.bean.follow(&self.user_input, offset_left, offset_top, w, h);
        let bean = self.bean;
        let ghost before = self.demons.inner@;
        let ghost responded = Seq::new(
            before.len(),
            |j: int| before[j].responded(bean, w as int, h as int).rerolled(draws@[j]),
        );
        let n = self.demons.inner.len();
        let mut i: usize = 0;
        while i < n
            invariant
                n == before.len(),
                draws@.len() == n,
                self.demons.inner@.len() == n,
                i <= n,
                responded.len() == n,
                self.canvas_width == w,
                self.canvas_height == h,
                self.bean == bean,
                self.circle == old(self).circle,
                self.user_input == old(self).user_input,
                self.counter == old(self).counter,
                self.bean.wf(),
                forall|j: int| 0 <= j < n ==> (#[trigger] before[j]).wf(),
                forall|j: int|
                    0 <= j < n ==> #[trigger] responded[j] == before[j].responded(
                        bean,
                        w as int,
                        h as int,
                    ).rerolled(draws@[j]),
                forall|j: int| 0 <= j < i ==> #[trigger] self.demons.inner@[j] == responded[j],
                forall|j: int| 0 <= j < i ==> (#[trigger] self.demons.inner@[j]).wf(),
                forall|j: int| i <= j < n ==> #[trigger] self.demons.inner@[j] == before[j],
            decreases n - i,
        {
            assert(self.demons.inner@[i as int] == before[i as int]);
            let mut d = self.demons.inner[i];
            d.respond(&bean, w, h, draws[i]);
            self.demons.inner[i] = d;
            i = i + 1;
        }
        let mut i: usize = 0;
        while i < n
            invariant
                n == before.len(),
                self.demons.inner@.len() == n,
                i <= n,
                responded.len() == n,
                self.canvas_width == w,
                self.canvas_height == h,
                self.bean == bean,
                self.circle == old(self).circle,
                self.user_input == old(self).user_input,
                self.counter == old(self).counter,
                self.bean.wf(),
                forall|j: int| 0 <= j < n ==> (#[trigger] responded[j]).wf(),
                forall|j: int| 0 <= j < i ==> #[trigger] self.demons.inner@[j] == responded[j].moved(),
                forall|j: int| i <= j < n ==> #[trigger] self.demons.inner@[j] == responded[j],
            decreases n - i,
        {
            assert(self.demons.inner@[i as int] == responded[i as int]);
            let mut d = self.demons.inner[i];
            d.advance();
            self.demons.inner[i] = d;
            i = i + 1;
        }
        assert(self.demons@ == Game::stepped_demons(before, bean, w as int, h as int, draws@));
        self.score = self.count_score();
        proof {
            lemma_count_inside_bounded(self.circle, self.demons@);
        }
        self.counter = self.counter - 1;
        if self.counter <= 0 {
            self.counter = DEFAULT_COUNTER;
            TickOutcome::Terminal(self.score)
        } else {
            TickOutcome::Running
        }
    }
}

} // verus!
