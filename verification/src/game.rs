//! A session: the targets on the surface, the tallies, and the mode.
//!
//! A session is either running, timed or in practice, or finished. A timed
//! session finishes when its duration has elapsed; a practice session never
//! does. The number of targets is fixed: a target that is hit or dies is
//! replaced in its slot, and no slot is ever added or removed.

use crate::config::{Config, ConfigError};
use crate::curves::{alpha_at, alpha_spec, radius_at, radius_spec};
use crate::hud::{readout_spec, status_spec, status_text, time_left, time_left_spec, HUD_PERIOD_MS};
use crate::scoring::{
    capped_add, hit_points, lemma_after_expiries_step, lemma_after_no_expiry, points_spec, Stats,
};
use crate::spawner::{spawn, spawned};
use crate::target::{Sprite, Target};
use macroquad::rand::RandGenerator;
use vstd::prelude::*;

verus! {

/// A session and the generator that places its targets.
pub struct Game {
    cfg: Config,
    targets: Vec<Target>,
    stats: Stats,
    practice: bool,
    finished: bool,
    start_ms: u64,
    hud_cache: String,
    hud_next_ms: u64,
    cursor_grabbed: bool,
    generator: RandGenerator,
}

/// What the host reports of one frame: the discrete events since the last
/// frame, the pointer position, and the frame rate.
#[derive(Clone, Copy, Debug, PartialEq, Eq, Structural)]
pub struct Input {
    /// The player asked to leave.
    pub quit: bool,
    /// The player asked to start anew.
    pub restart: bool,
    /// The player asked to switch between timed and practice mode.
    pub toggle_practice: bool,
    /// The player asked to confine the pointer to the window, or to
    /// release it.
    pub toggle_grab: bool,
    /// The player fired a shot at the pointer position.
    pub shoot: bool,
    /// Horizontal position of the pointer.
    pub pointer_x: i32,
    /// Vertical position of the pointer.
    pub pointer_y: i32,
    /// Frames per second, as the host measures them.
    pub fps: u32,
}

/// The state of a session as contracts see it: everything but the
/// generator.
pub struct GameView {
    /// The constants of the session.
    pub cfg: Config,
    /// The targets on the surface, by slot.
    pub targets: Seq<Target>,
    /// The tallies.
    pub stats: Stats,
    /// The session has no time limit.
    pub practice: bool,
    /// The session is over.
    pub finished: bool,
    /// Clock reading at which the session started.
    pub start_ms: u64,
    /// The status text as it was last composed.
    pub hud: Seq<char>,
    /// Clock reading from which the status text is composed anew.
    pub hud_next_ms: u64,
    /// The pointer is confined to the window.
    pub cursor_grabbed: bool,
}

/// Number of targets among `targets` that have lived out their lifetime at
/// the clock reading `now`.
pub open spec fn count_expired(targets: Seq<Target>, now: u64) -> nat
    decreases targets.len(),
{
    if targets.len() == 0 {
        0
    } else {
        count_expired(targets.drop_last(), now) + if targets.last().expired_at(now) {
            1nat
        } else {
            0nat
        }
    }
}

impl GameView {
    /// The configuration is valid, every slot holds a target with a
    /// positive lifetime, and a practice session is not finished.
    pub open spec fn wf(self) -> bool {
        &&& self.cfg.valid()
        &&& self.targets.len() == self.cfg.target_count
        &&& forall|i: int| 0 <= i < self.targets.len() ==> (#[trigger] self.targets[i]).wf()
        &&& self.finished ==> !self.practice
    }

    /// The session has just been started at the clock reading `now` on a
    /// surface of the given size: nothing is tallied, the status text is
    /// empty and due, and every slot holds a target spawned at `now`.
    pub open spec fn started(
        self,
        cfg: Config,
        practice: bool,
        cursor_grabbed: bool,
        now: u64,
        width: u32,
        height: u32,
    ) -> bool {
        &&& self.cfg == cfg
        &&& self.stats == Stats::zero()
        &&& self.practice == practice
        &&& !self.finished
        &&& self.start_ms == now
        &&& self.hud == Seq::<char>::empty()
        &&& self.hud_next_ms == 0
        &&& self.cursor_grabbed == cursor_grabbed
        &&& self.targets.len() == cfg.target_count
        &&& forall|i: int|
            0 <= i < self.targets.len() ==> spawned(cfg, width, height, now, #[trigger] self.targets[i])
    }

    /// The time of a timed session is up at the clock reading `now`.
    pub open spec fn timed_out(self, now: u64) -> bool {
        !self.practice && now - self.start_ms >= self.cfg.duration_ms
    }

    /// No target is hit by a shot at `(px, py)`.
    pub open spec fn no_hit(self, now: u64, px: i32, py: i32) -> bool {
        forall|j: int|
            0 <= j < self.targets.len() ==> !(#[trigger] self.targets[j]).hit_by(
                self.cfg,
                now,
                px,
                py,
            )
    }

    /// Slot `i` is the first, in slot order, whose target is hit by a shot
    /// at `(px, py)`.
    pub open spec fn first_hit(self, now: u64, px: i32, py: i32, i: int) -> bool {
        &&& 0 <= i < self.targets.len()
        &&& self.targets[i].hit_by(self.cfg, now, px, py)
        &&& forall|j: int|
            0 <= j < i ==> !(#[trigger] self.targets[j]).hit_by(self.cfg, now, px, py)
    }

    /// `self` differs from `before` in slot `i` alone, which holds a target
    /// spawned at `now`.
    pub open spec fn replaced_slot(
        self,
        before: GameView,
        i: int,
        now: u64,
        width: u32,
        height: u32,
    ) -> bool {
        &&& self.targets.len() == before.targets.len()
        &&& 0 <= i < self.targets.len()
        &&& spawned(before.cfg, width, height, now, self.targets[i])
        &&& forall|j: int|
            0 <= j < self.targets.len() && j != i ==> #[trigger] self.targets[j]
                == before.targets[j]
    }

    /// The tallies after the target in slot `i` was shot at the clock
    /// reading `now`.
    pub open spec fn stats_after_hit(self, i: int, now: u64) -> Stats {
        let t = self.targets[i];
        self.stats.after_shot().after_hit(
            points_spec(
                self.cfg.base_points as int,
                self.cfg.speed_bonus as int,
                t.age_at(now),
                t.life_ms as int,
            ) as u64,
            t.age_at(now) as u64,
        )
    }

    /// `self` is what a shot at `(px, py)` at the clock reading `now` makes
    /// of `before`. The shot is counted. If it hits no target, the miss
    /// penalty is charged and the targets stay. Otherwise the first target
    /// hit earns its points and is replaced in its slot, and the other
    /// targets stay.
    pub open spec fn shot_from(
        self,
        before: GameView,
        now: u64,
        width: u32,
        height: u32,
        px: i32,
        py: i32,
    ) -> bool {
        &&& self == GameView { targets: self.targets, stats: self.stats, ..before }
        &&& before.no_hit(now, px, py) ==> {
            &&& self.targets == before.targets
            &&& self.stats == before.stats.after_shot().after_miss(before.cfg.miss_penalty)
        }
        &&& forall|i: int| #[trigger]
            before.first_hit(now, px, py, i) ==> {
                &&& self.stats == before.stats_after_hit(i, now)
                &&& self.replaced_slot(before, i, now, width, height)
            }
    }

    /// `self` is what the expiry sweep at the clock reading `now` makes of
    /// `before`: every target that has lived out its lifetime is counted,
    /// charged for and replaced in its slot, and every other target stays.
    pub open spec fn swept_from(self, before: GameView, now: u64, width: u32, height: u32) -> bool {
        &&& self == GameView { targets: self.targets, stats: self.stats, ..before }
        &&& self.stats == before.stats.after_expiries(
            before.cfg.expire_penalty,
            count_expired(before.targets, now) as int,
        )
        &&& self.targets.len() == before.targets.len()
        &&& forall|i: int|
            0 <= i < self.targets.len() ==> if before.targets[i].expired_at(now) {
                spawned(before.cfg, width, height, now, #[trigger] self.targets[i])
            } else {
                self.targets[i] == before.targets[i]
            }
    }
}

impl GameView {
    /// `self` is what the restart, mode and pointer events of a frame make
    /// of `before`. A restart or a change of mode starts the session anew,
    /// in the other mode if the mode was changed.
    pub open spec fn keyed_from(
        self,
        before: GameView,
        now: u64,
        width: u32,
        height: u32,
        input: Input,
    ) -> bool {
        let grabbed = before.cursor_grabbed != input.toggle_grab;
        if input.restart || input.toggle_practice {
            self.started(
                before.cfg,
                before.practice != input.toggle_practice,
                grabbed,
                now,
                width,
                height,
            )
        } else {
            self == GameView { cursor_grabbed: grabbed, ..before }
        }
    }

    /// The figures of the status text at the clock reading `now`.
    pub open spec fn readout(self, now: u64, fps: u32) -> crate::hud::Readout {
        readout_spec(
            self.stats,
            self.practice,
            if self.practice {
                0
            } else {
                time_left_spec(self.cfg.duration_ms, self.start_ms, now)
            },
            fps,
        )
    }

    /// The state after the status text had its turn at the clock reading
    /// `now`: composed anew if it was due, and then due again one period
    /// later; left alone otherwise.
    pub open spec fn with_hud(self, now: u64, fps: u32) -> GameView {
        if now >= self.hud_next_ms {
            GameView {
                hud: status_spec(self.readout(now, fps)),
                hud_next_ms: capped_add(now as int, HUD_PERIOD_MS as int, u64::MAX as int) as u64,
                ..self
            }
        } else {
            self
        }
    }

    /// `self` is what one frame at the clock reading `now` makes of
    /// `before`, by way of the states `keyed`, `swept` and `shot`.
    ///
    /// The restart, mode and pointer events come first and give `keyed`. A
    /// finished session then stays as it is. A timed session whose time is
    /// up becomes finished and releases the pointer. Otherwise the expiry
    /// sweep gives `swept`, the shot, if one was fired, gives `shot`, and
    /// the status text has its turn.
    pub open spec fn frame(
        self,
        before: GameView,
        keyed: GameView,
        swept: GameView,
        shot: GameView,
        now: u64,
        width: u32,
        height: u32,
        input: Input,
    ) -> bool {
        &&& keyed.keyed_from(before, now, width, height, input)
        &&& if keyed.finished {
            self == keyed
        } else if keyed.timed_out(now) {
            self == GameView { finished: true, cursor_grabbed: false, ..keyed }
        } else {
            &&& swept.swept_from(keyed, now, width, height)
            &&& if input.shoot {
                shot.shot_from(swept, now, width, height, input.pointer_x, input.pointer_y)
            } else {
                shot == swept
            }
            &&& self == shot.with_hud(now, input.fps)
        }
    }
}

/// Where no target has lived out its lifetime, none is counted.
pub proof fn lemma_count_expired_none(targets: Seq<Target>, now: u64)
    requires
        forall|i: int| 0 <= i < targets.len() ==> !(#[trigger] targets[i]).expired_at(now),
    ensures
        count_expired(targets, now) == 0,
    decreases targets.len(),
{
    if targets.len() > 0 {
        let rest = targets.drop_last();
        assert forall|i: int| 0 <= i < rest.len() implies !(#[trigger] rest[i]).expired_at(
            now,
        ) by {
            assert(rest[i] == targets[i]);
        }
        lemma_count_expired_none(rest, now);
        assert(!targets[targets.len() - 1].expired_at(now));
    }
}

/// Where the target in slot `i` alone has lived out its lifetime, one
/// target is counted.
pub proof fn lemma_count_expired_one(targets: Seq<Target>, now: u64, i: int)
    requires
        0 <= i < targets.len(),
        targets[i].expired_at(now),
        forall|j: int|
            0 <= j < targets.len() && j != i ==> !(#[trigger] targets[j]).expired_at(now),
    ensures
        count_expired(targets, now) == 1,
    decreases targets.len(),
{
    let rest = targets.drop_last();
    assert forall|j: int| 0 <= j < rest.len() && j != i implies !(#[trigger] rest[j]).expired_at(
        now,
    ) by {
        assert(rest[j] == targets[j]);
    }
    if i == targets.len() - 1 {
        lemma_count_expired_none(rest, now);
    } else {
        assert(rest[i] == targets[i]);
        lemma_count_expired_one(rest, now, i);
        assert(!targets[targets.len() - 1].expired_at(now));
    }
}

/// An expiry touches one slot: where the target in slot `i` alone has
/// lived out its lifetime, the sweep replaces that target, counts and
/// charges it once, and leaves every other slot as it was.
pub proof fn lemma_sweep_of_one_expiry(
    before: GameView,
    after: GameView,
    now: u64,
    width: u32,
    height: u32,
    i: int,
)
    requires
        after.swept_from(before, now, width, height),
        0 <= i < before.targets.len(),
        before.targets[i].expired_at(now),
        forall|j: int|
            0 <= j < before.targets.len() && j != i ==> !(#[trigger] before.targets[j]).expired_at(
                now,
            ),
    ensures
        after.replaced_slot(before, i, now, width, height),
        after.stats == before.stats.after_expiries(before.cfg.expire_penalty, 1),
        after == (GameView { targets: after.targets, stats: after.stats, ..before }),
{
    lemma_count_expired_one(before.targets, now, i);
    assert forall|j: int| 0 <= j < after.targets.len() && j != i implies #[trigger] after.targets[j]
        == before.targets[j] by {
        assert(!before.targets[j].expired_at(now));
    }
}

/// A hit touches one slot: where a shot hits, the first target hit is
/// replaced and every other slot stays as it was.
pub proof fn lemma_hit_replaces_one_slot(
    before: GameView,
    after: GameView,
    now: u64,
    width: u32,
    height: u32,
    px: i32,
    py: i32,
    i: int,
)
    requires
        after.shot_from(before, now, width, height, px, py),
        before.first_hit(now, px, py, i),
    ensures
        after.replaced_slot(before, i, now, width, height),
        after.stats == before.stats_after_hit(i, now),
        after == (GameView { targets: after.targets, stats: after.stats, ..before }),
{
}

/// The expiry sweep changes nothing when no target has lived out its
/// lifetime.
pub proof fn lemma_sweep_without_expiry(
    before: GameView,
    after: GameView,
    now: u64,
    width: u32,
    height: u32,
)
    requires
        after.swept_from(before, now, width, height),
        forall|i: int|
            0 <= i < before.targets.len() ==> !(#[trigger] before.targets[i]).expired_at(now),
    ensures
        after == before,
{
    lemma_count_expired_none(before.targets, now);
    lemma_after_no_expiry(before.stats, before.cfg.expire_penalty);
    assert(after.targets =~= before.targets);
}

impl View for Game {
    type V = GameView;

    closed spec fn view(&self) -> GameView {
        GameView {
            cfg: self.cfg,
            targets: self.targets@,
            stats: self.stats,
            practice: self.practice,
            finished: self.finished,
            start_ms: self.start_ms,
            hud: self.hud_cache@,
            hud_next_ms: self.hud_next_ms,
            cursor_grabbed: self.cursor_grabbed,
        }
    }
}

/// A full set of targets for a session that starts at the clock reading
/// `now`. Each target is placed with regard to those placed before it.
fn fresh_targets(
    cfg: &Config,
    generator: &RandGenerator,
    now: u64,
    width: u32,
    height: u32,
) -> (targets: Vec<Target>)
    requires
        cfg.valid(),
    ensures
        targets.len() == cfg.target_count,
        forall|i: int|
            0 <= i < targets.len() ==> spawned(*cfg, width, height, now, #[trigger] targets[i]),
        forall|i: int| 0 <= i < targets.len() ==> (#[trigger] targets[i]).wf(),
{
    let mut targets: Vec<Target> = Vec::new();
    while targets.len() < cfg.target_count
        invariant
            cfg.valid(),
            targets.len() <= cfg.target_count,
            forall|i: int|
                0 <= i < targets.len() ==> spawned(*cfg, width, height, now, #[trigger] targets[i]),
            forall|i: int| 0 <= i < targets.len() ==> (#[trigger] targets[i]).wf(),
        decreases cfg.target_count - targets.len(),
    {
        let t: Target = spawn(cfg, generator, &targets, now, width, height);
        targets.push(t);
    }
    targets
}

impl Game {
    /// The state satisfies the invariant of a session.
    pub open spec fn wf(&self) -> bool {
        self@.wf()
    }

    /// Starts a timed session at the clock reading `now` on a surface of
    /// the given size, with a generator seeded by `seed`. A configuration
    /// that is not valid is refused with its first fault.
    pub fn new(cfg: Config, seed: u64, now: u64, width: u32, height: u32) -> (made: Result<
        Game,
        ConfigError,
    >)
        ensures
            made is Ok <==> cfg.valid(),
            made matches Err(e) ==> cfg.fault() == Some(e),
            made matches Ok(game) ==> game.wf() && game@.started(
                cfg,
                false,
                false,
                now,
                width,
                height,
            ),
    {
        match cfg.validate() {
            Err(e) => Err(e),
            Ok(()) => {
                let generator = RandGenerator::new();
                generator.srand(seed);
                let targets = fresh_targets(&cfg, &generator, now, width, height);
                Ok(
                    Game {
                        cfg,
                        targets,
                        stats: Stats::default(),
                        practice: false,
                        finished: false,
                        start_ms: now,
                        hud_cache: String::new(),
                        hud_next_ms: 0,
                        cursor_grabbed: false,
                        generator,
                    },
                )
            },
        }
    }

    /// Starts the session anew at the clock reading `now`, in the mode it
    /// is in: the tallies return to zero and every target is replaced.
    pub fn reset(&mut self, now: u64, width: u32, height: u32)
        requires
            old(self).wf(),
        ensures
            final(self).wf(),
            final(self)@.started(
                old(self)@.cfg,
                old(self)@.practice,
                old(self)@.cursor_grabbed,
                now,
                width,
                height,
            ),
    {
        self.stats = Stats::default();
        self.finished = false;
        self.start_ms = now;
        self.targets = fresh_targets(&self.cfg, &self.generator, now, width, height);
        self.hud_cache = String::new();
        self.hud_next_ms = 0;
    }

    /// Switches between timed and practice mode and starts the session
    /// anew in the new mode.
    pub fn toggle_practice(&mut self, now: u64, width: u32, height: u32)
        requires
            old(self).wf(),
        ensures
            final(self).wf(),
            final(self)@.started(
                old(self)@.cfg,
                !old(self)@.practice,
                old(self)@.cursor_grabbed,
                now,
                width,
                height,
            ),
    {
        self.practice = !self.practice;
        self.finished = false;
        self.reset(now, width, height);
    }

    /// Produces a target for the clock reading `now`, placed with regard
    /// to the targets of the session. The session does not change; the
    /// caller decides which slot the target takes.
    pub fn spawn_target(&self, now: u64, width: u32, height: u32) -> (t: Target)
        requires
            self.wf(),
        ensures
            spawned(self@.cfg, width, height, now, t),
            t.wf(),
    {
        spawn(&self.cfg, &self.generator, &self.targets, now, width, height)
    }

    /// Radius of a target of the session at age `age`, if it lives for
    /// `life` milliseconds.
    pub fn radius_at(&self, age: u64, life: u32) -> (radius: u32)
        requires
            self.wf(),
            life > 0,
        ensures
            radius == radius_spec(
                self@.cfg.min_r as int,
                self@.cfg.max_r as int,
                age as int,
                life as int,
            ),
            self@.cfg.min_r <= radius <= self@.cfg.max_r,
    {
        radius_at(&self.cfg, age, life)
    }

    /// Opacity, in thousandths, of a target at age `age`, if it lives for
    /// `life` milliseconds.
    pub fn alpha_at(&self, age: u64, life: u32) -> (alpha: u32)
        requires
            life > 0,
        ensures
            alpha == alpha_spec(age as int, life as int),
    {
        alpha_at(age, life)
    }

    /// The first slot, in slot order, whose target is hit by a shot at
    /// `(px, py)` at the clock reading `now`.
    pub fn find_hit(&self, now: u64, px: i32, py: i32) -> (slot: Option<usize>)
        requires
            self.wf(),
        ensures
            slot is None <==> self@.no_hit(now, px, py),
            slot matches Some(i) ==> self@.first_hit(now, px, py, i as int),
    {
        let mut i: usize = 0;
        while i < self.targets.len()
            invariant
                self.wf(),
                i <= self.targets.len(),
                forall|j: int|
                    0 <= j < i ==> !(#[trigger] self@.targets[j]).hit_by(self@.cfg, now, px, py),
            decreases self.targets.len() - i,
        {
            if self.targets[i].is_hit(&self.cfg, now, px, py) {
                return Some(i);
            }
            i += 1;
        }
        None
    }

    /// Fires a shot at `(px, py)` at the clock reading `now`.
    pub fn shoot(&mut self, now: u64, width: u32, height: u32, px: i32, py: i32)
        requires
            old(self).wf(),
        ensures
            final(self).wf(),
            final(self)@.shot_from(old(self)@, now, width, height, px, py),
    {
        self.stats.record_shot();
        match self.find_hit(now, px, py) {
            Some(i) => {
                let t: Target = self.targets[i];
                let age: u64 = t.age(now);
                let points: u64 = hit_points(&self.cfg, age, t.life_ms);
                self.stats.record_hit(points, age);
                let fresh: Target = spawn(
                    &self.cfg,
                    &self.generator,
                    &self.targets,
                    now,
                    width,
                    height,
                );
                self.targets.set(i, fresh);
                proof {
                    let before = old(self)@;
                    assert forall|k: int| #[trigger]
                        before.first_hit(now, px, py, k) implies k == i by {
                        if k < i {
                            assert(!before.targets[k].hit_by(before.cfg, now, px, py));
                        } else if i < k {
                            assert(!before.targets[i as int].hit_by(before.cfg, now, px, py));
                        }
                    }
                    assert(!before.no_hit(now, px, py)) by {
                        assert(before.targets[i as int].hit_by(before.cfg, now, px, py));
                    }
                }
            },
            None => {
                self.stats.record_miss(self.cfg.miss_penalty);
                proof {
                    let before = old(self)@;
                    assert forall|k: int| #[trigger]
                        before.first_hit(now, px, py, k) implies false by {
                        assert(!before.targets[k].hit_by(before.cfg, now, px, py));
                    }
                    assert(self@.targets == before.targets);
                }
            },
        }
    }
    /// Replaces every target that has lived out its lifetime at the clock
    /// reading `now`, in slot order, and counts and charges each.
    pub fn sweep_expired(&mut self, now: u64, width: u32, height: u32)
        requires
            old(self).wf(),
        ensures
            final(self).wf(),
            final(self)@.swept_from(old(self)@, now, width, height),
            (forall|i: int|
                0 <= i < old(self)@.targets.len() ==> !(#[trigger] old(self)@.targets[i]).expired_at(
                    now,
                )) ==> final(self)@ == old(self)@,
    {
        let ghost before = self@;
        let mut i: usize = 0;
        proof {
            lemma_after_no_expiry(before.stats, before.cfg.expire_penalty);
            assert(before.targets.take(0) =~= Seq::<Target>::empty());
        }
        while i < self.targets.len()
            invariant
                self.wf(),
                i <= self.targets.len(),
                self@ == (GameView { targets: self@.targets, stats: self@.stats, ..before }),
                self@.targets.len() == before.targets.len(),
                self@.stats == before.stats.after_expiries(
                    before.cfg.expire_penalty,
                    count_expired(before.targets.take(i as int), now) as int,
                ),
                forall|j: int|
                    0 <= j < i ==> if before.targets[j].expired_at(now) {
                        spawned(before.cfg, width, height, now, #[trigger] self@.targets[j])
                    } else {
                        self@.targets[j] == before.targets[j]
                    },
                forall|j: int|
                    i <= j < self@.targets.len() ==> #[trigger] self@.targets[j]
                        == before.targets[j],
            decreases self.targets.len() - i,
        {
            let t: Target = self.targets[i];
            proof {
                let upto = before.targets.take(i as int + 1);
                assert(upto.drop_last() =~= before.targets.take(i as int));
                assert(upto.last() == before.targets[i as int]);
                lemma_after_expiries_step(
                    before.stats,
                    before.cfg.expire_penalty,
                    count_expired(before.targets.take(i as int), now) as int,
                );
            }
            if t.is_expired(now) {
                self.stats.record_expiry(self.cfg.expire_penalty);
                let fresh: Target = spawn(
                    &self.cfg,
                    &self.generator,
                    &self.targets,
                    now,
                    width,
                    height,
                );
                self.targets.set(i, fresh);
            }
            i += 1;
        }
        proof {
            assert(before.targets.take(i as int) =~= before.targets);
            if forall|k: int|
                0 <= k < before.targets.len() ==> !(#[trigger] before.targets[k]).expired_at(now) {
                lemma_sweep_without_expiry(before, self@, now, width, height);
            }
        }
    }

    /// Confines the pointer to the window if it is free, and releases it
    /// if it is confined.
    pub fn toggle_grab(&mut self)
        ensures
            final(self)@ == (GameView {
                cursor_grabbed: !old(self)@.cursor_grabbed,
                ..old(self)@
            }),
    {
        self.cursor_grabbed = !self.cursor_grabbed;
    }

    /// The figures of the status text at the clock reading `now`.
    pub fn readout(&self, now: u64, fps: u32) -> (r: crate::hud::Readout)
        ensures
            r == self@.readout(now, fps),
    {
        let left: u64 = if self.practice {
            0
        } else {
            time_left(self.cfg.duration_ms, self.start_ms, now)
        };
        self.stats.readout(self.practice, left, fps)
    }

    /// Gives the status text its turn: if it is due at the clock reading
    /// `now`, it is composed anew and is due again one period later.
    pub fn refresh_hud(&mut self, now: u64, fps: u32)
        ensures
            final(self)@ == old(self)@.with_hud(now, fps),
    {
        if now >= self.hud_next_ms {
            let r = self.readout(now, fps);
            self.hud_cache = status_text(&r);
            self.hud_next_ms = now.saturating_add(HUD_PERIOD_MS);
        }
    }

    /// Advances the session by one frame at the clock reading `now` on a
    /// surface of the given size. A request to leave is handed back and
    /// nothing else is done.
    pub fn update(&mut self, now: u64, width: u32, height: u32, input: &Input) -> (quit: bool)
        requires
            old(self).wf(),
        ensures
            final(self).wf(),
            quit == input.quit,
            input.quit ==> final(self)@ == old(self)@,
            !input.quit ==> exists|keyed: GameView, swept: GameView, shot: GameView|
                final(self)@.frame(old(self)@, keyed, swept, shot, now, width, height, *input),
    {
        if input.quit {
            return true;
        }
        if input.restart {
            self.reset(now, width, height);
        }
        if input.toggle_practice {
            self.toggle_practice(now, width, height);
        }
        if input.toggle_grab {
            self.toggle_grab();
        }
        let ghost keyed = self@;
        assert(keyed.keyed_from(old(self)@, now, width, height, *input));
        if self.finished {
            assert(self@.frame(old(self)@, keyed, keyed, keyed, now, width, height, *input));
            return false;
        }
        if !self.practice && now >= self.start_ms && now - self.start_ms
            >= self.cfg.duration_ms {
            self.finished = true;
            self.cursor_grabbed = false;
            assert(self@.frame(old(self)@, keyed, keyed, keyed, now, width, height, *input));
            return false;
        }
        self.sweep_expired(now, width, height);
        let ghost swept = self@;
        if input.shoot {
            self.shoot(now, width, height, input.pointer_x, input.pointer_y);
        }
        let ghost shot = self@;
        self.refresh_hud(now, input.fps);
        assert(self@.frame(old(self)@, keyed, swept, shot, now, width, height, *input));
        false
    }

    /// Position, radius and opacity of every target at the clock reading
    /// `now`, by slot.
    pub fn sprites(&self, now: u64) -> (sprites: Vec<Sprite>)
        requires
            self.wf(),
        ensures
            sprites.len() == self@.targets.len(),
            forall|i: int|
                0 <= i < sprites.len() ==> #[trigger] sprites[i] == self@.targets[i].sprite_at(
                    self@.cfg,
                    now,
                ),
    {
        let mut sprites: Vec<Sprite> = Vec::new();
        let mut i: usize = 0;
        while i < self.targets.len()
            invariant
                self.wf(),
                i <= self.targets.len(),
                sprites.len() == i,
                forall|j: int|
                    0 <= j < i ==> #[trigger] sprites[j] == self@.targets[j].sprite_at(
                        self@.cfg,
                        now,
                    ),
            decreases self.targets.len() - i,
        {
            let sprite: Sprite = self.targets[i].sprite(&self.cfg, now);
            sprites.push(sprite);
            i += 1;
        }
        sprites
    }

    /// The constants of the session.
    pub fn config(&self) -> (cfg: &Config)
        ensures
            *cfg == self@.cfg,
    {
        &self.cfg
    }

    /// The targets on the surface, by slot.
    pub fn targets(&self) -> (targets: &Vec<Target>)
        ensures
            targets@ == self@.targets,
    {
        &self.targets
    }

    /// The tallies.
    pub fn stats(&self) -> (stats: &Stats)
        ensures
            *stats == self@.stats,
    {
        &self.stats
    }

    /// Whether the session has no time limit.
    pub fn is_practice(&self) -> (practice: bool)
        ensures
            practice == self@.practice,
    {
        self.practice
    }

    /// Whether the session is over.
    pub fn is_finished(&self) -> (finished: bool)
        ensures
            finished == self@.finished,
    {
        self.finished
    }

    /// Clock reading at which the session started.
    pub fn start_ms(&self) -> (start: u64)
        ensures
            start == self@.start_ms,
    {
        self.start_ms
    }

    /// Whether the pointer is to be confined to the window.
    pub fn cursor_grabbed(&self) -> (grabbed: bool)
        ensures
            grabbed == self@.cursor_grabbed,
    {
        self.cursor_grabbed
    }

    /// The status text as it was last composed.
    pub fn hud(&self) -> (text: &str)
        ensures
            text@ == self@.hud,
    {
        self.hud_cache.as_str()
    }
}

} // verus!
