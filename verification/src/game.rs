//! The rules of the game: score, player health, the game-over flag, and how
//! bullets, enemy bites and the restart key change them.
use vstd::prelude::*;

verus! {

/// Health the player starts (and restarts) with.
pub const PLAYER_START_HEALTH: i32 = 100;

/// Health taken from the player by one enemy bite.
pub const BITE_DAMAGE: i32 = 12;

/// Health a freshly spawned enemy has: the number of bullets it takes.
pub const ENEMY_START_HEALTH: i32 = 2;

/// Points scored for each enemy killed.
pub const KILL_POINTS: u32 = 10;

/// The global state of a running game.
pub struct GameState {
    /// Points scored so far.
    pub score: u32,
    /// Set once the player's health has run out; cleared by a restart.
    pub game_over: bool,
    /// The player's health.
    pub player_health: i32,
}

/// What became of a bullet in one frame.
pub struct BulletOutcome {
    /// The bullet leaves the game this frame.
    pub despawn: bool,
    /// The enemy, by its position in the list handed in, that the bullet struck.
    pub hit: Option<usize>,
    /// The struck enemy's health has run out.
    pub killed: bool,
}

/// The bullet is spent before it can strike anything: its lifetime is over, it
/// has left the arena, or it touches a wall.
pub open spec fn bullet_spent(expired: bool, out_of_arena: bool, hits_wall: bool) -> bool {
    expired || out_of_arena || hits_wall
}

/// `i` is the first position of `touching` that holds `true`.
pub open spec fn is_first_touch(touching: Seq<bool>, i: int) -> bool {
    &&& 0 <= i < touching.len()
    &&& touching[i]
    &&& forall|j: int| 0 <= j < i ==> !touching[j]
}

/// No position of `touching` holds `true`.
pub open spec fn touches_none(touching: Seq<bool>) -> bool {
    forall|j: int| 0 <= j < touching.len() ==> !touching[j]
}

/// Finds the first enemy that a bullet touches, in the order handed in.
pub fn first_touch(touching: &Vec<bool>) -> (found: Option<usize>)
    ensures
        found matches Some(i) ==> is_first_touch(touching@, i as int),
        found is None ==> touches_none(touching@),
        found matches Some(i) ==> i < touching@.len() && touching@[i as int] && forall|j: int|
            0 <= j < i ==> !touching@[j],
        found is None ==> forall|j: int| 0 <= j < touching@.len() ==> !touching@[j],
{
    let mut k: usize = 0;
    while k < touching.len()
        invariant
            k <= touching.len(),
            forall|j: int| 0 <= j < k ==> !touching@[j],
        decreases touching.len() - k,
    {
        if touching[k] {
            return Some(k);
        }
        k += 1;
    }
    None
}

/// A position of `touching` holds `true` at most once as the first one.
pub proof fn lemma_first_touch_unique(touching: Seq<bool>, i: int, j: int)
    requires
        is_first_touch(touching, i),
        is_first_touch(touching, j),
    ensures
        i == j,
{
}

impl GameState {
    /// The invariant every reachable state keeps: the score is made of whole
    /// kills, health never rises above its start, and the game is over exactly
    /// when the player's health has run out.
    pub open spec fn wf(&self) -> bool {
        &&& self.score % KILL_POINTS == 0
        &&& self.player_health <= PLAYER_START_HEALTH
        &&& (self.game_over <==> self.player_health <= 0)
    }

    /// The state a game starts in.
    pub open spec fn is_fresh(&self) -> bool {
        &&& self.score == 0
        &&& !self.game_over
        &&& self.player_health == PLAYER_START_HEALTH
    }

    /// A new game: no score, full health, running.
    pub fn new() -> (game: Self)
        ensures
            game.is_fresh(),
            game.wf(),
            game.score == 0 && !game.game_over && game.player_health == 100,
    {
        GameState { score: 0, game_over: false, player_health: PLAYER_START_HEALTH }
    }

    /// Whether the player's systems (moving, shooting) and the enemies'
    /// (spawning, chasing, biting) run this frame: only while the game is not over.
    pub fn is_running(&self) -> (running: bool)
        ensures
            running == !self.game_over,
    {
        !self.game_over
    }

    /// The restart key: once the game is over, pressing it starts a fresh game.
    /// Returns whether the game restarted (the caller then clears enemies,
    /// bullets and bodies and puts the player back at the start).
    pub fn restart(&mut self, restart_pressed: bool) -> (restarted: bool)
        requires
            old(self).wf(),
        ensures
            restarted == (old(self).game_over && restart_pressed),
            restarted ==> final(self).is_fresh(),
            restarted ==> final(self).score == 0 && !final(self).game_over
                && final(self).player_health == 100,
            !restarted ==> *final(self) == *old(self),
            final(self).wf(),
    {
        if !self.game_over || !restart_pressed {
            return false;
        }
        *self = GameState::new();
        true
    }

    /// Whether the player fires a bullet this frame: the game runs, the trigger
    /// is held and the fire timer has run out.
    pub fn may_fire(&self, trigger_held: bool, fire_ready: bool) -> (fire: bool)
        ensures
            fire == (!self.game_over && trigger_held && fire_ready),
    {
        !self.game_over && trigger_held && fire_ready
    }

    /// One enemy's turn against the player: it bites when it is within reach and
    /// its bite timer has run out. A bite takes `BITE_DAMAGE` health, and the
    /// game is over once health has run out. Returns whether it bit (the caller
    /// then restarts that enemy's bite timer).
    pub fn enemy_contact(&mut self, in_reach: bool, bite_ready: bool) -> (bites: bool)
        requires
            old(self).wf(),
            old(self).player_health >= i32::MIN + BITE_DAMAGE,
        ensures
            bites == (in_reach && bite_ready),
            bites ==> final(self).player_health == old(self).player_health - 12,
            bites ==> {
                &&& final(self).player_health == old(self).player_health - BITE_DAMAGE
                &&& final(self).score == old(self).score
                &&& final(self).game_over == (old(self).game_over || final(self).player_health <= 0)
            },
            !bites ==> *final(self) == *old(self),
            final(self).wf(),
    {
        if !(in_reach && bite_ready) {
            return false;
        }
        let health = self.player_health - BITE_DAMAGE;
        let over = self.game_over || health <= 0;
        *self = GameState { score: self.score, game_over: over, player_health: health };
        true
    }

    /// One bullet's frame, after it has moved. A spent bullet leaves without
    /// striking; otherwise it strikes the first enemy it touches (in the order
    /// handed in), takes one health from it and leaves. An enemy whose health
    /// runs out is killed and scores `KILL_POINTS`. A bullet that is neither
    /// spent nor touching anything flies on.
    ///
    /// `touching[i]` says whether the bullet touches the enemy whose health is
    /// `enemy_health[i]`; a killed enemy stays in the list until the caller
    /// removes it.
    pub fn resolve_bullet(
        &mut self,
        expired: bool,
        out_of_arena: bool,
        hits_wall: bool,
        touching: &Vec<bool>,
        enemy_health: &mut Vec<i32>,
    ) -> (outcome: BulletOutcome)
        requires
            old(self).wf(),
            touching@.len() == old(enemy_health)@.len(),
            forall|i: int|
                !bullet_spent(expired, out_of_arena, hits_wall) && is_first_touch(touching@, i)
                    ==> {
                    &&& old(enemy_health)@[i] > i32::MIN
                    &&& old(enemy_health)@[i] - 1 <= 0 ==> old(self).score + KILL_POINTS <= u32::MAX
                },
        ensures
            final(self).wf(),
            final(self).game_over == old(self).game_over,
            final(self).player_health == old(self).player_health,
            expired || out_of_arena || hits_wall ==> outcome.despawn && outcome.hit is None
                && !outcome.killed && final(enemy_health)@ == old(enemy_health)@
                && final(self).score == old(self).score,
            !(expired || out_of_arena || hits_wall) && (forall|j: int|
                0 <= j < touching@.len() ==> !touching@[j]) ==> !outcome.despawn && outcome.hit is None
                && !outcome.killed && final(enemy_health)@ == old(enemy_health)@
                && final(self).score == old(self).score,
            outcome.hit matches Some(i) ==> {
                &&& i < touching@.len() && touching@[i as int]
                &&& forall|j: int| 0 <= j < i ==> !touching@[j]
                &&& final(enemy_health)@.len() == old(enemy_health)@.len()
                &&& final(enemy_health)@[i as int] == old(enemy_health)@[i as int] - 1
                &&& forall|j: int|
                    0 <= j < old(enemy_health)@.len() && j != i ==> final(enemy_health)@[j]
                        == old(enemy_health)@[j]
                &&& outcome.killed == (old(enemy_health)@[i as int] <= 1)
                &&& final(self).score == old(self).score + if outcome.killed {
                    10int
                } else {
                    0int
                }
            },
            outcome.hit is None ==> {
                &&& bullet_spent(expired, out_of_arena, hits_wall) || touches_none(touching@)
                &&& outcome.despawn == bullet_spent(expired, out_of_arena, hits_wall)
                &&& !outcome.killed
                &&& final(self).score == old(self).score
                &&& final(enemy_health)@ == old(enemy_health)@
            },
            outcome.hit matches Some(i) ==> {
                &&& !bullet_spent(expired, out_of_arena, hits_wall)
                &&& is_first_touch(touching@, i as int)
                &&& outcome.despawn
                &&& final(enemy_health)@ == old(enemy_health)@.update(
                    i as int,
                    (old(enemy_health)@[i as int] - 1) as i32,
                )
                &&& outcome.killed == (old(enemy_health)@[i as int] - 1 <= 0)
                &&& final(self).score == old(self).score + if outcome.killed {
                    KILL_POINTS
                } else {
                    0
                }
            },
    {
        if expired || out_of_arena || hits_wall {
            return BulletOutcome { despawn: true, hit: None, killed: false };
        }
        match first_touch(touching) {
            None => BulletOutcome { despawn: false, hit: None, killed: false },
            Some(i) => {
                let health = enemy_health[i] - 1;
                enemy_health.set(i, health);
                let killed = health <= 0;
                if killed {
                    self.score = self.score + KILL_POINTS;
                }
                BulletOutcome { despawn: true, hit: Some(i), killed }
            },
        }
    }
}

/// The player's health after `bites` bites from a fresh game.
pub open spec fn health_after_bites(bites: nat) -> int {
    PLAYER_START_HEALTH - BITE_DAMAGE * bites
}

/// A fresh game, as `new` and a restart leave it, keeps the invariant and runs.
pub proof fn lemma_fresh_game_runs(game: GameState)
    requires
        game.is_fresh(),
    ensures
        game.wf(),
        !game.game_over,
        game.score == 0 && game.player_health == 100,
{
}

/// In every reachable state the game runs exactly while the player has health
/// left, and the score counts whole kills.
pub proof fn lemma_running_iff_alive(game: GameState)
    requires
        game.wf(),
    ensures
        !game.game_over <==> game.player_health > 0,
        game.score % 10 == 0,
        game.player_health <= 100,
{
}

/// From a fresh game, bites take health in steps of `BITE_DAMAGE`: the player
/// survives eight bites and the ninth ends the game.
pub proof fn lemma_ninth_bite_ends_game(bites: nat)
    ensures
        health_after_bites(bites) == 100 - 12 * bites,
        health_after_bites(bites) <= 0 <==> bites >= 9,
        health_after_bites(bites + 1) == health_after_bites(bites) - BITE_DAMAGE,
{
}

} // verus!
