//! Death handling and progression: dispatching death signals, awarding
//! experience, spawning the next enemy, and the rebirth on player death.

use crate::bigrat::{rat_add, rat_from_nat, BigRat, Rat};
use crate::events::{
    DeathEntityType, DeathEvent, EnemyDeathEvent, ExpGainEvent, NextEnemySpawnEvent,
    PlayerDeathEvent,
};
use crate::state::GameWorld;
use crate::systems::combat_core::count_kind;
use crate::systems::initialization::{enemy_matches, rebirth_player_system, spawn_enemy};
use vstd::prelude::*;

verus! {

/// Effect of the dispatch pass on the two per-side death lists: one
/// player death event per player-side signal; one enriched enemy death
/// event per enemy-side signal while an enemy is live, carrying its
/// ordinal and experience reward.
pub open spec fn death_detection_rel(
    deaths: Seq<DeathEvent>,
    w: GameWorld,
    pd1: Seq<PlayerDeathEvent>,
    pd2: Seq<PlayerDeathEvent>,
    ed1: Seq<EnemyDeathEvent>,
    ed2: Seq<EnemyDeathEvent>,
) -> bool {
    &&& pd2.len() == pd1.len() + count_kind(deaths, DeathEntityType::Player)
    &&& pd2.subrange(0, pd1.len() as int) == pd1
    &&& (w.enemy is None ==> ed2 == ed1)
    &&& (w.enemy is Some ==> {
        &&& ed2.len() == ed1.len() + count_kind(deaths, DeathEntityType::Enemy)
        &&& ed2.subrange(0, ed1.len() as int) == ed1
        &&& forall|k: int|
            ed1.len() <= k < ed2.len() ==> (#[trigger] ed2[k]).enemy_number
                == w.enemy->Some_0.enemy_number.0 && ed2[k].exp_reward@
                == w.enemy->Some_0.exp_reward.0@ && ed2[k].exp_reward.wf()
    })
}

/// Dispatch each death signal to its side: player deaths become player
/// death events; enemy deaths are enriched with the live enemy's ordinal
/// and experience reward, or dropped if no enemy is live.
pub fn death_detection_system(
    death_events: &Vec<DeathEvent>,
    world: &GameWorld,
    player_death_events: &mut Vec<PlayerDeathEvent>,
    enemy_death_events: &mut Vec<EnemyDeathEvent>,
)
    requires
        world.wf(),
    ensures
        death_detection_rel(
            death_events@,
            *world,
            old(player_death_events)@,
            final(player_death_events)@,
            old(enemy_death_events)@,
            final(enemy_death_events)@,
        ),
{
    let ghost pd0: Seq<PlayerDeathEvent> = player_death_events@;
    let ghost ed0: Seq<EnemyDeathEvent> = enemy_death_events@;
    let n = death_events.len();
    let mut i: usize = 0;
    while i < n
        invariant
            i <= n,
            n == death_events@.len(),
            world.wf(),
            player_death_events@.len() == pd0.len() + count_kind(
                death_events@.take(i as int),
                DeathEntityType::Player,
            ),
            player_death_events@.subrange(0, pd0.len() as int) == pd0,
            world.enemy is None ==> enemy_death_events@ == ed0,
            world.enemy is Some ==> ({
                let post = enemy_death_events@;
                &&& post.len() == ed0.len() + count_kind(
                    death_events@.take(i as int),
                    DeathEntityType::Enemy,
                )
                &&& post.subrange(0, ed0.len() as int) == ed0
                &&& forall|k: int|
                    ed0.len() <= k < post.len() ==> (#[trigger] post[k]).enemy_number
                        == world.enemy->Some_0.enemy_number.0 && post[k].exp_reward@
                        == world.enemy->Some_0.exp_reward.0@ && post[k].exp_reward.wf()
            }),
        decreases n - i,
    {
        proof {
            assert(death_events@.take((i + 1) as int).drop_last() =~= death_events@.take(i as int));
        }
        let death = &death_events[i];
        match death.entity_type {
            DeathEntityType::Player => {
                player_death_events.push(PlayerDeathEvent {  });
                proof {
                    assert(player_death_events@.subrange(0, pd0.len() as int) =~= pd0);
                }
            },
            DeathEntityType::Enemy => {
                match &world.enemy {
                    Some(enemy) => {
                        enemy_death_events.push(
                            EnemyDeathEvent {
                                enemy_number: enemy.enemy_number.0,
                                exp_reward: enemy.exp_reward.0.dup(),
                            },
                        );
                        proof {
                            assert(enemy_death_events@.subrange(0, ed0.len() as int) =~= ed0);
                        }
                    },
                    None => {},
                }
            },
        }
        i = i + 1;
    }
    proof {
        assert(death_events@.take(n as int) =~= death_events@);
    }
}

/// Effect of the enemy-death pass: with any enemy death pending the
/// enemy despawns and nothing else of the world moves; per death, one
/// experience gain carrying the reward and one spawn request one ordinal
/// higher are appended.
pub open spec fn enemy_death_rel(
    ed: Seq<EnemyDeathEvent>,
    w1: GameWorld,
    w2: GameWorld,
    x1: Seq<ExpGainEvent>,
    x2: Seq<ExpGainEvent>,
    n1: Seq<NextEnemySpawnEvent>,
    n2: Seq<NextEnemySpawnEvent>,
) -> bool {
    &&& w2.wf()
    &&& (ed.len() == 0 ==> w2 == w1)
    &&& (ed.len() > 0 ==> {
        &&& w2.enemy is None
        &&& w2.combat_state == w1.combat_state
        &&& w2.progress == w1.progress
        &&& w2.player == w1.player
        &&& w2.player_combat == w1.player_combat
        &&& w2.upgrades == w1.upgrades
    })
    &&& x2.len() == x1.len() + ed.len()
    &&& x2.subrange(0, x1.len() as int) == x1
    &&& (forall|k: int|
        0 <= k < ed.len() ==> (#[trigger] x2[x1.len() + k]).amount@ == ed[k].exp_reward@ && x2[
            x1.len() + k].amount.wf() == ed[k].exp_reward.wf())
    &&& n2.len() == n1.len() + ed.len()
    &&& n2.subrange(0, n1.len() as int) == n1
    &&& (forall|k: int|
        0 <= k < ed.len() ==> (#[trigger] n2[n1.len() + k]).enemy_number == ed[k].enemy_number
            + 1)
}

/// Handle enemy deaths: despawn the enemy, award its experience reward,
/// and ask for the next enemy, one ordinal higher.
pub fn enemy_death_system(
    enemy_death_events: &Vec<EnemyDeathEvent>,
    world: &mut GameWorld,
    exp_events: &mut Vec<ExpGainEvent>,
    next_enemy_events: &mut Vec<NextEnemySpawnEvent>,
)
    requires
        old(world).wf(),
        forall|i: int|
            0 <= i < enemy_death_events@.len() ==> (#[trigger] enemy_death_events@[
                i]).enemy_number < 0xffff_ffffu32,
    ensures
        enemy_death_rel(
            enemy_death_events@,
            *old(world),
            *final(world),
            old(exp_events)@,
            final(exp_events)@,
            old(next_enemy_events)@,
            final(next_enemy_events)@,
        ),
{
    let ghost xg0: Seq<ExpGainEvent> = exp_events@;
    let ghost ne0: Seq<NextEnemySpawnEvent> = next_enemy_events@;
    let n = enemy_death_events.len();
    let mut i: usize = 0;
    while i < n
        invariant
            i <= n,
            n == enemy_death_events@.len(),
            world.wf(),
            forall|k: int|
                0 <= k < enemy_death_events@.len() ==> (#[trigger] enemy_death_events@[
                    k]).enemy_number < 0xffff_ffffu32,
            i == 0 ==> (*world == *old(world)),
            i > 0 ==> ({
                &&& world.enemy is None
                &&& world.combat_state == old(world).combat_state
                &&& world.progress == old(world).progress
                &&& world.player == old(world).player
                &&& world.player_combat == old(world).player_combat
                &&& world.upgrades == old(world).upgrades
            }),
            exp_events@.len() == xg0.len() + i,
            exp_events@.subrange(0, xg0.len() as int) == xg0,
            forall|k: int|
                0 <= k < i ==> (#[trigger] exp_events@[xg0.len() + k]).amount@
                    == enemy_death_events@[k].exp_reward@ && exp_events@[xg0.len() + k].amount.wf()
                    == enemy_death_events@[k].exp_reward.wf(),
            next_enemy_events@.len() == ne0.len() + i,
            next_enemy_events@.subrange(0, ne0.len() as int) == ne0,
            forall|k: int|
                0 <= k < i ==> (#[trigger] next_enemy_events@[ne0.len() + k]).enemy_number
                    == enemy_death_events@[k].enemy_number + 1,
        decreases n - i,
    {
        let death = &enemy_death_events[i];
        world.enemy = None;
        exp_events.push(ExpGainEvent { amount: death.exp_reward.dup() });
        next_enemy_events.push(NextEnemySpawnEvent { enemy_number: death.enemy_number + 1 });
        proof {
            assert(exp_events@.subrange(0, xg0.len() as int) =~= xg0);
            assert(next_enemy_events@.subrange(0, ne0.len() as int) =~= ne0);
        }
        i = i + 1;
    }
}

/// Effect of the player-death pass: with any signal pending, exactly one
/// rebirth happens — the progression resets to enemy 1, the game-over
/// flag clears, the player and upgrade records are rebuilt with the
/// rebirth bonus of the ordinal reached, and enemy 1 is live again.
pub open spec fn player_death_rel(
    pd: Seq<PlayerDeathEvent>,
    w1: GameWorld,
    w2: GameWorld,
) -> bool {
    &&& w2.wf()
    &&& (pd.len() == 0 ==> w2 == w1)
    &&& (pd.len() > 0 ==> {
        let points = rat_from_nat(w1.progress.current_enemy_number as nat);
        &&& w2.progress.current_enemy_number == 1
        &&& w2.progress.has_died_once == w1.progress.has_died_once
        &&& !w2.combat_state.is_game_over
        &&& w2.combat_state.in_dungeon == w1.combat_state.in_dungeon
        &&& w2.player_combat is None
        &&& reborn_player(w2, points)
        &&& enemy_matches(w2.enemy, 1)
    })
}

/// Handle a player death: only the first signal of a tick is honored, so
/// one hit-point crossing causes exactly one rebirth. The rebirth gain is
/// the enemy ordinal reached; progress resets to enemy 1, the game-over
/// flag clears, the player and its stats are rebuilt with the rebirth
/// bonus, and enemy 1 spawns.
pub fn player_death_system(player_death_events: &Vec<PlayerDeathEvent>, world: &mut GameWorld)
    requires
        old(world).wf(),
    ensures
        player_death_rel(player_death_events@, *old(world), *final(world)),
{
    if player_death_events.len() == 0 {
        return ;
    }
    let rebirth_gain = BigRat::from_u64(world.progress.current_enemy_number as u64);
    world.player_combat = None;
    world.enemy = None;
    world.progress.current_enemy_number = 1;
    world.combat_state.is_game_over = false;
    rebirth_player_system(world, rebirth_gain);
    world.enemy = Some(spawn_enemy(1));
}

/// The player and upgrade records that a rebirth with the given points
/// produces (see `rebirth_player_system` for the formulas).
pub open spec fn reborn_player(w: GameWorld, points: Rat) -> bool {
    let bonus = crate::systems::initialization::rebirth_bonus_spec(points);
    let cost = crate::systems::initialization::rebirth_cost_spec(points);
    &&& w.player is Some
    &&& w.player->Some_0.wf()
    &&& w.player->Some_0.base_hp.0@ == crate::bigrat::rat_mul(rat_from_nat(100), bonus)
    &&& w.player->Some_0.base_attack.0@ == crate::bigrat::rat_mul(rat_from_nat(10), bonus)
    &&& w.player->Some_0.base_defense.0@ == crate::bigrat::rat_mul(rat_from_nat(5), bonus)
    &&& w.player->Some_0.base_speed.0@ == crate::bigrat::rat_mul(rat_from_nat(1), bonus)
    &&& w.player->Some_0.experience.0@ == (Rat { n: 0, d: 1 })
    &&& w.player->Some_0.level.0 == 1
    &&& w.player->Some_0.rebirth_points.0@ == points
    &&& w.upgrades is Some
    &&& w.upgrades->Some_0.wf()
    &&& w.upgrades->Some_0.invariant_holds()
    &&& crate::systems::initialization::fresh_upgrade_entry(
        w.upgrades->Some_0.hp,
        crate::bigrat::rat_mul(rat_from_nat(100), bonus),
        cost,
    )
    &&& crate::systems::initialization::fresh_upgrade_entry(
        w.upgrades->Some_0.attack,
        crate::bigrat::rat_mul(rat_from_nat(10), bonus),
        cost,
    )
    &&& crate::systems::initialization::fresh_upgrade_entry(
        w.upgrades->Some_0.defense,
        crate::bigrat::rat_mul(rat_from_nat(5), bonus),
        cost,
    )
    &&& crate::systems::initialization::fresh_upgrade_entry(
        w.upgrades->Some_0.speed,
        crate::bigrat::rat_mul(rat_from_nat(1), bonus),
        cost,
    )
}

/// Experience after a list of gain events is applied in order.
pub open spec fn exp_after_events(e: Rat, evs: Seq<ExpGainEvent>) -> Rat
    decreases evs.len(),
{
    if evs.len() == 0 {
        e
    } else {
        exp_after_events(rat_add(e, evs[0].amount@), evs.drop_first())
    }
}

pub proof fn lemma_exp_after_events_snoc(e: Rat, evs: Seq<ExpGainEvent>, x: ExpGainEvent)
    ensures
        exp_after_events(e, evs.push(x)) == rat_add(exp_after_events(e, evs), x.amount@),
    decreases evs.len(),
{
    if evs.len() == 0 {
        assert(evs.push(x).drop_first() =~= Seq::<ExpGainEvent>::empty());
        assert(evs.push(x)[0] == x);
        assert(exp_after_events(rat_add(e, x.amount@), evs.push(x).drop_first()) == rat_add(
            e,
            x.amount@,
        ));
        assert(exp_after_events(e, evs) == e);
    } else {
        assert(evs.push(x).drop_first() =~= evs.drop_first().push(x));
        lemma_exp_after_events_snoc(rat_add(e, evs[0].amount@), evs.drop_first(), x);
    }
}

/// Effect of the experience pass: the live player's experience becomes
/// the ordered sum of the pending gains and nothing else moves; without
/// a live player nothing changes.
pub open spec fn exp_gain_rel(xs: Seq<ExpGainEvent>, w1: GameWorld, w2: GameWorld) -> bool {
    &&& w2.wf()
    &&& (w1.player is None ==> w2 == w1)
    &&& (w1.player is Some ==> {
        let p1 = w1.player->Some_0;
        let p2 = w2.player->Some_0;
        &&& w2.player is Some
        &&& p2.base_hp == p1.base_hp
        &&& p2.base_attack == p1.base_attack
        &&& p2.base_defense == p1.base_defense
        &&& p2.base_speed == p1.base_speed
        &&& p2.level == p1.level
        &&& p2.rebirth_points == p1.rebirth_points
        &&& p2.experience.0@ == exp_after_events(p1.experience.0@, xs)
        &&& p2.experience.0.wf()
        &&& w2.combat_state == w1.combat_state
        &&& w2.progress == w1.progress
        &&& w2.player_combat == w1.player_combat
        &&& w2.enemy == w1.enemy
        &&& w2.upgrades == w1.upgrades
    })
}

/// Award every pending experience gain to the live player, in order.
/// A tick without a live player is a no-op.
pub fn exp_gain_system(exp_events: &Vec<ExpGainEvent>, world: &mut GameWorld)
    requires
        old(world).wf(),
        forall|i: int| 0 <= i < exp_events@.len() ==> (#[trigger] exp_events@[i]).amount.wf(),
    ensures
        exp_gain_rel(exp_events@, *old(world), *final(world)),
{
    if world.player.is_none() {
        return ;
    }
    let ghost w0: GameWorld = *world;
    let n = exp_events.len();
    let mut i: usize = 0;
    while i < n
        invariant
            i <= n,
            n == exp_events@.len(),
            forall|k: int| 0 <= k < exp_events@.len() ==> (#[trigger] exp_events@[k]).amount.wf(),
            w0.wf(),
            w0.player is Some,
            world.wf(),
            world.player is Some,
            ({
                let p1 = w0.player->Some_0;
                let p2 = world.player->Some_0;
                &&& p2.base_hp == p1.base_hp
                &&& p2.base_attack == p1.base_attack
                &&& p2.base_defense == p1.base_defense
                &&& p2.base_speed == p1.base_speed
                &&& p2.level == p1.level
                &&& p2.rebirth_points == p1.rebirth_points
                &&& p2.experience.0@ == exp_after_events(
                    p1.experience.0@,
                    exp_events@.take(i as int),
                )
                &&& p2.experience.0.wf()
            }),
            world.combat_state == w0.combat_state,
            world.progress == w0.progress,
            world.player_combat == w0.player_combat,
            world.enemy == w0.enemy,
            world.upgrades == w0.upgrades,
        decreases n - i,
    {
        proof {
            assert(exp_events@.take((i + 1) as int) =~= exp_events@.take(i as int).push(
                exp_events@[i as int],
            ));
            lemma_exp_after_events_snoc(
                w0.player->Some_0.experience.0@,
                exp_events@.take(i as int),
                exp_events@[i as int],
            );
        }
        let amount = exp_events[i].amount.dup();
        match &mut world.player {
            Some(player) => {
                let new_exp = player.experience.0.add(&amount);
                player.experience.0 = new_exp;
            },
            None => {},
        }
        i = i + 1;
    }
    proof {
        assert(exp_events@.take(n as int) =~= exp_events@);
    }
}

/// Effect of the spawn pass: the last pending request wins — its ordinal
/// becomes the current one and a freshly scaled enemy of that ordinal is
/// live; without requests nothing changes.
pub open spec fn next_enemy_spawn_rel(
    ns: Seq<NextEnemySpawnEvent>,
    w1: GameWorld,
    w2: GameWorld,
) -> bool {
    &&& w2.wf()
    &&& (ns.len() == 0 ==> w2 == w1)
    &&& (ns.len() > 0 ==> {
        &&& w2.progress.current_enemy_number == ns.last().enemy_number
        &&& w2.progress.has_died_once == w1.progress.has_died_once
        &&& enemy_matches(w2.enemy, ns.last().enemy_number as nat)
        &&& w2.combat_state == w1.combat_state
        &&& w2.player == w1.player
        &&& w2.player_combat == w1.player_combat
        &&& w2.upgrades == w1.upgrades
    })
}

/// Spawn each requested next enemy, the last request winning, and record
/// its ordinal as the current one.
pub fn next_enemy_spawn_system(next_enemy_events: &Vec<NextEnemySpawnEvent>, world: &mut GameWorld)
    requires
        old(world).wf(),
        forall|i: int|
            0 <= i < next_enemy_events@.len() ==> (#[trigger] next_enemy_events@[i]).enemy_number
                >= 1,
    ensures
        next_enemy_spawn_rel(next_enemy_events@, *old(world), *final(world)),
{
    let n = next_enemy_events.len();
    let mut i: usize = 0;
    while i < n
        invariant
            i <= n,
            n == next_enemy_events@.len(),
            forall|k: int|
                0 <= k < next_enemy_events@.len() ==> (#[trigger] next_enemy_events@[
                    k]).enemy_number >= 1,
            world.wf(),
            i == 0 ==> (*world == *old(world)),
            i > 0 ==> ({
                &&& world.progress.current_enemy_number == next_enemy_events@[i - 1].enemy_number
                &&& world.progress.has_died_once == old(world).progress.has_died_once
                &&& enemy_matches(world.enemy, next_enemy_events@[i - 1].enemy_number as nat)
                &&& world.combat_state == old(world).combat_state
                &&& world.player == old(world).player
                &&& world.player_combat == old(world).player_combat
                &&& world.upgrades == old(world).upgrades
            }),
        decreases n - i,
    {
        let spawn = &next_enemy_events[i];
        world.progress.current_enemy_number = spawn.enemy_number;
        world.enemy = Some(spawn_enemy(spawn.enemy_number));
        i = i + 1;
    }
}

} // verus!
