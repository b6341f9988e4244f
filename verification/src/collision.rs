//! Bullets against enemies: which bullet shoots down which enemy, and how
//! many enemies fall.
use vstd::prelude::*;
use crate::entity::Entity;
use crate::roster::{all_wf, lemma_live_after_kill, live};

verus! {

/// Bullet `b` can shoot down the enemy at index `j`: that enemy is alive
/// and overlaps the bullet.
pub open spec fn is_hit(b: Entity, enemies: Seq<Entity>, j: int) -> bool {
    0 <= j < enemies.len() && enemies[j].alive && b.overlaps(&enemies[j])
}

/// The least index from `start` on at which `b` can shoot down an enemy,
/// or the number of enemies if there is none.
pub open spec fn first_hit_from(b: Entity, enemies: Seq<Entity>, start: int) -> int
    decreases enemies.len() - start,
{
    if start < 0 || start >= enemies.len() {
        enemies.len() as int
    } else if is_hit(b, enemies, start) {
        start
    } else {
        first_hit_from(b, enemies, start + 1)
    }
}

/// The index of the first enemy that `b` can shoot down, or the number
/// of enemies if it can shoot down none.
pub open spec fn first_hit(b: Entity, enemies: Seq<Entity>) -> int {
    first_hit_from(b, enemies, 0)
}

/// `first_hit_from` finds a hit, and the least one, whenever there is one
/// from `start` on.
pub proof fn lemma_first_hit_from_is_least(b: Entity, enemies: Seq<Entity>, start: int)
    requires
        0 <= start,
    ensures
        start <= first_hit_from(b, enemies, start) || first_hit_from(b, enemies, start)
            == enemies.len(),
        first_hit_from(b, enemies, start) <= enemies.len(),
        first_hit_from(b, enemies, start) < enemies.len() ==> is_hit(
            b,
            enemies,
            first_hit_from(b, enemies, start),
        ),
        forall|k: int| start <= k < first_hit_from(b, enemies, start) ==> !is_hit(b, enemies, k),
    decreases enemies.len() - start,
{
    if start < enemies.len() && !is_hit(b, enemies, start) {
        lemma_first_hit_from_is_least(b, enemies, start + 1);
    }
}

/// The first hit is a hit that no hit precedes; where the bullet can
/// shoot down no enemy at all, it is the number of enemies.
pub proof fn lemma_first_hit_is_least(b: Entity, enemies: Seq<Entity>)
    ensures
        0 <= first_hit(b, enemies) <= enemies.len(),
        first_hit(b, enemies) < enemies.len() ==> is_hit(b, enemies, first_hit(b, enemies)),
        forall|k: int| 0 <= k < first_hit(b, enemies) ==> !is_hit(b, enemies, k),
        first_hit(b, enemies) == enemies.len() <==> forall|k: int| !is_hit(b, enemies, k),
{
    lemma_first_hit_from_is_least(b, enemies, 0);
}

/// Finds the first live enemy that overlaps `b`. Returns the number of
/// enemies if there is none.
pub fn find_first_hit(b: &Entity, enemies: &Vec<Entity>) -> (j: usize)
    ensures
        j == first_hit(*b, enemies@),
{
    let mut j: usize = 0;
    while j < enemies.len()
        invariant
            j <= enemies.len(),
            first_hit(*b, enemies@) == first_hit_from(*b, enemies@, j as int),
        decreases enemies.len() - j,
    {
        if enemies[j].alive && b.overlaps(&enemies[j]) {
            return j;
        }
        j += 1;
    }
    j
}

/// What the resolution of bullets against enemies leaves behind: both
/// collections with the fallen marked dead, and the number of enemies
/// shot down.
pub struct Resolution {
    pub bullets: Seq<Entity>,
    pub enemies: Seq<Entity>,
    pub hits: nat,
}

/// The resolution of bullets against enemies. The bullets are taken in
/// order. A live bullet shoots down the first enemy, in their order, that
/// is still alive and overlaps it; both die, and the bullet reaches no
/// further enemy. Any other bullet passes.
pub open spec fn resolved(bullets: Seq<Entity>, enemies: Seq<Entity>) -> Resolution
    decreases bullets.len(),
{
    if bullets.len() == 0 {
        Resolution { bullets: Seq::empty(), enemies, hits: 0 }
    } else {
        let before = resolved(bullets.drop_last(), enemies);
        let b = bullets.last();
        let j = first_hit(b, before.enemies);
        if b.alive && j < before.enemies.len() {
            Resolution {
                bullets: before.bullets.push(b.killed()),
                enemies: before.enemies.update(j, before.enemies[j].killed()),
                hits: before.hits + 1,
            }
        } else {
            Resolution { bullets: before.bullets.push(b), ..before }
        }
    }
}

/// Resolution moves nothing and changes no shape: it only marks entities
/// dead, and never revives one.
pub proof fn lemma_resolved_shape(bullets: Seq<Entity>, enemies: Seq<Entity>)
    ensures
        resolved(bullets, enemies).bullets.len() == bullets.len(),
        resolved(bullets, enemies).enemies.len() == enemies.len(),
        forall|i: int|
            0 <= i < bullets.len() ==> {
                let b = #[trigger] resolved(bullets, enemies).bullets[i];
                b == bullets[i] || (bullets[i].alive && b == bullets[i].killed())
            },
        forall|i: int|
            0 <= i < enemies.len() ==> {
                let e = #[trigger] resolved(bullets, enemies).enemies[i];
                e == enemies[i] || (enemies[i].alive && e == enemies[i].killed())
            },
        all_wf(bullets) ==> all_wf(resolved(bullets, enemies).bullets),
        all_wf(enemies) ==> all_wf(resolved(bullets, enemies).enemies),
    decreases bullets.len(),
{
    if bullets.len() > 0 {
        lemma_resolved_shape(bullets.drop_last(), enemies);
        let before = resolved(bullets.drop_last(), enemies);
        let after = resolved(bullets, enemies);
        lemma_first_hit_is_least(bullets.last(), before.enemies);
        assert forall|i: int| 0 <= i < bullets.len() implies {
            let b = #[trigger] after.bullets[i];
            b == bullets[i] || (bullets[i].alive && b == bullets[i].killed())
        } by {
            if i < bullets.len() - 1 {
                assert(after.bullets[i] == before.bullets[i]);
                assert(bullets.drop_last()[i] == bullets[i]);
            }
        }
        assert forall|i: int| 0 <= i < enemies.len() implies {
            let e = #[trigger] after.enemies[i];
            e == enemies[i] || (enemies[i].alive && e == enemies[i].killed())
        } by {
            assert(before.enemies[i] == enemies[i] || (enemies[i].alive && before.enemies[i]
                == enemies[i].killed()));
        }
        if all_wf(bullets) {
            assert forall|i: int| 0 <= i < after.bullets.len() implies (
            #[trigger] after.bullets[i]).wf() by {
                assert(bullets[i].wf());
            }
        }
        if all_wf(enemies) {
            assert forall|i: int| 0 <= i < after.enemies.len() implies (
            #[trigger] after.enemies[i]).wf() by {
                assert(enemies[i].wf());
            }
        }
    }
}

/// Every hit costs exactly one live bullet and one live enemy. So no
/// enemy is counted twice, however many bullets overlap it, and no bullet
/// shoots down two enemies.
pub proof fn lemma_each_hit_counted_once(bullets: Seq<Entity>, enemies: Seq<Entity>)
    ensures
        live(resolved(bullets, enemies).enemies).len() + resolved(bullets, enemies).hits == live(
            enemies,
        ).len(),
        live(resolved(bullets, enemies).bullets).len() + resolved(bullets, enemies).hits == live(
            bullets,
        ).len(),
    decreases bullets.len(),
{
    let pred = |e: Entity| e.alive;
    if bullets.len() == 0 {
        assert(resolved(bullets, enemies).bullets =~= bullets);
    } else {
        lemma_each_hit_counted_once(bullets.drop_last(), enemies);
        let before = resolved(bullets.drop_last(), enemies);
        let b = bullets.last();
        let j = first_hit(b, before.enemies);
        lemma_first_hit_is_least(b, before.enemies);
        assert(bullets.drop_last().push(b) =~= bullets);
        bullets.drop_last().lemma_filter_push(b, pred);
        if b.alive && j < before.enemies.len() {
            before.bullets.lemma_filter_push(b.killed(), pred);
            lemma_live_after_kill(before.enemies, j);
        } else {
            before.bullets.lemma_filter_push(b, pred);
        }
    }
}

/// Resolves the bullets against the enemies and returns the number of
/// enemies shot down.
pub fn resolve_hits(bullets: &mut Vec<Entity>, enemies: &mut Vec<Entity>) -> (hits: usize)
    ensures
        resolved(old(bullets)@, old(enemies)@) == (Resolution {
            bullets: final(bullets)@,
            enemies: final(enemies)@,
            hits: hits as nat,
        }),
{
    let mut hits: usize = 0;
    let mut i: usize = 0;
    assert(old(bullets)@.take(0) =~= Seq::empty());
    assert(bullets@.take(0) =~= Seq::empty());
    while i < bullets.len()
        invariant
            i <= bullets.len(),
            hits <= i,
            bullets.len() == old(bullets).len(),
            forall|k: int| i <= k < bullets.len() ==> bullets@[k] == old(bullets)@[k],
            resolved(old(bullets)@.take(i as int), old(enemies)@) == (Resolution {
                bullets: bullets@.take(i as int),
                enemies: enemies@,
                hits: hits as nat,
            }),
        decreases bullets.len() - i,
    {
        let ghost done = bullets@.take(i as int);
        let mut b = bullets[i];
        if b.alive {
            let j = find_first_hit(&b, enemies);
            if j < enemies.len() {
                let mut e = enemies[j];
                e.alive = false;
                enemies[j] = e;
                b.alive = false;
                bullets[i] = b;
                hits += 1;
            }
        }
        proof {
            assert(old(bullets)@.take(i + 1).drop_last() =~= old(bullets)@.take(i as int));
            assert(bullets@.take(i + 1) =~= done.push(b));
        }
        i += 1;
    }
    assert(old(bullets)@.take(i as int) =~= old(bullets)@);
    assert(bullets@.take(i as int) =~= bullets@);
    hits
}

} // verus!
