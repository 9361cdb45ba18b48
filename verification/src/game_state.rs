use vstd::prelude::*;
use crate::random::{random_index, thread_rng};

verus! {

/// Points for each projectile that hits an asteroid.
pub const POINTS_PER_HIT: u32 = 10;
/// Largest number of asteroids a wave brings.
pub const MAX_SPAWN_AMOUNT: u32 = 5;
/// Number of screen edges a new asteroid can come from: 0 left, 1 right,
/// 2 top, 3 bottom.
pub const SPAWN_EDGES: usize = 4;
/// Number of asteroids a fresh game opens with.
pub const OPENING_ASTEROIDS: usize = 3;

/// Score and wave size of a running game. The time of the last wave is
/// floating point and is kept by the caller.
#[derive(Clone, Copy, Debug)]
pub struct GameState {
    pub score: u32,
    pub asteroid_spawn_amount: u32,
}

/// Which projectiles and which asteroids took part in a hit this frame.
pub struct HitReport {
    pub projectile_hit: Vec<bool>,
    pub asteroid_hit: Vec<bool>,
    /// Number of projectile-asteroid pairs that hit; each breaks with a sound.
    pub pairs: u32,
}

/// Number of `true` entries.
pub open spec fn count_true(row: Seq<bool>) -> nat
    decreases row.len(),
{
    if row.len() == 0 {
        0
    } else {
        count_true(row.drop_last()) + if row.last() { 1nat } else { 0nat }
    }
}

/// Number of projectile-asteroid pairs that hit, over a table whose row `p`
/// says which asteroids projectile `p` hits.
pub open spec fn count_hits(hits: Seq<Seq<bool>>) -> nat
    decreases hits.len(),
{
    if hits.len() == 0 {
        0
    } else {
        count_hits(hits.drop_last()) + count_true(hits.last())
    }
}

/// The items whose flag is not set, in their order.
pub open spec fn survivors<T>(items: Seq<T>, hit: Seq<bool>) -> Seq<T>
    decreases items.len(),
{
    if items.len() == 0 {
        Seq::empty()
    } else {
        let rest = survivors(items.drop_last(), hit.drop_last());
        if hit[items.len() - 1] { rest } else { rest.push(items.last()) }
    }
}

/// Each item in order, with every flagged item replaced by its pieces.
pub open spec fn replaced<T>(items: Seq<T>, hit: Seq<bool>, pieces: Seq<Vec<T>>) -> Seq<T>
    decreases items.len(),
{
    if items.len() == 0 {
        Seq::empty()
    } else {
        let rest = replaced(items.drop_last(), hit.drop_last(), pieces.drop_last());
        if hit[items.len() - 1] { rest + pieces[items.len() - 1]@ } else { rest.push(items.last()) }
    }
}

/// Wave size after a wave: half as many again, rounded up, at most five.
pub open spec fn next_spawn_amount(amount: int) -> int {
    let grown = (3 * amount + 1) / 2;
    if grown < MAX_SPAWN_AMOUNT { grown } else { MAX_SPAWN_AMOUNT as int }
}

proof fn lemma_count_hits_prefix(hits: Seq<Seq<bool>>, i: int, j: int)
    requires
        0 <= i <= j <= hits.len(),
    ensures
        count_hits(hits.take(i)) <= count_hits(hits.take(j)),
    decreases j - i,
{
    if i < j {
        lemma_count_hits_prefix(hits, i, j - 1);
        assert(hits.take(j).drop_last() =~= hits.take(j - 1));
    }
}

proof fn lemma_count_true_prefix(row: Seq<bool>, i: int)
    requires
        0 <= i <= row.len(),
    ensures
        count_true(row.take(i)) <= count_true(row),
    decreases row.len() - i,
{
    if i < row.len() {
        lemma_count_true_prefix(row, i + 1);
        assert(row.take(i + 1).drop_last() =~= row.take(i));
    }
    assert(row.take(row.len() as int) =~= row);
}

impl GameState {
    /// A game that has just begun: no points, waves of one asteroid.
    pub fn new() -> (g: GameState)
        ensures
            g.score == 0,
            g.asteroid_spawn_amount == 1,
    {
        GameState { score: 0, asteroid_spawn_amount: 1 }
    }

    /// Books the hits of one frame. `hits@[p]@[a]` says whether projectile
    /// `p` hits asteroid `a`. Every hitting pair scores ten points; a
    /// projectile that hits anything is used up and an asteroid that is hit
    /// by anything breaks.
    pub fn destroy_asteroids(&mut self, hits: &Vec<Vec<bool>>, asteroid_count: usize) -> (report: HitReport)
        requires
            forall|p: int| 0 <= p < hits.len() ==> (#[trigger] hits@[p])@.len() == asteroid_count,
            old(self).score + POINTS_PER_HIT * count_hits(hits.deep_view()) <= u32::MAX,
        ensures
            final(self).score == old(self).score + POINTS_PER_HIT * count_hits(hits.deep_view()),
            final(self).asteroid_spawn_amount == old(self).asteroid_spawn_amount,
            report.pairs == count_hits(hits.deep_view()),
            report.projectile_hit.len() == hits.len(),
            forall|p: int| 0 <= p < hits.len() ==>
                (#[trigger] report.projectile_hit@[p] <==> hits@[p]@.contains(true)),
            report.asteroid_hit.len() == asteroid_count,
            forall|a: int| 0 <= a < asteroid_count ==>
                (#[trigger] report.asteroid_hit@[a] <==> exists|p: int| 0 <= p < hits.len() && #[trigger] hits@[p]@[a]),
    {
        let ghost h = hits.deep_view();
        let ghost start = self.score;
        let mut asteroid_hit: Vec<bool> = Vec::new();
        let mut a: usize = 0;
        while a < asteroid_count
            invariant
                a <= asteroid_count,
                asteroid_hit.len() == a,
                forall|b: int| 0 <= b < a ==> !asteroid_hit@[b],
            decreases asteroid_count - a,
        {
            asteroid_hit.push(false);
            a = a + 1;
        }
        let mut projectile_hit: Vec<bool> = Vec::new();
        let mut pairs: u32 = 0;
        let mut p: usize = 0;
        while p < hits.len()
            invariant
                h == hits.deep_view(),
                h.len() == hits.len(),
                forall|q: int| 0 <= q < hits.len() ==> (#[trigger] hits@[q])@.len() == asteroid_count,
                start + POINTS_PER_HIT * count_hits(h) <= u32::MAX,
                p <= hits.len(),
                self.score == start + POINTS_PER_HIT * count_hits(h.take(p as int)),
                pairs == count_hits(h.take(p as int)),
                projectile_hit.len() == p,
                forall|q: int| 0 <= q < p ==> (#[trigger] projectile_hit@[q] <==> hits@[q]@.contains(true)),
                asteroid_hit.len() == asteroid_count,
                forall|b: int| 0 <= b < asteroid_count ==>
                    (#[trigger] asteroid_hit@[b] <==> exists|q: int| 0 <= q < p && #[trigger] hits@[q]@[b]),
                self.asteroid_spawn_amount == old(self).asteroid_spawn_amount,
            decreases hits.len() - p,
        {
            let row = &hits[p];
            let ghost r = row@;
            assert(h[p as int] == r);
            proof {
                lemma_count_hits_prefix(h, p + 1, h.len() as int);
                assert(h.take(p + 1).drop_last() =~= h.take(p as int));
                assert(h.take(h.len() as int) =~= h);
            }
            let mut row_hit = false;
            let mut a: usize = 0;
            while a < asteroid_count
                invariant
                    r == row@,
                    r.len() == asteroid_count,
                    h == hits.deep_view(),
                    h[p as int] == r,
                    p < hits.len(),
                    start + POINTS_PER_HIT * count_hits(h.take(p + 1)) <= u32::MAX,
                    count_hits(h.take(p + 1)) == count_hits(h.take(p as int)) + count_true(r),
                    a <= asteroid_count,
                    self.score == start + POINTS_PER_HIT * (count_hits(h.take(p as int)) + count_true(r.take(a as int))),
                    pairs == count_hits(h.take(p as int)) + count_true(r.take(a as int)),
                    row_hit <==> exists|b: int| 0 <= b < a && r[b],
                    asteroid_hit.len() == asteroid_count,
                    forall|b: int| 0 <= b < asteroid_count ==>
                        (#[trigger] asteroid_hit@[b] <==>
                            ((exists|q: int| 0 <= q < p && #[trigger] hits@[q]@[b]) || (b < a && r[b]))),
                    self.asteroid_spawn_amount == old(self).asteroid_spawn_amount,
                decreases asteroid_count - a,
            {
                proof {
                    assert(r.take(a + 1).drop_last() =~= r.take(a as int));
                    lemma_count_true_prefix(r, a + 1);
                }
                if row[a] {
                    self.score = self.score + POINTS_PER_HIT;
                    pairs = pairs + 1;
                    row_hit = true;
                    asteroid_hit.set(a, true);
                }
                a = a + 1;
            }
            proof {
                assert(r.take(asteroid_count as int) =~= r);
                assert forall|b: int| 0 <= b < asteroid_count implies
                    (#[trigger] asteroid_hit@[b] <==> exists|q: int| 0 <= q < p + 1 && #[trigger] hits@[q]@[b]) by {
                    if asteroid_hit@[b] && !(exists|q: int| 0 <= q < p && #[trigger] hits@[q]@[b]) {
                        assert(hits@[p as int]@[b]);
                    }
                    if exists|q: int| 0 <= q < p + 1 && #[trigger] hits@[q]@[b] {
                        let q = choose|q: int| 0 <= q < p + 1 && #[trigger] hits@[q]@[b];
                        if q == p {
                            assert(r[b]);
                        }
                    }
                }
                if row_hit {
                    let b = choose|b: int| 0 <= b < asteroid_count && r[b];
                    assert(r[b]);
                }
            }
            projectile_hit.push(row_hit);
            p = p + 1;
        }
        proof {
            assert(h.take(hits.len() as int) =~= h);
        }
        HitReport { projectile_hit, asteroid_hit, pairs }
    }

    /// Sends a wave: as many asteroids as the wave size, each from a screen
    /// edge picked at random (0 left, 1 right, 2 top, 3 bottom); then the
    /// next wave grows by half, rounded up, up to five. The caller places
    /// and launches the asteroids and notes the time.
    pub fn spawn_new_asteroids(&mut self) -> (edges: Vec<usize>)
        ensures
            edges.len() == old(self).asteroid_spawn_amount,
            forall|i: int| 0 <= i < edges.len() ==> #[trigger] edges@[i] < SPAWN_EDGES,
            final(self).asteroid_spawn_amount == next_spawn_amount(old(self).asteroid_spawn_amount as int),
            final(self).score == old(self).score,
    {
        let mut rng = thread_rng();
        let mut edges: Vec<usize> = Vec::new();
        let mut i: u32 = 0;
        while i < self.asteroid_spawn_amount
            invariant
                i <= self.asteroid_spawn_amount,
                edges.len() == i,
                forall|j: int| 0 <= j < edges.len() ==> #[trigger] edges@[j] < SPAWN_EDGES,
                self.asteroid_spawn_amount == old(self).asteroid_spawn_amount,
                self.score == old(self).score,
            decreases self.asteroid_spawn_amount - i,
        {
            let edge = random_index(&mut rng, SPAWN_EDGES);
            edges.push(edge);
            i = i + 1;
        }
        self.asteroid_spawn_amount = grow_spawn_amount(self.asteroid_spawn_amount);
        edges
    }
}

fn grow_spawn_amount(amount: u32) -> (next: u32)
    ensures
        next == next_spawn_amount(amount as int),
{
    let grown: u64 = (3 * (amount as u64) + 1) / 2;
    if grown < MAX_SPAWN_AMOUNT as u64 {
        grown as u32
    } else {
        MAX_SPAWN_AMOUNT
    }
}

/// The items whose flag is not set, in their order: the projectiles that
/// survive a frame's hits.
pub fn remove_hit<T: Copy>(items: &Vec<T>, hit: &Vec<bool>) -> (kept: Vec<T>)
    requires
        items.len() == hit.len(),
    ensures
        kept@ == survivors(items@, hit@),
{
    let mut kept: Vec<T> = Vec::new();
    let mut i: usize = 0;
    while i < items.len()
        invariant
            items.len() == hit.len(),
            i <= items.len(),
            kept@ == survivors(items@.take(i as int), hit@.take(i as int)),
        decreases items.len() - i,
    {
        proof {
            assert(items@.take(i + 1).drop_last() =~= items@.take(i as int));
            assert(hit@.take(i + 1).drop_last() =~= hit@.take(i as int));
        }
        if !hit[i] {
            kept.push(items[i]);
        }
        i = i + 1;
    }
    proof {
        assert(items@.take(items.len() as int) =~= items@);
        assert(hit@.take(items.len() as int) =~= hit@);
    }
    kept
}

/// Each item in order, with every flagged item replaced by its pieces: the
/// asteroids after a frame's hits, broken ones replaced by their fragments.
pub fn replace_hit<T: Copy>(items: &Vec<T>, hit: &Vec<bool>, pieces: &Vec<Vec<T>>) -> (out: Vec<T>)
    requires
        items.len() == hit.len(),
        items.len() == pieces.len(),
    ensures
        out@ == replaced(items@, hit@, pieces@),
{
    let mut out: Vec<T> = Vec::new();
    let mut i: usize = 0;
    while i < items.len()
        invariant
            items.len() == hit.len(),
            items.len() == pieces.len(),
            i <= items.len(),
            out@ == replaced(items@.take(i as int), hit@.take(i as int), pieces@.take(i as int)),
        decreases items.len() - i,
    {
        proof {
            assert(items@.take(i + 1).drop_last() =~= items@.take(i as int));
            assert(hit@.take(i + 1).drop_last() =~= hit@.take(i as int));
            assert(pieces@.take(i + 1).drop_last() =~= pieces@.take(i as int));
        }
        if hit[i] {
            let part = &pieces[i];
            let ghost before = out@;
            let mut j: usize = 0;
            while j < part.len()
                invariant
                    j <= part.len(),
                    out@ == before + part@.take(j as int),
                decreases part.len() - j,
            {
                proof {
                    assert(part@.take(j + 1) =~= part@.take(j as int).push(part@[j as int]));
                }
                out.push(part[j]);
                j = j + 1;
            }
            proof {
                assert(part@.take(part.len() as int) =~= part@);
            }
        } else {
            out.push(items[i]);
        }
        i = i + 1;
    }
    proof {
        assert(items@.take(items.len() as int) =~= items@);
        assert(hit@.take(items.len() as int) =~= hit@);
        assert(pieces@.take(items.len() as int) =~= pieces@);
    }
    out
}

/// Waves never grow past five asteroids, and while they are at most five
/// they never shrink.
pub proof fn lemma_waves_grow_up_to_five(amount: int)
    requires
        0 <= amount <= MAX_SPAWN_AMOUNT,
    ensures
        amount <= next_spawn_amount(amount) <= MAX_SPAWN_AMOUNT,
{
}

/// From a first wave of one asteroid, waves bring one, two, three and then
/// five asteroids each time.
pub proof fn lemma_wave_sizes_from_one()
    ensures
        next_spawn_amount(1) == 2,
        next_spawn_amount(2) == 3,
        next_spawn_amount(3) == 5,
        next_spawn_amount(5) == 5,
{
}

/// The next wave is half as large again as the last, rounded up, capped
/// at five: below the cap it is the smallest whole number at least one and a
/// half times the last wave; it reaches the cap only when that number would
/// be five or more.
pub proof fn lemma_wave_growth_rounds_up(amount: int)
    requires
        0 <= amount,
    ensures
        next_spawn_amount(amount) <= MAX_SPAWN_AMOUNT,
        next_spawn_amount(amount) < MAX_SPAWN_AMOUNT ==> 2 * next_spawn_amount(amount) >= 3 * amount
            && 2 * (next_spawn_amount(amount) - 1) < 3 * amount,
        next_spawn_amount(amount) == MAX_SPAWN_AMOUNT ==> 2 * MAX_SPAWN_AMOUNT <= 3 * amount + 1,
{
}

/// `count_true` counts the `true` entries: none exactly when no entry is
/// true, all exactly when every entry is, and one more for each `true`
/// appended.
pub proof fn lemma_count_true_counts(row: Seq<bool>)
    ensures
        count_true(row) <= row.len(),
        count_true(row) == 0 <==> !row.contains(true),
        count_true(row) == row.len() <==> (forall|j: int| 0 <= j < row.len() ==> #[trigger] row[j]),
        count_true(row.push(true)) == count_true(row) + 1,
        count_true(row.push(false)) == count_true(row),
    decreases row.len(),
{
    assert(row.push(true).drop_last() =~= row);
    assert(row.push(false).drop_last() =~= row);
    if row.len() > 0 {
        let rest = row.drop_last();
        lemma_count_true_counts(rest);
        if rest.contains(true) {
            let j = choose|j: int| 0 <= j < rest.len() && rest[j] == true;
            assert(row[j]);
        }
        if row.contains(true) && !row.last() {
            let j = choose|j: int| 0 <= j < row.len() && row[j] == true;
            assert(rest[j]);
        }
        if row.last() {
            assert(row[row.len() - 1]);
        }
        if count_true(row) == row.len() {
            assert forall|j: int| 0 <= j < row.len() implies #[trigger] row[j] by {
                if j < rest.len() {
                    assert(rest[j] == row[j]);
                }
            }
        }
        if forall|j: int| 0 <= j < row.len() ==> #[trigger] row[j] {
            assert forall|j: int| 0 <= j < rest.len() implies #[trigger] rest[j] by {
                assert(row[j]);
            }
            assert(row[row.len() - 1]);
        } else {
            let j = choose|j: int| 0 <= j < row.len() && !#[trigger] row[j];
            if j < rest.len() {
                assert(!rest[j]);
            }
        }
    }
}

/// Without any hit nothing is removed or replaced; when every item is hit
/// and no pieces are given, nothing remains; the survivors are never more
/// than the items.
pub proof fn lemma_survivors_keep_unhit<T>(items: Seq<T>, hit: Seq<bool>)
    requires
        items.len() == hit.len(),
    ensures
        !hit.contains(true) ==> survivors(items, hit) == items,
        (forall|j: int| 0 <= j < hit.len() ==> #[trigger] hit[j]) ==> survivors(items, hit).len() == 0,
        survivors(items, hit).len() == items.len() - count_true(hit),
    decreases items.len(),
{
    if items.len() > 0 {
        let ri = items.drop_last();
        let rh = hit.drop_last();
        lemma_survivors_keep_unhit(ri, rh);
        lemma_count_true_counts(rh);
        if !hit.contains(true) {
            assert(!hit[hit.len() - 1]);
            assert forall|j: int| 0 <= j < rh.len() implies rh[j] != true by {
                assert(hit[j] == rh[j]);
            }
            assert(ri.push(items.last()) =~= items);
        }
        if forall|j: int| 0 <= j < hit.len() ==> #[trigger] hit[j] {
            assert(hit[hit.len() - 1]);
            assert forall|j: int| 0 <= j < rh.len() implies #[trigger] rh[j] by {
                assert(hit[j]);
            }
        }
    }
}

/// Without any hit every item stays in place.
pub proof fn lemma_replaced_without_hits<T>(items: Seq<T>, hit: Seq<bool>, pieces: Seq<Vec<T>>)
    requires
        items.len() == hit.len(),
        items.len() == pieces.len(),
        !hit.contains(true),
    ensures
        replaced(items, hit, pieces) == items,
    decreases items.len(),
{
    if items.len() > 0 {
        let rh = hit.drop_last();
        assert(!hit[hit.len() - 1]);
        assert forall|j: int| 0 <= j < rh.len() implies rh[j] != true by {
            assert(hit[j] == rh[j]);
        }
        lemma_replaced_without_hits(items.drop_last(), rh, pieces.drop_last());
        assert(items.drop_last().push(items.last()) =~= items);
    }
}

} // verus!
