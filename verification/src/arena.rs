use vstd::prelude::*;

use rand::{Rng, SeedableRng};
use rand_chacha::ChaCha8Rng;

verus! {

/// The random number generator of the arena, from `rand_chacha`.
#[verifier::external_type_specification]
#[verifier::external_body]
pub struct ExChaCha8Rng(ChaCha8Rng);

/// The seed a generator was made with.
pub uninterp spec fn rng_seed(rng: ChaCha8Rng) -> u64;

/// The bounds of the draws made from a generator so far, oldest first.
pub uninterp spec fn rng_bounds(rng: ChaCha8Rng) -> Seq<usize>;

/// The value that `gen_range(0..bound)` returns on a ChaCha8 generator
/// seeded with `seed_from_u64(seed)` after draws below each of `earlier`.
/// `usize` values are sampled in words of `word_bits` bits (the width of
/// `usize`), so the stream also depends on that width.
pub uninterp spec fn chacha8_gen_range(seed: u64, earlier: Seq<usize>, bound: usize, word_bits: u32) -> usize;

/// `ChaCha8Rng::seed_from_u64` (through `rand_core::SeedableRng`): a fresh
/// generator made with `seed`, from which nothing has been drawn yet.
#[verifier::external_body]
fn seeded_rng(seed: u64) -> (rng: ChaCha8Rng)
    ensures
        rng_seed(rng) == seed,
        rng_bounds(rng) == Seq::<usize>::empty(),
{
    ChaCha8Rng::seed_from_u64(seed)
}

/// `rand::Rng::gen_range(0..bound)` on the generator (the call panics on an
/// empty range, so `bound` is positive): a value below `bound`, fixed by the
/// generator's seed, the bounds drawn before and the width of `usize`. The
/// generator keeps its seed and records one more draw below `bound`.
#[verifier::external_body]
fn draw_below(rng: &mut ChaCha8Rng, bound: usize) -> (r: usize)
    requires
        bound > 0,
    ensures
        r < bound,
        r == chacha8_gen_range(rng_seed(*old(rng)), rng_bounds(*old(rng)), bound, usize::BITS),
        rng_seed(*final(rng)) == rng_seed(*old(rng)),
        rng_bounds(*final(rng)) == rng_bounds(*old(rng)).push(bound),
{
    rng.gen_range(0..bound)
}

/// Number of seat layouts a game is drawn from.
pub const SEAT_LAYOUTS: usize = 6;

/// The layouts that `count` draws below 6 give from the generator seeded
/// with `seed`: draw `g` comes after `g` earlier draws below 6.
pub open spec fn layouts_of(seed: u64, count: nat) -> Seq<usize>
    decreases count,
{
    if count == 0 {
        Seq::empty()
    } else {
        let n = (count - 1) as nat;
        layouts_of(seed, n).push(
            chacha8_gen_range(seed, Seq::new(n, |i: int| SEAT_LAYOUTS), SEAT_LAYOUTS, usize::BITS),
        )
    }
}

/// Multiplier that spreads the first seed word over the generator's seed.
pub const SEED_MULTIPLIER: u64 = 0x9E3779B97F4A7C15;

/// Which engine sits at each seat of a game, one row per seat layout.
pub open spec fn seat_permutation_of(k: int) -> Seq<u8> {
    if k == 0 {
        seq![0u8, 1u8, 2u8]
    } else if k == 1 {
        seq![0u8, 2u8, 1u8]
    } else if k == 2 {
        seq![1u8, 0u8, 2u8]
    } else if k == 3 {
        seq![1u8, 2u8, 0u8]
    } else if k == 4 {
        seq![2u8, 0u8, 1u8]
    } else {
        seq![2u8, 1u8, 0u8]
    }
}

/// The seat at which engine `e` sits under seat layout `perm`.
pub open spec fn seat_of_engine(perm: Seq<u8>, e: int) -> u8 {
    if perm[0] == e {
        0
    } else if perm[1] == e {
        1
    } else {
        2
    }
}

/// `perm` seats each of the three engines exactly once.
pub open spec fn is_seat_layout(perm: Seq<u8>) -> bool {
    &&& perm.len() == 3
    &&& forall|s: int| 0 <= s < 3 ==> #[trigger] perm[s] < 3
    &&& perm[0] != perm[1] && perm[0] != perm[2] && perm[1] != perm[2]
}

/// The generator seed of a batch: the first seed word times
/// `SEED_MULTIPLIER` (wrapping), xor the key.
pub open spec fn arena_seed_of(seed_start: (u64, u64)) -> u64 {
    ((seed_start.0 as nat * SEED_MULTIPLIER as nat) % 0x1_0000_0000_0000_0000nat) as u64 ^ seed_start.1
}

/// Where a player of a game is found: the engine (agent) that plays it and
/// its position in that engine's list of player ids.
#[derive(Debug, Clone, Copy, PartialEq, Eq)]
pub struct Index {
    pub agent_idx: usize,
    pub player_id_idx: usize,
}

/// Three-engine arena settings.
#[derive(Debug, Clone)]
pub struct ThreeWay {
    pub disable_progress_bar: bool,
    pub log_dir: Option<String>,
}

/// The seating of a batch of games.
#[derive(Debug, Clone)]
pub struct Seating {
    /// `pids[e]` lists, game by game, the seat that engine `e` takes.
    pub pids: [Vec<u8>; 3],
    /// `indexes[g][s]` locates the player at seat `s` of game `g`.
    pub indexes: Vec<[Index; 3]>,
    /// `assignments[g][s]` is the engine at seat `s` of game `g`.
    pub assignments: Vec<[u8; 3]>,
}

/// A batch ready to be played: the game seeds and the seating.
#[derive(Debug, Clone)]
pub struct BatchPlan {
    /// `(seed, key)` of each game.
    pub seeds: Vec<(u64, u64)>,
    pub seating: Seating,
}

/// `seating` is what the layout choices `draws` give: game `g` uses layout
/// `draws[g]`, every engine is told its seat of each game in order, and the
/// player at seat `s` of game `g` is player `g` of the engine at that seat.
pub open spec fn seating_follows(draws: Seq<usize>, seating: Seating) -> bool {
    &&& seating.assignments@.len() == draws.len()
    &&& seating.indexes@.len() == draws.len()
    &&& forall|g: int|
        0 <= g < draws.len() ==> #[trigger] seating.assignments@[g]@ == seat_permutation_of(
            draws[g] as int,
        )
    &&& forall|g: int, s: int|
        0 <= g < draws.len() && 0 <= s < 3 ==> #[trigger] seating.indexes@[g][s] == (Index {
            agent_idx: seat_permutation_of(draws[g] as int)[s] as usize,
            player_id_idx: g as usize,
        })
    &&& forall|e: int| 0 <= e < 3 ==> #[trigger] seating.pids[e]@.len() == draws.len()
    &&& forall|e: int, g: int|
        0 <= e < 3 && 0 <= g < draws.len() ==> #[trigger] seating.pids[e]@[g] == seat_of_engine(
            seat_permutation_of(draws[g] as int),
            e,
        )
}

/// The seats of the six layouts.
pub fn seat_permutation(k: usize) -> (perm: [u8; 3])
    requires
        k < 6,
    ensures
        perm@ == seat_permutation_of(k as int),
{
    let perm: [u8; 3] = if k == 0 {
        [0, 1, 2]
    } else if k == 1 {
        [0, 2, 1]
    } else if k == 2 {
        [1, 0, 2]
    } else if k == 3 {
        [1, 2, 0]
    } else if k == 4 {
        [2, 0, 1]
    } else {
        [2, 1, 0]
    };
    assert(perm@ =~= seat_permutation_of(k as int));
    perm
}

/// Every one of the six layouts seats each engine exactly once, and the six
/// layouts are all different: all orders of three engines occur.
pub proof fn seat_layouts_are_the_permutations(k: int, l: int)
    requires
        0 <= k < 6,
        0 <= l < 6,
    ensures
        is_seat_layout(seat_permutation_of(k)),
        k != l ==> seat_permutation_of(k) != seat_permutation_of(l),
        forall|e: int| 0 <= e < 3 ==> seat_permutation_of(k)[seat_of_engine(seat_permutation_of(k), e) as int] == e,
{
    let p = seat_permutation_of(k);
    let q = seat_permutation_of(l);
    if k != l {
        assert(p[0] != q[0] || p[1] != q[1] || p[2] != q[2]);
    }
}

/// `p` comes strictly before `q` in lexicographic order.
pub open spec fn lex_before(p: Seq<u8>, q: Seq<u8>) -> bool {
    exists|i: int|
        0 <= i < p.len() && i < q.len() && p[i] < q[i] && forall|j: int| 0 <= j < i ==> #[trigger] p[j] == q[j]
}

/// The six layouts list the orders of the three engines in lexicographic
/// order: each layout seats every engine once, and each comes strictly
/// before the next (so layout `k` is the `k`-th order of 0, 1, 2).
pub proof fn seat_layouts_in_lexicographic_order(k: int)
    requires
        0 <= k < 5,
    ensures
        is_seat_layout(seat_permutation_of(k)),
        is_seat_layout(seat_permutation_of(k + 1)),
        lex_before(seat_permutation_of(k), seat_permutation_of(k + 1)),
{
    let p = seat_permutation_of(k);
    let q = seat_permutation_of(k + 1);
    if k == 0 || k == 2 || k == 4 {
        assert(p[0] == q[0] && p[1] < q[1]);
        assert(forall|j: int| 0 <= j < 1 ==> #[trigger] p[j] == q[j]);
    } else {
        assert(p[0] < q[0]);
    }
}

/// The first layout seats the engines in seat order and the last in
/// reverse: with the strict lexicographic order between neighbours, every
/// order of three engines appears exactly once, smallest first.
pub proof fn seat_layouts_run_from_identity_to_reverse()
    ensures
        seat_permutation_of(0) == seq![0u8, 1u8, 2u8],
        seat_permutation_of(5) == seq![2u8, 1u8, 0u8],
{
}

/// The generator seed of a batch.
pub fn arena_rng_seed(seed_start: (u64, u64)) -> (seed: u64)
    ensures
        seed == arena_seed_of(seed_start),
        seed ^ seed_start.1 == ((seed_start.0 as nat * 0x9E3779B97F4A7C15nat) % 0x1_0000_0000_0000_0000nat) as u64,
{
    let seed = seed_start.0.wrapping_mul(SEED_MULTIPLIER) ^ seed_start.1;
    proof {
        arena_seed_unmasks_to_product(seed_start.0, seed_start.1);
    }
    seed
}

/// The generator seed is the wrapping product of the first seed word and
/// 0x9E3779B97F4A7C15, xor the key: xoring the key back out leaves the
/// product, whatever the key.
pub proof fn arena_seed_unmasks_to_product(start: u64, key: u64)
    ensures
        arena_seed_of((start, key)) ^ key == ((start as nat * 0x9E3779B97F4A7C15nat) % 0x1_0000_0000_0000_0000nat) as u64,
{
    let p: u64 = ((start as nat * SEED_MULTIPLIER as nat) % 0x1_0000_0000_0000_0000nat) as u64;
    assert((p ^ key) ^ key == p) by (bit_vector);
}

/// Distinct keys give distinct generator seeds for the same first seed word,
/// and distinct first words (modulo 2^64 after the product) with the same
/// key give distinct seeds.
pub proof fn arena_seed_separates_keys(start: u64, k1: u64, k2: u64)
    ensures
        k1 != k2 ==> arena_seed_of((start, k1)) != arena_seed_of((start, k2)),
{
    let p: u64 = ((start as nat * SEED_MULTIPLIER as nat) % 0x1_0000_0000_0000_0000nat) as u64;
    assert(k1 != k2 ==> (p ^ k1) != (p ^ k2)) by (bit_vector);
}

/// The seeds of `seed_count` games: `(start + g, key)` for game `g`.
pub fn game_seeds(seed_start: (u64, u64), seed_count: u64) -> (seeds: Vec<(u64, u64)>)
    requires
        seed_start.0 + seed_count <= u64::MAX,
    ensures
        seeds@.len() == seed_count,
        forall|g: int| 0 <= g < seed_count ==> #[trigger] seeds@[g] == ((seed_start.0 + g) as u64, seed_start.1),
{
    let end: u64 = seed_start.0 + seed_count;
    let mut seeds: Vec<(u64, u64)> = Vec::new();
    let mut s: u64 = seed_start.0;
    while s < end
        invariant
            seed_start.0 <= s <= end,
            end == seed_start.0 + seed_count,
            seeds@.len() == s - seed_start.0,
            forall|g: int| 0 <= g < seeds@.len() ==> #[trigger] seeds@[g] == ((seed_start.0 + g) as u64, seed_start.1),
        decreases end - s,
    {
        seeds.push((s, seed_start.1));
        s += 1;
    }
    seeds
}

/// Gives engine `engine` the seat `seat`: appends the seat to that engine's
/// list and returns where it went.
fn take_seat(p0: &mut Vec<u8>, p1: &mut Vec<u8>, p2: &mut Vec<u8>, engine: u8, seat: u8) -> (pos: usize)
    requires
        engine < 3,
    ensures
        engine == 0 ==> final(p0)@ == old(p0)@.push(seat) && pos == old(p0)@.len(),
        engine != 0 ==> final(p0)@ == old(p0)@,
        engine == 1 ==> final(p1)@ == old(p1)@.push(seat) && pos == old(p1)@.len(),
        engine != 1 ==> final(p1)@ == old(p1)@,
        engine == 2 ==> final(p2)@ == old(p2)@.push(seat) && pos == old(p2)@.len(),
        engine != 2 ==> final(p2)@ == old(p2)@,
{
    if engine == 0 {
        let pos = p0.len();
        p0.push(seat);
        pos
    } else if engine == 1 {
        let pos = p1.len();
        p1.push(seat);
        pos
    } else {
        let pos = p2.len();
        p2.push(seat);
        pos
    }
}

/// Seats the engines of a batch from the layout chosen for each game
/// (`draws[g]` indexes the six layouts).
pub fn seat_games(draws: &[usize]) -> (seating: Seating)
    requires
        forall|g: int| 0 <= g < draws@.len() ==> #[trigger] draws@[g] < 6,
    ensures
        seating_follows(draws@, seating),
{
    let n = draws.len();
    let mut p0: Vec<u8> = Vec::new();
    let mut p1: Vec<u8> = Vec::new();
    let mut p2: Vec<u8> = Vec::new();
    let mut indexes: Vec<[Index; 3]> = Vec::new();
    let mut assignments: Vec<[u8; 3]> = Vec::new();
    let mut g: usize = 0;
    while g < n
        invariant
            n == draws@.len(),
            g <= n,
            forall|h: int| 0 <= h < draws@.len() ==> #[trigger] draws@[h] < 6,
            assignments@.len() == g,
            indexes@.len() == g,
            p0@.len() == g,
            p1@.len() == g,
            p2@.len() == g,
            forall|h: int| 0 <= h < g ==> #[trigger] assignments@[h]@ == seat_permutation_of(draws@[h] as int),
            forall|h: int, s: int|
                0 <= h < g && 0 <= s < 3 ==> #[trigger] indexes@[h][s] == (Index {
                    agent_idx: seat_permutation_of(draws@[h] as int)[s] as usize,
                    player_id_idx: h as usize,
                }),
            forall|h: int| 0 <= h < g ==> #[trigger] p0@[h] == seat_of_engine(seat_permutation_of(draws@[h] as int), 0),
            forall|h: int| 0 <= h < g ==> #[trigger] p1@[h] == seat_of_engine(seat_permutation_of(draws@[h] as int), 1),
            forall|h: int| 0 <= h < g ==> #[trigger] p2@[h] == seat_of_engine(seat_permutation_of(draws@[h] as int), 2),
        decreases n - g,
    {
        let perm = seat_permutation(draws[g]);
        proof {
            seat_layouts_are_the_permutations(draws@[g as int] as int, 0);
        }
        let e0 = perm[0];
        let e1 = perm[1];
        let e2 = perm[2];
        let i0 = take_seat(&mut p0, &mut p1, &mut p2, e0, 0);
        let i1 = take_seat(&mut p0, &mut p1, &mut p2, e1, 1);
        let i2 = take_seat(&mut p0, &mut p1, &mut p2, e2, 2);
        let idxs: [Index; 3] = [
            Index { agent_idx: e0 as usize, player_id_idx: i0 },
            Index { agent_idx: e1 as usize, player_id_idx: i1 },
            Index { agent_idx: e2 as usize, player_id_idx: i2 },
        ];
        indexes.push(idxs);
        assignments.push(perm);
        g += 1;
    }
    let seating = Seating { pids: [p0, p1, p2], indexes, assignments };
    assert(seating.pids[0]@ == p0@);
    assert(seating.pids[1]@ == p1@);
    assert(seating.pids[2]@ == p2@);
    seating
}

/// Draws a seat layout (0 to 5) for each of `count` games from the
/// generator seeded with `seed`.
pub fn draw_seat_layouts(seed: u64, count: u64) -> (draws: Vec<usize>)
    ensures
        draws@ == layouts_of(seed, count as nat),
        draws@.len() == count,
        forall|g: int| 0 <= g < draws@.len() ==> #[trigger] draws@[g] < 6,
        forall|g: int|
            0 <= g < count ==> #[trigger] draws@[g] == chacha8_gen_range(seed, Seq::new(g as nat, |i: int| 6usize), 6usize, usize::BITS),
{
    let mut rng = seeded_rng(seed);
    let mut draws: Vec<usize> = Vec::new();
    let mut g: u64 = 0;
    assert(rng_bounds(rng) =~= Seq::new(0, |i: int| SEAT_LAYOUTS));
    while g < count
        invariant
            g <= count,
            draws@ == layouts_of(seed, g as nat),
            rng_seed(rng) == seed,
            rng_bounds(rng) =~= Seq::new(g as nat, |i: int| SEAT_LAYOUTS),
            forall|h: int| 0 <= h < draws@.len() ==> #[trigger] draws@[h] < 6,
        decreases count - g,
    {
        let k = draw_below(&mut rng, SEAT_LAYOUTS);
        draws.push(k);
        assert(rng_bounds(rng) =~= Seq::new((g + 1) as nat, |i: int| SEAT_LAYOUTS));
        g += 1;
    }
    proof {
        layouts_are_draws_below_six(seed, count as nat);
    }
    draws
}

/// Game `g` of a batch takes the generator's draw below 6 made after `g`
/// earlier draws below 6, and a batch of `n` games has `n` layouts.
pub proof fn layouts_are_draws_below_six(seed: u64, n: nat)
    ensures
        layouts_of(seed, n).len() == n,
        forall|g: int|
            0 <= g < n ==> #[trigger] layouts_of(seed, n)[g] == chacha8_gen_range(
                seed,
                Seq::new(g as nat, |i: int| 6usize),
                6usize,
                usize::BITS,
            ),
    decreases n,
{
    layouts_len(seed, n);
    if n > 0 {
        let m = (n - 1) as nat;
        layouts_are_draws_below_six(seed, m);
        layouts_len(seed, m);
        assert forall|g: int| 0 <= g < n implies #[trigger] layouts_of(seed, n)[g] == chacha8_gen_range(
            seed,
            Seq::new(g as nat, |i: int| 6usize),
            6usize,
            usize::BITS,
        ) by {
            if g < m {
                assert(layouts_of(seed, n)[g] == layouts_of(seed, m)[g]);
            } else {
                assert(Seq::new(m, |i: int| SEAT_LAYOUTS) =~= Seq::new(g as nat, |i: int| 6usize));
            }
        }
    }
}

proof fn layouts_len(seed: u64, n: nat)
    ensures
        layouts_of(seed, n).len() == n,
    decreases n,
{
    if n > 0 {
        layouts_len(seed, (n - 1) as nat);
    }
}

/// The layouts of a batch are fixed by the seed, and a shorter batch draws
/// the first layouts of a longer one.
pub proof fn layouts_are_a_prefix(seed: u64, n: nat, m: nat)
    requires
        n <= m,
    ensures
        layouts_of(seed, n).len() == n,
        layouts_of(seed, m).len() == m,
        layouts_of(seed, n) == layouts_of(seed, m).take(n as int),
    decreases m,
{
    layouts_len(seed, n);
    layouts_len(seed, m);
    if n < m {
        layouts_are_a_prefix(seed, n, (m - 1) as nat);
        assert(layouts_of(seed, m).take(n as int) =~= layouts_of(seed, (m - 1) as nat).take(n as int));
    } else {
        assert(layouts_of(seed, m).take(n as int) =~= layouts_of(seed, m));
    }
}

/// A seating is fixed by its layout draws, and a prefix of the draws fixes
/// the seating of those games: two seatings that follow draws agreeing on
/// the first `n` games agree on those games.
pub proof fn seating_follows_its_draws(da: Seq<usize>, a: Seating, db: Seq<usize>, b: Seating, n: int)
    requires
        seating_follows(da, a),
        seating_follows(db, b),
        0 <= n <= da.len(),
        n <= db.len(),
        da.take(n) == db.take(n),
    ensures
        forall|g: int| 0 <= g < n ==> #[trigger] a.assignments@[g]@ == b.assignments@[g]@,
        forall|g: int, s: int| 0 <= g < n && 0 <= s < 3 ==> #[trigger] a.indexes@[g][s] == b.indexes@[g][s],
        forall|e: int, g: int| 0 <= e < 3 && 0 <= g < n ==> #[trigger] a.pids[e]@[g] == b.pids[e]@[g],
{
    assert forall|g: int| 0 <= g < n implies #[trigger] da[g] == db[g] by {
        assert(da.take(n)[g] == da[g]);
        assert(db.take(n)[g] == db[g]);
    }
}

/// Two batches planned from the same `seed_start` agree on the games they
/// share: equal counts give equal seeds and seatings, and a shorter batch is
/// the start of a longer one in its seeds and its seating.
pub proof fn plan_is_fixed_by_seed_start(seed_start: (u64, u64), n: nat, a: BatchPlan, m: nat, b: BatchPlan)
    requires
        n <= m,
        a.seeds@.len() == n,
        forall|g: int| 0 <= g < n ==> #[trigger] a.seeds@[g] == ((seed_start.0 + g) as u64, seed_start.1),
        seating_follows(layouts_of(arena_seed_of(seed_start), n), a.seating),
        b.seeds@.len() == m,
        forall|g: int| 0 <= g < m ==> #[trigger] b.seeds@[g] == ((seed_start.0 + g) as u64, seed_start.1),
        seating_follows(layouts_of(arena_seed_of(seed_start), m), b.seating),
    ensures
        forall|g: int| 0 <= g < n ==> #[trigger] a.seeds@[g] == b.seeds@[g],
        forall|g: int| 0 <= g < n ==> #[trigger] a.seating.assignments@[g]@ == b.seating.assignments@[g]@,
        forall|g: int, s: int|
            0 <= g < n && 0 <= s < 3 ==> #[trigger] a.seating.indexes@[g][s] == b.seating.indexes@[g][s],
        forall|e: int, g: int| 0 <= e < 3 && 0 <= g < n ==> #[trigger] a.seating.pids[e]@[g] == b.seating.pids[e]@[g],
{
    let seed = arena_seed_of(seed_start);
    layouts_are_a_prefix(seed, n, m);
    layouts_are_a_prefix(seed, n, n);
    seating_follows_its_draws(layouts_of(seed, n), a.seating, layouts_of(seed, m), b.seating, n as int);
    assert forall|g: int| 0 <= g < n implies #[trigger] a.seeds@[g] == b.seeds@[g] by {
        assert(a.seeds@[g] == ((seed_start.0 + g) as u64, seed_start.1));
        assert(b.seeds@[g] == ((seed_start.0 + g) as u64, seed_start.1));
    }
}

impl Default for ThreeWay {
    fn default() -> (arena: Self)
        ensures
            !arena.disable_progress_bar,
            arena.log_dir is None,
    {
        ThreeWay { disable_progress_bar: false, log_dir: None }
    }
}

impl ThreeWay {
    pub fn new(disable_progress_bar: bool, log_dir: Option<String>) -> (arena: Self)
        ensures
            arena.disable_progress_bar == disable_progress_bar,
            arena.log_dir == log_dir,
    {
        ThreeWay { disable_progress_bar, log_dir }
    }

    /// Plans a batch of `seed_count` games from `seed_start`: the game seeds,
    /// and a seating drawn with the generator seeded by `arena_rng_seed`, each
    /// game taking one of the six layouts.
    pub fn plan_batch(&self, seed_start: (u64, u64), seed_count: u64) -> (plan: BatchPlan)
        requires
            seed_start.0 + seed_count <= u64::MAX,
        ensures
            plan.seeds@.len() == seed_count,
            forall|g: int|
                0 <= g < seed_count ==> #[trigger] plan.seeds@[g] == ((seed_start.0 + g) as u64, seed_start.1),
            seating_follows(layouts_of(arena_seed_of(seed_start), seed_count as nat), plan.seating),
    {
        let rng_seed = arena_rng_seed(seed_start);
        let seeds = game_seeds(seed_start, seed_count);
        let draws = draw_seat_layouts(rng_seed, seed_count);
        let seating = seat_games(draws.as_slice());
        BatchPlan { seeds, seating }
    }
}

} // verus!
