use vstd::prelude::*;

verus! {

/// Final placement of the three players of a game.
#[derive(Debug, Clone, Copy)]
pub struct Rankings {
    /// `player_by_rank[r]` is the player who finished `r`-th (0 is first).
    pub player_by_rank: [u8; 3],
    /// `rank_by_player[p]` is the place of player `p`.
    pub rank_by_player: [u8; 3],
}

/// Player `a` places ahead of player `b`: a higher score, or an equal score
/// and the lower seat (ties go to the earlier seat).
pub open spec fn places_ahead(scores: Seq<i32>, a: int, b: int) -> bool {
    scores[a] > scores[b] || (scores[a] == scores[b] && a < b)
}

/// `order` lists the three players once each, best place first.
pub open spec fn is_placement(scores: Seq<i32>, order: Seq<u8>) -> bool {
    &&& order.len() == 3
    &&& forall|r: int| 0 <= r < 3 ==> #[trigger] order[r] < 3
    &&& forall|r: int, s: int|
        0 <= r < s < 3 ==> places_ahead(scores, order[r] as int, order[s] as int)
}

/// `rank` inverts `order`: the player at place `r` has place `r`, and every
/// player has a place below 3.
pub open spec fn is_inverse_placement(order: Seq<u8>, rank: Seq<u8>) -> bool {
    &&& rank.len() == 3
    &&& forall|r: int| 0 <= r < 3 ==> rank[order[r] as int] == r
    &&& forall|p: int| 0 <= p < 3 ==> #[trigger] rank[p] < 3 && order[rank[p] as int] == p
}

/// Whether the scores can be ranked: each score can be negated in `i32`.
pub open spec fn negatable_scores(scores: [i32; 3]) -> bool {
    forall|i: int| 0 <= i < 3 ==> #[trigger] scores[i] > i32::MIN
}

fn ahead(scores: &[i32; 3], a: u8, b: u8) -> (r: bool)
    requires
        a < 3,
        b < 3,
        a < b || b < a,
        negatable_scores(*scores),
    ensures
        r == (-scores[a as int] < -scores[b as int]),
{
    let ka: i32 = -scores[a as usize];
    let kb: i32 = -scores[b as usize];
    ka < kb
}

impl Rankings {
    /// Ranks the players by score, highest first; equal scores keep seat
    /// order (a stable sort on the negated score).
    pub fn new(scores: [i32; 3]) -> (rk: Self)
        requires
            negatable_scores(scores),
        ensures
            is_placement(scores@, rk.player_by_rank@),
            is_inverse_placement(rk.player_by_rank@, rk.rank_by_player@),
    {
        let mut a: u8 = 0;
        let mut b: u8 = 1;
        let mut c: u8 = 2;
        if ahead(&scores, b, a) {
            let t = a;
            a = b;
            b = t;
        }
        if ahead(&scores, c, b) {
            let t = b;
            b = c;
            c = t;
        }
        if ahead(&scores, b, a) {
            let t = a;
            a = b;
            b = t;
        }
        let player_by_rank: [u8; 3] = [a, b, c];
        let r0: u8 = if a == 0 { 0 } else if b == 0 { 1 } else { 2 };
        let r1: u8 = if a == 1 { 0 } else if b == 1 { 1 } else { 2 };
        let r2: u8 = if a == 2 { 0 } else if b == 2 { 1 } else { 2 };
        let rank_by_player: [u8; 3] = [r0, r1, r2];
        Rankings { player_by_rank, rank_by_player }
    }
}

/// The placement of three scores is unique: two orders that both place the
/// players best first, ties to the earlier seat, are the same order.
pub proof fn placement_is_unique(scores: Seq<i32>, p: Seq<u8>, q: Seq<u8>)
    requires
        scores.len() == 3,
        is_placement(scores, p),
        is_placement(scores, q),
    ensures
        p == q,
{
    assert(p[0] < 3 && p[1] < 3 && p[2] < 3);
    assert(q[0] < 3 && q[1] < 3 && q[2] < 3);
    assert(places_ahead(scores, p[0] as int, p[1] as int));
    assert(places_ahead(scores, p[0] as int, p[2] as int));
    assert(places_ahead(scores, p[1] as int, p[2] as int));
    assert(places_ahead(scores, q[0] as int, q[1] as int));
    assert(places_ahead(scores, q[0] as int, q[2] as int));
    assert(places_ahead(scores, q[1] as int, q[2] as int));
    assert(p =~= q);
}

} // verus!
