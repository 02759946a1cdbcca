use vstd::prelude::*;

verus! {

/// Number of distinct tile kinds (red fives counted as plain fives).
pub const TILE_KINDS: usize = 34;

/// Why a list of tile ids cannot be tallied into a hand.
#[derive(Debug, Clone, Copy, PartialEq, Eq)]
pub enum HandError {
    /// A tile id is not below 34.
    TileIdOutOfRange,
}

impl HandError {
    /// The text the error is reported with.
    pub fn message(&self) -> (text: String)
        ensures
            text@ == "tile id must be 0..34"@,
    {
        match self {
            HandError::TileIdOutOfRange => String::from_str("tile id must be 0..34"),
        }
    }
}

/// How many of the first `n` ids of `ids` are `t`.
pub open spec fn count_of(ids: Seq<u32>, t: int, n: int) -> nat
    decreases n,
{
    if n <= 0 {
        0
    } else {
        count_of(ids, t, n - 1) + if ids[n - 1] == t { 1nat } else { 0nat }
    }
}

/// The first `n` ids of `ids` all name a tile kind.
pub open spec fn ids_in_range(ids: Seq<u32>, n: int) -> bool {
    forall|j: int| 0 <= j < n ==> #[trigger] ids[j] < TILE_KINDS
}

/// The tally fits in bytes: every prefix of valid ids holds no kind more
/// than 255 times, and a list of only valid ids has at most 255 tiles.
pub open spec fn tally_fits_in_bytes(ids: Seq<u32>) -> bool {
    &&& forall|n: int, t: int|
        0 <= n <= ids.len() && ids_in_range(ids, n) && 0 <= t < TILE_KINDS ==> #[trigger] count_of(
            ids,
            t,
            n,
        ) <= 255
    &&& ids_in_range(ids, ids.len() as int) ==> ids.len() <= 255
}


/// Tallies tile ids (0 to 33) into a 34-kind hand, and also gives the tile
/// count divided by 3, the two inputs of the shanten calculation. Fails on
/// the first id that is not below 34.
pub fn tile_counts(tile_ids: &[u32]) -> (res: Result<([u8; 34], u8), HandError>)
    requires
        tally_fits_in_bytes(tile_ids@),
    ensures
        res is Ok <==> ids_in_range(tile_ids@, tile_ids@.len() as int),
        res matches Ok((counts, melds)) ==> {
            &&& forall|t: int| 0 <= t < 34 ==> #[trigger] counts[t] == count_of(tile_ids@, t, tile_ids@.len() as int)
            &&& melds == tile_ids@.len() / 3
        },
        res matches Err(e) ==> e == HandError::TileIdOutOfRange,
{
    let mut counts: [u8; 34] = [0u8; 34];
    let n = tile_ids.len();
    let mut i: usize = 0;
    while i < n
        invariant
            n == tile_ids@.len(),
            i <= n,
            tally_fits_in_bytes(tile_ids@),
            ids_in_range(tile_ids@, i as int),
            forall|t: int| 0 <= t < 34 ==> #[trigger] counts[t] == count_of(tile_ids@, t, i as int),
        decreases n - i,
    {
        let id = tile_ids[i];
        if id >= 34 {
            return Err(HandError::TileIdOutOfRange);
        }
        assert(ids_in_range(tile_ids@, i + 1));
        assert(count_of(tile_ids@, id as int, i + 1) <= 255);
        let k = id as usize;
        let old_counts = counts;
        counts[k] = counts[k] + 1;
        assert forall|t: int| 0 <= t < 34 implies #[trigger] counts[t] == count_of(tile_ids@, t, i + 1) by {
            if t != k {
                assert(counts[t] == old_counts[t]);
            }
        }
        i += 1;
    }
    assert(n <= 255);
    let total: u8 = n as u8;
    Ok((counts, total / 3))
}

proof fn count_of_is_multiset_count(ids: Seq<u32>, t: u32, n: int)
    requires
        0 <= n <= ids.len(),
    ensures
        count_of(ids, t as int, n) == ids.take(n).to_multiset().count(t),
    decreases n,
{
    broadcast use vstd::seq_lib::group_to_multiset_ensures;
    broadcast use vstd::multiset::group_multiset_axioms;

    if n == 0 {
        assert(ids.take(0) =~= Seq::<u32>::empty());
    } else {
        count_of_is_multiset_count(ids, t, n - 1);
        assert(ids.take(n) =~= ids.take(n - 1).push(ids[n - 1]));
    }
}

/// The tally does not depend on the order of the tile ids: two lists with
/// the same ids, each as often, are both accepted or both refused, and give
/// the same counts and the same number of tiles.
pub proof fn tally_ignores_order(a: Seq<u32>, b: Seq<u32>)
    requires
        a.to_multiset() == b.to_multiset(),
    ensures
        a.len() == b.len(),
        ids_in_range(a, a.len() as int) <==> ids_in_range(b, b.len() as int),
        forall|t: int| 0 <= t < TILE_KINDS ==> #[trigger] count_of(a, t, a.len() as int) == count_of(b, t, b.len() as int),
{
    broadcast use vstd::seq_lib::group_to_multiset_ensures;

    assert(a.take(a.len() as int) =~= a);
    assert(b.take(b.len() as int) =~= b);
    assert forall|t: int| 0 <= t < TILE_KINDS implies #[trigger] count_of(a, t, a.len() as int) == count_of(b, t, b.len() as int) by {
        count_of_is_multiset_count(a, t as u32, a.len() as int);
        count_of_is_multiset_count(b, t as u32, b.len() as int);
    }
    assert(a.len() == a.to_multiset().len());
    assert(b.len() == b.to_multiset().len());
    if !ids_in_range(a, a.len() as int) {
        let j = choose|j: int| 0 <= j < a.len() && !(a[j] < TILE_KINDS);
        assert(a.contains(a[j]));
        vstd::seq_lib::to_multiset_contains(a, a[j]);
        vstd::seq_lib::to_multiset_contains(b, a[j]);
        assert(b.contains(a[j]));
    }
    if !ids_in_range(b, b.len() as int) {
        let j = choose|j: int| 0 <= j < b.len() && !(b[j] < TILE_KINDS);
        assert(b.contains(b[j]));
        vstd::seq_lib::to_multiset_contains(a, b[j]);
        vstd::seq_lib::to_multiset_contains(b, b[j]);
        assert(a.contains(b[j]));
    }
}

} // verus!
