use vstd::prelude::*;

use crate::consts::{ACTION_SPACE, CANONICAL_ACTION_SPACE};

verus! {

/// Highest index shared by the trained and the canonical layouts
/// (discards, kan choices, riichi and nukidora).
pub const LAST_SHARED_ACTION: usize = 38;

/// The canonical slot of trained action `model_idx`: the shared region maps
/// to itself, the rest (pon, kan, agari, ryukyoku, pass) skips the three chi
/// slots.
pub open spec fn canonical_index_of(model_idx: int) -> int {
    if model_idx <= 38 {
        model_idx
    } else {
        model_idx + 3
    }
}

/// The three chi slots of the canonical layout, which sanma never uses.
pub open spec fn is_chi_slot(canonical_idx: int) -> bool {
    39 <= canonical_idx <= 41
}

/// The trained mask that a canonical mask remaps to.
pub open spec fn model_mask_of(canonical: Seq<u8>) -> Seq<u8> {
    Seq::new(44, |j: int| canonical[canonical_index_of(j)])
}

/// A mask bit as a byte.
pub open spec fn bit_byte(b: bool) -> u8 {
    if b {
        1
    } else {
        0
    }
}

/// The canonical mask that a trained mask expands to: chi slots are 0.
pub open spec fn canonical_mask_of(model: Seq<bool>) -> Seq<u8> {
    Seq::new(
        47,
        |c: int|
            if c <= 38 {
                bit_byte(model[c])
            } else if c <= 41 {
                0u8
            } else {
                bit_byte(model[c - 3])
            },
    )
}

/// The decimal digit `d` (below 10).
pub open spec fn digit_char(d: nat) -> char {
    seq!['0', '1', '2', '3', '4', '5', '6', '7', '8', '9'][d as int]
}

/// The decimal text of `n`, most significant digit first, without leading
/// zeros.
pub open spec fn decimal_of(n: nat) -> Seq<char>
    decreases n,
{
    if n < 10 {
        seq![digit_char(n)]
    } else {
        decimal_of(n / 10).push(digit_char(n % 10))
    }
}

/// The text of the error for a canonical mask of the wrong length.
pub open spec fn mask_len_message(len: usize, expected: usize) -> Seq<char> {
    "mask len "@ + decimal_of(len as nat) + " != canonical action space "@ + decimal_of(expected as nat)
}

/// The text of the error for a trained index out of range.
pub open spec fn model_idx_message(model_idx: usize, action_space: usize) -> Seq<char> {
    "model_idx "@ + decimal_of(model_idx as nat) + " out of range (0.."@ + decimal_of(action_space as nat) + ")"@
}

/// `ToString::to_string` on a `usize` (std's `Display` for integers): the
/// decimal digits of `n`.
#[verifier::external_body]
fn decimal_text(n: usize) -> (text: String)
    ensures
        text@ == decimal_of(n as nat),
{
    n.to_string()
}

fn mask_len_error(len: usize, expected: usize) -> (msg: String)
    ensures
        msg@ == mask_len_message(len, expected),
{
    let mut msg = String::from_str("mask len ");
    let len_text = decimal_text(len);
    msg.append(len_text.as_str());
    msg.append(" != canonical action space ");
    let expected_text = decimal_text(expected);
    msg.append(expected_text.as_str());
    msg
}

fn model_idx_error(model_idx: usize, action_space: usize) -> (msg: String)
    ensures
        msg@ == model_idx_message(model_idx, action_space),
{
    let mut msg = String::from_str("model_idx ");
    let idx_text = decimal_text(model_idx);
    msg.append(idx_text.as_str());
    msg.append(" out of range (0..");
    let space_text = decimal_text(action_space);
    msg.append(space_text.as_str());
    msg.append(")");
    msg
}

/// Size of the trained action space.
pub fn action_space() -> (n: u32)
    ensures
        n == ACTION_SPACE,
{
    ACTION_SPACE as u32
}

/// Size of the canonical action space.
pub fn canonical_action_space() -> (n: u32)
    ensures
        n == CANONICAL_ACTION_SPACE,
{
    CANONICAL_ACTION_SPACE as u32
}

/// Remaps a canonical 47-slot mask down to the trained 44-slot mask: slots
/// 0 to 38 are kept, the chi slots 39 to 41 are dropped, and 42 to 46 (pon,
/// kan, agari, ryukyoku, pass) become 39 to 43. Every version uses this
/// three-player layout.
pub fn remap_mask_canonical_to_model(mask47: &[u8], version: u32) -> (res: Result<Vec<u8>, String>)
    ensures
        res is Ok <==> mask47@.len() == CANONICAL_ACTION_SPACE,
        res matches Ok(out) ==> out@ == model_mask_of(mask47@),
        res matches Err(msg) ==> msg@ == mask_len_message(mask47@.len() as usize, CANONICAL_ACTION_SPACE),
{
    if mask47.len() != CANONICAL_ACTION_SPACE {
        return Err(mask_len_error(mask47.len(), CANONICAL_ACTION_SPACE));
    }
    let mut out: Vec<u8> = Vec::new();
    let mut j: usize = 0;
    while j < ACTION_SPACE
        invariant
            mask47@.len() == CANONICAL_ACTION_SPACE,
            j <= ACTION_SPACE,
            out@ =~= model_mask_of(mask47@).take(j as int),
        decreases ACTION_SPACE - j,
    {
        let c: usize = if j <= LAST_SHARED_ACTION { j } else { j + 3 };
        out.push(mask47[c]);
        j += 1;
    }
    Ok(out)
}

/// Interprets a trained model output index (0 to 43) as a canonical index
/// (0 to 46): 0 to 38 are unchanged, 39 to 43 become 42 to 46.
pub fn interpret_model_idx(model_idx: u32, version: u32) -> (res: Result<u32, String>)
    ensures
        res is Ok <==> model_idx < ACTION_SPACE,
        res matches Ok(c) ==> c == canonical_index_of(model_idx as int),
        res matches Err(msg) ==> msg@ == model_idx_message(model_idx as usize, ACTION_SPACE),
{
    let i = model_idx as usize;
    if i >= ACTION_SPACE {
        return Err(model_idx_error(i, ACTION_SPACE));
    }
    let canonical: usize = if i <= LAST_SHARED_ACTION { i } else { 42 + (i - 39) };
    Ok(canonical as u32)
}

/// Expands a trained 44-slot legal-action mask to the canonical 47-slot
/// layout as bytes; the chi slots stay 0.
pub fn canonical_mask_from_model(mask: &[bool]) -> (out: Vec<u8>)
    requires
        mask@.len() == ACTION_SPACE,
    ensures
        out@ == canonical_mask_of(mask@),
{
    let mut out: Vec<u8> = Vec::new();
    let mut c: usize = 0;
    while c < CANONICAL_ACTION_SPACE
        invariant
            mask@.len() == ACTION_SPACE,
            c <= CANONICAL_ACTION_SPACE,
            out@ =~= canonical_mask_of(mask@).take(c as int),
        decreases CANONICAL_ACTION_SPACE - c,
    {
        let v: u8 = if c <= LAST_SHARED_ACTION {
            if mask[c] { 1 } else { 0 }
        } else if c <= 41 {
            0
        } else {
            if mask[c - 3] { 1 } else { 0 }
        };
        out.push(v);
        c += 1;
    }
    out
}

/// Every trained index has a canonical slot below 47 that is not a chi slot,
/// and distinct trained indices have distinct canonical slots.
pub proof fn canonical_index_is_injective_off_chi(i: int, j: int)
    requires
        0 <= i < 44,
        0 <= j < 44,
    ensures
        0 <= canonical_index_of(i) < 47,
        !is_chi_slot(canonical_index_of(i)),
        i != j ==> canonical_index_of(i) != canonical_index_of(j),
{
}

/// Every canonical slot other than the chi slots is the image of exactly one
/// trained index.
pub proof fn canonical_index_covers_non_chi(c: int)
    requires
        0 <= c < 47,
        !is_chi_slot(c),
    ensures
        exists|j: int| 0 <= j < 44 && canonical_index_of(j) == c,
{
    if c <= 38 {
        assert(canonical_index_of(c) == c);
    } else {
        assert(canonical_index_of(c - 3) == c);
    }
}

/// Remapping a canonical mask and reading a trained slot back through
/// `interpret_model_idx` gives the canonical slot's value: what the model
/// sees at `j` is what the canonical mask holds at the slot `j` stands for.
pub proof fn remap_then_interpret_reads_back(canonical: Seq<u8>, j: int)
    requires
        canonical.len() == 47,
        0 <= j < 44,
    ensures
        model_mask_of(canonical)[j] == canonical[canonical_index_of(j)],
{
}

/// The chi slots are dropped: canonical masks that agree outside the chi
/// slots remap to the same trained mask.
pub proof fn remap_ignores_chi_slots(a: Seq<u8>, b: Seq<u8>)
    requires
        a.len() == 47,
        b.len() == 47,
        forall|c: int| 0 <= c < 47 && !is_chi_slot(c) ==> a[c] == b[c],
    ensures
        model_mask_of(a) == model_mask_of(b),
{
    assert forall|j: int| 0 <= j < 44 implies model_mask_of(a)[j] == model_mask_of(b)[j] by {
        canonical_index_is_injective_off_chi(j, j);
    }
    assert(model_mask_of(a) =~= model_mask_of(b));
}

/// Expanding a trained mask to the canonical layout and remapping it back
/// gives the trained mask (as bytes).
pub proof fn expand_then_remap_is_identity(model: Seq<bool>)
    requires
        model.len() == 44,
    ensures
        model_mask_of(canonical_mask_of(model)) == model.map_values(|b: bool| bit_byte(b)),
{
    assert(model_mask_of(canonical_mask_of(model)) =~= model.map_values(|b: bool| bit_byte(b)));
}

/// A canonical 0/1 mask whose chi slots are 0 survives remapping and
/// expanding unchanged.
pub proof fn remap_then_expand_is_identity(canonical: Seq<u8>)
    requires
        canonical.len() == 47,
        forall|c: int| 0 <= c < 47 ==> #[trigger] canonical[c] <= 1,
        forall|c: int| is_chi_slot(c) ==> #[trigger] canonical[c] == 0,
    ensures
        canonical_mask_of(model_mask_of(canonical).map_values(|x: u8| x != 0)) == canonical,
{
    let back = canonical_mask_of(model_mask_of(canonical).map_values(|x: u8| x != 0));
    assert forall|c: int| 0 <= c < 47 implies back[c] == canonical[c] by {
        if is_chi_slot(c) {
            assert(canonical[c] == 0);
        } else {
            assert(canonical[c] <= 1);
        }
    }
    assert(back =~= canonical);
}

} // verus!
