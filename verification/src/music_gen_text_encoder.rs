use vstd::prelude::*;

verus! {

/// Widens the tokenizer's 32-bit token identifiers to the 64-bit identifiers
/// the text-encoder model's `input_ids` tensor holds, preserving order and
/// every value.
pub fn token_ids_to_i64(ids: &Vec<u32>) -> (r: Vec<i64>)
    ensures
        r@.len() == ids@.len(),
        forall|j: int| 0 <= j < ids@.len() ==> r@[j] == ids@[j] as i64,
{
    let mut r: Vec<i64> = Vec::new();
    let mut j: usize = 0;
    while j < ids.len()
        invariant
            j <= ids@.len(),
            r@.len() == j,
            forall|k: int| 0 <= k < j ==> r@[k] == ids@[k] as i64,
        decreases ids@.len() - j,
    {
        r.push(ids[j] as i64);
        j += 1;
    }
    r
}

/// The attention mask accompanying a prompt of `len` tokens: every position
/// attended, so all ones, one per token.
pub fn attention_mask_ones(len: usize) -> (r: Vec<i64>)
    ensures
        r@.len() == len,
        forall|j: int| 0 <= j < len ==> r@[j] == 1i64,
{
    let mut r: Vec<i64> = Vec::new();
    let mut j: usize = 0;
    while j < len
        invariant
            j <= len,
            r@.len() == j,
            forall|k: int| 0 <= k < j ==> r@[k] == 1i64,
        decreases len - j,
    {
        r.push(1);
        j += 1;
    }
    r
}

} // verus!
