//! The constant lookup tables of the noise generator: the Perlin permutation
//! and the gradient directions, and the two lookup buffers derived from them
//! that the GPU reads.

use vstd::arithmetic::div_mod::lemma_fundamental_div_mod_converse;
use vstd::prelude::*;

verus! {

/// Number of entries in the base permutation.
pub const PERM_BASE_LEN: usize = 256;

/// Number of entries in the doubled permutation table.
pub const PERM_LEN: usize = 512;

/// Number of gradient vectors.
pub const GRADIENT_LEN: usize = 16;

/// Number of cells of the hash grid: one per coordinate pair in 256 x 256.
pub const HASH_GRID_LEN: usize = 65536;

/// Ken Perlin's reference permutation of 0..=255.
pub open spec fn permutation_base() -> Seq<u8> {
    seq![
        151u8, 160, 137, 91, 90, 15, 131, 13, 201, 95, 96, 53, 194, 233, 7, 225, 140, 36, 103, 30,
        69, 142, 8, 99, 37, 240, 21, 10, 23, 190, 6, 148, 247, 120, 234, 75, 0, 26, 197, 62, 94,
        252, 219, 203, 117, 35, 11, 32, 57, 177, 33, 88, 237, 149, 56, 87, 174, 20, 125, 136, 171,
        168, 68, 175, 74, 165, 71, 134, 139, 48, 27, 166, 77, 146, 158, 231, 83, 111, 229, 122,
        60, 211, 133, 230, 220, 105, 92, 41, 55, 46, 245, 40, 244, 102, 143, 54, 65, 25, 63, 161,
        1, 216, 80, 73, 209, 76, 132, 187, 208, 89, 18, 169, 200, 196, 135, 130, 116, 188, 159,
        86, 164, 100, 109, 198, 173, 186, 3, 64, 52, 217, 226, 250, 124, 123, 5, 202, 38, 147,
        118, 126, 255, 82, 85, 212, 207, 206, 59, 227, 47, 16, 58, 17, 182, 189, 28, 42, 223, 183,
        170, 213, 119, 248, 152, 2, 44, 154, 163, 70, 221, 153, 101, 155, 167, 43, 172, 9, 129,
        22, 39, 253, 19, 98, 108, 110, 79, 113, 224, 232, 178, 185, 112, 104, 218, 246, 97, 228,
        251, 34, 242, 193, 238, 210, 144, 12, 191, 179, 162, 241, 81, 51, 145, 235, 249, 14, 239,
        107, 49, 192, 214, 31, 181, 199, 106, 157, 184, 84, 204, 176, 115, 121, 50, 45, 127, 4,
        150, 254, 138, 236, 205, 93, 222, 114, 67, 29, 24, 72, 243, 141, 128, 195, 78, 66, 215,
        61, 156, 180
    ]
}

/// The 512-entry permutation table: the base permutation followed by a verbatim
/// copy of itself, so that an index up to 510 never has to wrap.
pub open spec fn permutation() -> Seq<u8> {
    permutation_base() + permutation_base()
}

/// Entry `i` of the permutation table, as an integer.
pub open spec fn perm(i: int) -> int {
    permutation()[i] as int
}

/// The four corner hashes `(aa, ab, ba, bb)` of grid coordinate `(x, y)`.
pub open spec fn hash_cell(x: int, y: int) -> Seq<i32> {
    seq![
        perm(perm(x) + y) as i32,
        perm(perm(x) + y + 1) as i32,
        perm(perm(x + 1) + y) as i32,
        perm(perm(x + 1) + y + 1) as i32,
    ]
}

/// The hash grid, row by row: cell `k` belongs to `x = k % 256`, `y = k / 256`.
pub open spec fn hash_grid() -> Seq<Seq<i32>> {
    Seq::new(HASH_GRID_LEN as nat, |k: int| hash_cell(k % 256, k / 256))
}

/// The gradient directions, four components each.
pub open spec fn gradient() -> Seq<Seq<i32>> {
    seq![
        seq![1i32, 1i32, 0i32, 0i32],
        seq![-1i32, 1i32, 0i32, 0i32],
        seq![1i32, -1i32, 0i32, 0i32],
        seq![-1i32, -1i32, 0i32, 0i32],
        seq![1i32, 0i32, 1i32, 0i32],
        seq![-1i32, 0i32, 1i32, 0i32],
        seq![1i32, 0i32, -1i32, 0i32],
        seq![-1i32, 0i32, -1i32, 0i32],
        seq![0i32, 1i32, 1i32, 0i32],
        seq![0i32, -1i32, 1i32, 0i32],
        seq![0i32, 1i32, -1i32, 0i32],
        seq![0i32, -1i32, -1i32, 0i32],
        seq![1i32, 1i32, 0i32, 0i32],
        seq![0i32, -1i32, 1i32, 0i32],
        seq![-1i32, 1i32, 0i32, 0i32],
        seq![0i32, -1i32, -1i32, 0i32],
    ]
}

/// A gradient vector is well formed when it has four components, each in
/// `{-1, 0, 1}`, and at least one of them is nonzero.
pub open spec fn gradient_well_formed(g: Seq<i32>) -> bool {
    &&& g.len() == 4
    &&& forall|j: int| 0 <= j < 4 ==> -1 <= #[trigger] g[j] <= 1
    &&& exists|j: int| 0 <= j < 4 && #[trigger] g[j] != 0
}

fn permutation_base_table() -> (r: [u8; 256])
    ensures
        r@ == permutation_base(),
{
    let r: [u8; 256] = [
        151, 160, 137, 91, 90, 15, 131, 13, 201, 95, 96, 53, 194, 233, 7, 225, 140, 36, 103, 30,
        69, 142, 8, 99, 37, 240, 21, 10, 23, 190, 6, 148, 247, 120, 234, 75, 0, 26, 197, 62, 94,
        252, 219, 203, 117, 35, 11, 32, 57, 177, 33, 88, 237, 149, 56, 87, 174, 20, 125, 136, 171,
        168, 68, 175, 74, 165, 71, 134, 139, 48, 27, 166, 77, 146, 158, 231, 83, 111, 229, 122,
        60, 211, 133, 230, 220, 105, 92, 41, 55, 46, 245, 40, 244, 102, 143, 54, 65, 25, 63, 161,
        1, 216, 80, 73, 209, 76, 132, 187, 208, 89, 18, 169, 200, 196, 135, 130, 116, 188, 159,
        86, 164, 100, 109, 198, 173, 186, 3, 64, 52, 217, 226, 250, 124, 123, 5, 202, 38, 147,
        118, 126, 255, 82, 85, 212, 207, 206, 59, 227, 47, 16, 58, 17, 182, 189, 28, 42, 223, 183,
        170, 213, 119, 248, 152, 2, 44, 154, 163, 70, 221, 153, 101, 155, 167, 43, 172, 9, 129,
        22, 39, 253, 19, 98, 108, 110, 79, 113, 224, 232, 178, 185, 112, 104, 218, 246, 97, 228,
        251, 34, 242, 193, 238, 210, 144, 12, 191, 179, 162, 241, 81, 51, 145, 235, 249, 14, 239,
        107, 49, 192, 214, 31, 181, 199, 106, 157, 184, 84, 204, 176, 115, 121, 50, 45, 127, 4,
        150, 254, 138, 236, 205, 93, 222, 114, 67, 29, 24, 72, 243, 141, 128, 195, 78, 66, 215,
        61, 156, 180
    ];
    assert(r@ =~= permutation_base());
    r
}

/// Builds the 512-entry permutation table.
pub fn permutation_table() -> (r: Vec<u8>)
    ensures
        r@ == permutation(),
{
    let base = permutation_base_table();
    let mut table: Vec<u8> = Vec::with_capacity(PERM_LEN);
    let mut i: usize = 0;
    while i < PERM_LEN
        invariant
            base@ == permutation_base(),
            i <= PERM_LEN,
            table@.len() == i,
            forall|k: int| 0 <= k < i ==> #[trigger] table@[k] == permutation()[k],
        decreases PERM_LEN - i,
    {
        let j: usize = if i < PERM_BASE_LEN { i } else { i - PERM_BASE_LEN };
        table.push(base[j]);
        i = i + 1;
    }
    assert(table@ =~= permutation());
    table
}

/// Builds the hash grid that the GPU reads in place of repeated permutation
/// lookups: for each row `y` and column `x` in `0..256`, the four corner hashes
/// of `(x, y)`, row after row.
pub fn create_permulation_buf() -> (r: Vec<[i32; 4]>)
    ensures
        r@.len() == HASH_GRID_LEN,
        forall|k: int| 0 <= k < HASH_GRID_LEN ==> (#[trigger] r@[k])@ == hash_grid()[k],
{
    let perm = permutation_table();
    let mut list: Vec<[i32; 4]> = Vec::with_capacity(HASH_GRID_LEN);
    let mut y: usize = 0;
    while y < 256
        invariant
            perm@ == permutation(),
            y <= 256,
            list@.len() == y * 256,
            forall|k: int| 0 <= k < list@.len() ==> (#[trigger] list@[k])@ == hash_grid()[k],
        decreases 256 - y,
    {
        let mut x: usize = 0;
        while x < 256
            invariant
                perm@ == permutation(),
                y < 256,
                x <= 256,
                list@.len() == y * 256 + x,
                forall|k: int| 0 <= k < list@.len() ==> (#[trigger] list@[k])@ == hash_grid()[k],
            decreases 256 - x,
        {
            let a: usize = perm[x] as usize + y;
            let aa = perm[a] as i32;
            let ab = perm[a + 1] as i32;
            let b: usize = perm[x + 1] as usize + y;
            let ba = perm[b] as i32;
            let bb = perm[b + 1] as i32;
            let cell: [i32; 4] = [aa, ab, ba, bb];
            proof {
                lemma_fundamental_div_mod_converse(y * 256 + x, 256, y as int, x as int);
                assert(cell@ =~= hash_cell(x as int, y as int));
            }
            list.push(cell);
            x = x + 1;
        }
        y = y + 1;
    }
    list
}

/// Copies the gradient directions into a buffer of the same shape.
pub fn create_gradient_buf() -> (r: Vec<[i32; 4]>)
    ensures
        r@.len() == GRADIENT_LEN,
        forall|i: int| 0 <= i < GRADIENT_LEN ==> (#[trigger] r@[i])@ == gradient()[i],
{
    let g: [[i32; 4]; 16] = [
        [1, 1, 0, 0],
        [-1, 1, 0, 0],
        [1, -1, 0, 0],
        [-1, -1, 0, 0],
        [1, 0, 1, 0],
        [-1, 0, 1, 0],
        [1, 0, -1, 0],
        [-1, 0, -1, 0],
        [0, 1, 1, 0],
        [0, -1, 1, 0],
        [0, 1, -1, 0],
        [0, -1, -1, 0],
        [1, 1, 0, 0],
        [0, -1, 1, 0],
        [-1, 1, 0, 0],
        [0, -1, -1, 0],
    ];
    assert forall|i: int| 0 <= i < GRADIENT_LEN implies (#[trigger] g@[i])@ =~= gradient()[i] by {}
    let mut list: Vec<[i32; 4]> = Vec::with_capacity(GRADIENT_LEN);
    let mut i: usize = 0;
    while i < GRADIENT_LEN
        invariant
            forall|j: int| 0 <= j < GRADIENT_LEN ==> (#[trigger] g@[j])@ == gradient()[j],
            i <= GRADIENT_LEN,
            list@.len() == i,
            forall|j: int| 0 <= j < i ==> (#[trigger] list@[j])@ == gradient()[j],
        decreases GRADIENT_LEN - i,
    {
        list.push(g[i]);
        i = i + 1;
    }
    list
}

/// Cell `(x, y)` of the hash grid, at index `y * 256 + x`, holds
/// `(P[P[x]+y], P[P[x]+y+1], P[P[x+1]+y], P[P[x+1]+y+1])` for the 512-entry
/// permutation `P`, and every index used stays inside the table.
pub proof fn lemma_hash_grid_entry(x: int, y: int)
    requires
        0 <= x < 256,
        0 <= y < 256,
    ensures
        0 <= perm(perm(x) + y + 1) < 256,
        perm(x + 1) + y + 1 < PERM_LEN,
        hash_grid()[y * 256 + x] == seq![
            perm(perm(x) + y) as i32,
            perm(perm(x) + y + 1) as i32,
            perm(perm(x + 1) + y) as i32,
            perm(perm(x + 1) + y + 1) as i32,
        ],
{
    lemma_fundamental_div_mod_converse(y * 256 + x, 256, y, x);
}

/// The second half of the permutation table repeats the first, entry by entry.
pub proof fn lemma_permutation_halves_agree()
    ensures
        permutation().len() == PERM_LEN,
        forall|i: int| 0 <= i < 256 ==> permutation()[i + 256] == #[trigger] permutation()[i],
{
}

/// Every gradient vector has its components in `{-1, 0, 1}` and is not zero.
pub proof fn lemma_gradient_well_formed()
    ensures
        gradient().len() == GRADIENT_LEN,
        forall|i: int| 0 <= i < GRADIENT_LEN ==> gradient_well_formed(#[trigger] gradient()[i]),
{
    assert forall|i: int| 0 <= i < GRADIENT_LEN implies gradient_well_formed(
        #[trigger] gradient()[i],
    ) by {
        let g = gradient()[i];
        if g[0] != 0 {
            assert(g[0] != 0);
        } else {
            assert(g[1] != 0);
        }
    }
}

} // verus!
