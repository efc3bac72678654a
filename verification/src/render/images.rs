use vstd::prelude::*;
use vstd::arithmetic::power2::{pow2, lemma_pow2_pos, lemma_pow2_unfold};
use vstd::arithmetic::div_mod::lemma_div_denominator;

verus! {

/// `x` halved `k` times (rounding down).
pub open spec fn halved(x: nat, k: nat) -> nat {
    x / pow2(k)
}

proof fn lemma_halved_step(x: nat, k: nat)
    ensures
        halved(x, k) / 2 == halved(x, k + 1),
        halved(x, 0) == x,
        halved(x, k + 1) <= halved(x, k),
{
    lemma_pow2_pos(k);
    lemma_pow2_unfold(k + 1);
    assert(pow2(k + 1) == pow2(k) * 2);
    lemma_div_denominator(x as int, pow2(k) as int, 2);
    vstd::arithmetic::power2::lemma2_to64();
    assert(pow2(0) == 1) by {
        vstd::arithmetic::power2::lemma_pow2(0);
        reveal(vstd::arithmetic::power::pow);
    }
}

/// The number of bloom levels used: at least one.
pub open spec fn bloom_levels_used(levels: u32) -> nat {
    if levels == 0 {
        1
    } else {
        levels as nat
    }
}

/// The image sizes of the bloom levels. The first level has the window dimensions
/// divided by `initial_scale_down`; each further level halves them. There are
/// `bloom_levels` levels (at least one), but no level after the first has a zero
/// dimension: the list ends before that.
pub fn bloom_level_dimensions(dimensions: [u32; 2], bloom_levels: u32, initial_scale_down: u32) -> (dims: Vec<[u32; 2]>)
    requires
        initial_scale_down > 0,
    ensures
        ({
            let x = (dimensions[0] / initial_scale_down) as nat;
            let y = (dimensions[1] / initial_scale_down) as nat;
            let n = dims@.len();
            &&& 1 <= n <= bloom_levels_used(bloom_levels)
            &&& forall|k: int|
                0 <= k < n ==> #[trigger] dims@[k][0] == halved(x, k as nat) && dims@[k][1]
                    == halved(y, k as nat)
            &&& forall|k: int| 1 <= k < n ==> #[trigger] halved(x, k as nat) >= 1 && halved(y, k as nat) >= 1
            &&& n == bloom_levels_used(bloom_levels) || halved(x, n) == 0 || halved(y, n) == 0
        }),
{
    let levels = if bloom_levels == 0 {
        1
    } else {
        bloom_levels
    };
    let ghost x = (dimensions[0] / initial_scale_down) as nat;
    let ghost y = (dimensions[1] / initial_scale_down) as nat;
    let mut level_dim = [dimensions[0] / initial_scale_down, dimensions[1] / initial_scale_down];
    proof {
        lemma_halved_step(x, 0);
        lemma_halved_step(y, 0);
    }
    let mut dims: Vec<[u32; 2]> = Vec::new();
    let mut idx: u32 = 0;
    while idx < levels
        invariant_except_break
            idx >= 1 ==> level_dim[0] >= 1 && level_dim[1] >= 1,
        invariant
            levels == bloom_levels_used(bloom_levels),
            dims@.len() == idx,
            idx <= levels,
            level_dim[0] == halved(x, idx as nat),
            level_dim[1] == halved(y, idx as nat),
            forall|k: int|
                0 <= k < dims@.len() ==> #[trigger] dims@[k][0] == halved(x, k as nat) && dims@[k][1]
                    == halved(y, k as nat),
            forall|k: int| 1 <= k < dims@.len() ==> #[trigger] halved(x, k as nat) >= 1 && halved(y, k as nat) >= 1,
        ensures
            1 <= dims@.len() <= levels,
            dims@.len() == levels || halved(x, dims@.len()) == 0 || halved(y, dims@.len()) == 0,
            forall|k: int|
                0 <= k < dims@.len() ==> #[trigger] dims@[k][0] == halved(x, k as nat) && dims@[k][1]
                    == halved(y, k as nat),
            forall|k: int| 1 <= k < dims@.len() ==> #[trigger] halved(x, k as nat) >= 1 && halved(y, k as nat) >= 1,
        decreases levels - idx,
    {
        dims.push(level_dim);
        proof {
            lemma_halved_step(x, idx as nat);
            lemma_halved_step(y, idx as nat);
        }
        level_dim = [level_dim[0] / 2, level_dim[1] / 2];
        idx = idx + 1;
        if level_dim[0] < 1 || level_dim[1] < 1 {
            break;
        }
    }
    dims
}

/// A dimension of a scaled image: halved `k + 1` times, but at least one while the
/// other dimension has not reached zero as well.
pub open spec fn scaled_dim(v: nat, other: nat, k: nat) -> nat {
    if halved(v, k + 1) == 0 && halved(other, k + 1) == 0 {
        0
    } else if halved(v, k + 1) == 0 {
        1
    } else {
        halved(v, k + 1)
    }
}

/// Every entry of `dims` is the scaled size of its level.
pub open spec fn scaled_levels(dims: Seq<[u32; 2]>, x: nat, y: nat) -> bool {
    forall|k: int|
        0 <= k < dims.len() ==> #[trigger] dims[k][0] == scaled_dim(x, y, k as nat) && dims[k][1]
            == scaled_dim(y, x, k as nat)
}

/// Every level before the last of `dims` still had a dimension above one.
pub open spec fn levels_continue(dims: Seq<[u32; 2]>, x: nat, y: nat) -> bool {
    forall|k: int|
        0 <= k < dims.len() - 1 ==> #[trigger] halved(x, (k + 1) as nat) > 1 || halved(y, (k + 1) as nat) > 1
}

proof fn lemma_scaled_levels_push(dims: Seq<[u32; 2]>, x: nat, y: nat, next: [u32; 2])
    requires
        scaled_levels(dims, x, y),
        next[0] == scaled_dim(x, y, dims.len()),
        next[1] == scaled_dim(y, x, dims.len()),
    ensures
        scaled_levels(dims.push(next), x, y),
{
    let all = dims.push(next);
    assert forall|k: int| 0 <= k < all.len() implies #[trigger] all[k][0] == scaled_dim(x, y, k as nat)
        && all[k][1] == scaled_dim(y, x, k as nat) by {
        if k < dims.len() {
            assert(all[k] == dims[k]);
        }
    }
}

proof fn lemma_levels_continue_push(dims: Seq<[u32; 2]>, x: nat, y: nat, next: [u32; 2])
    requires
        levels_continue(dims, x, y),
        dims.len() == 0 || halved(x, dims.len()) > 1 || halved(y, dims.len()) > 1,
    ensures
        levels_continue(dims.push(next), x, y),
{
}

/// The sizes of the scaled copies of the image used to find its average brightness.
/// Each copy halves the last (a dimension that reaches zero while the other does not
/// is kept at one), and the list ends with the first copy whose dimensions are both
/// at most one.
pub fn scaled_ldr_dimensions(dimensions: [u32; 2]) -> (dims: Vec<[u32; 2]>)
    ensures
        ({
            let x = dimensions[0] as nat;
            let y = dimensions[1] as nat;
            let n = dims@.len();
            &&& n >= 1
            &&& forall|k: int|
                0 <= k < n ==> #[trigger] dims@[k][0] == scaled_dim(x, y, k as nat) && dims@[k][1]
                    == scaled_dim(y, x, k as nat)
            &&& forall|k: int|
                0 <= k < n - 1 ==> #[trigger] halved(x, (k + 1) as nat) > 1 || halved(y, (k + 1) as nat) > 1
            &&& halved(x, n) <= 1 && halved(y, n) <= 1
        }),
{
    let ghost x = dimensions[0] as nat;
    let ghost y = dimensions[1] as nat;
    let mut dims: Vec<[u32; 2]> = Vec::new();
    let mut current = dimensions;
    proof {
        lemma_halved_step(x, 0);
        lemma_halved_step(y, 0);
    }
    loop
        invariant_except_break
            halved(x, dims@.len()) > 1 || halved(y, dims@.len()) > 1 || dims@.len() == 0,
        invariant
            scaled_levels(dims@, x, y),
            levels_continue(dims@, x, y),
            dims@.len() == 0 ==> current[0] == x && current[1] == y,
            dims@.len() > 0 ==> current[0] == scaled_dim(x, y, (dims@.len() - 1) as nat)
                && current[1] == scaled_dim(y, x, (dims@.len() - 1) as nat),
            current[0] / 2 == halved(x, dims@.len() + 1),
            current[1] / 2 == halved(y, dims@.len() + 1),
        ensures
            dims@.len() >= 1,
            scaled_levels(dims@, x, y),
            levels_continue(dims@, x, y),
            halved(x, dims@.len()) <= 1 && halved(y, dims@.len()) <= 1,
        decreases halved(x, dims@.len()) + halved(y, dims@.len()),
    {
        let ghost level = dims@.len();
        proof {
            lemma_halved_step(x, level);
            lemma_halved_step(y, level);
            lemma_halved_step(x, level + 1);
            lemma_halved_step(y, level + 1);
        }
        let mut new_x = current[0] / 2;
        let mut new_y = current[1] / 2;
        if new_x < 1 && new_y >= 1 {
            new_x = 1;
        }
        if new_y < 1 && new_x >= 1 {
            new_y = 1;
        }
        current = [new_x, new_y];
        proof {
            lemma_scaled_levels_push(dims@, x, y, current);
            lemma_levels_continue_push(dims@, x, y, current);
        }
        dims.push(current);
        if new_x <= 1 && new_y <= 1 {
            break;
        }
    }
    dims
}

} // verus!
