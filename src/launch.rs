use vstd::arithmetic::power2::{
    lemma2_to64, lemma_pow2_pos, lemma_pow2_strictly_increases, lemma_pow2_unfold, pow2,
};
use vstd::arithmetic::div_mod::lemma_fundamental_div_mod;
use vstd::arithmetic::power::lemma_pow0;
use vstd::prelude::*;

verus! {

/// The largest number of threads in one block.
pub const MAX_BLOCK_SIZE: usize = 1024;

/// `x` is a power of two.
pub open spec fn is_pow2(x: nat) -> bool {
    exists|k: nat| pow2(k) == x
}

/// `r` is the smallest power of two that is at least `n`.
pub open spec fn is_ceil_pow2(r: nat, n: nat) -> bool {
    &&& is_pow2(r)
    &&& n <= r
    &&& (r == 1 || r < 2 * n)
}

/// `n / d` rounded up.
pub open spec fn ceil_div(n: nat, d: nat) -> nat
    recommends
        d > 0,
{
    ((n + d - 1) as nat) / d
}

/// The block size for `n` elements: the smallest power of two that holds
/// them all, but never more than `MAX_BLOCK_SIZE`.
pub open spec fn block_size_ok(block: nat, n: nat) -> bool {
    if n <= MAX_BLOCK_SIZE {
        is_ceil_pow2(block, n)
    } else {
        block == MAX_BLOCK_SIZE
    }
}

pub fn next_power_of_2(n: usize) -> (r: usize)
    requires
        n <= usize::MAX / 2 + 1,
    ensures
        is_ceil_pow2(r as nat, n as nat),
{
    let mut result: usize = 1;
    let ghost mut k: nat = 0;
    proof {
        lemma_pow0(2);
    }
    while result < n
        invariant
            result == pow2(k),
            1 <= result,
            result == 1 || result < 2 * n,
            n <= usize::MAX / 2 + 1,
        decreases usize::MAX - result,
    {
        proof {
            lemma_pow2_unfold(k + 1);
        }
        result = result * 2;
        proof {
            k = k + 1;
        }
    }
    assert(pow2(k) == result);
    result
}

/// How a kernel over `n` elements is spread over the device: `grid_size`
/// blocks of `block_size` threads, one thread per element.
#[derive(Clone, Copy, Debug, PartialEq, Eq, Structural)]
pub struct LaunchGeometry {
    pub block_size: usize,
    pub grid_size: usize,
}

/// `g` is the geometry chosen for `n` elements.
pub open spec fn geometry_of(g: LaunchGeometry, n: nat) -> bool {
    &&& block_size_ok(g.block_size as nat, n)
    &&& g.grid_size == ceil_div(n, g.block_size as nat)
}

/// Chooses the block and grid sizes for a kernel over `elem_count` elements.
pub fn launch_geometry(elem_count: usize) -> (g: LaunchGeometry)
    ensures
        geometry_of(g, elem_count as nat),
        is_pow2(g.block_size as nat),
        1 <= g.block_size <= MAX_BLOCK_SIZE,
        g.block_size * g.grid_size >= elem_count,
        elem_count > 0 ==> g.block_size * g.grid_size < elem_count + g.block_size,
{
    let block_size: usize = if elem_count >= MAX_BLOCK_SIZE {
        proof {
            lemma2_to64();
        }
        MAX_BLOCK_SIZE
    } else {
        next_power_of_2(elem_count)
    };
    assert(block_size_ok(block_size as nat, elem_count as nat)) by {
        lemma2_to64();
    }
    let extra: usize = if elem_count % block_size == 0 { 0 } else { 1 };
    let grid_size: usize = elem_count / block_size + extra;
    let g = LaunchGeometry { block_size, grid_size };
    proof {
        lemma_block_size_bounds(block_size as nat, elem_count as nat);
        let b = block_size as int;
        let n = elem_count as int;
        lemma_fundamental_div_mod(n, b);
        lemma_fundamental_div_mod(n + b - 1, b);
        assert((n + b - 1) / b == n / b + extra) by (nonlinear_arith)
            requires
                b > 0,
                n >= 0,
                n == b * (n / b) + n % b,
                0 <= n % b < b,
                n + b - 1 == b * ((n + b - 1) / b) + (n + b - 1) % b,
                0 <= (n + b - 1) % b < b,
                extra == (if n % b == 0 { 0int } else { 1int }),
        ;
        lemma_geometry_covers(elem_count as nat, g);
    }
    g
}

/// A block size chosen for `n` elements is a power of two between 1 and
/// `MAX_BLOCK_SIZE`.
proof fn lemma_block_size_bounds(block: nat, n: nat)
    requires
        block_size_ok(block, n),
    ensures
        is_pow2(block),
        1 <= block <= MAX_BLOCK_SIZE,
{
    lemma2_to64();
    if n <= MAX_BLOCK_SIZE {
        let k = choose|k: nat| pow2(k) == block;
        lemma_pow2_pos(k);
        if k > 10 {
            lemma_pow2_strictly_increases(10, k);
            if k > 11 {
                lemma_pow2_strictly_increases(11, k);
            }
        }
        if k < 10 {
            lemma_pow2_strictly_increases(k, 10);
        }
    }
}

/// The launch covers every element: the block size is a power of two no
/// larger than `MAX_BLOCK_SIZE`, and the grid has at least one thread per
/// element and less than one whole block of threads to spare.
pub proof fn lemma_geometry_covers(n: nat, g: LaunchGeometry)
    requires
        geometry_of(g, n),
    ensures
        is_pow2(g.block_size as nat),
        1 <= g.block_size <= MAX_BLOCK_SIZE,
        g.block_size * g.grid_size >= n,
        n > 0 ==> g.block_size * g.grid_size < n + g.block_size,
{
    lemma_block_size_bounds(g.block_size as nat, n);
    let b = g.block_size as int;
    let m = n + b - 1;
    lemma_fundamental_div_mod(m, b);
    assert(b * (m / b) == g.block_size * g.grid_size);
}

} // verus!
