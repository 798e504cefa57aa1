//! Work-group grid sizing for a one-dimensional compute dispatch.

use vstd::prelude::*;

verus! {

/// Kernel invocations in one work-group along the x axis.
pub const LOCAL_SIZE_X: u32 = 64;

/// Work-groups needed to cover `n` elements: `n` divided by the local size,
/// rounded up.
pub open spec fn groups_covering(n: nat) -> nat {
    (n + 63) / 64
}

/// Law: the grid covers every element, and no smaller grid does.
pub proof fn lemma_groups_cover(n: nat)
    ensures
        64 * groups_covering(n) >= n,
        n > 0 ==> 64 * (groups_covering(n) - 1) < n,
        n == 0 ==> groups_covering(n) == 0,
{
}

/// Work-groups to dispatch along the x axis for `n` elements.
pub fn group_count(n: u32) -> (groups: u32)
    ensures
        groups as nat == groups_covering(n as nat),
{
    let whole: u32 = n / LOCAL_SIZE_X;
    if n % LOCAL_SIZE_X == 0 {
        whole
    } else {
        whole + 1
    }
}

/// The three counts of the grid for `n` elements: the covering count along
/// x, one along y and z.
pub open spec fn grid_of(n: nat) -> Seq<u32> {
    seq![groups_covering(n) as u32, 1u32, 1u32]
}

/// The three-dimensional grid for `n` elements: the covering count along x,
/// one along y and z.
pub fn grid_for(n: u32) -> (grid: [u32; 3])
    ensures
        grid@ == grid_of(n as nat),
        grid[0] as nat == groups_covering(n as nat),
        grid[1] == 1,
        grid[2] == 1,
{
    let grid: [u32; 3] = [group_count(n), 1, 1];
    assert(grid@ =~= grid_of(n as nat));
    grid
}

} // verus!
