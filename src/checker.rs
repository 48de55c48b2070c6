use vstd::prelude::*;

verus! {

/// A lattice cell `(x, y, z)` of a checkerboard is even when its coordinates
/// add up to an even number.
pub open spec fn is_even_cell(x: int, y: int, z: int) -> bool {
    (x + y + z) % 2 == 0
}

/// Whether the lattice cell `(x, y, z)` takes the even texture of a
/// checkerboard. The sum is taken without overflow.
pub fn checker_is_even(x: i32, y: i32, z: i32) -> (r: bool)
    ensures
        r == is_even_cell(x as int, y as int, z as int),
{
    let sum: i64 = x as i64 + y as i64 + z as i64;
    sum % 2 == 0
}

} // verus!
