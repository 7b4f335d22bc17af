//! Deterministic material selection for grid cells.
//!
//! Each cell of the sphere grid is given one of four materials, derived from
//! the cell's integer coordinates through a fixed-seed hash: the digest is
//! reduced to a residue in `[0, 6)`, residues 0, 1 and 2 pick the three
//! emissive materials, and residues 3, 4 and 5 all pick the one non-emissive
//! material. The reduction uses explicit modular arithmetic so that no
//! subtraction can underflow, whatever the digest.

use std::collections::hash_map::DefaultHasher;
use std::hash::Hasher;
use vstd::prelude::*;
use vstd::std_specs::hash::DefaultHasherAdditionalSpecFns;

verus! {

/// One of the four visual materials a grid cell can be assigned.
#[derive(Clone, Copy, Debug, PartialEq, Eq, Structural)]
pub enum MaterialCategory {
    /// The first emissive material.
    EmissiveA,
    /// The second emissive material.
    EmissiveB,
    /// The third emissive material.
    EmissiveC,
    /// The single neutral, non-emissive material.
    NonEmissive,
}

/// The digest of a cell's coordinates: both coordinates, as little-endian
/// bytes, fed to a fresh `DefaultHasher`. The hasher's initial state is a
/// fixed constant, not seeded per process, so the digest is a function of the
/// coordinates alone and the same cell hashes alike on every run.
pub open spec fn cell_hash(x: i32, z: i32) -> u64 {
    DefaultHasher::spec_finish(
        seq![
            vstd::bytes::spec_u32_to_le_bytes(x as u32),
            vstd::bytes::spec_u32_to_le_bytes(z as u32),
        ],
    )
}

/// The residue in `[0, 6)` that a hash-derived value is reduced to. Written
/// as `((h % 6) + 4) % 6`, which equals `(h - 2) mod 6` without any
/// subtraction that could underflow.
pub open spec fn spec_residue(h: int) -> int {
    ((h % 6) + 4) % 6
}

/// The category a hash-derived value maps to: residues 0, 1 and 2 give the
/// three emissive categories, residues 3, 4 and 5 the non-emissive one.
pub open spec fn spec_category_of_value(h: int) -> MaterialCategory {
    let r = spec_residue(h);
    if r == 0 {
        MaterialCategory::EmissiveA
    } else if r == 1 {
        MaterialCategory::EmissiveB
    } else if r == 2 {
        MaterialCategory::EmissiveC
    } else {
        MaterialCategory::NonEmissive
    }
}

/// The category assigned to the cell at `(x, z)`.
pub open spec fn spec_select(x: i32, z: i32) -> MaterialCategory {
    spec_category_of_value(cell_hash(x, z) as int)
}

/// Hashes a cell's coordinates with a fresh fixed-seed hasher.
pub fn hash_cell(x: i32, z: i32) -> (h: u64)
    ensures
        h == cell_hash(x, z),
{
    let mut hasher = DefaultHasher::new();
    let xs = vstd::bytes::u32_to_le_bytes(#[verifier::truncate] (x as u32));
    hasher.write(xs.as_slice());
    let zs = vstd::bytes::u32_to_le_bytes(#[verifier::truncate] (z as u32));
    hasher.write(zs.as_slice());
    proof {
        assert(hasher@ =~= seq![
            vstd::bytes::spec_u32_to_le_bytes(x as u32),
            vstd::bytes::spec_u32_to_le_bytes(z as u32),
        ]);
    }
    hasher.finish()
}

/// Reduces a hash-derived value to its material category.
pub fn category_of_value(h: u64) -> (c: MaterialCategory)
    ensures
        c == spec_category_of_value(h as int),
{
    let r = ((h % 6) + 4) % 6;
    if r == 0 {
        MaterialCategory::EmissiveA
    } else if r == 1 {
        MaterialCategory::EmissiveB
    } else if r == 2 {
        MaterialCategory::EmissiveC
    } else {
        MaterialCategory::NonEmissive
    }
}

/// Picks the material category for the cell at `(x, z)`.
pub fn select(x: i32, z: i32) -> (c: MaterialCategory)
    ensures
        c == spec_select(x, z),
{
    let h = hash_cell(x, z);
    category_of_value(h)
}

/// The selection is deterministic: any two selections for the same
/// coordinates agree, because the category is a function of the coordinates
/// alone.
pub proof fn lemma_select_deterministic(x: i32, z: i32, c1: MaterialCategory, c2: MaterialCategory)
    requires
        c1 == spec_select(x, z),
        c2 == spec_select(x, z),
    ensures
        c1 == c2,
{
}

/// How many of the `n` consecutive values starting at `base` map to the
/// category `c`.
pub open spec fn count_in_window(base: int, n: nat, c: MaterialCategory) -> int
    decreases n,
{
    if n == 0 {
        0
    } else {
        count_in_window(base, (n - 1) as nat, c) + if spec_category_of_value(
            base + n - 1,
        ) == c {
            1int
        } else {
            0int
        }
    }
}

/// Of any six consecutive hash-derived values, exactly three map to the
/// non-emissive category, and each of the three emissive categories is hit
/// exactly once.
pub proof fn lemma_window_distribution(base: int)
    requires
        base >= 0,
    ensures
        count_in_window(base, 6, MaterialCategory::NonEmissive) == 3,
        count_in_window(base, 6, MaterialCategory::EmissiveA) == 1,
        count_in_window(base, 6, MaterialCategory::EmissiveB) == 1,
        count_in_window(base, 6, MaterialCategory::EmissiveC) == 1,
{
    reveal_with_fuel(count_in_window, 7);
}

} // verus!
