use bloom_scene::material::{category_of_value, hash_cell, select, MaterialCategory};

#[test]
fn select_is_deterministic() {
    for x in -5..5 {
        for z in -5..5 {
            assert_eq!(select(x, z), select(x, z));
        }
    }
}

#[test]
fn select_matches_hash_then_reduce() {
    for &(x, z) in &[(0, 0), (-5, -5), (4, 4), (123, -456)] {
        let h = hash_cell(x, z);
        assert_eq!(select(x, z), category_of_value(h));
    }
}

#[test]
fn origin_cell_is_stable() {
    let first = select(0, 0);
    for _ in 0..10 {
        assert_eq!(select(0, 0), first);
    }
}

#[test]
fn hash_is_stable() {
    assert_eq!(hash_cell(0, 0), hash_cell(0, 0));
    assert_eq!(hash_cell(-5, 3), hash_cell(-5, 3));
}

#[test]
fn residues_map_to_exact_categories() {
    // ((h % 6) + 4) % 6 sends 2, 3, 4 to residues 0, 1, 2 and the rest of
    // the cycle to 3, 4, 5.
    assert_eq!(category_of_value(2), MaterialCategory::EmissiveA);
    assert_eq!(category_of_value(3), MaterialCategory::EmissiveB);
    assert_eq!(category_of_value(4), MaterialCategory::EmissiveC);
    assert_eq!(category_of_value(5), MaterialCategory::NonEmissive);
    assert_eq!(category_of_value(0), MaterialCategory::NonEmissive);
    assert_eq!(category_of_value(1), MaterialCategory::NonEmissive);
}

#[test]
fn small_values_do_not_underflow() {
    // The reduction is written without subtraction, so the values below 2,
    // where `h - 2` would underflow, still land on defined categories.
    assert_eq!(category_of_value(0), MaterialCategory::NonEmissive);
    assert_eq!(category_of_value(1), MaterialCategory::NonEmissive);
}

#[test]
fn largest_value_has_a_category() {
    // u64::MAX is 3 mod 6, so it reduces to residue 1.
    assert_eq!(category_of_value(u64::MAX), MaterialCategory::EmissiveB);
}

#[test]
fn six_consecutive_values_split_three_to_one() {
    for base in [0u64, 1, 2, 5, 1000, u64::MAX - 6] {
        let mut non_emissive = 0;
        let mut a = 0;
        let mut b = 0;
        let mut c = 0;
        for v in base..base + 6 {
            match category_of_value(v) {
                MaterialCategory::EmissiveA => a += 1,
                MaterialCategory::EmissiveB => b += 1,
                MaterialCategory::EmissiveC => c += 1,
                MaterialCategory::NonEmissive => non_emissive += 1,
            }
        }
        assert_eq!(non_emissive, 3);
        assert_eq!(a, 1);
        assert_eq!(b, 1);
        assert_eq!(c, 1);
    }
}
