//! Capability-set mask encoding and decoding.

use rutabaga_gfx::calculate_context_mask;
use rutabaga_gfx::calculate_context_types;

fn names(list: &[&str]) -> Vec<String> {
    list.iter().map(|s| s.to_string()).collect()
}

#[test]
fn mask_of_single_names() {
    assert_eq!(calculate_context_mask(names(&["virgl"])), 1 << 1);
    assert_eq!(calculate_context_mask(names(&["virgl2"])), 1 << 2);
    assert_eq!(calculate_context_mask(names(&["gfxstream"])), 1 << 3);
    assert_eq!(calculate_context_mask(names(&["venus"])), 1 << 4);
    assert_eq!(calculate_context_mask(names(&["cross-domain"])), 1 << 5);
    assert_eq!(calculate_context_mask(names(&["drm"])), 1 << 6);
}

#[test]
fn mask_of_combinations() {
    assert_eq!(
        calculate_context_mask(names(&["virgl", "cross-domain"])),
        (1 << 1) | (1 << 5)
    );
    assert_eq!(calculate_context_mask(names(&[])), 0);
    // order does not matter
    assert_eq!(
        calculate_context_mask(names(&["drm", "virgl2"])),
        calculate_context_mask(names(&["virgl2", "drm"]))
    );
    // duplicates do not matter
    assert_eq!(
        calculate_context_mask(names(&["venus", "venus"])),
        calculate_context_mask(names(&["venus"]))
    );
}

#[test]
fn mask_ignores_unknown_names() {
    assert_eq!(calculate_context_mask(names(&["not-a-capset"])), 0);
    assert_eq!(
        calculate_context_mask(names(&["not-a-capset", "virgl"])),
        1 << 1
    );
}

#[test]
fn types_of_mask() {
    assert_eq!(
        calculate_context_types((1 << 1) | (1 << 5)),
        names(&["virgl", "cross-domain"])
    );
    assert_eq!(calculate_context_types(0), Vec::<String>::new());
    // bits outside the catalog decode to nothing
    assert_eq!(calculate_context_types(1 << 13), Vec::<String>::new());
}

#[test]
fn mask_round_trip_all_subsets() {
    let catalog = ["virgl", "virgl2", "gfxstream", "venus", "cross-domain", "drm"];
    for subset in 0u32..(1 << catalog.len()) {
        let mut chosen: Vec<&str> = Vec::new();
        for (i, name) in catalog.iter().enumerate() {
            if subset & (1 << i) != 0 {
                chosen.push(name);
            }
        }
        let mask = calculate_context_mask(names(&chosen));
        let mut decoded = calculate_context_types(mask);
        let mut expected: Vec<String> = names(&chosen);
        decoded.sort();
        expected.sort();
        assert_eq!(decoded, expected);
    }
}
