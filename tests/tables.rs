use noise_texture::tables::permutation_table;
use noise_texture::{create_gradient_buf, create_permulation_buf};

#[test]
fn permutation_table_doubles_the_base() {
    let p = permutation_table();
    assert_eq!(p.len(), 512);
    for i in 0..256 {
        assert_eq!(p[i + 256], p[i]);
    }
    assert_eq!(&p[0..4], &[151, 160, 137, 91]);
    assert_eq!(p[255], 180);
    assert_eq!(p[511], 180);
}

#[test]
fn permutation_base_is_a_permutation() {
    let p = permutation_table();
    let mut seen = [false; 256];
    for i in 0..256 {
        assert!(!seen[p[i] as usize]);
        seen[p[i] as usize] = true;
    }
    assert!(seen.iter().all(|s| *s));
}

#[test]
fn hash_grid_cells_follow_the_permutation() {
    let p = permutation_table();
    let grid = create_permulation_buf();
    assert_eq!(grid.len(), 65536);
    for y in 0..256usize {
        for x in 0..256usize {
            let a = p[x] as usize + y;
            let b = p[x + 1] as usize + y;
            let expected = [p[a] as i32, p[a + 1] as i32, p[b] as i32, p[b + 1] as i32];
            assert_eq!(grid[y * 256 + x], expected);
        }
    }
}

#[test]
fn hash_grid_known_cells() {
    let grid = create_permulation_buf();
    assert_eq!(grid[0], [17, 182, 119, 248]);
    assert_eq!(grid[7 * 256 + 3], [63, 161, 25, 63]);
    assert_eq!(grid[65535], [253, 19, 58, 17]);
}

#[test]
fn gradient_entries_are_unit_steps_and_nonzero() {
    let g = create_gradient_buf();
    assert_eq!(g.len(), 16);
    for v in g.iter() {
        assert!(v.iter().all(|c| *c >= -1 && *c <= 1));
        assert_ne!(*v, [0, 0, 0, 0]);
    }
    assert_eq!(g[0], [1, 1, 0, 0]);
    assert_eq!(g[7], [-1, 0, -1, 0]);
    assert_eq!(g[15], [0, -1, -1, 0]);
}
