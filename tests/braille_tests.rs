use ising::ising::Ising;
use ising::parameter::Ratio;

fn uniform(size: usize, spin: i8) -> Ising {
    Ising {
        size,
        lattice: vec![spin; size * size],
        temperature: Ratio { num: 1, den: 1 },
        coupling_constant: Ratio { num: 1, den: 1 },
        magnetic_moment: Ratio { num: 0, den: 1 },
        magnetic_field_strength: Ratio { num: 0, den: 1 },
    }
}

fn codes(s: &str) -> Vec<u32> {
    s.chars().map(|c| c as u32).collect()
}

#[test]
fn all_up_eight_by_eight_is_four_full_cells() {
    let text = uniform(8, 1).lattice_as_braille();
    let full = char::from_u32(10240 + 255).unwrap();
    assert_eq!(text, format!("{full}{full}{full}{full}\n{full}{full}{full}{full}"));
    let lines: Vec<&str> = text.split('\n').collect();
    assert_eq!(lines.len(), 2);
    assert!(lines.iter().all(|l| l.chars().count() == 4));
}

#[test]
fn all_down_is_empty_cells() {
    let text = uniform(8, -1).lattice_as_braille();
    assert_eq!(codes(&text), vec![10240, 10240, 10240, 10240, 10, 10240, 10240, 10240, 10240]);
}

#[test]
fn shape_is_quarter_lines_of_half_width() {
    for n in [8usize, 16, 24, 32] {
        let s = Ising::new(n);
        let text = s.lattice_as_braille();
        let lines: Vec<&str> = text.split('\n').collect();
        assert_eq!(lines.len(), n / 4);
        assert!(lines.iter().all(|l| l.chars().count() == n / 2));
        assert!(!text.starts_with('\n') && !text.ends_with('\n'));
    }
}

#[test]
fn pixels_map_to_braille_dots() {
    // pixel k of a block lies at (k % 2, k / 2) and sets bit [0, 3, 1, 4, 2, 5, 6, 7][k]
    let dots = [0u32, 3, 1, 4, 2, 5, 6, 7];
    for k in 0..8usize {
        let mut s = uniform(8, -1);
        let x = k % 2;
        let y = k / 2;
        s.lattice[y * 8 + x] = 1;
        let c = codes(&s.lattice_as_braille());
        assert_eq!(c[0], 10240 + (1 << dots[k]));
        assert_eq!(&c[1..], &[10240, 10240, 10240, 10, 10240, 10240, 10240, 10240]);
    }
}

#[test]
fn block_position_selects_the_glyph() {
    let mut s = uniform(8, -1);
    // bottom-right block: glyph row 1, glyph column 3; its top-left pixel is (6, 4)
    s.lattice[4 * 8 + 6] = 1;
    assert_eq!(
        codes(&s.lattice_as_braille()),
        vec![10240, 10240, 10240, 10240, 10, 10240, 10240, 10240, 10241]
    );
}

#[test]
fn partial_blocks_are_dropped() {
    let text = uniform(10, 1).lattice_as_braille();
    let lines: Vec<&str> = text.split('\n').collect();
    assert_eq!(lines.len(), 2);
    assert!(lines.iter().all(|l| l.chars().count() == 5));
    assert!(text.chars().all(|c| c == '\n' || c as u32 == 10495));
}

#[test]
fn too_small_lattice_renders_nothing() {
    assert_eq!(uniform(3, 1).lattice_as_braille(), "");
    assert_eq!(uniform(0, 1).lattice_as_braille(), "");
}

#[test]
fn rendering_is_repeatable() {
    let s = Ising::new(16);
    assert_eq!(s.lattice_as_braille(), s.lattice_as_braille());
}
