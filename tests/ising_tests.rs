use ising::ising::{Energy, Ising};
use ising::parameter::Ratio;

fn uniform(size: usize, spin: i8, t: Ratio) -> Ising {
    Ising {
        size,
        lattice: vec![spin; size * size],
        temperature: t,
        coupling_constant: Ratio { num: 1, den: 1 },
        magnetic_moment: Ratio { num: 0, den: 1 },
        magnetic_field_strength: Ratio { num: 0, den: 1 },
    }
}

#[test]
fn new_lattice_holds_only_spins() {
    let s = Ising::new(16);
    assert_eq!(s.size, 16);
    assert_eq!(s.lattice.len(), 256);
    assert!(s.lattice.iter().all(|&v| v == 1 || v == -1));
    assert_eq!(s.temperature, Ratio { num: 2696, den: 1000 });
    assert_eq!(s.coupling_constant, Ratio { num: 1, den: 1 });
    assert_eq!(s.magnetic_moment.num, 0);
    assert_eq!(s.magnetic_field_strength.num, 0);
}

#[test]
fn drawn_sites_lie_on_the_lattice() {
    let s = Ising::new(5);
    let mut rng = rand::thread_rng();
    let mut seen = [false; 5];
    for _ in 0..500 {
        let (x, y) = s.draw_site(&mut rng);
        assert!(x < 5 && y < 5);
        seen[x] = true;
    }
    assert!(seen.iter().all(|&b| b));
}

#[test]
fn aligned_lattice_flip_costs_eight() {
    let s = uniform(8, 1, Ratio { num: 0, den: 1 });
    for y in 0..8 {
        for x in 0..8 {
            let e = s.energy_diff(x, y);
            assert_eq!(e.num as f64 / e.den as f64, 8.0);
            assert_eq!(s.hamiltonian(x, y), Energy { num: -4, den: 1 });
        }
    }
}

#[test]
fn zero_temperature_never_raises_energy() {
    let mut s = uniform(8, 1, Ratio { num: 0, den: 1 });
    for round in 0..1000usize {
        let x = round % 8;
        let y = (round / 8) % 8;
        assert!(!s.needs_uphill_draw(x, y));
        assert!(!s.monte_carlo_step(x, y, true));
    }
    assert!(s.lattice.iter().all(|&v| v == 1));
}

#[test]
fn downhill_flip_is_always_taken() {
    let mut s = uniform(8, 1, Ratio { num: 0, den: 1 });
    s.lattice[3 * 8 + 2] = -1;
    let e = s.energy_diff(2, 3);
    assert_eq!(e.num as f64 / e.den as f64, -8.0);
    assert!(!s.needs_uphill_draw(2, 3));
    assert!(s.monte_carlo_step(2, 3, false));
    assert!(s.lattice.iter().all(|&v| v == 1));
}

#[test]
fn uphill_flip_follows_the_draw_at_positive_temperature() {
    let mut s = uniform(8, 1, Ratio { num: 2, den: 1 });
    assert!(s.needs_uphill_draw(0, 0));
    assert!(!s.monte_carlo_step(0, 0, false));
    assert!(s.lattice.iter().all(|&v| v == 1));
    assert!(s.monte_carlo_step(0, 0, true));
    assert_eq!(s.lattice[0], -1);
    assert_eq!(s.lattice.iter().filter(|&&v| v == -1).count(), 1);
}

#[test]
fn neighbours_wrap_around_the_edges() {
    let mut s = uniform(4, 1, Ratio { num: 0, den: 1 });
    // left neighbour of (0, 0) is (3, 0); upper neighbour is (0, 3)
    s.lattice[3] = -1;
    s.lattice[3 * 4] = -1;
    let e = s.energy_diff(0, 0);
    // s = 1, neighbour sum = 1 + 1 - 1 - 1 = 0
    assert_eq!(e.num, 0);
    assert!(s.monte_carlo_step(0, 0, false));
    assert_eq!(s.lattice[0], -1);
}

#[test]
fn field_term_enters_the_energy() {
    let mut s = uniform(4, 1, Ratio { num: 1, den: 1 });
    s.coupling_constant = Ratio { num: 0, den: 1 };
    s.magnetic_moment = Ratio { num: 1, den: 2 };
    s.magnetic_field_strength = Ratio { num: 3, den: 1 };
    // H = -mu * B * s = -1.5; dE = 3
    let h = s.hamiltonian(1, 1);
    assert_eq!(h.num as f64 / h.den as f64, -1.5);
    let e = s.energy_diff(1, 1);
    assert_eq!(e.num as f64 / e.den as f64, 3.0);
}

#[test]
fn each_step_changes_at_most_one_cell() {
    let mut s = Ising::new(8);
    s.temperature = Ratio { num: 5, den: 1 };
    for round in 0..300usize {
        let before = s.lattice.clone();
        let x = (round * 7) % 8;
        let y = (round * 3) % 8;
        s.monte_carlo_step(x, y, round % 3 == 0);
        let changed = before.iter().zip(s.lattice.iter()).filter(|(a, b)| a != b).count();
        assert!(changed <= 1);
        assert!(s.lattice.iter().all(|&v| v == 1 || v == -1));
        assert_eq!(s.lattice.len(), 64);
    }
}

#[test]
fn same_draws_give_same_lattices() {
    let start = Ising::new(8);
    let copy = |s: &Ising| Ising {
        size: s.size,
        lattice: s.lattice.clone(),
        temperature: Ratio { num: 3, den: 2 },
        coupling_constant: s.coupling_constant,
        magnetic_moment: Ratio { num: 1, den: 10 },
        magnetic_field_strength: Ratio { num: 1, den: 1 },
    };
    let mut a = copy(&start);
    let mut b = copy(&start);
    for round in 0..500usize {
        let x = (round * 5 + 1) % 8;
        let y = (round * 11 + 2) % 8;
        let accepted = round % 4 == 1;
        assert_eq!(a.monte_carlo_step(x, y, accepted), b.monte_carlo_step(x, y, accepted));
    }
    assert_eq!(a.lattice, b.lattice);
}

#[test]
fn lattice_from_draws_follows_them() {
    let ups = vec![true, false, false, true];
    let s = Ising::from_draws(2, &ups);
    assert_eq!(s.lattice, vec![1, -1, -1, 1]);
    assert_eq!(s.size, 2);
    assert_eq!(s.temperature, Ratio { num: 2696, den: 1000 });
}
