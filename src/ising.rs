use crate::parameter::Ratio;
use crate::random::random_below;
use rand::rngs::ThreadRng;
use vstd::prelude::*;

verus! {

/// A square lattice of `size * size` spins, each `1` or `-1`, stored row by row
/// (`index = y * size + x`) with periodic boundaries, and the physical parameters
/// of its dynamics: temperature `T`, coupling constant `J`, magnetic moment `mu`
/// and magnetic field strength `B`, each an exact non-negative fraction.
#[derive(Debug)]
pub struct Ising {
    pub size: usize,
    pub lattice: Vec<i8>,
    pub temperature: Ratio,
    pub coupling_constant: Ratio,
    pub magnetic_moment: Ratio,
    pub magnetic_field_strength: Ratio,
}

/// The mathematical content of an `Ising` lattice.
pub ghost struct IsingModel {
    pub size: int,
    pub lattice: Seq<i8>,
    pub temperature: Ratio,
    pub coupling_constant: Ratio,
    pub magnetic_moment: Ratio,
    pub magnetic_field_strength: Ratio,
}

/// An energy as the exact fraction `num / den`.
#[derive(Debug, Clone, Copy, PartialEq, Eq, Structural)]
pub struct Energy {
    pub num: i128,
    pub den: u128,
}

impl View for Ising {
    type V = IsingModel;

    open spec fn view(&self) -> IsingModel {
        IsingModel {
            size: self.size as int,
            lattice: self.lattice@,
            temperature: self.temperature,
            coupling_constant: self.coupling_constant,
            magnetic_moment: self.magnetic_moment,
            magnetic_field_strength: self.magnetic_field_strength,
        }
    }
}

impl IsingModel {
    /// Every cell is a spin of `1` or `-1`, the lattice is `size * size` and fits in
    /// memory, and every fraction has a positive denominator.
    pub open spec fn wf(self) -> bool {
        &&& 0 <= self.size
        &&& self.size * self.size <= usize::MAX
        &&& self.lattice.len() == self.size * self.size
        &&& forall|i: int|
            0 <= i < self.lattice.len() ==> (#[trigger] self.lattice[i] == 1 || self.lattice[i]
                == -1)
        &&& self.temperature.den > 0
        &&& self.coupling_constant.den > 0
        &&& self.magnetic_moment.den > 0
        &&& self.magnetic_field_strength.den > 0
    }

    pub open spec fn index(self, x: int, y: int) -> int {
        y * self.size + x
    }

    pub open spec fn spin(self, x: int, y: int) -> int {
        self.lattice[self.index(x, y)] as int
    }

    /// The sum of the four neighbours of `(x, y)` on the torus.
    pub open spec fn neighbor_sum(self, x: int, y: int) -> int {
        self.spin((x + 1) % self.size, y) + self.spin((x - 1) % self.size, y) + self.spin(
            x,
            (y + 1) % self.size,
        ) + self.spin(x, (y - 1) % self.size)
    }

    /// The common denominator of the energies: `J.den * mu.den * B.den`.
    pub open spec fn energy_den(self) -> int {
        self.coupling_constant.den * self.magnetic_moment.den * self.magnetic_field_strength.den
    }

    /// `H = -J * s * S - mu * B * s` at `(x, y)`, times `energy_den`, where `s` is
    /// the spin there and `S` the sum of its neighbours.
    pub open spec fn local_energy_num(self, x: int, y: int) -> int {
        let j = self.coupling_constant;
        let mu = self.magnetic_moment;
        let b = self.magnetic_field_strength;
        let s = self.spin(x, y);
        -(j.num * mu.den * b.den) * s * self.neighbor_sum(x, y) - (mu.num * b.num * j.den) * s
    }

    /// The energy change `dE = -2 * H` of flipping `(x, y)`, times `energy_den`.
    pub open spec fn energy_diff_num(self, x: int, y: int) -> int {
        -2 * self.local_energy_num(x, y)
    }

    /// Metropolis acceptance: a flip that does not raise the energy is taken; one that
    /// raises it is taken only at a positive temperature and when the draw against
    /// `exp(-dE / T)` succeeded.
    pub open spec fn accepts(self, x: int, y: int, uphill_accepted: bool) -> bool {
        self.energy_diff_num(x, y) <= 0 || (self.temperature.num > 0 && uphill_accepted)
    }

    pub open spec fn flip(self, i: int) -> IsingModel {
        IsingModel { lattice: self.lattice.update(i, (-self.lattice[i]) as i8), ..self }
    }

    /// The lattice after one trial flip at `(x, y)`.
    pub open spec fn step(self, x: int, y: int, uphill_accepted: bool) -> IsingModel {
        if self.accepts(x, y, uphill_accepted) {
            self.flip(self.index(x, y))
        } else {
            self
        }
    }
}

proof fn lemma_product3_bound(a: int, b: int, c: int)
    requires
        0 <= a <= u32::MAX,
        0 <= b <= u32::MAX,
        0 <= c <= u32::MAX,
    ensures
        0 <= a * b <= 0x1_0000_0000_0000_0000,
        0 <= a * b * c <= 0x1_0000_0000_0000_0000_0000_0000,
{
    assert(0 <= a * b <= 0x1_0000_0000_0000_0000) by (nonlinear_arith)
        requires
            0 <= a <= u32::MAX,
            0 <= b <= u32::MAX,
    ;
    assert(0 <= (a * b) * c <= 0x1_0000_0000_0000_0000 * 0x1_0000_0000) by (nonlinear_arith)
        requires
            0 <= a * b <= 0x1_0000_0000_0000_0000,
            0 <= c <= u32::MAX,
    ;
}

proof fn lemma_index_in_bounds(n: int, x: int, y: int)
    requires
        0 <= x < n,
        0 <= y < n,
    ensures
        0 <= y * n + x < n * n,
{
    assert(0 <= y * n + x < n * n) by (nonlinear_arith)
        requires
            0 <= x < n,
            0 <= y < n,
    ;
}

proof fn lemma_mod_of_small(a: int, n: int, q: int)
    requires
        0 < n,
        0 <= a - q * n < n,
    ensures
        a % n == a - q * n,
{
    vstd::arithmetic::div_mod::lemma_fundamental_div_mod_converse(a, n, q, a - q * n);
}

impl Ising {
    pub open spec fn wf(&self) -> bool {
        self@.wf()
    }

    /// A lattice of side `size` whose spins are drawn independently, each `1` or `-1`
    /// with equal chance, with `T = 2.696`, `J = 1` and `mu = B = 0`.
    pub fn new(size: usize) -> (r: Self)
        requires
            size * size <= usize::MAX,
        ensures
            r.wf(),
            r.size == size,
            r.temperature == (Ratio { num: 2696, den: 1000 }),
            r.coupling_constant == (Ratio { num: 1, den: 1 }),
            r.magnetic_moment == (Ratio { num: 0, den: 1 }),
            r.magnetic_field_strength == (Ratio { num: 0, den: 1 }),
    {
        let cells = size * size;
        let mut ups: Vec<bool> = Vec::new();
        let mut i: usize = 0;
        while i < cells
            invariant
                i <= cells,
                ups.len() == i,
            decreases cells - i,
        {
            ups.push(rand::random::<bool>());
            i = i + 1;
        }
        Ising::from_draws(size, &ups)
    }

    /// A lattice of side `size` whose cell `i` is `1` where `ups[i]` and `-1` elsewhere,
    /// with `T = 2.696`, `J = 1` and `mu = B = 0`.
    pub fn from_draws(size: usize, ups: &Vec<bool>) -> (r: Self)
        requires
            size * size <= usize::MAX,
            ups.len() == size * size,
        ensures
            r.wf(),
            r.size == size,
            forall|i: int| 0 <= i < ups.len() ==> #[trigger] r.lattice@[i] == if ups@[i] {
                1i8
            } else {
                -1i8
            },
            r.temperature == (Ratio { num: 2696, den: 1000 }),
            r.coupling_constant == (Ratio { num: 1, den: 1 }),
            r.magnetic_moment == (Ratio { num: 0, den: 1 }),
            r.magnetic_field_strength == (Ratio { num: 0, den: 1 }),
    {
        let cells = size * size;
        let mut lattice: Vec<i8> = Vec::new();
        let mut i: usize = 0;
        while i < cells
            invariant
                i <= cells,
                cells == ups.len(),
                lattice.len() == i,
                forall|k: int| 0 <= k < i ==> #[trigger] lattice@[k] == if ups@[k] {
                    1i8
                } else {
                    -1i8
                },
            decreases cells - i,
        {
            lattice.push(if ups[i] { 1i8 } else { -1i8 });
            i = i + 1;
        }
        Ising {
            size,
            lattice,
            temperature: Ratio { num: 2696, den: 1000 },
            coupling_constant: Ratio { num: 1, den: 1 },
            magnetic_moment: Ratio { num: 0, den: 1 },
            magnetic_field_strength: Ratio { num: 0, den: 1 },
        }
    }

    /// A uniformly drawn site `(x, y)` of the lattice.
    pub fn draw_site(&self, rng: &mut ThreadRng) -> (r: (usize, usize))
        requires
            self.wf(),
            0 < self.size,
        ensures
            r.0 < self.size,
            r.1 < self.size,
    {
        let x = random_below(rng, self.size);
        let y = random_below(rng, self.size);
        (x, y)
    }

    /// The coordinate after `i` on a ring of `size` places.
    fn next_coord(&self, i: usize) -> (r: usize)
        requires
            i < self.size,
        ensures
            r == (i + 1) % (self.size as int),
    {
        if i + 1 == self.size {
            proof { lemma_mod_of_small(i + 1, self.size as int, 1) }
            0
        } else {
            proof { lemma_mod_of_small(i + 1, self.size as int, 0) }
            i + 1
        }
    }

    /// The coordinate before `i` on a ring of `size` places.
    fn prev_coord(&self, i: usize) -> (r: usize)
        requires
            i < self.size,
        ensures
            r == (i - 1) % (self.size as int),
    {
        if i == 0 {
            proof { lemma_mod_of_small(i - 1, self.size as int, -1) }
            self.size - 1
        } else {
            proof { lemma_mod_of_small(i - 1, self.size as int, 0) }
            i - 1
        }
    }

    pub(crate) fn get_index(&self, x: usize, y: usize) -> (r: usize)
        requires
            self.wf(),
            x < self.size,
            y < self.size,
        ensures
            r == self@.index(x as int, y as int),
            r < self.lattice.len(),
    {
        proof { lemma_index_in_bounds(self.size as int, x as int, y as int) }
        y * self.size + x
    }

    /// The spins right of, left of, below and above `(x, y)`, wrapping at the edges.
    fn get_neighbors(&self, x: usize, y: usize) -> (r: [i8; 4])
        requires
            self.wf(),
            x < self.size,
            y < self.size,
        ensures
            r[0] == self@.spin((x + 1) % (self.size as int), y as int),
            r[1] == self@.spin((x - 1) % (self.size as int), y as int),
            r[2] == self@.spin(x as int, (y + 1) % (self.size as int)),
            r[3] == self@.spin(x as int, (y - 1) % (self.size as int)),
            -1 <= r[0] <= 1 && -1 <= r[1] <= 1 && -1 <= r[2] <= 1 && -1 <= r[3] <= 1,
    {
        let right = self.lattice[self.get_index(self.next_coord(x), y)];
        let left = self.lattice[self.get_index(self.prev_coord(x), y)];
        let below = self.lattice[self.get_index(x, self.next_coord(y))];
        let above = self.lattice[self.get_index(x, self.prev_coord(y))];
        [right, left, below, above]
    }

    /// The local energy `H = -J * s * S - mu * B * s` of the site `(x, y)`.
    pub fn hamiltonian(&self, x: usize, y: usize) -> (r: Energy)
        requires
            self.wf(),
            x < self.size,
            y < self.size,
        ensures
            r.num == self@.local_energy_num(x as int, y as int),
            r.den == self@.energy_den(),
            -5 * 0x1_0000_0000_0000_0000_0000_0000 <= r.num <= 5 * 0x1_0000_0000_0000_0000_0000_0000,
    {
        let idx = self.get_index(x, y);
        let spin = self.lattice[idx];
        let nb = self.get_neighbors(x, y);
        let sum: i128 = nb[0] as i128 + nb[1] as i128 + nb[2] as i128 + nb[3] as i128;
        let j = self.coupling_constant;
        let mu = self.magnetic_moment;
        let b = self.magnetic_field_strength;
        proof {
            lemma_product3_bound(j.num as int, mu.den as int, b.den as int);
            lemma_product3_bound(mu.num as int, b.num as int, j.den as int);
            lemma_product3_bound(j.den as int, mu.den as int, b.den as int);
        }
        let coupling: i128 = j.num as i128 * mu.den as i128 * b.den as i128;
        let field: i128 = mu.num as i128 * b.num as i128 * j.den as i128;
        assert(-4 * coupling <= coupling * sum <= 4 * coupling) by (nonlinear_arith)
            requires
                0 <= coupling,
                -4 <= sum <= 4,
        ;
        let inner: i128 = coupling * sum + field;
        let den: u128 = j.den as u128 * mu.den as u128 * b.den as u128;
        proof {
            let s = spin as int;
            let big_s = sum as int;
            assert(-(coupling as int) * s * big_s - (field as int) * s == -(s * (inner as int)))
                by (nonlinear_arith)
                requires
                    inner == coupling * big_s + field,
            ;
        }
        if spin == 1 {
            Energy { num: -inner, den }
        } else {
            Energy { num: inner, den }
        }
    }

    /// The energy change `dE = -2 * H` that flipping the spin at `(x, y)` would cause.
    pub fn energy_diff(&self, x: usize, y: usize) -> (r: Energy)
        requires
            self.wf(),
            x < self.size,
            y < self.size,
        ensures
            r.num == self@.energy_diff_num(x as int, y as int),
            r.den == self@.energy_den(),
            r.den > 0,
    {
        let h = self.hamiltonian(x, y);
        proof {
            let j = self.coupling_constant;
            let mu = self.magnetic_moment;
            let b = self.magnetic_field_strength;
            assert(j.den * mu.den * b.den > 0) by (nonlinear_arith)
                requires
                    j.den > 0,
                    mu.den > 0,
                    b.den > 0,
            ;
        }
        Energy { num: -2 * h.num, den: h.den }
    }

    /// Whether a trial flip at `(x, y)` needs a draw against `exp(-dE / T)`: exactly
    /// when the flip would raise the energy and the temperature is positive.
    pub fn needs_uphill_draw(&self, x: usize, y: usize) -> (r: bool)
        requires
            self.wf(),
            x < self.size,
            y < self.size,
        ensures
            r == (self@.energy_diff_num(x as int, y as int) > 0 && self.temperature.num > 0),
    {
        let de = self.energy_diff(x, y);
        de.num > 0 && self.temperature.num > 0
    }

    fn flip_spin_at_pos(&mut self, x: usize, y: usize)
        requires
            old(self).wf(),
            x < old(self).size,
            y < old(self).size,
        ensures
            final(self)@ == old(self)@.flip(old(self)@.index(x as int, y as int)),
    {
        let idx = self.get_index(x, y);
        let s = self.lattice[idx];
        self.lattice.set(idx, -s);
    }

    /// One Metropolis trial flip at `(x, y)`: taken when it does not raise the energy,
    /// refused when it does and the temperature is zero, and otherwise taken exactly
    /// when `uphill_accepted`, the outcome of a uniform draw below `exp(-dE / T)`.
    /// Returns whether the spin was flipped; no other cell changes.
    pub fn monte_carlo_step(&mut self, x: usize, y: usize, uphill_accepted: bool) -> (flipped:
        bool)
        requires
            old(self).wf(),
            x < old(self).size,
            y < old(self).size,
        ensures
            final(self).wf(),
            final(self)@ == old(self)@.step(x as int, y as int, uphill_accepted),
            flipped == old(self)@.accepts(x as int, y as int, uphill_accepted),
    {
        let ghost pre = self@;
        let de = self.energy_diff(x, y);
        let flip = de.num <= 0 || (self.temperature.num > 0 && uphill_accepted);
        if flip {
            self.flip_spin_at_pos(x, y);
        }
        proof {
            lemma_index_in_bounds(pre.size, x as int, y as int);
            assert forall|i: int| 0 <= i < self.lattice@.len() implies (#[trigger] self.lattice@[i]
                == 1 || self.lattice@[i] == -1) by {
                assert(pre.lattice[i] == 1 || pre.lattice[i] == -1);
            }
        }
        flip
    }
}

/// `m` after the trial flips `draws` in order, each `(x, y, uphill_accepted)`.
pub open spec fn run_steps(m: IsingModel, draws: Seq<(int, int, bool)>) -> IsingModel
    decreases draws.len(),
{
    if draws.len() == 0 {
        m
    } else {
        let d = draws.last();
        run_steps(m, draws.drop_last()).step(d.0, d.1, d.2)
    }
}

/// Every site of `draws` lies on a lattice of side `size`.
pub open spec fn sites_within(size: int, draws: Seq<(int, int, bool)>) -> bool {
    forall|i: int|
        0 <= i < draws.len() ==> 0 <= (#[trigger] draws[i]).0 < size && 0 <= draws[i].1 < size
}

/// A trial flip changes no cell but the one at `(x, y)`, keeps every cell `1` or
/// `-1`, and leaves the size and the parameters as they were.
pub proof fn lemma_step_changes_at_most_one(m: IsingModel, x: int, y: int, uphill_accepted: bool)
    requires
        m.wf(),
        0 <= x < m.size,
        0 <= y < m.size,
    ensures
        m.step(x, y, uphill_accepted).wf(),
        m.step(x, y, uphill_accepted).lattice.len() == m.lattice.len(),
        m.step(x, y, uphill_accepted) == (IsingModel {
            lattice: m.step(x, y, uphill_accepted).lattice,
            ..m
        }),
        forall|i: int|
            0 <= i < m.lattice.len() && i != m.index(x, y) ==> #[trigger] m.step(
                x,
                y,
                uphill_accepted,
            ).lattice[i] == m.lattice[i],
{
    lemma_index_in_bounds(m.size, x, y);
    let r = m.step(x, y, uphill_accepted);
    assert forall|i: int| 0 <= i < r.lattice.len() implies (#[trigger] r.lattice[i] == 1
        || r.lattice[i] == -1) by {
        assert(m.lattice[i] == 1 || m.lattice[i] == -1);
    }
}

/// After any sequence of trial flips every cell is still `1` or `-1`, and the size
/// of the lattice and the parameters are unchanged.
pub proof fn lemma_run_keeps_spins(m: IsingModel, draws: Seq<(int, int, bool)>)
    requires
        m.wf(),
        sites_within(m.size, draws),
    ensures
        run_steps(m, draws).wf(),
        run_steps(m, draws).size == m.size,
        run_steps(m, draws).lattice.len() == m.lattice.len(),
        run_steps(m, draws) == (IsingModel { lattice: run_steps(m, draws).lattice, ..m }),
    decreases draws.len(),
{
    if draws.len() > 0 {
        let d = draws.last();
        assert(sites_within(m.size, draws.drop_last())) by {
            assert forall|i: int| 0 <= i < draws.drop_last().len() implies 0 <= (
            #[trigger] draws.drop_last()[i]).0 < m.size && 0 <= draws.drop_last()[i].1
                < m.size by {
                assert(draws.drop_last()[i] == draws[i]);
            }
        }
        lemma_run_keeps_spins(m, draws.drop_last());
        assert(draws[draws.len() - 1] == d);
        lemma_step_changes_at_most_one(run_steps(m, draws.drop_last()), d.0, d.1, d.2);
    }
}

/// The dynamics are reproducible: from equal lattices, the same site draws and the
/// same acceptance outcomes give the same lattice, flip by flip.
pub proof fn lemma_run_deterministic(
    m1: IsingModel,
    m2: IsingModel,
    draws1: Seq<(int, int, bool)>,
    draws2: Seq<(int, int, bool)>,
)
    requires
        m1 == m2,
        draws1 == draws2,
    ensures
        run_steps(m1, draws1) == run_steps(m2, draws2),
        forall|i: int|
            0 <= i < draws1.len() ==> #[trigger] run_steps(m1, draws1.take(i)).accepts(
                draws1[i].0,
                draws1[i].1,
                draws1[i].2,
            ) == run_steps(m2, draws2.take(i)).accepts(draws2[i].0, draws2[i].1, draws2[i].2),
{
}

} // verus!
