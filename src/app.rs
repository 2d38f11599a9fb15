use crate::ising::Ising;
use crate::linearithmic::{n_log2_n, n_log2_n_floor};
use crate::parameter::{decreased, increased, Parameter, ParameterModel, ParameterType};
use rand::rngs::ThreadRng;
use vstd::prelude::*;

verus! {

/// The page shown: the running simulation, or the question whether to quit.
#[derive(Debug, Clone, Copy, PartialEq, Eq, Structural)]
pub enum Page {
    Main,
    Exit,
}

/// How many trial flips a frame makes on a lattice of side `N`: `N`,
/// `floor(N * log2(N))` or `N * N`.
#[derive(Debug, Clone, Copy, PartialEq, Eq, Structural)]
pub enum MCOrder {
    Linear,
    Linearithmic,
    Quadratic,
}

/// A key press, as far as the controller tells keys apart.
#[derive(Debug, Clone, Copy, PartialEq, Eq)]
pub enum KeyInput {
    Char(char),
    Up,
    Down,
    Left,
    Right,
    Other,
}

impl MCOrder {
    pub open spec fn spec_increased(self) -> MCOrder {
        match self {
            MCOrder::Linear => MCOrder::Linearithmic,
            MCOrder::Linearithmic => MCOrder::Quadratic,
            MCOrder::Quadratic => MCOrder::Quadratic,
        }
    }

    pub open spec fn spec_decreased(self) -> MCOrder {
        match self {
            MCOrder::Linear => MCOrder::Linear,
            MCOrder::Linearithmic => MCOrder::Linear,
            MCOrder::Quadratic => MCOrder::Linearithmic,
        }
    }

    /// The next higher order; `Quadratic` stays as it is.
    pub fn increased(self) -> (r: MCOrder)
        ensures
            r == self.spec_increased(),
            self == MCOrder::Quadratic ==> r == self,
    {
        match self {
            MCOrder::Linear => MCOrder::Linearithmic,
            MCOrder::Linearithmic => MCOrder::Quadratic,
            MCOrder::Quadratic => MCOrder::Quadratic,
        }
    }

    /// The next lower order; `Linear` stays as it is.
    pub fn decreased(self) -> (r: MCOrder)
        ensures
            r == self.spec_decreased(),
            self == MCOrder::Linear ==> r == self,
    {
        match self {
            MCOrder::Linear => MCOrder::Linear,
            MCOrder::Linearithmic => MCOrder::Linear,
            MCOrder::Quadratic => MCOrder::Linearithmic,
        }
    }
}

impl ParameterType {
    pub open spec fn spec_above(self) -> ParameterType {
        match self {
            ParameterType::Temp => ParameterType::Temp,
            ParameterType::Coupling => ParameterType::Temp,
            ParameterType::MagMoment => ParameterType::Coupling,
            ParameterType::MagFieldStrength => ParameterType::MagMoment,
        }
    }

    pub open spec fn spec_below(self) -> ParameterType {
        match self {
            ParameterType::Temp => ParameterType::Coupling,
            ParameterType::Coupling => ParameterType::MagMoment,
            ParameterType::MagMoment => ParameterType::MagFieldStrength,
            ParameterType::MagFieldStrength => ParameterType::MagFieldStrength,
        }
    }

    /// The control above in the list `Temp, Coupling, MagMoment, MagFieldStrength`;
    /// the first stays as it is.
    pub fn above(self) -> (r: ParameterType)
        ensures
            r == self.spec_above(),
    {
        match self {
            ParameterType::Temp => ParameterType::Temp,
            ParameterType::Coupling => ParameterType::Temp,
            ParameterType::MagMoment => ParameterType::Coupling,
            ParameterType::MagFieldStrength => ParameterType::MagMoment,
        }
    }

    /// The control below in the list `Temp, Coupling, MagMoment, MagFieldStrength`;
    /// the last stays as it is.
    pub fn below(self) -> (r: ParameterType)
        ensures
            r == self.spec_below(),
    {
        match self {
            ParameterType::Temp => ParameterType::Coupling,
            ParameterType::Coupling => ParameterType::MagMoment,
            ParameterType::MagMoment => ParameterType::MagFieldStrength,
            ParameterType::MagFieldStrength => ParameterType::MagFieldStrength,
        }
    }
}

/// The page after `key` on `page`: `q` asks whether to quit, `n` answers no.
pub open spec fn page_after(page: Page, key: KeyInput) -> Page {
    match page {
        Page::Main => if key == KeyInput::Char('q') {
            Page::Exit
        } else {
            Page::Main
        },
        Page::Exit => if key == KeyInput::Char('n') {
            Page::Main
        } else {
            Page::Exit
        },
    }
}

/// Whether `key` on `page` ends the program: `y` or `q` when asked whether to quit.
pub open spec fn quits(page: Page, key: KeyInput) -> bool {
    page == Page::Exit && (key == KeyInput::Char('y') || key == KeyInput::Char('q'))
}

/// The order after `key` on the main page: `+` raises it, `-` lowers it.
pub open spec fn order_after(order: MCOrder, key: KeyInput) -> MCOrder {
    if key == KeyInput::Char('+') {
        order.spec_increased()
    } else if key == KeyInput::Char('-') {
        order.spec_decreased()
    } else {
        order
    }
}

/// The order saturates: `-` leaves `Linear` as it is and `+` leaves `Quadratic` as it
/// is; neither wraps around to the other end.
pub proof fn lemma_order_saturates()
    ensures
        order_after(MCOrder::Linear, KeyInput::Char('-')) == MCOrder::Linear,
        order_after(MCOrder::Quadratic, KeyInput::Char('+')) == MCOrder::Quadratic,
{
}

/// The selected control after `key` on the main page: up and down move the selection.
pub open spec fn selection_after(selected: ParameterType, key: KeyInput) -> ParameterType {
    match key {
        KeyInput::Up => selected.spec_above(),
        KeyInput::Down => selected.spec_below(),
        _ => selected,
    }
}

/// The selected control after `key` on the main page: left lowers and right raises it
/// by its step (`fine`) or by eight steps.
pub open spec fn adjusted_param(m: ParameterModel, key: KeyInput, fine: bool) -> ParameterModel {
    let amount = if fine {
        m.step
    } else {
        m.step * 8
    };
    match key {
        KeyInput::Left => decreased(m, amount),
        KeyInput::Right => increased(m, amount),
        _ => m,
    }
}

/// Moves `param` as `adjusted_param` says.
fn adjust(param: &mut Parameter, key: KeyInput, fine: bool)
    requires
        old(param).wf(),
    ensures
        final(param).wf(),
        final(param)@ == adjusted_param(old(param)@, key, fine),
{
    let step = *param.step();
    let amount: u32 = if fine {
        step as u32
    } else {
        step as u32 * 8
    };
    if amount <= u16::MAX as u32 {
        match key {
            KeyInput::Left => param.decrease_value(amount as u16),
            KeyInput::Right => param.increase_value(amount as u16),
            _ => {},
        }
    }
}

/// The controller: the simulation, the four controls that feed its parameters, and
/// the page, pause, order and selection state that key presses change.
#[derive(Debug)]
pub struct App {
    pub page: Page,
    pub current_parameter: ParameterType,
    pub ising: Ising,
    pub mc_order: MCOrder,
    pub thread_rng: ThreadRng,
    pub paused: bool,
    pub temp_param: Parameter,
    pub coupling_param: Parameter,
    pub mag_moment_param: Parameter,
    pub mag_field_strength_param: Parameter,
}

impl App {
    pub open spec fn wf(&self) -> bool {
        &&& self.ising.wf()
        &&& self.temp_param.wf()
        &&& self.coupling_param.wf()
        &&& self.mag_moment_param.wf()
        &&& self.mag_field_strength_param.wf()
    }

    /// The control of quantity `t`.
    pub open spec fn param(&self, t: ParameterType) -> ParameterModel {
        match t {
            ParameterType::Temp => self.temp_param@,
            ParameterType::Coupling => self.coupling_param@,
            ParameterType::MagMoment => self.mag_moment_param@,
            ParameterType::MagFieldStrength => self.mag_field_strength_param@,
        }
    }

    /// The number of trial flips per frame for the current order.
    pub open spec fn spec_n_steps(&self) -> int {
        let n = self.ising.size as int;
        match self.mc_order {
            MCOrder::Linear => n,
            MCOrder::Linearithmic => n_log2_n_floor(n as nat) as int,
            MCOrder::Quadratic => n * n,
        }
    }

    /// A running, unpaused controller on a fresh random lattice of side `size`, at
    /// order `Linearithmic`, with `Temp` selected. Each control runs over `0..=1024` in
    /// steps of 4; temperature starts at its maximum `4.538`, coupling at its maximum
    /// `1`, magnetic moment at `0` of at most `0.1`, field strength at `0` of at most `1`.
    pub fn new(size: usize) -> (r: Self)
        requires
            size * size <= usize::MAX,
        ensures
            r.wf(),
            r.ising.size == size,
            r.page == Page::Main,
            r.current_parameter == ParameterType::Temp,
            r.mc_order == MCOrder::Linearithmic,
            !r.paused,
            r.temp_param@ == (ParameterModel {
                value: 1024,
                step: 4,
                lower: 0,
                upper: 1024,
                scaled_max_milli: 4538,
            }),
            r.coupling_param@ == (ParameterModel {
                value: 1024,
                step: 4,
                lower: 0,
                upper: 1024,
                scaled_max_milli: 1000,
            }),
            r.mag_moment_param@ == (ParameterModel {
                value: 0,
                step: 4,
                lower: 0,
                upper: 1024,
                scaled_max_milli: 100,
            }),
            r.mag_field_strength_param@ == (ParameterModel {
                value: 0,
                step: 4,
                lower: 0,
                upper: 1024,
                scaled_max_milli: 1000,
            }),
    {
        App {
            page: Page::Main,
            current_parameter: ParameterType::Temp,
            ising: Ising::new(size),
            mc_order: MCOrder::Linearithmic,
            thread_rng: ThreadRng::default(),
            paused: false,
            temp_param: Parameter::new(1024, 4, (0, 1024), 4538),
            coupling_param: Parameter::new(1024, 4, (0, 1024), 1000),
            mag_moment_param: Parameter::new(0, 4, (0, 1024), 100),
            mag_field_strength_param: Parameter::new(0, 4, (0, 1024), 1000),
        }
    }

    /// The number of trial flips per frame: `N` for `Linear`, `floor(N * log2 N)` for
    /// `Linearithmic`, `N * N` for `Quadratic`, where `N` is the side of the lattice.
    pub fn n_steps(&self) -> (r: usize)
        requires
            self.wf(),
        ensures
            r == self.spec_n_steps(),
    {
        let n = self.ising.size;
        match self.mc_order {
            MCOrder::Linear => n,
            MCOrder::Linearithmic => n_log2_n(n),
            MCOrder::Quadratic => n * n,
        }
    }

    /// Copies each control's scaled value into the simulation: temperature, coupling
    /// constant, magnetic moment and field strength. Nothing else changes.
    pub fn sync_parameters(&mut self)
        requires
            old(self).wf(),
        ensures
            final(self).wf(),
            final(self).ising.lattice == old(self).ising.lattice,
            final(self).ising.size == old(self).ising.size,
            final(self).ising.temperature.num == old(self).temp_param@.scaled_num(),
            final(self).ising.temperature.den == old(self).temp_param@.scaled_den(),
            final(self).ising.coupling_constant.num == old(self).coupling_param@.scaled_num(),
            final(self).ising.coupling_constant.den == old(self).coupling_param@.scaled_den(),
            final(self).ising.magnetic_moment.num == old(self).mag_moment_param@.scaled_num(),
            final(self).ising.magnetic_moment.den == old(self).mag_moment_param@.scaled_den(),
            final(self).ising.magnetic_field_strength.num
                == old(self).mag_field_strength_param@.scaled_num(),
            final(self).ising.magnetic_field_strength.den
                == old(self).mag_field_strength_param@.scaled_den(),
            *final(self) == (App { ising: final(self).ising, ..*old(self) }),
    {
        self.ising.temperature = self.temp_param.scaled();
        self.ising.coupling_constant = self.coupling_param.scaled();
        self.ising.magnetic_moment = self.mag_moment_param.scaled();
        self.ising.magnetic_field_strength = self.mag_field_strength_param.scaled();
    }

    /// The start of a frame. On the main page the controls are pushed into the
    /// simulation, paused or not, and the result is the number of trial flips to make
    /// now: `n_steps`, or `0` when paused. On the exit page nothing changes and the
    /// result is `0`.
    pub fn begin_frame(&mut self) -> (r: usize)
        requires
            old(self).wf(),
        ensures
            final(self).wf(),
            final(self).ising.lattice == old(self).ising.lattice,
            final(self).ising.size == old(self).ising.size,
            old(self).page == Page::Exit ==> *final(self) == *old(self),
            old(self).page == Page::Main ==> final(self).ising.temperature.num
                == old(self).temp_param@.scaled_num() && final(self).ising.temperature.den
                == old(self).temp_param@.scaled_den() && final(self).ising.coupling_constant.num
                == old(self).coupling_param@.scaled_num() && final(self).ising.coupling_constant.den
                == old(self).coupling_param@.scaled_den() && final(self).ising.magnetic_moment.num
                == old(self).mag_moment_param@.scaled_num() && final(self).ising.magnetic_moment.den
                == old(self).mag_moment_param@.scaled_den()
                && final(self).ising.magnetic_field_strength.num
                == old(self).mag_field_strength_param@.scaled_num()
                && final(self).ising.magnetic_field_strength.den
                == old(self).mag_field_strength_param@.scaled_den(),
            *final(self) == (App { ising: final(self).ising, ..*old(self) }),
            r == if old(self).page == Page::Main && !old(self).paused {
                old(self).spec_n_steps()
            } else {
                0
            },
    {
        match self.page {
            Page::Main => {
                self.sync_parameters();
                if self.paused {
                    0
                } else {
                    self.n_steps()
                }
            },
            Page::Exit => 0,
        }
    }

    /// Applies one key press; `fine` tells whether the fine-adjustment modifier was
    /// held. Returns whether the program should end.
    ///
    /// On the main page: `q` asks whether to quit, space toggles the pause, `+` and `-`
    /// raise and lower the order, up and down move the selection, left and right lower
    /// and raise the selected control. When asked whether to quit: `y` or `q` ends the
    /// program, `n` goes back. Every other key changes nothing.
    pub fn handle_key(&mut self, key: KeyInput, fine: bool) -> (exit: bool)
        requires
            old(self).wf(),
        ensures
            final(self).wf(),
            exit == quits(old(self).page, key),
            final(self).ising == old(self).ising,
            final(self).thread_rng == old(self).thread_rng,
            final(self).page == page_after(old(self).page, key),
            final(self).paused == (if old(self).page == Page::Main && key == KeyInput::Char(' ') {
                !old(self).paused
            } else {
                old(self).paused
            }),
            final(self).mc_order == (if old(self).page == Page::Main {
                order_after(old(self).mc_order, key)
            } else {
                old(self).mc_order
            }),
            final(self).current_parameter == (if old(self).page == Page::Main {
                selection_after(old(self).current_parameter, key)
            } else {
                old(self).current_parameter
            }),
            forall|t: ParameterType|
                #[trigger] final(self).param(t) == if old(self).page == Page::Main && t == old(
                    self,
                ).current_parameter {
                    adjusted_param(old(self).param(t), key, fine)
                } else {
                    old(self).param(t)
                },
    {
        match self.page {
            Page::Main => {
                match key {
                    KeyInput::Char(c) => {
                        if c == 'q' {
                            self.page = Page::Exit;
                        } else if c == ' ' {
                            self.paused = !self.paused;
                        } else if c == '+' {
                            self.mc_order = self.mc_order.increased();
                        } else if c == '-' {
                            self.mc_order = self.mc_order.decreased();
                        }
                    },
                    KeyInput::Up => {
                        self.current_parameter = self.current_parameter.above();
                    },
                    KeyInput::Down => {
                        self.current_parameter = self.current_parameter.below();
                    },
                    KeyInput::Left | KeyInput::Right => {
                        match self.current_parameter {
                            ParameterType::Temp => adjust(&mut self.temp_param, key, fine),
                            ParameterType::Coupling => adjust(&mut self.coupling_param, key, fine),
                            ParameterType::MagMoment => adjust(
                                &mut self.mag_moment_param,
                                key,
                                fine,
                            ),
                            ParameterType::MagFieldStrength => adjust(
                                &mut self.mag_field_strength_param,
                                key,
                                fine,
                            ),
                        }
                    },
                    KeyInput::Other => {},
                }
                false
            },
            Page::Exit => {
                match key {
                    KeyInput::Char(c) => {
                        if c == 'y' || c == 'q' {
                            true
                        } else {
                            if c == 'n' {
                                self.page = Page::Main;
                            }
                            false
                        }
                    },
                    _ => false,
                }
            },
        }
    }
}

} // verus!
