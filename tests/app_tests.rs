use ising::app::{App, KeyInput, MCOrder, Page};
use ising::parameter::{ParameterType, Ratio};

#[test]
fn new_controller_defaults() {
    let app = App::new(16);
    assert_eq!(app.page, Page::Main);
    assert_eq!(app.current_parameter, ParameterType::Temp);
    assert_eq!(app.mc_order, MCOrder::Linearithmic);
    assert!(!app.paused);
    assert_eq!(app.ising.size, 16);
    assert_eq!(app.temp_param.scaled(), Ratio { num: 1024 * 4538, den: 1024 * 1000 });
    assert_eq!(app.mag_moment_param.normalized(), Ratio { num: 0, den: 1024 });
}

#[test]
fn step_budget_per_order() {
    let mut app = App::new(8);
    app.mc_order = MCOrder::Linear;
    assert_eq!(app.n_steps(), 8);
    app.mc_order = MCOrder::Linearithmic;
    assert_eq!(app.n_steps(), 24);
    app.mc_order = MCOrder::Quadratic;
    assert_eq!(app.n_steps(), 64);
    let mut odd = App::new(10);
    odd.mc_order = MCOrder::Linearithmic;
    assert_eq!(odd.n_steps(), 33);
}

#[test]
fn order_saturates_at_both_ends() {
    assert_eq!(MCOrder::Linear.decreased(), MCOrder::Linear);
    assert_eq!(MCOrder::Quadratic.increased(), MCOrder::Quadratic);
    let mut app = App::new(8);
    app.handle_key(KeyInput::Char('+'), false);
    assert_eq!(app.mc_order, MCOrder::Quadratic);
    app.handle_key(KeyInput::Char('+'), false);
    assert_eq!(app.mc_order, MCOrder::Quadratic);
    app.handle_key(KeyInput::Char('-'), false);
    app.handle_key(KeyInput::Char('-'), false);
    assert_eq!(app.mc_order, MCOrder::Linear);
    app.handle_key(KeyInput::Char('-'), false);
    assert_eq!(app.mc_order, MCOrder::Linear);
}

#[test]
fn selection_saturates_at_both_ends() {
    let mut app = App::new(8);
    app.handle_key(KeyInput::Up, false);
    assert_eq!(app.current_parameter, ParameterType::Temp);
    for _ in 0..5 {
        app.handle_key(KeyInput::Down, false);
    }
    assert_eq!(app.current_parameter, ParameterType::MagFieldStrength);
    app.handle_key(KeyInput::Up, false);
    assert_eq!(app.current_parameter, ParameterType::MagMoment);
}

#[test]
fn left_and_right_adjust_the_selected_control() {
    let mut app = App::new(8);
    app.handle_key(KeyInput::Left, false);
    assert_eq!(app.temp_param.normalized().num, 1024 - 32);
    app.handle_key(KeyInput::Left, true);
    assert_eq!(app.temp_param.normalized().num, 1024 - 36);
    app.handle_key(KeyInput::Right, false);
    assert_eq!(app.temp_param.normalized().num, 1020);
    app.handle_key(KeyInput::Right, false);
    assert_eq!(app.temp_param.normalized().num, 1020);
    app.handle_key(KeyInput::Right, true);
    assert_eq!(app.temp_param.normalized().num, 1024);
    app.handle_key(KeyInput::Left, false);
    app.handle_key(KeyInput::Down, false);
    app.handle_key(KeyInput::Down, false);
    app.handle_key(KeyInput::Right, false);
    assert_eq!(app.mag_moment_param.normalized().num, 32);
    assert_eq!(app.coupling_param.normalized().num, 1024);
    assert_eq!(app.temp_param.normalized().num, 1024 - 32);
}

#[test]
fn pause_toggles() {
    let mut app = App::new(8);
    assert!(!app.handle_key(KeyInput::Char(' '), false));
    assert!(app.paused);
    assert_eq!(app.begin_frame(), 0);
    app.handle_key(KeyInput::Char(' '), false);
    assert!(!app.paused);
    assert_eq!(app.begin_frame(), 24);
}

#[test]
fn quit_asks_first() {
    let mut app = App::new(8);
    assert!(!app.handle_key(KeyInput::Char('q'), false));
    assert_eq!(app.page, Page::Exit);
    assert!(!app.handle_key(KeyInput::Char(' '), false));
    assert!(!app.paused);
    assert!(!app.handle_key(KeyInput::Left, false));
    assert_eq!(app.temp_param.normalized().num, 1024);
    assert!(!app.handle_key(KeyInput::Char('n'), false));
    assert_eq!(app.page, Page::Main);
    app.handle_key(KeyInput::Char('q'), false);
    assert!(app.handle_key(KeyInput::Char('y'), false));
    let mut other = App::new(8);
    other.handle_key(KeyInput::Char('q'), false);
    assert!(other.handle_key(KeyInput::Char('q'), false));
}

#[test]
fn frame_pushes_controls_even_when_paused() {
    let mut app = App::new(8);
    app.paused = true;
    app.handle_key(KeyInput::Left, false);
    assert_eq!(app.begin_frame(), 0);
    assert_eq!(app.ising.temperature, Ratio { num: (1024 - 32) * 4538, den: 1024 * 1000 });
    assert_eq!(app.ising.coupling_constant, Ratio { num: 1024 * 1000, den: 1024 * 1000 });
    assert_eq!(app.ising.magnetic_moment.num, 0);
}

#[test]
fn exit_page_frame_does_nothing() {
    let mut app = App::new(8);
    app.handle_key(KeyInput::Char('q'), false);
    let before = app.ising.temperature;
    assert_eq!(app.begin_frame(), 0);
    assert_eq!(app.ising.temperature, before);
}
