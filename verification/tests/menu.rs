use shellect::color::SColor;
use shellect::config::{config_path, Config, Shell};
use shellect::error::ConfigError;
use shellect::input::{
    Input, Key, KeyInput, KeyKind, ALT, CONTROL, HYPER, META, NONE, SHIFT, SUPER,
};
use shellect::menu::{Menu, Outcome};

fn shell(name: &str, default: Option<bool>) -> Shell {
    Shell {
        name: name.to_string(),
        path: format!("/bin/{}", name),
        args: Vec::new(),
        color: SColor { r: 1, g: 2, b: 3 },
        default,
    }
}

fn config(defaults: &[Option<bool>]) -> Config {
    let shells = defaults.iter().enumerate().map(|(i, d)| shell(&format!("s{}", i), *d)).collect();
    Config::new(shells).unwrap()
}

fn up() -> Input {
    Input::press(Key::Up, NONE)
}

fn down() -> Input {
    Input::press(Key::Down, NONE)
}

fn enter() -> Input {
    Input::press(Key::Enter, NONE)
}

#[test]
fn three_targets_none_default_down_stops_at_last() {
    let config = config(&[None, None, None]);
    let mut menu = Menu::new(&config);
    assert_eq!(menu.selected(), 0);
    assert_eq!(menu.handle(&down()), Outcome::Pending);
    assert_eq!(menu.selected(), 1);
    assert_eq!(menu.handle(&down()), Outcome::Pending);
    assert_eq!(menu.selected(), 2);
    assert_eq!(menu.handle(&down()), Outcome::Pending);
    assert_eq!(menu.selected(), 2);
}

#[test]
fn single_target_arrows_do_nothing_and_enter_confirms() {
    let config = config(&[None]);
    let mut menu = Menu::new(&config);
    assert_eq!(menu.selected(), 0);
    assert_eq!(menu.handle(&up()), Outcome::Pending);
    assert_eq!(menu.selected(), 0);
    assert_eq!(menu.handle(&down()), Outcome::Pending);
    assert_eq!(menu.selected(), 0);
    assert_eq!(menu.handle(&enter()), Outcome::Confirmed(0));
    assert_eq!(menu.chosen().name, "s0");
}

#[test]
fn default_at_third_of_four_is_selected_first() {
    let config = config(&[None, None, Some(true), None]);
    assert_eq!(config.initial_selection(), 2);
    let menu = Menu::new(&config);
    assert_eq!(menu.selected(), 2);
    assert_eq!(menu.chosen().name, "s2");
}

#[test]
fn empty_target_list_is_refused() {
    assert_eq!(Config::new(Vec::new()), Err(ConfigError::NoTargets));
}

#[test]
fn first_of_several_defaults_wins() {
    assert_eq!(config(&[None, Some(true), Some(true)]).initial_selection(), 1);
    assert_eq!(config(&[Some(true), Some(true)]).initial_selection(), 0);
}

#[test]
fn default_false_is_no_default() {
    assert_eq!(config(&[None, Some(false), None]).initial_selection(), 0);
    assert_eq!(config(&[Some(false), Some(false), Some(true)]).initial_selection(), 2);
}

#[test]
fn config_keeps_its_targets_in_order() {
    let config = config(&[None, Some(true)]);
    assert_eq!(config.len(), 2);
    assert_eq!(config.shells().len(), 2);
    assert_eq!(config.shells()[0], shell("s0", None));
    assert_eq!(config.shells()[1], shell("s1", Some(true)));
}

#[test]
fn up_stops_at_first() {
    let config = config(&[None, None, Some(true)]);
    let mut menu = Menu::new(&config);
    assert_eq!(menu.selected(), 2);
    menu.handle(&up());
    assert_eq!(menu.selected(), 1);
    menu.handle(&up());
    assert_eq!(menu.selected(), 0);
    menu.handle(&up());
    assert_eq!(menu.selected(), 0);
}

#[test]
fn cancel_yields_no_selection_wherever_the_menu_stands() {
    let config = config(&[None, None, None]);
    let cancel = Input::press(Key::Char('c'), CONTROL);
    for moves in 0..3 {
        let mut menu = Menu::new(&config);
        for _ in 0..moves {
            menu.handle(&down());
        }
        assert_eq!(menu.selected(), moves);
        assert_eq!(menu.handle(&cancel), Outcome::Cancelled);
        assert_eq!(menu.selected(), moves);
    }
}

#[test]
fn only_control_and_small_c_cancels() {
    let config = config(&[None, None]);
    let mut menu = Menu::new(&config);
    assert_eq!(menu.handle(&Input::press(Key::Char('c'), NONE)), Outcome::Pending);
    assert_eq!(menu.handle(&Input::press(Key::Char('C'), CONTROL)), Outcome::Pending);
    assert_eq!(menu.handle(&Input::press(Key::Char('c'), CONTROL | SHIFT)), Outcome::Pending);
    assert_eq!(menu.handle(&Input::press(Key::Char('d'), CONTROL)), Outcome::Pending);
    assert_eq!(menu.handle(&Input::press(Key::Char('c'), CONTROL)), Outcome::Cancelled);
}

#[test]
fn enter_confirms_the_selected_entry() {
    let config = config(&[None, None, None]);
    let mut menu = Menu::new(&config);
    menu.handle(&down());
    assert_eq!(menu.handle(&enter()), Outcome::Confirmed(1));
    assert_eq!(menu.selected(), 1);
    assert_eq!(menu.chosen(), &shell("s1", None));
    assert_eq!(menu.handle(&Input::press(Key::Enter, SHIFT)), Outcome::Confirmed(1));
}

#[test]
fn enter_with_other_modifiers_confirms_nothing() {
    let config = config(&[None, None]);
    let mut menu = Menu::new(&config);
    for modifiers in 0..=u8::MAX {
        let outcome = menu.handle(&Input::press(Key::Enter, modifiers));
        if modifiers == NONE || modifiers == SHIFT {
            assert_eq!(outcome, Outcome::Confirmed(0));
        } else {
            assert_eq!(outcome, Outcome::Pending, "{}", modifiers);
        }
    }
    for modifiers in [CONTROL, ALT, SUPER, HYPER, META, SHIFT | CONTROL, SHIFT | ALT] {
        assert_eq!(menu.handle(&Input::press(Key::Enter, modifiers)), Outcome::Pending);
    }
}

#[test]
fn arrows_with_modifiers_move_nothing() {
    let config = config(&[None, Some(true), None]);
    let mut menu = Menu::new(&config);
    for modifiers in 1..=u8::MAX {
        assert_eq!(menu.handle(&Input::press(Key::Up, modifiers)), Outcome::Pending);
        assert_eq!(menu.handle(&Input::press(Key::Down, modifiers)), Outcome::Pending);
        assert_eq!(menu.selected(), 1);
    }
}

#[test]
fn only_presses_count() {
    let config = config(&[None, Some(true), None]);
    let mut menu = Menu::new(&config);
    for kind in [KeyKind::Repeat, KeyKind::Release] {
        for (code, modifiers) in
            [(Key::Up, NONE), (Key::Down, NONE), (Key::Enter, NONE), (Key::Char('c'), CONTROL)]
        {
            let input = Input::Key(KeyInput { code, modifiers, kind });
            assert_eq!(menu.handle(&input), Outcome::Pending);
            assert_eq!(menu.selected(), 1);
        }
    }
}

#[test]
fn other_inputs_leave_the_menu_as_it_is() {
    let config = config(&[None, Some(true), None]);
    let mut menu = Menu::new(&config);
    assert_eq!(menu.handle(&Input::Other), Outcome::Pending);
    assert_eq!(menu.handle(&Input::press(Key::Other, NONE)), Outcome::Pending);
    assert_eq!(menu.handle(&Input::press(Key::Char('j'), NONE)), Outcome::Pending);
    assert_eq!(menu.selected(), 1);
}

#[test]
fn press_is_a_key_press() {
    assert_eq!(
        Input::press(Key::Enter, SHIFT),
        Input::Key(KeyInput { code: Key::Enter, modifiers: 1, kind: KeyKind::Press })
    );
}

#[test]
fn menu_hands_out_its_targets() {
    let config = config(&[None, None]);
    let menu = Menu::new(&config);
    assert_eq!(menu.shells(), config.shells());
}

#[test]
fn config_file_lies_in_the_home_directory() {
    assert_eq!(config_path("/home/ada"), "/home/ada/.shellect.toml");
    assert_eq!(config_path(""), "/.shellect.toml");
}
