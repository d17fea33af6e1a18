use treq::keymap::default_keymap_factory;
use treq::keymap::Actionable;
use treq::keymap::Actions;
use treq::keymap::Key;
use treq::keymap::KeyMap;
use treq::listener::InputHandler;
use treq::listener::KeyboardListerner;

#[test]
fn should_init_and_be_defined() {
    let keymap = default_keymap_factory();

    // Basics Commands
    assert_eq!(
        keymap.get(&Key::Char('k')),
        Some(Actionable {
            action: Actions::Up,
            sub_action: None
        })
    );
}

#[test]
fn should_get_command_of_single_keymaps() {
    let default_keymap = default_keymap_factory();
    let mut keymap = KeyboardListerner::init(default_keymap);

    let up = keymap.get_command(Key::Char('k'));
    assert_eq!(up, Some(Actions::Up));
}

#[test]
fn should_get_command_of_compound_keymaps() {
    let default_keymap = default_keymap_factory();
    let mut keymap = KeyboardListerner::init(default_keymap);

    let g = keymap.get_command(Key::Char('g'));
    assert_eq!(g, Some(Actions::SubCommand));
    let g = keymap.get_command(Key::Char('g'));
    assert_ne!(g, None);

    let g2 = keymap.get_command(Key::Char('g'));
    assert_eq!(g2, Some(Actions::SubCommand));
    let g2 = keymap.get_command(Key::Char('t'));
    assert_ne!(g2, None);
}

#[test]
fn should_reset_keymap_when_a_undefined_key_is_pressed() {
    let default_keymap = default_keymap_factory();
    let mut keymap = KeyboardListerner::init(default_keymap);

    let g = keymap.get_command(Key::Char('g'));
    assert_eq!(g, Some(Actions::SubCommand));

    // This is a undefined command
    let g = keymap.get_command(Key::Char('_'));
    assert_eq!(g, None);

    // It should reset to default and execute normal commands
    let up = keymap.get_command(Key::Char('k'));
    assert_eq!(up, Some(Actions::Up));
}

#[test]
fn unrecognized_key_at_root_yields_none_and_resets() {
    let default_keymap = default_keymap_factory();
    let mut keymap = KeyboardListerner::init(default_keymap);

    assert_eq!(keymap.get_command(Key::Char('z')), None);
    assert_eq!(keymap.current, 0);
    // The next recognized key resolves from the root.
    assert_eq!(keymap.get_command(Key::Char('j')), Some(Actions::Down));
    assert_eq!(keymap.current, 0);
}

// A chord whose sub-map binds the prefix key again: both presses compose and
// the cursor walks from one sub-map into the next.
#[test]
fn self_nesting_chord_composes_twice() {
    let map = KeyMap {
        nodes: vec![
            vec![(
                Key::Char('g'),
                Actionable {
                    action: Actions::Null,
                    sub_action: Some(1),
                },
            )],
            vec![(
                Key::Char('g'),
                Actionable {
                    action: Actions::Null,
                    sub_action: Some(2),
                },
            )],
            vec![(
                Key::Char('g'),
                Actionable {
                    action: Actions::GoToTop,
                    sub_action: None,
                },
            )],
        ],
    };
    let mut listener = KeyboardListerner::init(map);

    assert_eq!(listener.get_command(Key::Char('g')), Some(Actions::SubCommand));
    assert_eq!(listener.current, 1);
    assert_eq!(listener.get_command(Key::Char('g')), Some(Actions::SubCommand));
    assert_eq!(listener.current, 2);
}

#[test]
fn completed_chord_resolves_and_resets() {
    let default_keymap = default_keymap_factory();
    let mut keymap = KeyboardListerner::init(default_keymap);

    assert_eq!(keymap.get_command(Key::Char('g')), Some(Actions::SubCommand));
    assert_eq!(keymap.get_command(Key::Char('g')), Some(Actions::GoToTop));
    assert_eq!(keymap.current, 0);
    assert_eq!(keymap.get_command(Key::Char('g')), Some(Actions::SubCommand));
    assert_eq!(keymap.get_command(Key::Char('t')), Some(Actions::GoToNextTab));
    assert_eq!(keymap.current, 0);
    assert_eq!(keymap.get_command(Key::Char('g')), Some(Actions::SubCommand));
    assert_eq!(keymap.get_command(Key::Char('T')), Some(Actions::GoToPreviousTab));
    assert_eq!(keymap.current, 0);
}

// The input cycle forwards concrete actions only: neither the composing
// signal nor an unrecognized key reaches the action channel.
#[test]
fn input_handler_forwards_concrete_actions_only() {
    let default_keymap = default_keymap_factory();
    let listener = KeyboardListerner::init(default_keymap);
    let mut handler = InputHandler::init(listener);

    assert_eq!(handler.handle_key(Key::Char('g')), None);
    assert_eq!(handler.handle_key(Key::Char('g')), Some(Actions::GoToTop));
    assert_eq!(handler.handle_key(Key::Char('_')), None);
    assert_eq!(handler.handle_key(Key::Char('q')), Some(Actions::Quit));
}
