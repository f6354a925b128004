use std::collections::HashMap;

use joshuto::command::quit::Quit;
use joshuto::command::KeyCommand;
use joshuto::keymap::{
    next_key_step, CommandKeybind, JoshutoKeymap, KeyStep, KeymapError, ENTER, ESCAPE,
    KEY_DC, KEY_DOWN, KEY_F0, KEY_UP, TAB,
};

fn resolve<'a>(k: &'a JoshutoKeymap, keys: &[i32]) -> Option<&'a KeyCommand> {
    k.resolve_keys(keys)
}

#[test]
fn key_codes() {
    assert_eq!(JoshutoKeymap::from_str("q"), Some('q' as i32));
    assert_eq!(JoshutoKeymap::from_str("Tab"), Some(TAB));
    assert_eq!(JoshutoKeymap::from_str("Comma"), Some(',' as i32));
    assert_eq!(JoshutoKeymap::from_str("Space"), Some(' ' as i32));
    assert_eq!(JoshutoKeymap::from_str("Delete"), Some(KEY_DC));
    assert_eq!(JoshutoKeymap::from_str("F5"), Some(KEY_F0 + 5));
    assert_eq!(JoshutoKeymap::from_str("F15"), Some(KEY_F0 + 15));
    assert_eq!(JoshutoKeymap::from_str("Up"), Some(KEY_UP));
    assert_eq!(JoshutoKeymap::from_str("é"), None);
    assert_eq!(JoshutoKeymap::from_str("F16"), None);
    assert_eq!(JoshutoKeymap::from_str(""), None);
}

#[test]
fn default_keymap_bindings() {
    let k = JoshutoKeymap::new();
    assert!(matches!(resolve(&k, &['q' as i32]), Some(KeyCommand::Quit(_))));
    match resolve(&k, &[KEY_DOWN]) {
        Some(KeyCommand::CursorMove(c)) => assert_eq!(c.movement, 1),
        _ => panic!("down moves the cursor"),
    }
    assert!(matches!(resolve(&k, &['d' as i32, 'D' as i32]), Some(KeyCommand::DeleteFiles(_))));
    match resolve(&k, &['p' as i32, 'o' as i32]) {
        Some(KeyCommand::PasteFiles(p)) => assert!(p.options.overwrite),
        _ => panic!("p o pastes with overwrite"),
    }
    assert!(resolve(&k, &['d' as i32]).is_none());
    assert!(resolve(&k, &['x' as i32]).is_none());
    assert!(resolve(&k, &[ENTER]).is_some());
}

#[test]
fn inserted_keys_run_their_command() {
    let mut map: HashMap<i32, CommandKeybind> = HashMap::new();
    let r = JoshutoKeymap::insert_keycommand(&mut map, KeyCommand::Quit(Quit::new()), &["g", "q"]);
    assert!(r.is_ok());
    let k = JoshutoKeymap { keymaps: map };
    assert!(matches!(resolve(&k, &['g' as i32, 'q' as i32]), Some(KeyCommand::Quit(_))));
    assert!(resolve(&k, &['g' as i32]).is_none());
}

#[test]
fn ambiguous_binding_is_refused() {
    let mut map: HashMap<i32, CommandKeybind> = HashMap::new();
    assert!(JoshutoKeymap::insert_keycommand(&mut map, KeyCommand::Quit(Quit::new()), &["g"]).is_ok());
    let r = JoshutoKeymap::insert_keycommand(&mut map, KeyCommand::Quit(Quit::new()), &["g", "x"]);
    assert!(matches!(r, Err(KeymapError::Ambiguous)));
    let k = JoshutoKeymap { keymaps: map };
    assert!(matches!(resolve(&k, &['g' as i32]), Some(KeyCommand::Quit(_))));
}

#[test]
fn binding_a_prefix_replaces_the_longer_keys() {
    let mut map: HashMap<i32, CommandKeybind> = HashMap::new();
    assert!(JoshutoKeymap::insert_keycommand(&mut map, KeyCommand::Quit(Quit::new()), &["g", "x"]).is_ok());
    assert!(JoshutoKeymap::insert_keycommand(&mut map, KeyCommand::Quit(Quit::new()), &["g"]).is_ok());
    let k = JoshutoKeymap { keymaps: map };
    assert!(matches!(resolve(&k, &['g' as i32]), Some(KeyCommand::Quit(_))));
    assert!(resolve(&k, &['g' as i32, 'x' as i32]).is_none());
}

#[test]
fn parse_line_binds_keys() {
    let mut map: HashMap<i32, CommandKeybind> = HashMap::new();
    let r = JoshutoKeymap::parse_line(&mut map, "map z,h toggle_hidden # show dotfiles".to_string());
    assert!(r.is_ok());
    let r = JoshutoKeymap::parse_line(&mut map, "map j cursor_move 1".to_string());
    assert!(r.is_ok());
    let k = JoshutoKeymap { keymaps: map };
    assert!(matches!(
        resolve(&k, &['z' as i32, 'h' as i32]),
        Some(KeyCommand::ToggleHiddenFiles(_))
    ));
    match resolve(&k, &['j' as i32]) {
        Some(KeyCommand::CursorMove(c)) => assert_eq!(c.movement, 1),
        _ => panic!("j moves the cursor"),
    }
}

#[test]
fn parse_line_errors_and_comments() {
    let mut map: HashMap<i32, CommandKeybind> = HashMap::new();
    assert!(JoshutoKeymap::parse_line(&mut map, "# only a comment".to_string()).is_ok());
    assert!(JoshutoKeymap::parse_line(&mut map, "".to_string()).is_ok());
    match JoshutoKeymap::parse_line(&mut map, "bind q quit".to_string()) {
        Err(KeymapError::UnknownDirective(d)) => assert_eq!(d, "bind"),
        _ => panic!("unknown directive"),
    }
    match JoshutoKeymap::parse_line(&mut map, "map q nothing".to_string()) {
        Err(KeymapError::UnknownCommand(c)) => assert_eq!(c, "nothing"),
        _ => panic!("unknown command"),
    }
    assert!(map.is_empty());
}

#[test]
fn next_key_step_reads_one_key() {
    let k = JoshutoKeymap::new();
    assert!(matches!(next_key_step(&k.keymaps, ESCAPE), KeyStep::Cancel));
    assert!(matches!(next_key_step(&k.keymaps, 'q' as i32), KeyStep::Run(_)));
    assert!(matches!(next_key_step(&k.keymaps, 'd' as i32), KeyStep::Continue(_)));
    assert!(matches!(next_key_step(&k.keymaps, 'x' as i32), KeyStep::Unbound));
}

#[test]
fn default_key_groups_hold_only_their_bindings() {
    let k = JoshutoKeymap::new();
    let group = |c: char| match k.keymaps.get(&(c as i32)) {
        Some(CommandKeybind::CompositeKeybind(m)) => {
            let mut keys: Vec<i32> = m.keys().copied().collect();
            keys.sort();
            keys
        }
        _ => panic!("not a group"),
    };
    assert_eq!(group('z'), vec!['h' as i32]);
    assert_eq!(group('d'), vec!['D' as i32, 'd' as i32]);
    assert_eq!(group('y'), vec!['y' as i32]);
    assert_eq!(group('p'), vec!['o' as i32, 'p' as i32]);
    assert_eq!(group('m'), vec!['k' as i32]);
}

#[test]
fn nul_outside_a_directory_is_read() {
    let mut map = HashMap::new();
    let r = JoshutoKeymap::parse_line(&mut map, "map q quit # a \0 in a comment".to_string());
    assert!(r.is_ok());
    assert!(matches!(map.get(&('q' as i32)), Some(CommandKeybind::SimpleKeybind(KeyCommand::Quit(_)))));
}
