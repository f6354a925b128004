use joshuto::key_command::command::{
    Command, FileOperationOptions, JoshutoErrorKind, LineMode, LineNumberStyle, NewTabMode,
    QuitAction, SortType, SubprocessCallMode,
};
use joshuto::key_command::command_keybind::CommandKeybind;
use joshuto::key_command::constants::{commands, complete_command};
use joshuto::key_command::impl_from_str::{change_directory_home, expanded_path};
use joshuto::key_command::traits::{
    AppCommand, CommandComment, InteractiveAction, InteractiveExecute, NumberedAction,
    NumberedExecute,
};

fn parse(s: &str) -> Command {
    match Command::from_str(s) {
        Ok(c) => c,
        Err(e) => panic!("{} did not parse: {}", s, e.message),
    }
}

fn parse_err(s: &str) -> (JoshutoErrorKind, String) {
    match Command::from_str(s) {
        Ok(c) => panic!("{} parsed as {}", s, c.to_string()),
        Err(e) => (e.kind, e.message),
    }
}

#[test]
fn from_str_simple_and_quit() {
    assert!(matches!(parse("escape"), Command::Escape));
    assert!(matches!(parse("close_tab"), Command::CloseTab));
    assert!(matches!(parse("copy_filepath"), Command::CopyFilePath { all_selected: false }));
    assert!(matches!(parse("quit --force"), Command::Quit(QuitAction::Force)));
    assert!(matches!(parse("quit    --output-selected-files"), Command::Quit(QuitAction::OutputSelectedFiles)));
    assert!(matches!(parse("quit whatever"), Command::Quit(QuitAction::Noop)));
}

#[test]
fn from_str_command_line() {
    match parse(":cd ") {
        Command::CommandLine { prefix, suffix } => {
            assert_eq!(prefix, "cd ");
            assert_eq!(suffix, "");
        }
        _ => panic!("expected a command line"),
    }
}

#[test]
fn from_str_counts() {
    assert!(matches!(parse("cursor_move_up"), Command::CursorMoveUp { offset: 1 }));
    assert!(matches!(parse("cursor_move_down  7 "), Command::CursorMoveDown { offset: 7 }));
    assert!(matches!(parse("parent_cursor_move_up +2"), Command::ParentCursorMoveUp { offset: 2 }));
    let (kind, msg) = parse_err("cursor_move_up x");
    assert_eq!(kind, JoshutoErrorKind::ParseError);
    assert_eq!(msg, "invalid digit found in string");
}

#[test]
fn from_str_cd() {
    assert!(matches!(parse("cd .."), Command::ParentDirectory));
    assert!(matches!(parse("cd -"), Command::PreviousDirectory));
    match parse("cd /tm?") {
        Command::ChangeDirectory { path } => assert_eq!(path, "/tmp"),
        _ => panic!("expected a change of directory"),
    }
    match change_directory_home(Some("/home/u".to_string())) {
        Ok(Command::ChangeDirectory { path }) => assert_eq!(path, "/home/u"),
        _ => panic!("expected the home directory"),
    }
    match change_directory_home(None) {
        Err(e) => {
            assert_eq!(e.kind, JoshutoErrorKind::EnvVarNotPresent);
            assert_eq!(e.message, "cd: Cannot find home directory");
        }
        Ok(_) => panic!("no home directory"),
    }
    assert_eq!(expanded_path("~".to_string(), Some(vec!["/home/u".to_string()])), "/home/u");
    assert_eq!(expanded_path("~".to_string(), Some(Vec::new())), "~");
    assert_eq!(expanded_path("~".to_string(), None), "~");
}

#[test]
fn from_str_options() {
    match parse("paste_files --overwrite=true --skip_exist=true --overwrite=false") {
        Command::PasteFiles { options } => {
            assert_eq!(options, FileOperationOptions { overwrite: false, skip_exist: true })
        }
        _ => panic!("expected a paste"),
    }
    let (kind, msg) = parse_err("paste_files --bogus");
    assert_eq!(kind, JoshutoErrorKind::UnrecognizedArgument);
    assert_eq!(msg, "paste_files: unknown option '--bogus'");
    assert!(matches!(
        parse("delete_files --permanently --background=true"),
        Command::DeleteFiles { background: true, permanently: true, noconfirm: false }
    ));
    assert!(matches!(parse("symlink_files --relative=true"), Command::SymlinkFiles { relative: true }));
}

#[test]
fn from_str_select_and_shell() {
    match parse("select --all=true --deselect=true '*.rs'") {
        Command::SelectString { pattern, options } => {
            assert_eq!(pattern, "*.rs");
            assert!(options.toggle);
            assert!(options.all);
            assert!(options.reverse);
        }
        _ => panic!("expected a selection"),
    }
    match parse("shell ls -l 'a b'") {
        Command::SubProcess { words, mode } => {
            assert_eq!(words, vec!["ls".to_string(), "-l".to_string(), "a b".to_string()]);
            assert_eq!(mode, SubprocessCallMode::Interactive);
        }
        _ => panic!("expected a shell command"),
    }
    assert!(matches!(parse("spawn x"), Command::SubProcess { mode: SubprocessCallMode::Spawn, .. }));
    let (kind, msg) = parse_err("shell 'open");
    assert_eq!(kind, JoshutoErrorKind::InvalidParameters);
    assert_eq!(msg, "'open: missing closing quote");
    let (_, msg) = parse_err("shell");
    assert_eq!(msg, "shell: No commands given");
}

#[test]
fn from_str_other_arguments() {
    assert!(matches!(parse("sort reverse"), Command::SortReverse));
    assert!(matches!(parse("sort mtime"), Command::Sort { sort_type: SortType::Mtime, reverse: None }));
    assert_eq!(parse_err("sort bogus").1, "sort: Unknown option 'bogus'");
    assert!(matches!(parse("linemode size"), Command::SetLineMode(LineMode::Size)));
    assert_eq!(parse_err("linemode x").1, "Linemode 'x' unknown.");
    assert!(matches!(parse("tab_switch -1"), Command::TabSwitch { offset: -1 }));
    assert_eq!(parse_err("tab_switch").1, "tab_switch: cannot parse integer from empty string");
    assert!(matches!(parse("tab_switch_index 3"), Command::TabSwitchIndex { index: 3 }));
    assert!(matches!(parse("line_nums 2"), Command::SwitchLineNums(LineNumberStyle::Relative)));
    assert!(matches!(parse("line_nums"), Command::SwitchLineNums(LineNumberStyle::Off)));
    assert!(matches!(parse("flat 2"), Command::Flat { depth: 2 }));
    assert!(matches!(parse("numbered_command 5"), Command::NumberedCommand { initial: '5' }));
    assert_eq!(parse_err("numbered_command").1, "numbered_command: no starting character given");
    assert!(matches!(parse("open_with"), Command::OpenFileWith { index: None }));
    assert!(matches!(parse("open_with 1"), Command::OpenFileWith { index: Some(1) }));
    match parse("new_tab --current") {
        Command::NewTab { mode: NewTabMode::CurrentTabDir } => {}
        _ => panic!("expected a new tab"),
    }
    match parse("cursor_move_page_up  0.5 ") {
        Command::CursorMovePageUp(p) => assert_eq!(p, "0.5"),
        _ => panic!("expected a page move"),
    }
    assert_eq!(parse_err("mkdir").1, "mkdir: no directory name given");
    assert_eq!(parse_err("search").1, "search: Expected 1, got 0");
    let (kind, msg) = parse_err("frobnicate now");
    assert_eq!(kind, JoshutoErrorKind::UnrecognizedCommand);
    assert_eq!(msg, "Unrecognized command 'frobnicate'");
}

#[test]
fn command_names_and_comments() {
    assert_eq!(parse("cursor_move_up 2").command(), "cursor_move_up");
    assert_eq!(parse("cd ..").command(), "cd ..");
    assert_eq!(parse("cursor_move_page_home").command(), "cursor_move_page_up");
    assert_eq!(parse("quit").comment(), "Quit the program");
    assert_eq!(parse(":search").comment(), "Open a search prompt");
    assert_eq!(parse(":  mkdir ").comment(), "Make a new directory");
    assert_eq!(parse(":x").comment(), "Open a command line");
    assert_eq!(parse("paste_files --overwrite=true").comment(), "Paste, overwrite");
    assert_eq!(parse("paste_files").comment(), "Paste");
    assert_eq!(parse("sort natural").comment(), "Sort naturally");
    assert_eq!(parse("linemode perm").comment(), "Show files with permission");
}

#[test]
fn command_display() {
    assert_eq!(parse("cursor_move_down 3").to_string(), "cursor_move_down 3");
    assert_eq!(parse("tab_switch -2").to_string(), "tab_switch -2");
    assert_eq!(parse("delete_files").to_string(), "delete_files --foreground=true");
    assert_eq!(parse("search abc").to_string(), "search abc");
    assert_eq!(parse("symlink_files").to_string(), "symlink_files --relative=false");
    assert_eq!(
        parse("paste_files --skip_exist=true").to_string(),
        "paste_files  overwrite=false skip_exist=true"
    );
    assert_eq!(parse("mkdir a\"b").to_string(), "mkdir \"a\\\"b\"");
    assert_eq!(parse("shell ls 'a b'").to_string(), "shell [\"ls\", \"a b\"]");
    assert_eq!(parse("sort ext").to_string(), "sort ext");
    assert_eq!(parse("help").to_string(), "help");
}

#[test]
fn keybind_display() {
    let k = CommandKeybind::SimpleKeybind {
        commands: vec![parse("help"), parse("cursor_move_up 2")],
        description: None,
    };
    assert_eq!(k.to_string(), "help, cursor_move_up 2, ");
    let k = CommandKeybind::SimpleKeybind { commands: vec![parse("help")], description: Some("Help!".to_string()) };
    assert_eq!(k.to_string(), "Help!");
    let k = CommandKeybind::CompositeKeybind(std::collections::HashMap::new());
    assert_eq!(k.to_string(), "...");
}

#[test]
fn completion_of_command_names() {
    let all = commands();
    assert_eq!(all.len(), 77);
    assert_eq!(all[0], "quit");
    let c = complete_command("cursor_move_page");
    let names: Vec<String> = c.iter().map(|p| p.display.clone()).collect();
    assert_eq!(
        names,
        vec![
            "cursor_move_page_up",
            "cursor_move_page_down",
            "cursor_move_page_home",
            "cursor_move_page_middle",
            "cursor_move_page_end"
        ]
    );
    assert!(c.iter().all(|p| p.display == p.replacement));
    assert!(complete_command("zzz").is_empty());
    assert_eq!(complete_command("").len(), all.len());
}

#[test]
fn numbered_and_interactive_execution() {
    assert!(matches!(parse("cursor_move_up").numbered_execute(4), Ok(NumberedAction::CursorMoveUp(4))));
    match parse("help").numbered_execute(4) {
        Err(e) => {
            assert_eq!(e.kind, JoshutoErrorKind::UnrecognizedCommand);
            assert_eq!(e.message, "Command cannot be prefixed by a number");
        }
        Ok(_) => panic!("help takes no number"),
    }
    match parse("search_inc ab").interactive_execute() {
        Some(InteractiveAction::SearchString(p)) => assert_eq!(p, "ab"),
        _ => panic!("searching as one types"),
    }
    match parse("filter x").interactive_execute() {
        Some(InteractiveAction::FilterString(p)) => assert_eq!(p, "x"),
        _ => panic!("filtering as one types"),
    }
    assert!(parse("help").interactive_execute().is_none());
}
