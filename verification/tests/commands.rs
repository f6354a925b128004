use joshuto::command::cursor_move::{CursorMoveEnd, CursorMoveHome, CursorMovePageDown, CursorMovePageUp};
use joshuto::command::file_operation::{CopyFiles, CutFiles};
use joshuto::command::parent_directory::ParentDirectory;
use joshuto::command::delete_file::DeleteFiles;
use joshuto::command::quit::Quit;
use joshuto::command::tab_operation::{CloseTab, NewTab};
use joshuto::run::{first_binding_step, next_binding_step, BindingStep};
use joshuto::command::file_operation::CopyOptions;
use joshuto::command::open_file::{OpenFile, OpenFileWith, OpenWithChoice};
use joshuto::command::rename_file::RenameFileMethod;
use joshuto::command::{change_directory_from_words, from_args, split_shell_style, KeyCommand};
use joshuto::config::mimetype::{JoshutoMimetype, JoshutoMimetypeEntry};

fn strings(v: &[&str]) -> Vec<String> {
    v.iter().map(|s| s.to_string()).collect()
}

#[test]
fn split_shell_style_plain_words() {
    let line = String::from("map q quit\n");
    assert_eq!(split_shell_style(&line), vec!["map", "q", "quit"]);
}

#[test]
fn split_shell_style_quotes_and_dropped_last_word() {
    let line = String::from("  'a b' \"c d\" e f");
    // The last word has no whitespace after it and is dropped.
    assert_eq!(split_shell_style(&line), vec!["a b", "c d", "e"]);
}

#[test]
fn split_shell_style_open_quote_drops_rest() {
    let line = String::from("x 'open y z\n");
    assert_eq!(split_shell_style(&line), vec!["x"]);
}

#[test]
fn from_args_simple_commands() {
    assert!(matches!(from_args("copy_files", None), Some(KeyCommand::CopyFiles(_))));
    assert!(matches!(from_args("quit", None), Some(KeyCommand::Quit(_))));
    assert!(matches!(from_args("toggle_hidden", None), Some(KeyCommand::ToggleHiddenFiles(_))));
    assert!(from_args("no_such_command", None).is_none());
}

#[test]
fn from_args_cursor_move() {
    let args = strings(&["-3"]);
    match from_args("cursor_move", Some(&args)) {
        Some(KeyCommand::CursorMove(c)) => assert_eq!(c.movement, -3),
        _ => panic!("expected a cursor move"),
    }
    let bad = strings(&["three"]);
    assert!(from_args("cursor_move", Some(&bad)).is_none());
    assert!(from_args("cursor_move", None).is_none());
}

#[test]
fn from_args_paste_options() {
    let args = strings(&["overwrite=true", "skip_exist=maybe", "other=true", "a=b=c"]);
    match from_args("paste_files", Some(&args)) {
        Some(KeyCommand::PasteFiles(p)) => {
            assert_eq!(p.options, CopyOptions { overwrite: true, skip_exist: false })
        }
        _ => panic!("expected a paste"),
    }
}

#[test]
fn from_args_select_options() {
    let args = strings(&["toggle=true", "all=true", "all=false"]);
    match from_args("select_files", Some(&args)) {
        Some(KeyCommand::SelectFiles(s)) => {
            assert!(s.toggle);
            assert!(!s.all);
        }
        _ => panic!("expected a selection"),
    }
}

#[test]
fn from_args_rename_method() {
    let args = strings(&["prepend"]);
    match from_args("rename_file", Some(&args)) {
        Some(KeyCommand::RenameFile(r)) => assert_eq!(r.method, RenameFileMethod::Prepend),
        _ => panic!("expected a rename"),
    }
    match from_args("rename_file", None) {
        Some(KeyCommand::RenameFile(r)) => assert_eq!(r.method, RenameFileMethod::Append),
        _ => panic!("expected a rename"),
    }
}

#[test]
fn from_args_cd_expands_the_path() {
    let args = strings(&["/tm?"]);
    match from_args("cd", Some(&args)) {
        Some(KeyCommand::ChangeDirectory(cd)) => assert_eq!(cd.path, "/tmp"),
        _ => panic!("expected a change of directory"),
    }
    assert!(from_args("cd", None).is_none());
}

#[test]
fn change_directory_takes_the_first_word() {
    match change_directory_from_words(strings(&["/a", "/b"])) {
        Some(KeyCommand::ChangeDirectory(cd)) => assert_eq!(cd.path, "/a"),
        _ => panic!("expected a change of directory"),
    }
    assert!(change_directory_from_words(Vec::new()).is_none());
}

fn entry(program: &str) -> JoshutoMimetypeEntry {
    JoshutoMimetypeEntry { program: program.to_string(), args: None, fork: None, silent: None }
}

#[test]
fn open_file_options_by_extension_then_mime_type() {
    let t = JoshutoMimetype {
        mimetype: vec![("text".to_string(), vec![entry("less")])],
        extension: vec![("txt".to_string(), vec![entry("vim"), entry("nano")])],
    };
    let opts = OpenFile::options_for("/home/a/notes.txt", Some("text"), &t);
    let names: Vec<&str> = opts.iter().map(|e| e.program.as_str()).collect();
    assert_eq!(names, vec!["vim", "nano", "less"]);
    let opts = OpenFile::options_for("/home/a/notes", None, &t);
    assert!(opts.is_empty());
}

#[test]
fn mimetype_entry_display() {
    let e = JoshutoMimetypeEntry {
        program: "mpv".to_string(),
        args: Some(vec!["--quiet".to_string(), "--fs".to_string()]),
        fork: Some(true),
        silent: Some(true),
    };
    assert_eq!(e.to_string(), "mpv --quiet --fs\t[fork,silent]");
    assert_eq!(entry("vi").to_string(), "vi\t[]");
}

#[test]
fn open_file_with_choice() {
    assert!(matches!(OpenFileWith::choice(3, None), OpenWithChoice::Cancel));
    assert!(matches!(OpenFileWith::choice(3, Some(String::new())), OpenWithChoice::Cancel));
    assert!(matches!(OpenFileWith::choice(3, Some("2".to_string())), OpenWithChoice::Entry(2)));
    assert!(matches!(OpenFileWith::choice(3, Some("3".to_string())), OpenWithChoice::Cancel));
    match OpenFileWith::choice(3, Some("vim -R".to_string())) {
        OpenWithChoice::Args(a) => assert_eq!(a, strings(&["vim", "-R"])),
        _ => panic!("expected a command"),
    }
}

#[test]
fn open_file_with_lines_are_sorted() {
    let a = entry("b");
    let b = entry("a");
    let opts = vec![&a, &b];
    let lines = OpenFileWith::option_lines(&opts);
    assert_eq!(lines, vec!["  0\tb\t[]".to_string(), "  1\ta\t[]".to_string()]);
}

#[test]
fn plain_commands_show_their_names() {
    assert_eq!(CursorMovePageUp::new().to_string(), "cursor_move_page_up");
    assert_eq!(CursorMovePageDown::new().to_string(), "cursor_move_page_down");
    assert_eq!(CursorMoveHome::new().to_string(), CursorMoveHome::command());
    assert_eq!(CursorMoveEnd::new().to_string(), CursorMoveEnd::command());
    assert_eq!(CutFiles::new().to_string(), "cut_files");
    assert_eq!(CopyFiles::new().to_string(), "copy_files");
    assert_eq!(ParentDirectory::new().to_string(), "parent_directory");
    assert_eq!(DeleteFiles::new().to_string(), "delete_files");
    assert_eq!(Quit::new().to_string(), Quit::command());
    assert_eq!(NewTab::new().to_string(), "new_tab");
    assert_eq!(CloseTab::new().to_string(), "close_tab");
}

#[test]
fn binding_runs_until_first_failure() {
    assert!(matches!(first_binding_step(0), BindingStep::Finished));
    assert!(matches!(first_binding_step(3), BindingStep::Run(0)));
    assert!(matches!(next_binding_step(3, 0, Ok(())), BindingStep::Run(1)));
    assert!(matches!(next_binding_step(3, 2, Ok(())), BindingStep::Finished));
    match next_binding_step(3, 1, Err("no such file".to_string())) {
        BindingStep::Stopped(m) => assert_eq!(m, "no such file"),
        other => panic!("unexpected step {:?}", other),
    }
}
