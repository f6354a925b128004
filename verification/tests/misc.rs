use joshuto::command::file_operation::{CopyFiles, CutFiles, FileOp, FileOpState};
use joshuto::config::config::{JoshutoConfig, JoshutoRawConfig, SortRawOption};
use joshuto::config::preview::{JoshutoPreview, JoshutoPreviewEntry, JoshutoRawPreview};
use joshuto::config::theme::{JoshutoColorPair, JoshutoRawColorTheme, JoshutoRawTheme, JoshutoTheme};
use joshuto::history::DirHistory;
use joshuto::input::{InputAction, InputState};
use joshuto::keymap::{BACKSPACE, ENTER, ESCAPE, KEY_DC, KEY_END, KEY_HOME, KEY_LEFT, KEY_RIGHT};
use joshuto::page_state::JoshutoPageState;
use joshuto::preview::preview_default::{load_preview_path, load_previews, PreviewLoad, PreviewTarget};
use joshuto::preview::preview_dir::PreviewDirState;
use joshuto::preview::preview_file::{expand_tabs, FilePreview};
use joshuto::preview::{preview_by_mime, preview_entry, EntryPreview, PreviewChoice};
use joshuto::run::{command_lines, open_with_choice, open_with_key, run_quit, LineKey};
use joshuto::command::open_file::OpenWithChoice;
use joshuto::key_command::command::QuitAction;
use joshuto::sort::{SortOption, SortType};
use joshuto::structs::{FileKind, JoshutoDirEntry, JoshutoDirList, JoshutoMetadata};
use joshuto::ui::{entry_name_space, file_name_layout, get_theme_attr, tab_label, A_BOLD, A_UNDERLINE};
use joshuto::unix::{parse_mode, stringify_mode};
use joshuto::window::{JoshutoView, ListingView, PanelGeometry};

fn entry(name: &str, kind: FileKind, mode: u32) -> JoshutoDirEntry {
    let md = JoshutoMetadata::from(10, 0, mode, kind);
    JoshutoDirEntry::from(name.to_string(), format!("/d/{}", name), kind == FileKind::Directory, md)
}

#[test]
fn raw_config_defaults() {
    let raw = JoshutoRawConfig {
        scroll_offset: None,
        tilde_in_titlebar: None,
        sort_type: Some("mtime".to_string()),
        sort_option: Some(SortRawOption {
            show_hidden: Some(true),
            directories_first: None,
            case_sensitive: None,
            reverse: Some(true),
        }),
        column_ratio: None,
    };
    let c = raw.flatten();
    assert_eq!(c.scroll_offset, 6);
    assert!(c.tilde_in_titlebar);
    assert_eq!(c.column_ratio, (1, 3, 4));
    assert_eq!(
        c.sort_type,
        SortType::SortMtime(SortOption {
            show_hidden: true,
            directories_first: true,
            case_sensitive: false,
            reverse: true
        })
    );
    let c = JoshutoRawConfig::new().flatten();
    assert_eq!(c.scroll_offset, 8);
    assert_eq!(c.column_ratio, (1, 3, 4));
    let d = JoshutoConfig::new();
    assert_eq!(d.scroll_offset, 6);
    assert_eq!(c.sort_type, d.sort_type);
}

#[test]
fn theme_defaults_and_flatten() {
    let t = JoshutoTheme::new();
    assert_eq!(t.colorpair.len(), 5);
    assert_eq!(t.colorpair[0], JoshutoColorPair::new(2, 2, -1));
    assert_eq!(t.selection.colorpair, 3);
    assert!(t.selection.bold);
    assert!(!t.regular.bold);
    let raw = JoshutoRawTheme {
        colorpair: None,
        selection: None,
        executable: None,
        regular: Some(JoshutoRawColorTheme {
            colorpair: 7,
            bold: None,
            underline: Some(true),
            prefix: Some("> ".to_string()),
            prefixsize: Some(2),
        }),
        directory: None,
        link: None,
        socket: None,
        ext: Some(vec![(
            "rs".to_string(),
            JoshutoRawColorTheme { colorpair: 9, bold: Some(true), underline: None, prefix: None, prefixsize: None },
        )]),
    };
    let f = raw.flatten();
    assert_eq!(f.regular.colorpair, 7);
    assert!(f.regular.underline);
    assert!(!f.regular.bold);
    assert_eq!(f.directory.colorpair, 4);
    assert_eq!(f.ext.len(), 1);
    assert_eq!(f.ext[0].0, "rs");
    assert!(f.ext[0].1.bold);
}

#[test]
fn theme_attr_of_entries() {
    let mut raw_ext = JoshutoTheme::new();
    raw_ext.ext.push((
        "rs".to_string(),
        JoshutoRawColorTheme { colorpair: 9, bold: false.then_some(true), underline: Some(true), prefix: Some("* ".to_string()), prefixsize: Some(2) }.flatten(),
    ));
    let t = raw_ext;
    let ((n, p), attr, pair) = get_theme_attr(0, &entry("main.rs", FileKind::Regular, 0o644), &t);
    assert_eq!((n, p, attr, pair), (2, "* ", A_UNDERLINE, 9));
    let ((n, p), attr, pair) = get_theme_attr(1, &entry("src", FileKind::Directory, 0o755), &t);
    assert_eq!((n, p, attr, pair), (1, " ", 1 | A_BOLD, 4));
    let (_, _, pair) = get_theme_attr(0, &entry("run", FileKind::Regular, 0o755), &t);
    assert_eq!(pair, 2);
    let (_, _, pair) = get_theme_attr(0, &entry("sock", FileKind::Socket, 0o644), &t);
    assert_eq!(pair, t.link.colorpair);
    let (_, _, pair) = get_theme_attr(0, &entry("notes.txt", FileKind::Regular, 0o644), &t);
    assert_eq!(pair, 0);
}

#[test]
fn preview_config_flatten() {
    let p = JoshutoRawPreview::new().flatten();
    assert!(p.mimetype.is_empty() && p.extension.is_empty());
    let raw = JoshutoRawPreview {
        mimetype: Some(vec![("text".to_string(), JoshutoPreviewEntry { program: "bat".to_string(), args: None })]),
        extension: None,
    };
    let p = raw.flatten();
    assert_eq!(p.mimetype.len(), 1);
    assert!(JoshutoPreview::new().extension.is_empty());
}

#[test]
fn preview_decisions() {
    let t = JoshutoPreview {
        mimetype: vec![
            ("image/png".to_string(), JoshutoPreviewEntry { program: "img".to_string(), args: None }),
            ("video".to_string(), JoshutoPreviewEntry { program: "vid".to_string(), args: None }),
        ],
        extension: Vec::new(),
    };
    assert!(matches!(preview_by_mime("image/png", &t), PreviewChoice::With(e) if e.program == "img"));
    assert!(matches!(preview_by_mime("video/mp4", &t), PreviewChoice::With(e) if e.program == "vid"));
    assert!(matches!(preview_by_mime("text/plain", &t), PreviewChoice::Text));
    assert!(matches!(preview_by_mime("application/pdf", &t), PreviewChoice::Nothing));
    assert!(matches!(preview_by_mime("weird", &t), PreviewChoice::Nothing));
    assert_eq!(preview_entry(true, false, 10, 5), Ok(EntryPreview::Directory));
    assert_eq!(preview_entry(false, true, 5, 5), Ok(EntryPreview::File));
    assert_eq!(preview_entry(false, true, 6, 5), Err("File size exceeds max preview size"));
    assert_eq!(preview_entry(false, false, 1, 5), Err("Not a regular file"));
    assert_eq!(load_previews(Some(Some(3))), Some(PreviewTarget::Entry(3)));
    assert_eq!(load_previews(Some(None)), None);
    assert_eq!(load_previews(None), Some(PreviewTarget::CurrentDirectory));
    let loading = PreviewDirState::Loading;
    let failed = PreviewDirState::Error { message: "x".to_string() };
    assert!(loading.is_loading() && !failed.is_loading());
    assert_eq!(load_preview_path(true, 0, 0, None, None), PreviewLoad::Directory);
    assert_eq!(load_preview_path(true, 0, 0, Some(&loading), Some(true)), PreviewLoad::Directory);
    assert_eq!(load_preview_path(true, 0, 0, Some(&failed), None), PreviewLoad::Nothing);
    assert_eq!(load_preview_path(true, 0, 0, None, Some(false)), PreviewLoad::Nothing);
    assert_eq!(load_preview_path(false, 10, 10, None, None), PreviewLoad::File);
    assert_eq!(load_preview_path(false, 11, 10, None, None), PreviewLoad::Nothing);
}

#[test]
fn file_preview_output() {
    assert_eq!(expand_tabs("a\tb"), "a        b");
    let p = FilePreview::from(vec![b'x', b'\t', 0xff, b'y'], Some(0), 5);
    assert_eq!(p.output, "x        \u{fffd}y");
    assert_eq!(p.index, 0);
    assert_eq!(p.status, Some(0));
}

#[test]
fn line_editing() {
    let mut s = InputState::new(3);
    assert!(matches!(s.step(3, 'a' as i32, 1), InputAction::Continue));
    assert!(matches!(s.step(3, 'b' as i32, 2), InputAction::Continue));
    assert_eq!(s.curs_x, 6);
    s.step(3, KEY_LEFT, 1);
    assert_eq!((s.curs_x, s.curr_index), (4, 1));
    s.step(3, 'c' as i32, 1);
    assert_eq!((s.curs_x, s.curr_index), (5, 2));
    s.step(3, KEY_HOME, 1);
    assert_eq!((s.curs_x, s.curr_index), (3, 0));
    s.step(3, KEY_DC, 1);
    s.step(3, KEY_END, 1);
    assert_eq!((s.curs_x, s.curr_index), (6, 2));
    s.step(3, BACKSPACE, 1);
    assert_eq!((s.curs_x, s.curr_index), (4, 1));
    s.step(3, KEY_RIGHT, 1);
    assert_eq!((s.curs_x, s.curr_index), (4, 1));
    match s.step(3, ENTER, 1) {
        InputAction::Submit(t) => assert_eq!(t, "c"),
        _ => panic!("enter gives the text"),
    }
    assert!(matches!(s.step(3, ESCAPE, 1), InputAction::Cancel));
    let a = InputState::new_append(vec![(1, 'x'), (2, 'y')], 4);
    assert_eq!((a.curs_x, a.curr_index), (7, 2));
    let p = InputState::new_prepend(vec![(1, 'x')], 4);
    assert_eq!((p.curs_x, p.curr_index), (4, 0));
}

fn dirlist(path: &str) -> JoshutoDirList {
    let md = JoshutoMetadata::from(0, 0, 0o755, FileKind::Directory);
    let sort = SortType::SortNatural(SortOption {
        show_hidden: true,
        directories_first: true,
        case_sensitive: false,
        reverse: false,
    });
    JoshutoDirList::new(path.to_string(), md, Vec::new(), &sort)
}

#[test]
fn history_keeps_one_listing_per_path() {
    let mut h = DirHistory::new();
    h.put_back(Some(dirlist("/a")));
    h.put_back(Some(dirlist("/b")));
    h.put_back(Some(dirlist("/a")));
    h.put_back(None);
    assert_eq!(h.map.len(), 2);
    let a = h.pop("/a");
    assert_eq!(a.map(|l| l.path), Some("/a".to_string()));
    assert!(h.pop("/a").is_none());
    h.depecrate_all_entries();
    assert!(h.map.iter().all(|l| l.update_needed));
    assert_eq!(h.pop("/b").map(|l| l.path), Some("/b".to_string()));
}

#[test]
fn window_layout() {
    let v = JoshutoView::new((1, 3, 4), 24, 80);
    assert_eq!((v.top_win.rows, v.top_win.cols), (1, 75));
    assert_eq!((v.tab_win.cols, v.tab_win.x), (5, 75));
    assert_eq!((v.left_win.rows, v.left_win.cols, v.left_win.x), (22, 9, 0));
    assert_eq!((v.mid_win.cols, v.mid_win.x), (29, 10));
    assert_eq!((v.right_win.cols, v.right_win.x), (39, 40));
    assert_eq!((v.bot_win.y, v.bot_win.cols), (23, 80));
    let mut w = v;
    w.resize_views(10, 16);
    assert_eq!((w.left_win.cols, w.bot_win.y), (1, 9));
}

#[test]
fn quitting_and_open_with() {
    assert_eq!(run_quit(QuitAction::OutputCurrentDirectory, "/x", &Vec::new()), Some("/x\n".to_string()));
    let sel = vec!["/a".to_string(), "/b".to_string()];
    assert_eq!(run_quit(QuitAction::OutputSelectedFiles, "/x", &sel), Some("/a\n/b\n".to_string()));
    assert_eq!(run_quit(QuitAction::Force, "/x", &sel), None);
    let mut line = String::new();
    assert_eq!(open_with_key(&mut line, 'v' as i32), LineKey::Continue);
    assert_eq!(open_with_key(&mut line, 'i' as i32), LineKey::Continue);
    assert_eq!(open_with_key(&mut line, BACKSPACE), LineKey::Continue);
    assert_eq!(line, "v");
    assert_eq!(open_with_key(&mut line, ENTER), LineKey::Done);
    assert_eq!(open_with_key(&mut line, ESCAPE), LineKey::Cancel);
    assert!(matches!(open_with_choice(2, &"1".to_string()), OpenWithChoice::Entry(1)));
    assert!(matches!(open_with_choice(2, &"5".to_string()), OpenWithChoice::Cancel));
    match open_with_choice(2, &String::new()) {
        OpenWithChoice::Args(a) => assert!(a.is_empty()),
        _ => panic!("an empty line is an empty command"),
    }
    let lines = command_lines(&vec![vec!["vim".to_string(), "-R".to_string()], vec!["less".to_string()]]);
    assert_eq!(lines, vec!["  0\tvim -R".to_string(), "  1\tless".to_string()]);
}

#[test]
fn mode_strings_round_trip() {
    for mode in [0o755u32, 0o644, 0o000, 0o777, 0o4711] {
        let s = stringify_mode(mode | 0o100000);
        assert_eq!(parse_mode(&s[1..]), mode & 0o777);
    }
}

#[test]
fn page_state_shows_the_cursor() {
    for index in 0..30usize {
        let mut p = JoshutoPageState::new();
        p.update_page_state(index, 10, 30, 2);
        assert!(p.start <= index && index < p.end);
    }
}

#[test]
fn file_name_fits_whole() {
    let l = file_name_layout("notes.txt", 20);
    assert_eq!(l.shown, "notes.txt");
    assert!(l.extension.is_none());
    assert!(!l.truncated);
}

#[test]
fn long_file_name_keeps_extension() {
    // 14 columns in 10: ".txt" goes to column 6, two more are kept back,
    // and four characters of the name are shown.
    let l = file_name_layout("abcdefghij.txt", 10);
    assert_eq!(l.extension, Some((6, ".txt".to_string())));
    assert_eq!(l.shown, "abcd");
    assert!(l.truncated);
}

#[test]
fn long_file_name_without_extension() {
    let l = file_name_layout("abcdefghijkl", 6);
    assert!(l.extension.is_none());
    assert_eq!(l.shown, "abcd");
    assert!(l.truncated);
}

#[test]
fn wide_characters_fill_columns_faster() {
    // Each of these takes two columns: in four columns two are shown.
    let l = file_name_layout("日本語の名前", 6);
    assert!(l.extension.is_none());
    assert_eq!(l.shown, "日本");
    assert!(l.truncated);
}

#[test]
fn name_as_wide_as_the_space_is_cut() {
    let l = file_name_layout("abcde", 5);
    assert_eq!(l.shown, "abc");
    assert!(l.truncated);
}

#[test]
fn entry_space_after_prefix() {
    assert_eq!(entry_name_space(80, 1), 79);
    assert_eq!(entry_name_space(3, 5), 0);
    assert_eq!(entry_name_space(-1, 0), 0);
}

#[test]
fn tab_bar_label() {
    assert_eq!(tab_label(1, 0), None);
    assert_eq!(tab_label(3, 1), Some("2 3".to_string()));
    assert_eq!(tab_label(12, 9), Some("10 12".to_string()));
}

fn listing_of(n: usize) -> JoshutoDirList {
    let entries: Vec<JoshutoDirEntry> =
        (0..n).map(|i| entry(&format!("f{:03}", i), FileKind::Regular, 0o644)).collect();
    let md = JoshutoMetadata::from(0, 0, 0o755, FileKind::Directory);
    let sort = SortType::SortNatural(SortOption { show_hidden: true, directories_first: true, case_sensitive: false, reverse: false });
    JoshutoDirList::new("/d".to_string(), md, entries, &sort)
}

#[test]
fn narrow_panel_shows_nothing() {
    let panel = PanelGeometry { rows: 10, cols: 7, y: 0, x: 0 };
    let mut list = listing_of(3);
    assert_eq!(panel.non_empty_dir_checks(&mut list, 2), ListingView::Hidden);
    assert_eq!((list.pagestate.start, list.pagestate.end), (0, 0));
}

#[test]
fn empty_listing_is_reported() {
    let panel = PanelGeometry { rows: 10, cols: 40, y: 0, x: 0 };
    let mut list = listing_of(0);
    assert_eq!(panel.non_empty_dir_checks(&mut list, 2), ListingView::Empty);
}

#[test]
fn listing_window_follows_cursor() {
    let panel = PanelGeometry { rows: 10, cols: 40, y: 0, x: 0 };
    let mut list = listing_of(30);
    list.index = 20;
    assert_eq!(panel.non_empty_dir_checks(&mut list, 2), ListingView::Entries);
    assert_eq!((list.pagestate.start, list.pagestate.end), (12, 22));
    assert_eq!(list.index, 20);
}

fn dir_listing(path: &str, children: &[&str]) -> JoshutoDirList {
    let md = JoshutoMetadata::from(0, 0, 0o755, FileKind::Directory);
    let entries: Vec<JoshutoDirEntry> = children
        .iter()
        .map(|c| {
            let full = if path == "/" { format!("/{}", c) } else { format!("{}/{}", path, c) };
            JoshutoDirEntry::from(c.to_string(), full, true, md)
        })
        .collect();
    let sort = SortType::SortNatural(SortOption {
        show_hidden: true,
        directories_first: true,
        case_sensitive: false,
        reverse: false,
    });
    JoshutoDirList::new(path.to_string(), md, entries, &sort)
}

#[test]
fn populated_history_points_at_each_child() {
    let mut h = DirHistory::new();
    h.populate_to_root(vec![
        ("/a/b".to_string(), dir_listing("/a", &["c", "b", "a1"])),
        ("/a".to_string(), dir_listing("/", &["usr", "a", "etc"])),
    ]);
    let a = h.pop("/a").unwrap();
    assert_eq!(a.contents[a.index as usize].path, "/a/b");
    assert_eq!(a.index, 1);
    let root = h.pop("/").unwrap();
    assert_eq!(root.contents[root.index as usize].path, "/a");
    assert!(h.pop("/a/b").is_none());
}

#[test]
fn populated_history_keeps_cursor_when_child_is_missing() {
    let mut h = DirHistory::new();
    h.populate_to_root(vec![("/a/gone".to_string(), dir_listing("/a", &["x", "y"]))]);
    assert_eq!(h.pop("/a").unwrap().index, 0);
}

#[test]
fn pop_gives_back_what_was_put_back() {
    let mut h = DirHistory::new();
    h.put_back(Some(dirlist("/b")));
    let mut a = dir_listing("/a", &["x", "y", "z"]);
    a.index = 2;
    h.put_back(Some(a));
    let back = h.pop("/a").unwrap();
    assert_eq!(back.path, "/a");
    assert_eq!(back.index, 2);
    assert_eq!(back.contents.len(), 3);
    assert!(h.pop("/a").is_none());
    assert!(h.pop("/b").is_some());
}

#[test]
fn cut_then_copy_choose_files() {
    let mut state = FileOpState::new();
    assert_eq!(state.fileop, FileOp::Copy);
    assert!(CutFiles::new().execute(&mut state, Some(vec!["/d/a".to_string()]), 2));
    assert_eq!(state.fileop, FileOp::Cut);
    assert_eq!(state.tab_src, 2);
    assert_eq!(state.selected_files, vec!["/d/a".to_string()]);
    assert!(!CopyFiles::new().execute(&mut state, None, 5));
    assert_eq!(state.fileop, FileOp::Cut);
    assert_eq!(state.tab_src, 2);
    assert!(CopyFiles::new().execute(&mut state, Some(vec!["/d/b".to_string(), "/d/c".to_string()]), 1));
    assert_eq!(state.fileop, FileOp::Copy);
    assert_eq!(state.tab_src, 1);
    assert_eq!(state.selected_files.len(), 2);
}

#[test]
fn missing_file_is_not_previewed() {
    let t = JoshutoPreview::new();
    let r = joshuto::preview::preview_file("/no/such/directory/file_without_extension", &t);
    assert!(matches!(r, PreviewChoice::Nothing));
}
