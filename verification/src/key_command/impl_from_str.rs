use vstd::prelude::*;

use super::command::{
    Command, FileOperationOptions, JoshutoError, JoshutoErrorKind, LineMode, LineNumberStyle,
    NewTabMode, QuitAction, SelectOption, SortType, SubprocessCallMode,
};
use super::constants::{
    CMD_BOOKMARK_ADD, CMD_BOOKMARK_CHANGE_DIRECTORY, CMD_BULK_RENAME, CMD_CHANGE_DIRECTORY, CMD_CLOSE_TAB, CMD_COPY_DIRECTORY_PATH, CMD_COPY_FILENAME, CMD_COPY_FILENAME_WITHOUT_EXTENSION, CMD_COPY_FILEPATH, CMD_COPY_FILES, CMD_CURSOR_MOVE_DOWN, CMD_CURSOR_MOVE_END, CMD_CURSOR_MOVE_HOME, CMD_CURSOR_MOVE_PAGEDOWN, CMD_CURSOR_MOVE_PAGEEND, CMD_CURSOR_MOVE_PAGEHOME, CMD_CURSOR_MOVE_PAGEMIDDLE, CMD_CURSOR_MOVE_PAGEUP, CMD_CURSOR_MOVE_UP, CMD_CUT_FILES, CMD_DELETE_FILES, CMD_ESCAPE, CMD_FILTER_STRING, CMD_FLAT, CMD_HELP, CMD_NEW_DIRECTORY, CMD_NEW_TAB, CMD_NUMBERED_COMMAND, CMD_OPEN_FILE, CMD_OPEN_FILE_WITH, CMD_PARENT_CURSOR_MOVE_DOWN, CMD_PARENT_CURSOR_MOVE_UP, CMD_PASTE_FILES, CMD_PREVIEW_CURSOR_MOVE_DOWN, CMD_PREVIEW_CURSOR_MOVE_UP, CMD_QUIT, CMD_RELOAD_DIRECTORY_LIST, CMD_RENAME_FILE, CMD_RENAME_FILE_APPEND, CMD_RENAME_FILE_KEEP_EXT, CMD_RENAME_FILE_PREPEND, CMD_SEARCH_FZF, CMD_SEARCH_GLOB, CMD_SEARCH_INCREMENTAL, CMD_SEARCH_NEXT, CMD_SEARCH_PREV, CMD_SEARCH_STRING, CMD_SELECT_STRING, CMD_SET_LINEMODE, CMD_SET_MODE, CMD_SHOW_TASKS, CMD_SORT, CMD_SUBDIR_FZF, CMD_SUBPROCESS_BACKGROUND, CMD_SUBPROCESS_FOREGROUND, CMD_SWITCH_LINE_NUMBERS, CMD_SYMLINK_FILES, CMD_TAB_SWITCH, CMD_TAB_SWITCH_INDEX, CMD_TOGGLE_HIDDEN, CMD_TOGGLE_VISUAL, CMD_TOUCH_FILE, CMD_ZOXIDE, CMD_ZOXIDE_INTERACTIVE,
};
use crate::command::shell_expand;
use crate::numparse::{int_error_message, parse_i32, parse_usize, spec_parse_i32, spec_parse_unsigned, IntErrorKind};
use crate::text::{
    chars_eq, find_char, lemma_find, seq_to_string, skip_whitespace, spec_find, spec_trim,
    spec_trim_start, spec_words, split_whitespace, str_to_chars, sub_chars,
    trailing_whitespace_start,
};

verus! {

broadcast use vstd::string::group_string_axioms;

/// The words that `shell_words::split` cuts `s` into, with quotes and
/// backslashes handled as a POSIX shell handles them, or `None` where a
/// quote is left open.
pub uninterp spec fn spec_shell_words(s: Seq<char>) -> Option<Seq<Seq<char>>>;

/// The words of `s` as `shell_words::split` cuts them; where it fails, the
/// message of its error, which is always "missing closing quote".
#[verifier::external_body]
fn shell_split(s: &str) -> (r: Result<Vec<String>, String>)
    ensures
        match spec_shell_words(s@) {
            Some(w) => r matches Ok(v) && v@.map_values(|x: String| x@) == w,
            None => r matches Err(m) && m@ == "missing closing quote"@,
        },
{
    shell_words::split(s).map_err(|e| e.to_string())
}

/// The home directory of the user (`dirs_next::home_dir`), where one is
/// known. It depends on the environment, so nothing is stated of it.
#[verifier::external_body]
fn home_dir() -> (r: Option<String>) {
    dirs_next::home_dir().map(|p| p.to_string_lossy().into_owned())
}

/// The command name of `s` and its argument: the text before the first
/// space, and the text after it without leading whitespace.
pub open spec fn spec_split_command(s: Seq<char>) -> (Seq<char>, Seq<char>) {
    match spec_find(s, ' ') {
        Some(i) => (s.take(i), spec_trim_start(s.skip(i))),
        None => (s, Seq::empty()),
    }
}

/// Whether `r` is an error of `kind` with the message `msg`.
pub open spec fn is_error(r: Result<Command, JoshutoError>, kind: JoshutoErrorKind, msg: Seq<char>) -> bool {
    r matches Err(e) && e.kind == kind && e.message@ == msg
}

/// The count an argument gives: 1 where there is none, else the argument
/// without surrounding whitespace read as a `usize`.
pub open spec fn spec_count_arg(arg: Seq<char>) -> Result<int, IntErrorKind> {
    if arg.len() == 0 {
        Ok(1)
    } else {
        spec_parse_unsigned(spec_trim(arg), usize::MAX as int)
    }
}

/// Whether `r` is the command `build` makes from the count of `arg`, or the
/// error that reading the count gives.
pub open spec fn spec_counted(
    arg: Seq<char>,
    r: Result<Command, JoshutoError>,
    build: spec_fn(usize) -> Command,
) -> bool {
    match spec_count_arg(arg) {
        Ok(n) => r == Ok::<Command, JoshutoError>(build(n as usize)),
        Err(k) => is_error(r, JoshutoErrorKind::ParseError, int_error_message(k)),
    }
}

/// The error message for an option that the command `cmd` does not know.
pub open spec fn unknown_option(cmd: Seq<char>, w: Seq<char>) -> Seq<char> {
    cmd + ": unknown option '"@ + w + "'"@
}

/// The `relative` option after reading the options `words`, or the first
/// word that is no option.
pub open spec fn spec_symlink_options(words: Seq<Seq<char>>, relative: bool) -> Result<bool, Seq<char>>
    decreases words.len(),
{
    if words.len() == 0 {
        Ok(relative)
    } else if words[0] == "--relative=true"@ {
        spec_symlink_options(words.drop_first(), true)
    } else if words[0] == "--relative=false"@ {
        spec_symlink_options(words.drop_first(), false)
    } else {
        Err(words[0])
    }
}

/// The paste options after reading the options `words`, or the first word
/// that is no option.
pub open spec fn spec_paste_options(words: Seq<Seq<char>>, o: FileOperationOptions) -> Result<
    FileOperationOptions,
    Seq<char>,
>
    decreases words.len(),
{
    if words.len() == 0 {
        Ok(o)
    } else if words[0] == "--overwrite=true"@ {
        spec_paste_options(words.drop_first(), FileOperationOptions { overwrite: true, ..o })
    } else if words[0] == "--skip_exist=true"@ {
        spec_paste_options(words.drop_first(), FileOperationOptions { skip_exist: true, ..o })
    } else if words[0] == "--overwrite=false"@ {
        spec_paste_options(words.drop_first(), FileOperationOptions { overwrite: false, ..o })
    } else if words[0] == "--skip_exist=false"@ {
        spec_paste_options(words.drop_first(), FileOperationOptions { skip_exist: false, ..o })
    } else {
        Err(words[0])
    }
}

/// The options `(background, permanently)` of a deletion after reading the
/// options `words`, or the first word that is no option.
pub open spec fn spec_delete_options(words: Seq<Seq<char>>, o: (bool, bool)) -> Result<(bool, bool), Seq<char>>
    decreases words.len(),
{
    if words.len() == 0 {
        Ok(o)
    } else if words[0] == "--background=true"@ {
        spec_delete_options(words.drop_first(), (true, o.1))
    } else if words[0] == "--background=false"@ {
        spec_delete_options(words.drop_first(), (false, o.1))
    } else if words[0] == "--permanently"@ {
        spec_delete_options(words.drop_first(), (o.0, true))
    } else {
        Err(words[0])
    }
}

/// The selection options and the pattern after reading `words`: the
/// options set their flag, and any other word becomes the pattern.
pub open spec fn spec_select_words(words: Seq<Seq<char>>, o: SelectOption, pattern: Seq<char>) -> (SelectOption, Seq<char>)
    decreases words.len(),
{
    if words.len() == 0 {
        (o, pattern)
    } else {
        let w = words[0];
        let rest = words.drop_first();
        if w == "--toggle=true"@ {
            spec_select_words(rest, SelectOption { toggle: true, ..o }, pattern)
        } else if w == "--all=true"@ {
            spec_select_words(rest, SelectOption { all: true, ..o }, pattern)
        } else if w == "--toggle=false"@ {
            spec_select_words(rest, SelectOption { toggle: false, ..o }, pattern)
        } else if w == "--all=false"@ {
            spec_select_words(rest, SelectOption { all: false, ..o }, pattern)
        } else if w == "--deselect=true"@ {
            spec_select_words(rest, SelectOption { reverse: true, ..o }, pattern)
        } else if w == "--deselect=false"@ {
            spec_select_words(rest, SelectOption { reverse: false, ..o }, pattern)
        } else {
            spec_select_words(rest, o, w)
        }
    }
}

/// The options a selection starts from: toggling, one entry, selecting.
pub open spec fn default_select_option() -> SelectOption {
    SelectOption { toggle: true, all: false, reverse: false }
}

/// The sort order named `s`.
pub open spec fn spec_sort_type(s: Seq<char>) -> Option<SortType> {
    if s == "lexical"@ {
        Some(SortType::Lexical)
    } else if s == "mtime"@ {
        Some(SortType::Mtime)
    } else if s == "natural"@ {
        Some(SortType::Natural)
    } else if s == "size"@ {
        Some(SortType::Size)
    } else if s == "ext"@ {
        Some(SortType::Ext)
    } else {
        None
    }
}

/// The line mode named `s`.
pub open spec fn spec_line_mode(s: Seq<char>) -> Option<LineMode> {
    if s == "size"@ {
        Some(LineMode::Size)
    } else if s == "mtime"@ {
        Some(LineMode::Mtime)
    } else if s == "user"@ {
        Some(LineMode::User)
    } else if s == "group"@ {
        Some(LineMode::Group)
    } else if s == "perm"@ {
        Some(LineMode::Perm)
    } else {
        None
    }
}

/// Whether `m` is the tab mode that `arg` asks for.
pub open spec fn spec_new_tab_mode(arg: Seq<char>, m: NewTabMode) -> bool {
    if arg.len() == 0 {
        m is Default
    } else if arg == "--current"@ {
        m is CurrentTabDir
    } else if arg == "--cursor"@ {
        m is CursorDir
    } else {
        m matches NewTabMode::Directory(d) && d@ == arg
    }
}

/// Whether `r` is what reading the command `s` gives. For `cd`, where the
/// path comes from the home directory or a shell expansion, only the kind
/// of result is fixed.
pub open spec fn spec_from_str(s: Seq<char>, r: Result<Command, JoshutoError>) -> bool {
    let (cmd, arg) = spec_split_command(s);
    if s.len() > 0 && s[0] == ':' {
        r matches Ok(Command::CommandLine { prefix, suffix }) && prefix@ == s.drop_first()
            && suffix@.len() == 0
    }
    else if cmd == CMD_ESCAPE@ {
        r == Ok::<Command, JoshutoError>(Command::Escape)
    }
    else if cmd == CMD_TOGGLE_VISUAL@ {
        r == Ok::<Command, JoshutoError>(Command::ToggleVisualMode)
    }
    else if cmd == CMD_CLOSE_TAB@ {
        r == Ok::<Command, JoshutoError>(Command::CloseTab)
    }
    else if cmd == CMD_HELP@ {
        r == Ok::<Command, JoshutoError>(Command::Help)
    }
    else if cmd == CMD_BOOKMARK_ADD@ {
        r == Ok::<Command, JoshutoError>(Command::BookmarkAdd)
    }
    else if cmd == CMD_BOOKMARK_CHANGE_DIRECTORY@ {
        r == Ok::<Command, JoshutoError>(Command::BookmarkChangeDirectory)
    }
    else if cmd == CMD_CURSOR_MOVE_HOME@ {
        r == Ok::<Command, JoshutoError>(Command::CursorMoveHome)
    }
    else if cmd == CMD_CURSOR_MOVE_END@ {
        r == Ok::<Command, JoshutoError>(Command::CursorMoveEnd)
    }
    else if cmd == CMD_CURSOR_MOVE_PAGEHOME@ {
        r == Ok::<Command, JoshutoError>(Command::CursorMovePageHome)
    }
    else if cmd == CMD_CURSOR_MOVE_PAGEMIDDLE@ {
        r == Ok::<Command, JoshutoError>(Command::CursorMovePageMiddle)
    }
    else if cmd == CMD_CURSOR_MOVE_PAGEEND@ {
        r == Ok::<Command, JoshutoError>(Command::CursorMovePageEnd)
    }
    else if cmd == CMD_CUT_FILES@ {
        r == Ok::<Command, JoshutoError>(Command::CutFiles)
    }
    else if cmd == CMD_COPY_FILES@ {
        r == Ok::<Command, JoshutoError>(Command::CopyFiles)
    }
    else if cmd == CMD_COPY_FILENAME@ {
        r == Ok::<Command, JoshutoError>(Command::CopyFileName)
    }
    else if cmd == CMD_COPY_FILENAME_WITHOUT_EXTENSION@ {
        r == Ok::<Command, JoshutoError>(Command::CopyFileNameWithoutExtension)
    }
    else if cmd == CMD_COPY_FILEPATH@ {
        r == Ok::<Command, JoshutoError>(Command::CopyFilePath { all_selected: false })
    }
    else if cmd == CMD_COPY_DIRECTORY_PATH@ {
        r == Ok::<Command, JoshutoError>(Command::CopyDirPath)
    }
    else if cmd == CMD_OPEN_FILE@ {
        r == Ok::<Command, JoshutoError>(Command::OpenFile)
    }
    else if cmd == CMD_RELOAD_DIRECTORY_LIST@ {
        r == Ok::<Command, JoshutoError>(Command::ReloadDirList)
    }
    else if cmd == CMD_RENAME_FILE_APPEND@ {
        r == Ok::<Command, JoshutoError>(Command::RenameFileAppend)
    }
    else if cmd == CMD_RENAME_FILE_PREPEND@ {
        r == Ok::<Command, JoshutoError>(Command::RenameFilePrepend)
    }
    else if cmd == CMD_RENAME_FILE_KEEP_EXT@ {
        r == Ok::<Command, JoshutoError>(Command::RenameFileKeepExt)
    }
    else if cmd == CMD_SEARCH_NEXT@ {
        r == Ok::<Command, JoshutoError>(Command::SearchNext)
    }
    else if cmd == CMD_SEARCH_PREV@ {
        r == Ok::<Command, JoshutoError>(Command::SearchPrev)
    }
    else if cmd == CMD_SHOW_TASKS@ {
        r == Ok::<Command, JoshutoError>(Command::ShowTasks)
    }
    else if cmd == CMD_SET_MODE@ {
        r == Ok::<Command, JoshutoError>(Command::SetMode)
    }
    else if cmd == CMD_TOGGLE_HIDDEN@ {
        r == Ok::<Command, JoshutoError>(Command::ToggleHiddenFiles)
    }
    else if cmd == CMD_BULK_RENAME@ {
        r == Ok::<Command, JoshutoError>(Command::BulkRename)
    }
    else if cmd == CMD_SEARCH_FZF@ {
        r == Ok::<Command, JoshutoError>(Command::SearchFzf)
    }
    else if cmd == CMD_SUBDIR_FZF@ {
        r == Ok::<Command, JoshutoError>(Command::SubdirFzf)
    }
    else if cmd == CMD_ZOXIDE@ {
        r matches Ok(Command::Zoxide(a)) && a@ == arg
    } else if cmd == CMD_ZOXIDE_INTERACTIVE@ {
        r == Ok::<Command, JoshutoError>(Command::ZoxideInteractive)
    } else if cmd == CMD_QUIT@ {
        r == Ok::<Command, JoshutoError>(Command::Quit(
            if arg == "--force"@ {
                QuitAction::Force
            } else if arg == "--output-current-directory"@ {
                QuitAction::OutputCurrentDirectory
            } else if arg == "--output-selected-files"@ {
                QuitAction::OutputSelectedFiles
            } else {
                QuitAction::Noop
            },
        ))
    } else if cmd == CMD_NEW_TAB@ {
        r matches Ok(Command::NewTab { mode }) && spec_new_tab_mode(arg, mode)
    } else if cmd == CMD_CHANGE_DIRECTORY@ {
        if arg.len() == 0 {
            (r matches Ok(Command::ChangeDirectory { .. })) || is_error(
                r,
                JoshutoErrorKind::EnvVarNotPresent,
                "cd: Cannot find home directory"@,
            )
        } else if arg == ".."@ {
            r == Ok::<Command, JoshutoError>(Command::ParentDirectory)
        } else if arg == "-"@ {
            r == Ok::<Command, JoshutoError>(Command::PreviousDirectory)
        } else {
            r matches Ok(Command::ChangeDirectory { .. })
        }
    }
    else if cmd == CMD_CURSOR_MOVE_DOWN@ {
        spec_counted(arg, r, |n: usize| Command::CursorMoveDown { offset: n })
    }
    else if cmd == CMD_CURSOR_MOVE_UP@ {
        spec_counted(arg, r, |n: usize| Command::CursorMoveUp { offset: n })
    }
    else if cmd == CMD_PARENT_CURSOR_MOVE_DOWN@ {
        spec_counted(arg, r, |n: usize| Command::ParentCursorMoveDown { offset: n })
    }
    else if cmd == CMD_PARENT_CURSOR_MOVE_UP@ {
        spec_counted(arg, r, |n: usize| Command::ParentCursorMoveUp { offset: n })
    }
    else if cmd == CMD_PREVIEW_CURSOR_MOVE_DOWN@ {
        spec_counted(arg, r, |n: usize| Command::PreviewCursorMoveDown { offset: n })
    }
    else if cmd == CMD_PREVIEW_CURSOR_MOVE_UP@ {
        spec_counted(arg, r, |n: usize| Command::PreviewCursorMoveUp { offset: n })
    }
    else if cmd == CMD_CURSOR_MOVE_PAGEUP@ {
        r matches Ok(Command::CursorMovePageUp(p)) && p@ == spec_trim(arg)
    } else if cmd == CMD_CURSOR_MOVE_PAGEDOWN@ {
        r matches Ok(Command::CursorMovePageDown(p)) && p@ == spec_trim(arg)
    } else if cmd == CMD_NEW_DIRECTORY@ {
        if arg.len() == 0 {
            is_error(r, JoshutoErrorKind::InvalidParameters, cmd + ": no directory name given"@)
        } else {
            r matches Ok(Command::NewDirectory { path }) && path@ == arg
        }
    } else if cmd == CMD_OPEN_FILE_WITH@ {
        if arg.len() == 0 {
            r == Ok::<Command, JoshutoError>(Command::OpenFileWith { index: None })
        } else {
            match spec_parse_unsigned(spec_trim(arg), usize::MAX as int) {
                Ok(n) => r == Ok::<Command, JoshutoError>(Command::OpenFileWith { index: Some(n as usize) }),
                Err(k) => is_error(r, JoshutoErrorKind::ParseError, int_error_message(k)),
            }
        }
    } else if cmd == CMD_SYMLINK_FILES@ {
        match spec_symlink_options(spec_words(arg), false) {
            Ok(relative) => r == Ok::<Command, JoshutoError>(Command::SymlinkFiles { relative }),
            Err(w) => is_error(r, JoshutoErrorKind::UnrecognizedArgument, unknown_option(cmd, w)),
        }
    } else if cmd == CMD_PASTE_FILES@ {
        match spec_paste_options(spec_words(arg), FileOperationOptions { overwrite: false, skip_exist: false }) {
            Ok(options) => r == Ok::<Command, JoshutoError>(Command::PasteFiles { options }),
            Err(w) => is_error(r, JoshutoErrorKind::UnrecognizedArgument, unknown_option(cmd, w)),
        }
    } else if cmd == CMD_DELETE_FILES@ {
        match spec_delete_options(spec_words(arg), (false, false)) {
            Ok(o) => r == Ok::<Command, JoshutoError>(Command::DeleteFiles { background: o.0, permanently: o.1, noconfirm: false }),
            Err(w) => is_error(r, JoshutoErrorKind::UnrecognizedArgument, unknown_option(cmd, w)),
        }
    } else if cmd == CMD_RENAME_FILE@ {
        if arg.len() == 0 {
            is_error(r, JoshutoErrorKind::InvalidParameters, cmd + ": Expected 1, got 0"@)
        } else {
            r matches Ok(Command::RenameFile { new_name }) && new_name@ == arg
        }
    } else if cmd == CMD_SEARCH_STRING@ {
        if arg.len() == 0 {
            is_error(r, JoshutoErrorKind::InvalidParameters, cmd + ": Expected 1, got 0"@)
        } else {
            r matches Ok(Command::SearchString { pattern }) && pattern@ == arg
        }
    } else if cmd == CMD_SEARCH_INCREMENTAL@ {
        r matches Ok(Command::SearchIncremental { pattern }) && pattern@ == arg
    } else if cmd == CMD_SEARCH_GLOB@ {
        if arg.len() == 0 {
            is_error(r, JoshutoErrorKind::InvalidParameters, cmd + ": Expected 1, got 0"@)
        } else {
            r matches Ok(Command::SearchGlob { pattern }) && pattern@ == arg
        }
    } else if cmd == CMD_SELECT_STRING@ {
        match spec_shell_words(arg) {
            Some(words) => {
                let (o, p) = spec_select_words(words, default_select_option(), Seq::empty());
                r matches Ok(Command::SelectString { pattern, options }) && pattern@ == p && options == o
            },
            None => is_error(r, JoshutoErrorKind::InvalidParameters, arg + ": "@ + "missing closing quote"@),
        }
    } else if cmd == CMD_SUBPROCESS_FOREGROUND@ || cmd == CMD_SUBPROCESS_BACKGROUND@ {
        match spec_shell_words(arg) {
            Some(words) => if words.len() > 0 {
                r matches Ok(Command::SubProcess { words: w, mode }) && w@.map_values(|x: String| x@) == words
                    && mode == (if cmd == CMD_SUBPROCESS_BACKGROUND@ {
                        SubprocessCallMode::Spawn
                    } else {
                        SubprocessCallMode::Interactive
                    })
            } else {
                is_error(r, JoshutoErrorKind::InvalidParameters, cmd + ": No commands given"@)
            },
            None => is_error(r, JoshutoErrorKind::InvalidParameters, arg + ": "@ + "missing closing quote"@),
        }
    } else if cmd == CMD_SORT@ {
        if arg == "reverse"@ {
            r == Ok::<Command, JoshutoError>(Command::SortReverse)
        } else {
            match spec_sort_type(arg) {
                Some(t) => r == Ok::<Command, JoshutoError>(Command::Sort { sort_type: t, reverse: None }),
                None => is_error(r, JoshutoErrorKind::InvalidParameters, unknown_sort_option(cmd, arg)),
            }
        }
    } else if cmd == CMD_SET_LINEMODE@ {
        match spec_line_mode(arg) {
            Some(m) => r == Ok::<Command, JoshutoError>(Command::SetLineMode(m)),
            None => is_error(r, JoshutoErrorKind::InvalidParameters, "Linemode '"@ + arg + "' unknown."@),
        }
    } else if cmd == CMD_TAB_SWITCH@ {
        match spec_parse_i32(arg) {
            Ok(n) => r == Ok::<Command, JoshutoError>(Command::TabSwitch { offset: n as i32 }),
            Err(k) => is_error(r, JoshutoErrorKind::InvalidParameters, cmd + ": "@ + int_error_message(k)),
        }
    } else if cmd == CMD_TAB_SWITCH_INDEX@ {
        match spec_parse_unsigned(arg, usize::MAX as int) {
            Ok(n) => r == Ok::<Command, JoshutoError>(Command::TabSwitchIndex { index: n as usize }),
            Err(k) => is_error(r, JoshutoErrorKind::InvalidParameters, cmd + ": "@ + int_error_message(k)),
        }
    } else if cmd == CMD_TOUCH_FILE@ {
        r matches Ok(Command::TouchFile { file_name }) && file_name@ == arg
    } else if cmd == CMD_SWITCH_LINE_NUMBERS@ {
        r == Ok::<Command, JoshutoError>(Command::SwitchLineNums(
            if arg == "absolute"@ || arg == "1"@ {
                LineNumberStyle::Absolute
            } else if arg == "relative"@ || arg == "2"@ {
                LineNumberStyle::Relative
            } else {
                LineNumberStyle::Off
            },
        ))
    } else if cmd == CMD_FLAT@ {
        match spec_parse_unsigned(arg, usize::MAX as int) {
            Ok(n) => r == Ok::<Command, JoshutoError>(Command::Flat { depth: n as usize }),
            Err(k) => is_error(r, JoshutoErrorKind::InvalidParameters, cmd + ": "@ + int_error_message(k)),
        }
    } else if cmd == CMD_NUMBERED_COMMAND@ {
        if arg.len() > 0 {
            r == Ok::<Command, JoshutoError>(Command::NumberedCommand { initial: arg[0] })
        } else {
            is_error(r, JoshutoErrorKind::InvalidParameters, cmd + ": no starting character given"@)
        }
    } else if cmd == CMD_FILTER_STRING@ {
        r matches Ok(Command::FilterString { pattern }) && pattern@ == arg
    } else {
        is_error(r, JoshutoErrorKind::UnrecognizedCommand, "Unrecognized command '"@ + cmd + "'"@)
    }
}

/// The error message for a sort order that does not exist.
pub open spec fn unknown_sort_option(cmd: Seq<char>, arg: Seq<char>) -> Seq<char> {
    cmd + ": Unknown option '"@ + arg + "'"@
}

/// The command name and the argument of `v`, as `spec_split_command` says.
fn split_command(v: &Vec<char>) -> (r: (Vec<char>, Vec<char>))
    ensures
        (r.0@, r.1@) == spec_split_command(v@),
{
    proof {
        lemma_find(v@, ' ');
    }
    match find_char(v.as_slice(), ' ') {
        Some(i) => {
            let start = skip_whitespace(v.as_slice(), i, v.len());
            assert(v@.skip(i as int) =~= v@.subrange(i as int, v@.len() as int));
            assert(v@.take(i as int) =~= v@.subrange(0, i as int));
            (sub_chars(v.as_slice(), 0, i), sub_chars(v.as_slice(), start, v.len()))
        },
        None => (sub_chars(v.as_slice(), 0, v.len()), Vec::new()),
    }
}

/// `v` without surrounding whitespace.
fn trim(v: &Vec<char>) -> (r: Vec<char>)
    ensures
        r@ == spec_trim(v@),
{
    let start = skip_whitespace(v.as_slice(), 0, v.len());
    let end = trailing_whitespace_start(v.as_slice(), start, v.len());
    assert(v@.subrange(0, v@.len() as int) =~= v@);
    sub_chars(v.as_slice(), start, end)
}

/// An error of `kind` with `message`.
fn error(kind: JoshutoErrorKind, message: String) -> (r: Result<Command, JoshutoError>)
    ensures
        is_error(r, kind, message@),
{
    Err(JoshutoError::new(kind, message))
}

/// `a`, then `b`, then `c`.
fn concat3(a: &str, b: &str, c: &str) -> (r: String)
    ensures
        r@ == a@ + b@ + c@,
{
    let mut s = String::from_str(a);
    s.append(b);
    s.append(c);
    s
}

/// The count that `arg` gives, as `spec_count_arg` says.
fn count_arg(arg: &Vec<char>) -> (r: Result<usize, IntErrorKind>)
    ensures
        match spec_count_arg(arg@) {
            Ok(n) => r == Ok::<usize, IntErrorKind>(n as usize),
            Err(k) => r == Err::<usize, IntErrorKind>(k),
        },
{
    if arg.len() == 0 {
        Ok(1)
    } else {
        let t = trim(arg);
        parse_usize(t.as_slice())
    }
}

/// The `relative` option that `words` set, or the first word that is no option.
fn symlink_options(words: &Vec<Vec<char>>) -> (r: Result<bool, usize>)
    ensures
        match spec_symlink_options(words@.map_values(|w: Vec<char>| w@), false) {
            Ok(b) => r == Ok::<bool, usize>(b),
            Err(w) => r matches Err(i) && i < words@.len() && words@[i as int]@ == w,
        },
{
    let ghost all = words@.map_values(|w: Vec<char>| w@);
    let mut relative = false;
    let mut i: usize = 0;
    assert(all.subrange(0, all.len() as int) =~= all);
    while i < words.len()
        invariant
            i <= words@.len(),
            all == words@.map_values(|w: Vec<char>| w@),
            spec_symlink_options(all.subrange(i as int, all.len() as int), relative)
                == spec_symlink_options(all, false),
        decreases words@.len() - i,
    {
        let ghost rest = all.subrange(i as int, all.len() as int);
        assert(rest[0] == words@[i as int]@);
        assert(rest.drop_first() =~= all.subrange(i + 1, all.len() as int));
        if chars_eq(words[i].as_slice(), "--relative=true") {
            relative = true;
        } else if chars_eq(words[i].as_slice(), "--relative=false") {
            relative = false;
        } else {
            return Err(i);
        }
        i = i + 1;
    }
    assert(all.subrange(i as int, all.len() as int) =~= Seq::<Seq<char>>::empty());
    Ok(relative)
}

/// The paste options that `words` set, or the first word that is no option.
fn paste_options(words: &Vec<Vec<char>>) -> (r: Result<FileOperationOptions, usize>)
    ensures
        match spec_paste_options(
            words@.map_values(|w: Vec<char>| w@),
            FileOperationOptions { overwrite: false, skip_exist: false },
        ) {
            Ok(o) => r == Ok::<FileOperationOptions, usize>(o),
            Err(w) => r matches Err(i) && i < words@.len() && words@[i as int]@ == w,
        },
{
    let ghost all = words@.map_values(|w: Vec<char>| w@);
    let mut o = FileOperationOptions { overwrite: false, skip_exist: false };
    let mut i: usize = 0;
    assert(all.subrange(0, all.len() as int) =~= all);
    while i < words.len()
        invariant
            i <= words@.len(),
            all == words@.map_values(|w: Vec<char>| w@),
            spec_paste_options(all.subrange(i as int, all.len() as int), o) == spec_paste_options(
                all,
                FileOperationOptions { overwrite: false, skip_exist: false },
            ),
        decreases words@.len() - i,
    {
        let ghost rest = all.subrange(i as int, all.len() as int);
        assert(rest[0] == words@[i as int]@);
        assert(rest.drop_first() =~= all.subrange(i + 1, all.len() as int));
        if chars_eq(words[i].as_slice(), "--overwrite=true") {
            o.overwrite = true;
        } else if chars_eq(words[i].as_slice(), "--skip_exist=true") {
            o.skip_exist = true;
        } else if chars_eq(words[i].as_slice(), "--overwrite=false") {
            o.overwrite = false;
        } else if chars_eq(words[i].as_slice(), "--skip_exist=false") {
            o.skip_exist = false;
        } else {
            return Err(i);
        }
        i = i + 1;
    }
    assert(all.subrange(i as int, all.len() as int) =~= Seq::<Seq<char>>::empty());
    Ok(o)
}

/// The deletion options `(background, permanently)` that `words` set, or
/// the first word that is no option.
fn delete_options(words: &Vec<Vec<char>>) -> (r: Result<(bool, bool), usize>)
    ensures
        match spec_delete_options(words@.map_values(|w: Vec<char>| w@), (false, false)) {
            Ok(o) => r == Ok::<(bool, bool), usize>(o),
            Err(w) => r matches Err(i) && i < words@.len() && words@[i as int]@ == w,
        },
{
    let ghost all = words@.map_values(|w: Vec<char>| w@);
    let mut background = false;
    let mut permanently = false;
    let mut i: usize = 0;
    assert(all.subrange(0, all.len() as int) =~= all);
    while i < words.len()
        invariant
            i <= words@.len(),
            all == words@.map_values(|w: Vec<char>| w@),
            spec_delete_options(all.subrange(i as int, all.len() as int), (background, permanently))
                == spec_delete_options(all, (false, false)),
        decreases words@.len() - i,
    {
        let ghost rest = all.subrange(i as int, all.len() as int);
        assert(rest[0] == words@[i as int]@);
        assert(rest.drop_first() =~= all.subrange(i + 1, all.len() as int));
        if chars_eq(words[i].as_slice(), "--background=true") {
            background = true;
        } else if chars_eq(words[i].as_slice(), "--background=false") {
            background = false;
        } else if chars_eq(words[i].as_slice(), "--permanently") {
            permanently = true;
        } else {
            return Err(i);
        }
        i = i + 1;
    }
    assert(all.subrange(i as int, all.len() as int) =~= Seq::<Seq<char>>::empty());
    Ok((background, permanently))
}

/// The selection options and pattern that `words` give, as `spec_select_words` says.
fn select_words(words: &Vec<String>) -> (r: (SelectOption, String))
    ensures
        (r.0, r.1@) == spec_select_words(
            words@.map_values(|w: String| w@),
            default_select_option(),
            Seq::empty(),
        ),
{
    let ghost all = words@.map_values(|w: String| w@);
    let mut o = SelectOption { toggle: true, all: false, reverse: false };
    let mut pattern = String::new();
    let mut i: usize = 0;
    assert(all.subrange(0, all.len() as int) =~= all);
    while i < words.len()
        invariant
            i <= words@.len(),
            all == words@.map_values(|w: String| w@),
            spec_select_words(all.subrange(i as int, all.len() as int), o, pattern@)
                == spec_select_words(all, default_select_option(), Seq::empty()),
        decreases words@.len() - i,
    {
        let ghost rest = all.subrange(i as int, all.len() as int);
        assert(rest[0] == words@[i as int]@);
        assert(rest.drop_first() =~= all.subrange(i + 1, all.len() as int));
        let w = str_to_chars(words[i].as_str());
        if chars_eq(w.as_slice(), "--toggle=true") {
            o.toggle = true;
        } else if chars_eq(w.as_slice(), "--all=true") {
            o.all = true;
        } else if chars_eq(w.as_slice(), "--toggle=false") {
            o.toggle = false;
        } else if chars_eq(w.as_slice(), "--all=false") {
            o.all = false;
        } else if chars_eq(w.as_slice(), "--deselect=true") {
            o.reverse = true;
        } else if chars_eq(w.as_slice(), "--deselect=false") {
            o.reverse = false;
        } else {
            pattern = words[i].clone();
        }
        i = i + 1;
    }
    assert(all.subrange(i as int, all.len() as int) =~= Seq::<Seq<char>>::empty());
    (o, pattern)
}

/// A move to the home directory `home`, or the error that there is none.
pub fn change_directory_home(home: Option<String>) -> (r: Result<Command, JoshutoError>)
    ensures
        match home {
            Some(h) => r matches Ok(Command::ChangeDirectory { path }) && path@ == h@,
            None => is_error(
                r,
                JoshutoErrorKind::EnvVarNotPresent,
                "cd: Cannot find home directory"@,
            ),
        },
{
    match home {
        Some(h) => Ok(Command::ChangeDirectory { path: h }),
        None => error(
            JoshutoErrorKind::EnvVarNotPresent,
            String::from_str("cd: Cannot find home directory"),
        ),
    }
}

/// The path that a shell expansion of `arg` gives: its first word, or `arg`
/// itself where the expansion failed or gave no word.
pub fn expanded_path(arg: String, words: Option<Vec<String>>) -> (r: String)
    ensures
        match words {
            Some(w) => if w@.len() > 0 {
                r@ == w@[0]@
            } else {
                r@ == arg@
            },
            None => r@ == arg@,
        },
{
    match words {
        Some(w) => if w.len() > 0 {
            w[0].clone()
        } else {
            arg
        },
        None => arg,
    }
}

impl Command {
    /// The command that the text `s` names, as a keymap or the command line
    /// writes it, or why there is none; as `spec_from_str` says.
    #[verifier::rlimit(60)]
    pub fn from_str(s: &str) -> (r: Result<Command, JoshutoError>)
        requires
            !(s@.len() > 0 && s@[0] == ':') && spec_split_command(s@).0 == CMD_CHANGE_DIRECTORY@
                ==> forall|i: int|
                0 <= i < spec_split_command(s@).1.len() ==> spec_split_command(s@).1[i] != '\0',
        ensures
            spec_from_str(s@, r),
    {
        let v = str_to_chars(s);
        if v.len() > 0 && v[0] == ':' {
            let prefix = seq_to_string(&sub_chars(v.as_slice(), 1, v.len()));
            assert(prefix@ =~= s@.drop_first());
            return Ok(Command::CommandLine { prefix, suffix: String::new() });
        }
        let (cmd, arg) = split_command(&v);
        let c = cmd.as_slice();
        let arg_s = seq_to_string(&arg);
        if chars_eq(c, CMD_ESCAPE) {
            return Ok(Command::Escape);
        }
        if chars_eq(c, CMD_TOGGLE_VISUAL) {
            return Ok(Command::ToggleVisualMode);
        }
        if chars_eq(c, CMD_CLOSE_TAB) {
            return Ok(Command::CloseTab);
        }
        if chars_eq(c, CMD_HELP) {
            return Ok(Command::Help);
        }
        if chars_eq(c, CMD_BOOKMARK_ADD) {
            return Ok(Command::BookmarkAdd);
        }
        if chars_eq(c, CMD_BOOKMARK_CHANGE_DIRECTORY) {
            return Ok(Command::BookmarkChangeDirectory);
        }
        if chars_eq(c, CMD_CURSOR_MOVE_HOME) {
            return Ok(Command::CursorMoveHome);
        }
        if chars_eq(c, CMD_CURSOR_MOVE_END) {
            return Ok(Command::CursorMoveEnd);
        }
        if chars_eq(c, CMD_CURSOR_MOVE_PAGEHOME) {
            return Ok(Command::CursorMovePageHome);
        }
        if chars_eq(c, CMD_CURSOR_MOVE_PAGEMIDDLE) {
            return Ok(Command::CursorMovePageMiddle);
        }
        if chars_eq(c, CMD_CURSOR_MOVE_PAGEEND) {
            return Ok(Command::CursorMovePageEnd);
        }
        if chars_eq(c, CMD_CUT_FILES) {
            return Ok(Command::CutFiles);
        }
        if chars_eq(c, CMD_COPY_FILES) {
            return Ok(Command::CopyFiles);
        }
        if chars_eq(c, CMD_COPY_FILENAME) {
            return Ok(Command::CopyFileName);
        }
        if chars_eq(c, CMD_COPY_FILENAME_WITHOUT_EXTENSION) {
            return Ok(Command::CopyFileNameWithoutExtension);
        }
        if chars_eq(c, CMD_COPY_FILEPATH) {
            return Ok(Command::CopyFilePath { all_selected: false });
        }
        if chars_eq(c, CMD_COPY_DIRECTORY_PATH) {
            return Ok(Command::CopyDirPath);
        }
        if chars_eq(c, CMD_OPEN_FILE) {
            return Ok(Command::OpenFile);
        }
        if chars_eq(c, CMD_RELOAD_DIRECTORY_LIST) {
            return Ok(Command::ReloadDirList);
        }
        if chars_eq(c, CMD_RENAME_FILE_APPEND) {
            return Ok(Command::RenameFileAppend);
        }
        if chars_eq(c, CMD_RENAME_FILE_PREPEND) {
            return Ok(Command::RenameFilePrepend);
        }
        if chars_eq(c, CMD_RENAME_FILE_KEEP_EXT) {
            return Ok(Command::RenameFileKeepExt);
        }
        if chars_eq(c, CMD_SEARCH_NEXT) {
            return Ok(Command::SearchNext);
        }
        if chars_eq(c, CMD_SEARCH_PREV) {
            return Ok(Command::SearchPrev);
        }
        if chars_eq(c, CMD_SHOW_TASKS) {
            return Ok(Command::ShowTasks);
        }
        if chars_eq(c, CMD_SET_MODE) {
            return Ok(Command::SetMode);
        }
        if chars_eq(c, CMD_TOGGLE_HIDDEN) {
            return Ok(Command::ToggleHiddenFiles);
        }
        if chars_eq(c, CMD_BULK_RENAME) {
            return Ok(Command::BulkRename);
        }
        if chars_eq(c, CMD_SEARCH_FZF) {
            return Ok(Command::SearchFzf);
        }
        if chars_eq(c, CMD_SUBDIR_FZF) {
            return Ok(Command::SubdirFzf);
        }
        if chars_eq(c, CMD_ZOXIDE) {
            return Ok(Command::Zoxide(arg_s));
        }
        if chars_eq(c, CMD_ZOXIDE_INTERACTIVE) {
            return Ok(Command::ZoxideInteractive);
        }
        if chars_eq(c, CMD_QUIT) {
            let a = arg.as_slice();
            let action = if chars_eq(a, "--force") {
                QuitAction::Force
            } else if chars_eq(a, "--output-current-directory") {
                QuitAction::OutputCurrentDirectory
            } else if chars_eq(a, "--output-selected-files") {
                QuitAction::OutputSelectedFiles
            } else {
                QuitAction::Noop
            };
            return Ok(Command::Quit(action));
        }
        if chars_eq(c, CMD_NEW_TAB) {
            let a = arg.as_slice();
            let mode = if arg.len() == 0 {
                NewTabMode::Default
            } else if chars_eq(a, "--current") {
                NewTabMode::CurrentTabDir
            } else if chars_eq(a, "--cursor") {
                NewTabMode::CursorDir
            } else {
                NewTabMode::Directory(arg_s)
            };
            return Ok(Command::NewTab { mode });
        }
        if chars_eq(c, CMD_CHANGE_DIRECTORY) {
            let a = arg.as_slice();
            if arg.len() == 0 {
                return change_directory_home(home_dir());
            } else if chars_eq(a, "..") {
                return Ok(Command::ParentDirectory);
            } else if chars_eq(a, "-") {
                return Ok(Command::PreviousDirectory);
            } else {
                let words = shell_expand(arg_s.as_str());
                return Ok(Command::ChangeDirectory { path: expanded_path(arg_s, words) });
            }
        }
        if chars_eq(c, CMD_CURSOR_MOVE_DOWN) {
            return match count_arg(&arg) {
                Ok(n) => Ok(Command::CursorMoveDown { offset: n }),
                Err(k) => error(JoshutoErrorKind::ParseError, k.message()),
            };
        }
        if chars_eq(c, CMD_CURSOR_MOVE_UP) {
            return match count_arg(&arg) {
                Ok(n) => Ok(Command::CursorMoveUp { offset: n }),
                Err(k) => error(JoshutoErrorKind::ParseError, k.message()),
            };
        }
        if chars_eq(c, CMD_PARENT_CURSOR_MOVE_DOWN) {
            return match count_arg(&arg) {
                Ok(n) => Ok(Command::ParentCursorMoveDown { offset: n }),
                Err(k) => error(JoshutoErrorKind::ParseError, k.message()),
            };
        }
        if chars_eq(c, CMD_PARENT_CURSOR_MOVE_UP) {
            return match count_arg(&arg) {
                Ok(n) => Ok(Command::ParentCursorMoveUp { offset: n }),
                Err(k) => error(JoshutoErrorKind::ParseError, k.message()),
            };
        }
        if chars_eq(c, CMD_PREVIEW_CURSOR_MOVE_DOWN) {
            return match count_arg(&arg) {
                Ok(n) => Ok(Command::PreviewCursorMoveDown { offset: n }),
                Err(k) => error(JoshutoErrorKind::ParseError, k.message()),
            };
        }
        if chars_eq(c, CMD_PREVIEW_CURSOR_MOVE_UP) {
            return match count_arg(&arg) {
                Ok(n) => Ok(Command::PreviewCursorMoveUp { offset: n }),
                Err(k) => error(JoshutoErrorKind::ParseError, k.message()),
            };
        }
        if chars_eq(c, CMD_CURSOR_MOVE_PAGEUP) {
            return Ok(Command::CursorMovePageUp(seq_to_string(&trim(&arg))));
        }
        if chars_eq(c, CMD_CURSOR_MOVE_PAGEDOWN) {
            return Ok(Command::CursorMovePageDown(seq_to_string(&trim(&arg))));
        }
        if chars_eq(c, CMD_NEW_DIRECTORY) {
            if arg.len() == 0 {
                return error(
                    JoshutoErrorKind::InvalidParameters,
                    crate::text::concat(CMD_NEW_DIRECTORY, ": no directory name given"),
                );
            } else {
                return Ok(Command::NewDirectory { path: arg_s });
            }
        }
        if chars_eq(c, CMD_OPEN_FILE_WITH) {
            if arg.len() == 0 {
                return Ok(Command::OpenFileWith { index: None });
            } else {
                return match parse_usize(trim(&arg).as_slice()) {
                    Ok(n) => Ok(Command::OpenFileWith { index: Some(n) }),
                    Err(k) => error(JoshutoErrorKind::ParseError, k.message()),
                };
            }
        }
        if chars_eq(c, CMD_SYMLINK_FILES) {
            let words = split_whitespace(&arg);
            return match symlink_options(&words) {
                Ok(relative) => Ok(Command::SymlinkFiles { relative }),
                Err(i) => error(
                    JoshutoErrorKind::UnrecognizedArgument,
                    unknown_option_message(CMD_SYMLINK_FILES, &words[i]),
                ),
            };
        }
        if chars_eq(c, CMD_PASTE_FILES) {
            let words = split_whitespace(&arg);
            return match paste_options(&words) {
                Ok(options) => Ok(Command::PasteFiles { options }),
                Err(i) => error(
                    JoshutoErrorKind::UnrecognizedArgument,
                    unknown_option_message(CMD_PASTE_FILES, &words[i]),
                ),
            };
        }
        if chars_eq(c, CMD_DELETE_FILES) {
            let words = split_whitespace(&arg);
            return match delete_options(&words) {
                Ok(o) => Ok(Command::DeleteFiles { background: o.0, permanently: o.1, noconfirm: false }),
                Err(i) => error(
                    JoshutoErrorKind::UnrecognizedArgument,
                    unknown_option_message(CMD_DELETE_FILES, &words[i]),
                ),
            };
        }
        if chars_eq(c, CMD_RENAME_FILE) {
            if arg.len() == 0 {
                return error(
                    JoshutoErrorKind::InvalidParameters,
                    crate::text::concat(CMD_RENAME_FILE, ": Expected 1, got 0"),
                );
            } else {
                return Ok(Command::RenameFile { new_name: arg_s });
            }
        }
        if chars_eq(c, CMD_SEARCH_STRING) {
            if arg.len() == 0 {
                return error(
                    JoshutoErrorKind::InvalidParameters,
                    crate::text::concat(CMD_SEARCH_STRING, ": Expected 1, got 0"),
                );
            } else {
                return Ok(Command::SearchString { pattern: arg_s });
            }
        }
        if chars_eq(c, CMD_SEARCH_INCREMENTAL) {
            return Ok(Command::SearchIncremental { pattern: arg_s });
        }
        if chars_eq(c, CMD_SEARCH_GLOB) {
            if arg.len() == 0 {
                return error(
                    JoshutoErrorKind::InvalidParameters,
                    crate::text::concat(CMD_SEARCH_GLOB, ": Expected 1, got 0"),
                );
            } else {
                return Ok(Command::SearchGlob { pattern: arg_s });
            }
        }
        if chars_eq(c, CMD_SELECT_STRING) {
            return match shell_split(arg_s.as_str()) {
                Ok(words) => {
                    let (options, pattern) = select_words(&words);
                    Ok(Command::SelectString { pattern, options })
                },
                Err(m) => error(
                    JoshutoErrorKind::InvalidParameters,
                    concat3(arg_s.as_str(), ": ", m.as_str()),
                ),
            };
        }
        if chars_eq(c, CMD_SUBPROCESS_FOREGROUND) || chars_eq(c, CMD_SUBPROCESS_BACKGROUND) {
            let background = chars_eq(c, CMD_SUBPROCESS_BACKGROUND);
            return match shell_split(arg_s.as_str()) {
                Ok(words) => if words.len() > 0 {
                    let mode = if background {
                        SubprocessCallMode::Spawn
                    } else {
                        SubprocessCallMode::Interactive
                    };
                    Ok(Command::SubProcess { words, mode })
                } else {
                    error(
                        JoshutoErrorKind::InvalidParameters,
                        crate::text::concat(if background { CMD_SUBPROCESS_BACKGROUND } else { CMD_SUBPROCESS_FOREGROUND }, ": No commands given"),
                    )
                },
                Err(m) => error(
                    JoshutoErrorKind::InvalidParameters,
                    concat3(arg_s.as_str(), ": ", m.as_str()),
                ),
            };
        }
        if chars_eq(c, CMD_SORT) {
            let a = arg.as_slice();
            if chars_eq(a, "reverse") {
                return Ok(Command::SortReverse);
            }
            return match sort_type_of(&arg) {
                Some(t) => Ok(Command::Sort { sort_type: t, reverse: None }),
                None => {
                    let mut m = concat3(CMD_SORT, ": Unknown option '", arg_s.as_str());
                    m.append("'");
                    error(JoshutoErrorKind::InvalidParameters, m)
                },
            };
        }
        if chars_eq(c, CMD_SET_LINEMODE) {
            return match line_mode_of(&arg) {
                Some(m) => Ok(Command::SetLineMode(m)),
                None => error(
                    JoshutoErrorKind::InvalidParameters,
                    concat3("Linemode '", arg_s.as_str(), "' unknown."),
                ),
            };
        }
        if chars_eq(c, CMD_TAB_SWITCH) {
            return match parse_i32(arg.as_slice()) {
                Ok(n) => Ok(Command::TabSwitch { offset: n }),
                Err(k) => error(
                    JoshutoErrorKind::InvalidParameters,
                    concat3(CMD_TAB_SWITCH, ": ", k.message().as_str()),
                ),
            };
        }
        if chars_eq(c, CMD_TAB_SWITCH_INDEX) {
            return match parse_usize(arg.as_slice()) {
                Ok(n) => Ok(Command::TabSwitchIndex { index: n }),
                Err(k) => error(
                    JoshutoErrorKind::InvalidParameters,
                    concat3(CMD_TAB_SWITCH_INDEX, ": ", k.message().as_str()),
                ),
            };
        }
        if chars_eq(c, CMD_TOUCH_FILE) {
            return Ok(Command::TouchFile { file_name: arg_s });
        }
        if chars_eq(c, CMD_SWITCH_LINE_NUMBERS) {
            let a = arg.as_slice();
            let style = if chars_eq(a, "absolute") || chars_eq(a, "1") {
                LineNumberStyle::Absolute
            } else if chars_eq(a, "relative") || chars_eq(a, "2") {
                LineNumberStyle::Relative
            } else {
                LineNumberStyle::Off
            };
            return Ok(Command::SwitchLineNums(style));
        }
        if chars_eq(c, CMD_FLAT) {
            return match parse_usize(arg.as_slice()) {
                Ok(n) => Ok(Command::Flat { depth: n }),
                Err(k) => error(
                    JoshutoErrorKind::InvalidParameters,
                    concat3(CMD_FLAT, ": ", k.message().as_str()),
                ),
            };
        }
        if chars_eq(c, CMD_NUMBERED_COMMAND) {
            if arg.len() > 0 {
                return Ok(Command::NumberedCommand { initial: arg[0] });
            } else {
                return error(
                    JoshutoErrorKind::InvalidParameters,
                    crate::text::concat(CMD_NUMBERED_COMMAND, ": no starting character given"),
                );
            }
        }
        if chars_eq(c, CMD_FILTER_STRING) {
            return Ok(Command::FilterString { pattern: arg_s });
        }
        let name = seq_to_string(&cmd);
        error(JoshutoErrorKind::UnrecognizedCommand, concat3("Unrecognized command '", name.as_str(), "'"))
    }
}

/// The message for the option `w` that the command `cmd` does not know.
fn unknown_option_message(cmd: &str, w: &Vec<char>) -> (r: String)
    ensures
        r@ == unknown_option(cmd@, w@),
{
    let ws = seq_to_string(w);
    let mut m = concat3(cmd, ": unknown option '", ws.as_str());
    m.append("'");
    m
}

/// The sort order that `v` names, as `spec_sort_type` says.
fn sort_type_of(v: &Vec<char>) -> (r: Option<SortType>)
    ensures
        r == spec_sort_type(v@),
{
    let a = v.as_slice();
    if chars_eq(a, "lexical") {
        Some(SortType::Lexical)
    } else if chars_eq(a, "mtime") {
        Some(SortType::Mtime)
    } else if chars_eq(a, "natural") {
        Some(SortType::Natural)
    } else if chars_eq(a, "size") {
        Some(SortType::Size)
    } else if chars_eq(a, "ext") {
        Some(SortType::Ext)
    } else {
        None
    }
}

/// The line mode that `v` names, as `spec_line_mode` says.
fn line_mode_of(v: &Vec<char>) -> (r: Option<LineMode>)
    ensures
        r == spec_line_mode(v@),
{
    let a = v.as_slice();
    if chars_eq(a, "size") {
        Some(LineMode::Size)
    } else if chars_eq(a, "mtime") {
        Some(LineMode::Mtime)
    } else if chars_eq(a, "user") {
        Some(LineMode::User)
    } else if chars_eq(a, "group") {
        Some(LineMode::Group)
    } else if chars_eq(a, "perm") {
        Some(LineMode::Perm)
    } else {
        None
    }
}

} // verus!

