use vstd::prelude::*;

use crate::text::str_to_chars;

verus! {

broadcast use vstd::string::group_string_axioms;

/// The name of the command that hands the output of a program on.
pub const CMD_STDOUT_POST_PROCESS: &'static str = "stdout";

/// The prefix that opens the command line.
pub const CMD_COMMAND_LINE: &'static str = ":";

/// The name of a command: `quit`.
pub const CMD_QUIT: &'static str = "quit";
/// The name of a command: `bulk_rename`.
pub const CMD_BULK_RENAME: &'static str = "bulk_rename";
/// The name of a command: `cd`.
pub const CMD_CHANGE_DIRECTORY: &'static str = "cd";
/// The name of a command: `cd ..`.
pub const CMD_PARENT_DIRECTORY: &'static str = "cd ..";
/// The name of a command: `cd -`.
pub const CMD_PREVIOUS_DIRECTORY: &'static str = "cd -";
/// The name of a command: `new_tab`.
pub const CMD_NEW_TAB: &'static str = "new_tab";
/// The name of a command: `close_tab`.
pub const CMD_CLOSE_TAB: &'static str = "close_tab";
/// The name of a command: `cut_files`.
pub const CMD_CUT_FILES: &'static str = "cut_files";
/// The name of a command: `copy_files`.
pub const CMD_COPY_FILES: &'static str = "copy_files";
/// The name of a command: `copy_filename`.
pub const CMD_COPY_FILENAME: &'static str = "copy_filename";
/// The name of a command: `copy_filename_without_extension`.
pub const CMD_COPY_FILENAME_WITHOUT_EXTENSION: &'static str = "copy_filename_without_extension";
/// The name of a command: `copy_filepath`.
pub const CMD_COPY_FILEPATH: &'static str = "copy_filepath";
/// The name of a command: `copy_dirpath`.
pub const CMD_COPY_DIRECTORY_PATH: &'static str = "copy_dirpath";
/// The name of a command: `symlink_files`.
pub const CMD_SYMLINK_FILES: &'static str = "symlink_files";
/// The name of a command: `paste_files`.
pub const CMD_PASTE_FILES: &'static str = "paste_files";
/// The name of a command: `delete_files`.
pub const CMD_DELETE_FILES: &'static str = "delete_files";
/// The name of a command: `cursor_move_up`.
pub const CMD_CURSOR_MOVE_UP: &'static str = "cursor_move_up";
/// The name of a command: `cursor_move_down`.
pub const CMD_CURSOR_MOVE_DOWN: &'static str = "cursor_move_down";
/// The name of a command: `cursor_move_home`.
pub const CMD_CURSOR_MOVE_HOME: &'static str = "cursor_move_home";
/// The name of a command: `cursor_move_end`.
pub const CMD_CURSOR_MOVE_END: &'static str = "cursor_move_end";
/// The name of a command: `cursor_move_page_up`.
pub const CMD_CURSOR_MOVE_PAGEUP: &'static str = "cursor_move_page_up";
/// The name of a command: `cursor_move_page_down`.
pub const CMD_CURSOR_MOVE_PAGEDOWN: &'static str = "cursor_move_page_down";
/// The name of a command: `cursor_move_page_home`.
pub const CMD_CURSOR_MOVE_PAGEHOME: &'static str = "cursor_move_page_home";
/// The name of a command: `cursor_move_page_middle`.
pub const CMD_CURSOR_MOVE_PAGEMIDDLE: &'static str = "cursor_move_page_middle";
/// The name of a command: `cursor_move_page_end`.
pub const CMD_CURSOR_MOVE_PAGEEND: &'static str = "cursor_move_page_end";
/// The name of a command: `parent_cursor_move_up`.
pub const CMD_PARENT_CURSOR_MOVE_UP: &'static str = "parent_cursor_move_up";
/// The name of a command: `parent_cursor_move_down`.
pub const CMD_PARENT_CURSOR_MOVE_DOWN: &'static str = "parent_cursor_move_down";
/// The name of a command: `preview_cursor_move_up`.
pub const CMD_PREVIEW_CURSOR_MOVE_UP: &'static str = "preview_cursor_move_up";
/// The name of a command: `preview_cursor_move_down`.
pub const CMD_PREVIEW_CURSOR_MOVE_DOWN: &'static str = "preview_cursor_move_down";
/// The name of a command: `mkdir`.
pub const CMD_NEW_DIRECTORY: &'static str = "mkdir";
/// The name of a command: `open`.
pub const CMD_OPEN_FILE: &'static str = "open";
/// The name of a command: `open_with`.
pub const CMD_OPEN_FILE_WITH: &'static str = "open_with";
/// The name of a command: `reload_dirlist`.
pub const CMD_RELOAD_DIRECTORY_LIST: &'static str = "reload_dirlist";
/// The name of a command: `rename`.
pub const CMD_RENAME_FILE: &'static str = "rename";
/// The name of a command: `rename_append`.
pub const CMD_RENAME_FILE_APPEND: &'static str = "rename_append";
/// The name of a command: `rename_append_base`.
pub const CMD_RENAME_FILE_APPEND_BASE: &'static str = "rename_append_base";
/// The name of a command: `rename_prepend`.
pub const CMD_RENAME_FILE_PREPEND: &'static str = "rename_prepend";
/// The name of a command: `rename_keep_ext`.
pub const CMD_RENAME_FILE_KEEP_EXT: &'static str = "rename_keep_ext";
/// The name of a command: `search`.
pub const CMD_SEARCH_STRING: &'static str = "search";
/// The name of a command: `search_inc`.
pub const CMD_SEARCH_INCREMENTAL: &'static str = "search_inc";
/// The name of a command: `search_glob`.
pub const CMD_SEARCH_GLOB: &'static str = "search_glob";
/// The name of a command: `search_regex`.
pub const CMD_SEARCH_REGEX: &'static str = "search_regex";
/// The name of a command: `search_next`.
pub const CMD_SEARCH_NEXT: &'static str = "search_next";
/// The name of a command: `search_prev`.
pub const CMD_SEARCH_PREV: &'static str = "search_prev";
/// The name of a command: `select_glob`.
pub const CMD_SELECT_GLOB: &'static str = "select_glob";
/// The name of a command: `select_regex`.
pub const CMD_SELECT_REGEX: &'static str = "select_regex";
/// The name of a command: `select`.
pub const CMD_SELECT_STRING: &'static str = "select";
/// The name of a command: `set_case_sensitivity`.
pub const CMD_SET_CASE_SENSITIVITY: &'static str = "set_case_sensitivity";
/// The name of a command: `set_mode`.
pub const CMD_SET_MODE: &'static str = "set_mode";
/// The name of a command: `sort`.
pub const CMD_SORT: &'static str = "sort";
/// The name of a command: `sort reverse`.
pub const CMD_SORT_REVERSE: &'static str = "sort reverse";
/// The name of a command: `shell`.
pub const CMD_SUBPROCESS_FOREGROUND: &'static str = "shell";
/// The name of a command: `spawn`.
pub const CMD_SUBPROCESS_BACKGROUND: &'static str = "spawn";
/// The name of a command: `show_tasks`.
pub const CMD_SHOW_TASKS: &'static str = "show_tasks";
/// The name of a command: `tab_switch`.
pub const CMD_TAB_SWITCH: &'static str = "tab_switch";
/// The name of a command: `tab_switch_index`.
pub const CMD_TAB_SWITCH_INDEX: &'static str = "tab_switch_index";
/// The name of a command: `toggle_hidden`.
pub const CMD_TOGGLE_HIDDEN: &'static str = "toggle_hidden";
/// The name of a command: `toggle_visual`.
pub const CMD_TOGGLE_VISUAL: &'static str = "toggle_visual";
/// The name of a command: `line_nums`.
pub const CMD_SWITCH_LINE_NUMBERS: &'static str = "line_nums";
/// The name of a command: `linemode`.
pub const CMD_SET_LINEMODE: &'static str = "linemode";
/// The name of a command: `touch`.
pub const CMD_TOUCH_FILE: &'static str = "touch";
/// The name of a command: `help`.
pub const CMD_HELP: &'static str = "help";
/// The name of a command: `search_fzf`.
pub const CMD_SEARCH_FZF: &'static str = "search_fzf";
/// The name of a command: `subdir_fzf`.
pub const CMD_SUBDIR_FZF: &'static str = "subdir_fzf";
/// The name of a command: `select_fzf`.
pub const CMD_SELECT_FZF: &'static str = "select_fzf";
/// The name of a command: `z`.
pub const CMD_ZOXIDE: &'static str = "z";
/// The name of a command: `zi`.
pub const CMD_ZOXIDE_INTERACTIVE: &'static str = "zi";
/// The name of a command: `numbered_command`.
pub const CMD_NUMBERED_COMMAND: &'static str = "numbered_command";
/// The name of a command: `flat`.
pub const CMD_FLAT: &'static str = "flat";
/// The name of a command: `escape`.
pub const CMD_ESCAPE: &'static str = "escape";
/// The name of a command: `filter_glob`.
pub const CMD_FILTER_GLOB: &'static str = "filter_glob";
/// The name of a command: `filter_regex`.
pub const CMD_FILTER_REGEX: &'static str = "filter_regex";
/// The name of a command: `filter`.
pub const CMD_FILTER_STRING: &'static str = "filter";
/// The name of a command: `add_bookmark`.
pub const CMD_BOOKMARK_ADD: &'static str = "add_bookmark";
/// The name of a command: `cd_bookmark`.
pub const CMD_BOOKMARK_CHANGE_DIRECTORY: &'static str = "cd_bookmark";
/// The name of a command: `custom_search`.
pub const CMD_CUSTOM_SEARCH: &'static str = "custom_search";
/// The name of a command: `custom_search_interactive`.
pub const CMD_CUSTOM_SEARCH_INTERACTIVE: &'static str = "custom_search_interactive";

/// The names of all commands, in the order of their constants.
pub open spec fn spec_commands() -> Seq<Seq<char>> {
    seq![
        CMD_QUIT@,
        CMD_BULK_RENAME@,
        CMD_CHANGE_DIRECTORY@,
        CMD_PARENT_DIRECTORY@,
        CMD_PREVIOUS_DIRECTORY@,
        CMD_NEW_TAB@,
        CMD_CLOSE_TAB@,
        CMD_CUT_FILES@,
        CMD_COPY_FILES@,
        CMD_COPY_FILENAME@,
        CMD_COPY_FILENAME_WITHOUT_EXTENSION@,
        CMD_COPY_FILEPATH@,
        CMD_COPY_DIRECTORY_PATH@,
        CMD_SYMLINK_FILES@,
        CMD_PASTE_FILES@,
        CMD_DELETE_FILES@,
        CMD_CURSOR_MOVE_UP@,
        CMD_CURSOR_MOVE_DOWN@,
        CMD_CURSOR_MOVE_HOME@,
        CMD_CURSOR_MOVE_END@,
        CMD_CURSOR_MOVE_PAGEUP@,
        CMD_CURSOR_MOVE_PAGEDOWN@,
        CMD_CURSOR_MOVE_PAGEHOME@,
        CMD_CURSOR_MOVE_PAGEMIDDLE@,
        CMD_CURSOR_MOVE_PAGEEND@,
        CMD_PARENT_CURSOR_MOVE_UP@,
        CMD_PARENT_CURSOR_MOVE_DOWN@,
        CMD_PREVIEW_CURSOR_MOVE_UP@,
        CMD_PREVIEW_CURSOR_MOVE_DOWN@,
        CMD_NEW_DIRECTORY@,
        CMD_OPEN_FILE@,
        CMD_OPEN_FILE_WITH@,
        CMD_RELOAD_DIRECTORY_LIST@,
        CMD_RENAME_FILE@,
        CMD_RENAME_FILE_APPEND@,
        CMD_RENAME_FILE_APPEND_BASE@,
        CMD_RENAME_FILE_PREPEND@,
        CMD_RENAME_FILE_KEEP_EXT@,
        CMD_SEARCH_STRING@,
        CMD_SEARCH_INCREMENTAL@,
        CMD_SEARCH_GLOB@,
        CMD_SEARCH_REGEX@,
        CMD_SEARCH_NEXT@,
        CMD_SEARCH_PREV@,
        CMD_SELECT_GLOB@,
        CMD_SELECT_REGEX@,
        CMD_SELECT_STRING@,
        CMD_SET_CASE_SENSITIVITY@,
        CMD_SET_MODE@,
        CMD_SORT@,
        CMD_SORT_REVERSE@,
        CMD_SUBPROCESS_FOREGROUND@,
        CMD_SUBPROCESS_BACKGROUND@,
        CMD_SHOW_TASKS@,
        CMD_TAB_SWITCH@,
        CMD_TAB_SWITCH_INDEX@,
        CMD_TOGGLE_HIDDEN@,
        CMD_TOGGLE_VISUAL@,
        CMD_SWITCH_LINE_NUMBERS@,
        CMD_SET_LINEMODE@,
        CMD_TOUCH_FILE@,
        CMD_HELP@,
        CMD_SEARCH_FZF@,
        CMD_SUBDIR_FZF@,
        CMD_SELECT_FZF@,
        CMD_ZOXIDE@,
        CMD_ZOXIDE_INTERACTIVE@,
        CMD_NUMBERED_COMMAND@,
        CMD_FLAT@,
        CMD_ESCAPE@,
        CMD_FILTER_GLOB@,
        CMD_FILTER_REGEX@,
        CMD_FILTER_STRING@,
        CMD_BOOKMARK_ADD@,
        CMD_BOOKMARK_CHANGE_DIRECTORY@,
        CMD_CUSTOM_SEARCH@,
        CMD_CUSTOM_SEARCH_INTERACTIVE@,
    ]
}

/// The names of all commands, in the order of their constants.
pub fn commands() -> (r: Vec<&'static str>)
    ensures
        r@.map_values(|c: &str| c@) == spec_commands(),
{
    let mut v: Vec<&'static str> = Vec::new();
    v.push(CMD_QUIT);
    v.push(CMD_BULK_RENAME);
    v.push(CMD_CHANGE_DIRECTORY);
    v.push(CMD_PARENT_DIRECTORY);
    v.push(CMD_PREVIOUS_DIRECTORY);
    v.push(CMD_NEW_TAB);
    v.push(CMD_CLOSE_TAB);
    v.push(CMD_CUT_FILES);
    v.push(CMD_COPY_FILES);
    v.push(CMD_COPY_FILENAME);
    v.push(CMD_COPY_FILENAME_WITHOUT_EXTENSION);
    v.push(CMD_COPY_FILEPATH);
    v.push(CMD_COPY_DIRECTORY_PATH);
    v.push(CMD_SYMLINK_FILES);
    v.push(CMD_PASTE_FILES);
    v.push(CMD_DELETE_FILES);
    v.push(CMD_CURSOR_MOVE_UP);
    v.push(CMD_CURSOR_MOVE_DOWN);
    v.push(CMD_CURSOR_MOVE_HOME);
    v.push(CMD_CURSOR_MOVE_END);
    v.push(CMD_CURSOR_MOVE_PAGEUP);
    v.push(CMD_CURSOR_MOVE_PAGEDOWN);
    v.push(CMD_CURSOR_MOVE_PAGEHOME);
    v.push(CMD_CURSOR_MOVE_PAGEMIDDLE);
    v.push(CMD_CURSOR_MOVE_PAGEEND);
    v.push(CMD_PARENT_CURSOR_MOVE_UP);
    v.push(CMD_PARENT_CURSOR_MOVE_DOWN);
    v.push(CMD_PREVIEW_CURSOR_MOVE_UP);
    v.push(CMD_PREVIEW_CURSOR_MOVE_DOWN);
    v.push(CMD_NEW_DIRECTORY);
    v.push(CMD_OPEN_FILE);
    v.push(CMD_OPEN_FILE_WITH);
    v.push(CMD_RELOAD_DIRECTORY_LIST);
    v.push(CMD_RENAME_FILE);
    v.push(CMD_RENAME_FILE_APPEND);
    v.push(CMD_RENAME_FILE_APPEND_BASE);
    v.push(CMD_RENAME_FILE_PREPEND);
    v.push(CMD_RENAME_FILE_KEEP_EXT);
    v.push(CMD_SEARCH_STRING);
    v.push(CMD_SEARCH_INCREMENTAL);
    v.push(CMD_SEARCH_GLOB);
    v.push(CMD_SEARCH_REGEX);
    v.push(CMD_SEARCH_NEXT);
    v.push(CMD_SEARCH_PREV);
    v.push(CMD_SELECT_GLOB);
    v.push(CMD_SELECT_REGEX);
    v.push(CMD_SELECT_STRING);
    v.push(CMD_SET_CASE_SENSITIVITY);
    v.push(CMD_SET_MODE);
    v.push(CMD_SORT);
    v.push(CMD_SORT_REVERSE);
    v.push(CMD_SUBPROCESS_FOREGROUND);
    v.push(CMD_SUBPROCESS_BACKGROUND);
    v.push(CMD_SHOW_TASKS);
    v.push(CMD_TAB_SWITCH);
    v.push(CMD_TAB_SWITCH_INDEX);
    v.push(CMD_TOGGLE_HIDDEN);
    v.push(CMD_TOGGLE_VISUAL);
    v.push(CMD_SWITCH_LINE_NUMBERS);
    v.push(CMD_SET_LINEMODE);
    v.push(CMD_TOUCH_FILE);
    v.push(CMD_HELP);
    v.push(CMD_SEARCH_FZF);
    v.push(CMD_SUBDIR_FZF);
    v.push(CMD_SELECT_FZF);
    v.push(CMD_ZOXIDE);
    v.push(CMD_ZOXIDE_INTERACTIVE);
    v.push(CMD_NUMBERED_COMMAND);
    v.push(CMD_FLAT);
    v.push(CMD_ESCAPE);
    v.push(CMD_FILTER_GLOB);
    v.push(CMD_FILTER_REGEX);
    v.push(CMD_FILTER_STRING);
    v.push(CMD_BOOKMARK_ADD);
    v.push(CMD_BOOKMARK_CHANGE_DIRECTORY);
    v.push(CMD_CUSTOM_SEARCH);
    v.push(CMD_CUSTOM_SEARCH_INTERACTIVE);
    assert(v@.map_values(|c: &str| c@) =~= spec_commands());
    v
}

/// A completion offered for what the user has typed: the text shown and
/// the text that replaces what was typed.
#[derive(Clone, Debug)]
pub struct CompletionPair {
    pub display: String,
    pub replacement: String,
}

/// The names among `cmds` that start with `partial`, in their order.
pub open spec fn spec_matching(cmds: Seq<Seq<char>>, partial: Seq<char>) -> Seq<Seq<char>>
    decreases cmds.len(),
{
    if cmds.len() == 0 {
        Seq::empty()
    } else {
        let rest = spec_matching(cmds.drop_last(), partial);
        if partial.is_prefix_of(cmds.last()) {
            rest.push(cmds.last())
        } else {
            rest
        }
    }
}

/// Whether `s` starts with `prefix`.
fn starts_with(s: &str, prefix: &Vec<char>) -> (r: bool)
    ensures
        r == prefix@.is_prefix_of(s@),
{
    let v = str_to_chars(s);
    if prefix.len() > v.len() {
        return false;
    }
    let mut i: usize = 0;
    while i < prefix.len()
        invariant
            v@ == s@,
            prefix@.len() <= v@.len(),
            i <= prefix@.len(),
            forall|j: int| 0 <= j < i ==> prefix@[j] == v@[j],
        decreases prefix@.len() - i,
    {
        if prefix[i] != v[i] {
            return false;
        }
        i = i + 1;
    }
    assert(prefix@ =~= v@.take(prefix@.len() as int));
    true
}

/// The commands whose names start with `partial_command`, each offered with
/// its name shown and as the replacement.
pub fn complete_command(partial_command: &str) -> (r: Vec<CompletionPair>)
    ensures
        r@.len() == spec_matching(spec_commands(), partial_command@).len(),
        forall|i: int|
            0 <= i < r@.len() ==> #[trigger] r@[i].display@ == spec_matching(
                spec_commands(),
                partial_command@,
            )[i] && r@[i].replacement@ == spec_matching(spec_commands(), partial_command@)[i],
{
    let cmds = commands();
    let ghost all = cmds@.map_values(|c: &str| c@);
    let partial = str_to_chars(partial_command);
    let mut out: Vec<CompletionPair> = Vec::new();
    let mut i: usize = 0;
    while i < cmds.len()
        invariant
            i <= cmds@.len(),
            all == cmds@.map_values(|c: &str| c@),
            partial@ == partial_command@,
            out@.len() == spec_matching(all.take(i as int), partial@).len(),
            forall|j: int|
                0 <= j < out@.len() ==> #[trigger] out@[j].display@ == spec_matching(
                    all.take(i as int),
                    partial@,
                )[j] && out@[j].replacement@ == spec_matching(all.take(i as int), partial@)[j],
        decreases cmds@.len() - i,
    {
        let c = cmds[i];
        assert(all.take(i + 1).drop_last() =~= all.take(i as int));
        assert(all.take(i + 1).last() == c@);
        if starts_with(c, &partial) {
            out.push(CompletionPair { display: String::from_str(c), replacement: String::from_str(c) });
        }
        i = i + 1;
    }
    assert(all.take(i as int) =~= all);
    assert(all == spec_commands());
    assert(spec_matching(all.take(i as int), partial@) == spec_matching(spec_commands(), partial_command@));
    out
}

} // verus!
