use vstd::prelude::*;

use super::command::{Command, SubprocessCallMode};
use super::constants::{
    CMD_BOOKMARK_ADD, CMD_BOOKMARK_CHANGE_DIRECTORY, CMD_BULK_RENAME, CMD_CHANGE_DIRECTORY, CMD_CLOSE_TAB, CMD_COMMAND_LINE, CMD_COPY_DIRECTORY_PATH, CMD_COPY_FILENAME, CMD_COPY_FILENAME_WITHOUT_EXTENSION, CMD_COPY_FILEPATH, CMD_COPY_FILES, CMD_CURSOR_MOVE_DOWN, CMD_CURSOR_MOVE_END, CMD_CURSOR_MOVE_HOME, CMD_CURSOR_MOVE_PAGEDOWN, CMD_CURSOR_MOVE_PAGEUP, CMD_CURSOR_MOVE_UP, CMD_CUSTOM_SEARCH, CMD_CUSTOM_SEARCH_INTERACTIVE, CMD_CUT_FILES, CMD_DELETE_FILES, CMD_ESCAPE, CMD_FILTER_GLOB, CMD_FILTER_REGEX, CMD_FILTER_STRING, CMD_FLAT, CMD_HELP, CMD_NEW_DIRECTORY, CMD_NEW_TAB, CMD_NUMBERED_COMMAND, CMD_OPEN_FILE, CMD_OPEN_FILE_WITH, CMD_PARENT_CURSOR_MOVE_DOWN, CMD_PARENT_CURSOR_MOVE_UP, CMD_PARENT_DIRECTORY, CMD_PASTE_FILES, CMD_PREVIEW_CURSOR_MOVE_DOWN, CMD_PREVIEW_CURSOR_MOVE_UP, CMD_PREVIOUS_DIRECTORY, CMD_QUIT, CMD_RELOAD_DIRECTORY_LIST, CMD_RENAME_FILE, CMD_RENAME_FILE_APPEND, CMD_RENAME_FILE_APPEND_BASE, CMD_RENAME_FILE_KEEP_EXT, CMD_RENAME_FILE_PREPEND, CMD_SEARCH_FZF, CMD_SEARCH_GLOB, CMD_SEARCH_INCREMENTAL, CMD_SEARCH_NEXT, CMD_SEARCH_PREV, CMD_SEARCH_REGEX, CMD_SEARCH_STRING, CMD_SELECT_FZF, CMD_SELECT_GLOB, CMD_SELECT_REGEX, CMD_SELECT_STRING, CMD_SET_CASE_SENSITIVITY, CMD_SET_LINEMODE, CMD_SET_MODE, CMD_SHOW_TASKS, CMD_SORT, CMD_SORT_REVERSE, CMD_STDOUT_POST_PROCESS, CMD_SUBDIR_FZF, CMD_SUBPROCESS_BACKGROUND, CMD_SUBPROCESS_FOREGROUND, CMD_SWITCH_LINE_NUMBERS, CMD_SYMLINK_FILES, CMD_TAB_SWITCH, CMD_TAB_SWITCH_INDEX, CMD_TOGGLE_HIDDEN, CMD_TOGGLE_VISUAL, CMD_TOUCH_FILE, CMD_ZOXIDE, CMD_ZOXIDE_INTERACTIVE,
};
use super::traits::AppCommand;

verus! {

/// The name each command is written with.
pub open spec fn spec_command_name(c: Command) -> Seq<char> {
    match c {
        Command::Escape => CMD_ESCAPE@,
        Command::ToggleVisualMode => CMD_TOGGLE_VISUAL@,
        Command::BulkRename => CMD_BULK_RENAME@,
        Command::ChangeDirectory { .. } => CMD_CHANGE_DIRECTORY@,
        Command::ParentDirectory => CMD_PARENT_DIRECTORY@,
        Command::PreviousDirectory => CMD_PREVIOUS_DIRECTORY@,
        Command::CommandLine { .. } => CMD_COMMAND_LINE@,
        Command::CutFiles => CMD_CUT_FILES@,
        Command::CopyFiles => CMD_COPY_FILES@,
        Command::CopyFileName => CMD_COPY_FILENAME@,
        Command::CopyFileNameWithoutExtension => CMD_COPY_FILENAME_WITHOUT_EXTENSION@,
        Command::CopyFilePath { .. } => CMD_COPY_FILEPATH@,
        Command::CopyDirPath => CMD_COPY_DIRECTORY_PATH@,
        Command::SymlinkFiles { .. } => CMD_SYMLINK_FILES@,
        Command::PasteFiles { .. } => CMD_PASTE_FILES@,
        Command::DeleteFiles { .. } => CMD_DELETE_FILES@,
        Command::CursorMoveUp { .. } => CMD_CURSOR_MOVE_UP@,
        Command::CursorMoveDown { .. } => CMD_CURSOR_MOVE_DOWN@,
        Command::CursorMoveHome => CMD_CURSOR_MOVE_HOME@,
        Command::CursorMoveEnd => CMD_CURSOR_MOVE_END@,
        Command::CursorMovePageUp(_) => CMD_CURSOR_MOVE_PAGEUP@,
        Command::CursorMovePageDown(_) => CMD_CURSOR_MOVE_PAGEDOWN@,
        Command::CursorMovePageHome => CMD_CURSOR_MOVE_PAGEUP@,
        Command::CursorMovePageMiddle => CMD_CURSOR_MOVE_PAGEDOWN@,
        Command::CursorMovePageEnd => CMD_CURSOR_MOVE_PAGEDOWN@,
        Command::SetLineMode(_) => CMD_SET_LINEMODE@,
        Command::ParentCursorMoveUp { .. } => CMD_PARENT_CURSOR_MOVE_UP@,
        Command::ParentCursorMoveDown { .. } => CMD_PARENT_CURSOR_MOVE_DOWN@,
        Command::PreviewCursorMoveUp { .. } => CMD_PREVIEW_CURSOR_MOVE_UP@,
        Command::PreviewCursorMoveDown { .. } => CMD_PREVIEW_CURSOR_MOVE_DOWN@,
        Command::NewDirectory { .. } => CMD_NEW_DIRECTORY@,
        Command::OpenFile => CMD_OPEN_FILE@,
        Command::OpenFileWith { .. } => CMD_OPEN_FILE_WITH@,
        Command::Quit(_) => CMD_QUIT@,
        Command::ReloadDirList => CMD_RELOAD_DIRECTORY_LIST@,
        Command::RenameFile { .. } => CMD_RENAME_FILE@,
        Command::RenameFileAppend => CMD_RENAME_FILE_APPEND@,
        Command::RenameFileAppendBase => CMD_RENAME_FILE_APPEND_BASE@,
        Command::RenameFilePrepend => CMD_RENAME_FILE_PREPEND@,
        Command::RenameFileKeepExt => CMD_RENAME_FILE_KEEP_EXT@,
        Command::TouchFile { .. } => CMD_TOUCH_FILE@,
        Command::SearchGlob { .. } => CMD_SEARCH_GLOB@,
        Command::SearchRegex { .. } => CMD_SEARCH_REGEX@,
        Command::SearchString { .. } => CMD_SEARCH_STRING@,
        Command::SearchIncremental { .. } => CMD_SEARCH_INCREMENTAL@,
        Command::SearchNext => CMD_SEARCH_NEXT@,
        Command::SearchPrev => CMD_SEARCH_PREV@,
        Command::SelectGlob { .. } => CMD_SELECT_GLOB@,
        Command::SelectRegex { .. } => CMD_SELECT_REGEX@,
        Command::SelectString { .. } => CMD_SELECT_STRING@,
        Command::SetCaseSensitivity { .. } => CMD_SET_CASE_SENSITIVITY@,
        Command::SetMode => CMD_SET_MODE@,
        Command::SubProcess { mode: SubprocessCallMode::Interactive, .. } => CMD_SUBPROCESS_FOREGROUND@,
        Command::SubProcess { mode: SubprocessCallMode::Spawn, .. } => CMD_SUBPROCESS_BACKGROUND@,
        Command::ShowTasks => CMD_SHOW_TASKS@,
        Command::ToggleHiddenFiles => CMD_TOGGLE_HIDDEN@,
        Command::SwitchLineNums(_) => CMD_SWITCH_LINE_NUMBERS@,
        Command::Flat { .. } => CMD_FLAT@,
        Command::NumberedCommand { .. } => CMD_NUMBERED_COMMAND@,
        Command::Sort { .. } => CMD_SORT@,
        Command::SortReverse => CMD_SORT_REVERSE@,
        Command::FilterGlob { .. } => CMD_FILTER_GLOB@,
        Command::FilterRegex { .. } => CMD_FILTER_REGEX@,
        Command::FilterString { .. } => CMD_FILTER_STRING@,
        Command::NewTab { .. } => CMD_NEW_TAB@,
        Command::CloseTab => CMD_CLOSE_TAB@,
        Command::TabSwitch { .. } => CMD_TAB_SWITCH@,
        Command::TabSwitchIndex { .. } => CMD_TAB_SWITCH_INDEX@,
        Command::Help => CMD_HELP@,
        Command::SearchFzf => CMD_SEARCH_FZF@,
        Command::SubdirFzf => CMD_SUBDIR_FZF@,
        Command::SelectFzf { .. } => CMD_SELECT_FZF@,
        Command::StdOutPostProcess { .. } => CMD_STDOUT_POST_PROCESS@,
        Command::Zoxide(_) => CMD_ZOXIDE@,
        Command::ZoxideInteractive => CMD_ZOXIDE_INTERACTIVE@,
        Command::CustomSearch(_) => CMD_CUSTOM_SEARCH@,
        Command::CustomSearchInteractive(_) => CMD_CUSTOM_SEARCH_INTERACTIVE@,
        Command::BookmarkAdd => CMD_BOOKMARK_ADD@,
        Command::BookmarkChangeDirectory => CMD_BOOKMARK_CHANGE_DIRECTORY@,
    }
}

impl AppCommand for Command {
    /// The name the command is written with, as `spec_command_name` says.
    fn command(&self) -> (r: &'static str)
        ensures
            r@ == spec_command_name(*self),
    {
        match self {
            Command::Escape => CMD_ESCAPE,
            Command::ToggleVisualMode => CMD_TOGGLE_VISUAL,
            Command::BulkRename => CMD_BULK_RENAME,
            Command::ChangeDirectory { .. } => CMD_CHANGE_DIRECTORY,
            Command::ParentDirectory => CMD_PARENT_DIRECTORY,
            Command::PreviousDirectory => CMD_PREVIOUS_DIRECTORY,
            Command::CommandLine { .. } => CMD_COMMAND_LINE,
            Command::CutFiles => CMD_CUT_FILES,
            Command::CopyFiles => CMD_COPY_FILES,
            Command::CopyFileName => CMD_COPY_FILENAME,
            Command::CopyFileNameWithoutExtension => CMD_COPY_FILENAME_WITHOUT_EXTENSION,
            Command::CopyFilePath { .. } => CMD_COPY_FILEPATH,
            Command::CopyDirPath => CMD_COPY_DIRECTORY_PATH,
            Command::SymlinkFiles { .. } => CMD_SYMLINK_FILES,
            Command::PasteFiles { .. } => CMD_PASTE_FILES,
            Command::DeleteFiles { .. } => CMD_DELETE_FILES,
            Command::CursorMoveUp { .. } => CMD_CURSOR_MOVE_UP,
            Command::CursorMoveDown { .. } => CMD_CURSOR_MOVE_DOWN,
            Command::CursorMoveHome => CMD_CURSOR_MOVE_HOME,
            Command::CursorMoveEnd => CMD_CURSOR_MOVE_END,
            Command::CursorMovePageUp(_) => CMD_CURSOR_MOVE_PAGEUP,
            Command::CursorMovePageDown(_) => CMD_CURSOR_MOVE_PAGEDOWN,
            Command::CursorMovePageHome => CMD_CURSOR_MOVE_PAGEUP,
            Command::CursorMovePageMiddle => CMD_CURSOR_MOVE_PAGEDOWN,
            Command::CursorMovePageEnd => CMD_CURSOR_MOVE_PAGEDOWN,
            Command::SetLineMode(_) => CMD_SET_LINEMODE,
            Command::ParentCursorMoveUp { .. } => CMD_PARENT_CURSOR_MOVE_UP,
            Command::ParentCursorMoveDown { .. } => CMD_PARENT_CURSOR_MOVE_DOWN,
            Command::PreviewCursorMoveUp { .. } => CMD_PREVIEW_CURSOR_MOVE_UP,
            Command::PreviewCursorMoveDown { .. } => CMD_PREVIEW_CURSOR_MOVE_DOWN,
            Command::NewDirectory { .. } => CMD_NEW_DIRECTORY,
            Command::OpenFile => CMD_OPEN_FILE,
            Command::OpenFileWith { .. } => CMD_OPEN_FILE_WITH,
            Command::Quit(_) => CMD_QUIT,
            Command::ReloadDirList => CMD_RELOAD_DIRECTORY_LIST,
            Command::RenameFile { .. } => CMD_RENAME_FILE,
            Command::RenameFileAppend => CMD_RENAME_FILE_APPEND,
            Command::RenameFileAppendBase => CMD_RENAME_FILE_APPEND_BASE,
            Command::RenameFilePrepend => CMD_RENAME_FILE_PREPEND,
            Command::RenameFileKeepExt => CMD_RENAME_FILE_KEEP_EXT,
            Command::TouchFile { .. } => CMD_TOUCH_FILE,
            Command::SearchGlob { .. } => CMD_SEARCH_GLOB,
            Command::SearchRegex { .. } => CMD_SEARCH_REGEX,
            Command::SearchString { .. } => CMD_SEARCH_STRING,
            Command::SearchIncremental { .. } => CMD_SEARCH_INCREMENTAL,
            Command::SearchNext => CMD_SEARCH_NEXT,
            Command::SearchPrev => CMD_SEARCH_PREV,
            Command::SelectGlob { .. } => CMD_SELECT_GLOB,
            Command::SelectRegex { .. } => CMD_SELECT_REGEX,
            Command::SelectString { .. } => CMD_SELECT_STRING,
            Command::SetCaseSensitivity { .. } => CMD_SET_CASE_SENSITIVITY,
            Command::SetMode => CMD_SET_MODE,
            Command::SubProcess { mode: SubprocessCallMode::Interactive, .. } => CMD_SUBPROCESS_FOREGROUND,
            Command::SubProcess { mode: SubprocessCallMode::Spawn, .. } => CMD_SUBPROCESS_BACKGROUND,
            Command::ShowTasks => CMD_SHOW_TASKS,
            Command::ToggleHiddenFiles => CMD_TOGGLE_HIDDEN,
            Command::SwitchLineNums(_) => CMD_SWITCH_LINE_NUMBERS,
            Command::Flat { .. } => CMD_FLAT,
            Command::NumberedCommand { .. } => CMD_NUMBERED_COMMAND,
            Command::Sort { .. } => CMD_SORT,
            Command::SortReverse => CMD_SORT_REVERSE,
            Command::FilterGlob { .. } => CMD_FILTER_GLOB,
            Command::FilterRegex { .. } => CMD_FILTER_REGEX,
            Command::FilterString { .. } => CMD_FILTER_STRING,
            Command::NewTab { .. } => CMD_NEW_TAB,
            Command::CloseTab => CMD_CLOSE_TAB,
            Command::TabSwitch { .. } => CMD_TAB_SWITCH,
            Command::TabSwitchIndex { .. } => CMD_TAB_SWITCH_INDEX,
            Command::Help => CMD_HELP,
            Command::SearchFzf => CMD_SEARCH_FZF,
            Command::SubdirFzf => CMD_SUBDIR_FZF,
            Command::SelectFzf { .. } => CMD_SELECT_FZF,
            Command::StdOutPostProcess { .. } => CMD_STDOUT_POST_PROCESS,
            Command::Zoxide(_) => CMD_ZOXIDE,
            Command::ZoxideInteractive => CMD_ZOXIDE_INTERACTIVE,
            Command::CustomSearch(_) => CMD_CUSTOM_SEARCH,
            Command::CustomSearchInteractive(_) => CMD_CUSTOM_SEARCH_INTERACTIVE,
            Command::BookmarkAdd => CMD_BOOKMARK_ADD,
            Command::BookmarkChangeDirectory => CMD_BOOKMARK_CHANGE_DIRECTORY,
        }
    }
}

} // verus!
