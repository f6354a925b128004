use vstd::prelude::*;

use super::command::{Command, FileOperationOptions, LineMode, SortType, SubprocessCallMode};
use super::traits::CommandComment;
use crate::text::{chars_eq, skip_whitespace, spec_trim, str_to_chars, sub_chars, trailing_whitespace_start};

verus! {

broadcast use vstd::string::group_string_axioms;

/// What the command line does, by the command it is opened with.
pub open spec fn spec_command_line_comment(prefix: Seq<char>) -> Seq<char> {
    let p = spec_trim(prefix);
    if p == "cd"@ {
        "Change directory"@
    } else if p == "search"@ {
        "Open a search prompt"@
    } else if p == "search_glob"@ {
        "Glob search"@
    } else if p == "rename"@ {
        "Rename selected file"@
    } else if p == "touch"@ {
        "Touch file"@
    } else if p == "mkdir"@ {
        "Make a new directory"@
    } else {
        "Open a command line"@
    }
}

/// What each command does, as the help page says it.
pub open spec fn spec_comment(c: Command) -> Seq<char> {
    match c {
        Command::SetLineMode(m) => match m {
            LineMode::Size => "Show files with size"@,
            LineMode::Mtime => "Show files with modified time"@,
            LineMode::User => "Show files with user"@,
            LineMode::Group => "Show files with group"@,
            LineMode::Perm => "Show files with permission"@,
        },
        Command::CommandLine { prefix, .. } => spec_command_line_comment(prefix@),
        Command::CopyFilePath { all_selected } => if all_selected {
            "Copy all selected paths to file"@
        } else {
            "Copy path to file"@
        },
        Command::PasteFiles { options } => if options.overwrite && !options.skip_exist {
            "Paste, overwrite"@
        } else if !options.overwrite && options.skip_exist {
            "Paste, skip existing files"@
        } else {
            "Paste"@
        },
        Command::Sort { sort_type, .. } => match sort_type {
            SortType::Lexical => "Sort lexically"@,
            SortType::Mtime => "Sort by modification time"@,
            SortType::Natural => "Sort naturally"@,
            SortType::Size => "Sort by size"@,
            SortType::Ext => "Sort by extension"@,
        },
        Command::Escape => "Escape from visual mode (cancel)"@,
        Command::BulkRename => "Bulk rename"@,
        Command::ToggleVisualMode => "Toggle visual mode"@,
        Command::ChangeDirectory { .. } => "Change directory"@,
        Command::ParentDirectory => "CD to parent directory"@,
        Command::PreviousDirectory => "CD to the last dir in history"@,
        Command::NewTab { .. } => "Open a new tab"@,
        Command::CloseTab => "Close current tab"@,
        Command::CutFiles => "Cut selected files"@,
        Command::CopyFiles => "Copy selected files"@,
        Command::CopyFileName => "Copy filename"@,
        Command::CopyFileNameWithoutExtension => "Copy filename without extension"@,
        Command::CopyDirPath => "Copy directory name"@,
        Command::SymlinkFiles { .. } => "Symlink selected files"@,
        Command::DeleteFiles { .. } => "Delete selected files"@,
        Command::CursorMoveUp { .. } => "Move cursor up"@,
        Command::CursorMoveDown { .. } => "Move cursor down"@,
        Command::CursorMoveHome => "Move cursor to the very top"@,
        Command::CursorMoveEnd => "Move cursor to the ver bottom"@,
        Command::CursorMovePageUp(_) => "Move cursor one page up"@,
        Command::CursorMovePageDown(_) => "Move cursor one page down"@,
        Command::CursorMovePageHome => "Move cursor to top of page"@,
        Command::CursorMovePageMiddle => "Move cursor to middle of page"@,
        Command::CursorMovePageEnd => "Move cursor to bottom of page"@,
        Command::ParentCursorMoveUp { .. } => "Cursor up in parent list"@,
        Command::ParentCursorMoveDown { .. } => "Cursor down in parent list"@,
        Command::PreviewCursorMoveUp { .. } => "Cursor up in file preview"@,
        Command::PreviewCursorMoveDown { .. } => "Cursor down in file preview"@,
        Command::NewDirectory { .. } => "Make a new directory"@,
        Command::OpenFile => "Open a file"@,
        Command::OpenFileWith { .. } => "Open using selected program"@,
        Command::Quit(_) => "Quit the program"@,
        Command::ReloadDirList => "Reload current dir listing"@,
        Command::RenameFile { .. } => "Rename file"@,
        Command::TouchFile { .. } => "Touch file"@,
        Command::RenameFileAppend => "Rename a file"@,
        Command::RenameFileAppendBase => "Rename a file"@,
        Command::RenameFilePrepend => "Rename a file"@,
        Command::RenameFileKeepExt => "Rename a file"@,
        Command::SearchString { .. } => "Search"@,
        Command::SearchIncremental { .. } => "Search as you type"@,
        Command::SearchGlob { .. } => "Search with globbing"@,
        Command::SearchRegex { .. } => "Search with regex"@,
        Command::SearchNext => "Next search entry"@,
        Command::SearchPrev => "Previous search entry"@,
        Command::SelectGlob { .. } => "Select files with globbing"@,
        Command::SelectRegex { .. } => "Select files with regex"@,
        Command::SelectString { .. } => "Select files"@,
        Command::SetCaseSensitivity { .. } => "Set case sensitivity"@,
        Command::SetMode => "Set file permissions"@,
        Command::SubProcess { mode: SubprocessCallMode::Interactive, .. } => "Run a shell command"@,
        Command::SubProcess { mode: SubprocessCallMode::Spawn, .. } => "Run command in background"@,
        Command::ShowTasks => "Show running background tasks"@,
        Command::ToggleHiddenFiles => "Toggle hidden files displaying"@,
        Command::SwitchLineNums(_) => "Switch line numbering"@,
        Command::Flat { .. } => "Flattern directory list"@,
        Command::NumberedCommand { .. } => "Jump via input number"@,
        Command::SortReverse => "Reverse sort order"@,
        Command::FilterGlob { .. } => "Filter directory list with globbing"@,
        Command::FilterRegex { .. } => "Filter directory list with regex"@,
        Command::FilterString { .. } => "Filter directory list"@,
        Command::TabSwitch { .. } => "Switch to the next tab"@,
        Command::TabSwitchIndex { .. } => "Switch to a given tab"@,
        Command::Help => "Open this help page"@,
        Command::SearchFzf => "Search via fzf"@,
        Command::SubdirFzf => "Switch to a child directory via fzf"@,
        Command::SelectFzf { .. } => "Select via fzf"@,
        Command::StdOutPostProcess { .. } => "Handle the output of the last command"@,
        Command::Zoxide(_) => "Zoxide"@,
        Command::ZoxideInteractive => "Zoxide interactive"@,
        Command::BookmarkAdd => "Add a bookmark"@,
        Command::BookmarkChangeDirectory => "Navigate to a bookmark"@,
        Command::CustomSearch(_) => "Find file based on the custom command"@,
        Command::CustomSearchInteractive(_) => "Interactively find file based on the custom command"@,
    }
}

/// What the command line does, by the command `prefix` it is opened with.
fn command_line_comment(prefix: &String) -> (r: &'static str)
    ensures
        r@ == spec_command_line_comment(prefix@),
{
    let v = str_to_chars(prefix.as_str());
    let start = skip_whitespace(v.as_slice(), 0, v.len());
    let end = trailing_whitespace_start(v.as_slice(), start, v.len());
    let p = sub_chars(v.as_slice(), start, end);
    assert(v@.subrange(0, v@.len() as int) =~= v@);
    assert(p@ == spec_trim(prefix@));
    if chars_eq(p.as_slice(), "cd") {
        proof { reveal_strlit("Change directory"); }
        "Change directory"
    } else if chars_eq(p.as_slice(), "search") {
        proof { reveal_strlit("Open a search prompt"); }
        "Open a search prompt"
    } else if chars_eq(p.as_slice(), "search_glob") {
        proof { reveal_strlit("Glob search"); }
        "Glob search"
    } else if chars_eq(p.as_slice(), "rename") {
        proof { reveal_strlit("Rename selected file"); }
        "Rename selected file"
    } else if chars_eq(p.as_slice(), "touch") {
        proof { reveal_strlit("Touch file"); }
        "Touch file"
    } else if chars_eq(p.as_slice(), "mkdir") {
        proof { reveal_strlit("Make a new directory"); }
        "Make a new directory"
    } else {
        proof { reveal_strlit("Open a command line"); }
        "Open a command line"
    }
}

impl CommandComment for Command {
    /// What the command does, as `spec_comment` says.
    fn comment(&self) -> (r: &'static str)
        ensures
            r@ == spec_comment(*self),
    {
        match self {
            Command::SetLineMode(m) => match m {
                LineMode::Size => "Show files with size",
                LineMode::Mtime => "Show files with modified time",
                LineMode::User => "Show files with user",
                LineMode::Group => "Show files with group",
                LineMode::Perm => "Show files with permission",
            },
            Command::CommandLine { prefix, .. } => command_line_comment(prefix),
            Command::CopyFilePath { all_selected } => if *all_selected {
                "Copy all selected paths to file"
            } else {
                "Copy path to file"
            },
            Command::PasteFiles { options } => if options.overwrite && !options.skip_exist {
                "Paste, overwrite"
            } else if !options.overwrite && options.skip_exist {
                "Paste, skip existing files"
            } else {
                "Paste"
            },
            Command::Sort { sort_type, .. } => match sort_type {
                SortType::Lexical => "Sort lexically",
                SortType::Mtime => "Sort by modification time",
                SortType::Natural => "Sort naturally",
                SortType::Size => "Sort by size",
                SortType::Ext => "Sort by extension",
            },
            Command::Escape => "Escape from visual mode (cancel)",
            Command::BulkRename => "Bulk rename",
            Command::ToggleVisualMode => "Toggle visual mode",
            Command::ChangeDirectory { .. } => "Change directory",
            Command::ParentDirectory => "CD to parent directory",
            Command::PreviousDirectory => "CD to the last dir in history",
            Command::NewTab { .. } => "Open a new tab",
            Command::CloseTab => "Close current tab",
            Command::CutFiles => "Cut selected files",
            Command::CopyFiles => "Copy selected files",
            Command::CopyFileName => "Copy filename",
            Command::CopyFileNameWithoutExtension => "Copy filename without extension",
            Command::CopyDirPath => "Copy directory name",
            Command::SymlinkFiles { .. } => "Symlink selected files",
            Command::DeleteFiles { .. } => "Delete selected files",
            Command::CursorMoveUp { .. } => "Move cursor up",
            Command::CursorMoveDown { .. } => "Move cursor down",
            Command::CursorMoveHome => "Move cursor to the very top",
            Command::CursorMoveEnd => "Move cursor to the ver bottom",
            Command::CursorMovePageUp(_) => "Move cursor one page up",
            Command::CursorMovePageDown(_) => "Move cursor one page down",
            Command::CursorMovePageHome => "Move cursor to top of page",
            Command::CursorMovePageMiddle => "Move cursor to middle of page",
            Command::CursorMovePageEnd => "Move cursor to bottom of page",
            Command::ParentCursorMoveUp { .. } => "Cursor up in parent list",
            Command::ParentCursorMoveDown { .. } => "Cursor down in parent list",
            Command::PreviewCursorMoveUp { .. } => "Cursor up in file preview",
            Command::PreviewCursorMoveDown { .. } => "Cursor down in file preview",
            Command::NewDirectory { .. } => "Make a new directory",
            Command::OpenFile => "Open a file",
            Command::OpenFileWith { .. } => "Open using selected program",
            Command::Quit(_) => "Quit the program",
            Command::ReloadDirList => "Reload current dir listing",
            Command::RenameFile { .. } => "Rename file",
            Command::TouchFile { .. } => "Touch file",
            Command::RenameFileAppend => "Rename a file",
            Command::RenameFileAppendBase => "Rename a file",
            Command::RenameFilePrepend => "Rename a file",
            Command::RenameFileKeepExt => "Rename a file",
            Command::SearchString { .. } => "Search",
            Command::SearchIncremental { .. } => "Search as you type",
            Command::SearchGlob { .. } => "Search with globbing",
            Command::SearchRegex { .. } => "Search with regex",
            Command::SearchNext => "Next search entry",
            Command::SearchPrev => "Previous search entry",
            Command::SelectGlob { .. } => "Select files with globbing",
            Command::SelectRegex { .. } => "Select files with regex",
            Command::SelectString { .. } => "Select files",
            Command::SetCaseSensitivity { .. } => "Set case sensitivity",
            Command::SetMode => "Set file permissions",
            Command::SubProcess { mode: SubprocessCallMode::Interactive, .. } => "Run a shell command",
            Command::SubProcess { mode: SubprocessCallMode::Spawn, .. } => "Run command in background",
            Command::ShowTasks => "Show running background tasks",
            Command::ToggleHiddenFiles => "Toggle hidden files displaying",
            Command::SwitchLineNums(_) => "Switch line numbering",
            Command::Flat { .. } => "Flattern directory list",
            Command::NumberedCommand { .. } => "Jump via input number",
            Command::SortReverse => "Reverse sort order",
            Command::FilterGlob { .. } => "Filter directory list with globbing",
            Command::FilterRegex { .. } => "Filter directory list with regex",
            Command::FilterString { .. } => "Filter directory list",
            Command::TabSwitch { .. } => "Switch to the next tab",
            Command::TabSwitchIndex { .. } => "Switch to a given tab",
            Command::Help => "Open this help page",
            Command::SearchFzf => "Search via fzf",
            Command::SubdirFzf => "Switch to a child directory via fzf",
            Command::SelectFzf { .. } => "Select via fzf",
            Command::StdOutPostProcess { .. } => "Handle the output of the last command",
            Command::Zoxide(_) => "Zoxide",
            Command::ZoxideInteractive => "Zoxide interactive",
            Command::BookmarkAdd => "Add a bookmark",
            Command::BookmarkChangeDirectory => "Navigate to a bookmark",
            Command::CustomSearch(_) => "Find file based on the custom command",
            Command::CustomSearchInteractive(_) => "Interactively find file based on the custom command",
        }
    }
}

} // verus!
