use vstd::prelude::*;

verus! {

/// What quitting does besides closing the program.
#[derive(Clone, Copy, Debug, PartialEq, Eq, Structural)]
pub enum QuitAction {
    Noop,
    Force,
    OutputCurrentDirectory,
    OutputSelectedFiles,
}

/// Where a new tab opens.
#[derive(Clone, Debug)]
pub enum NewTabMode {
    /// In the default directory.
    Default,
    /// In the directory of the current tab.
    CurrentTabDir,
    /// In the directory under the cursor.
    CursorDir,
    /// In the given directory.
    Directory(String),
}

/// The order of a directory listing.
#[derive(Clone, Copy, Debug, PartialEq, Eq, Structural)]
pub enum SortType {
    Lexical,
    Mtime,
    Natural,
    Size,
    Ext,
}

/// The detail shown beside each file name.
#[derive(Clone, Copy, Debug, PartialEq, Eq, Structural)]
pub enum LineMode {
    Size,
    Mtime,
    User,
    Group,
    Perm,
}

/// How lines of a listing are numbered.
#[derive(Clone, Copy, Debug, PartialEq, Eq, Structural)]
pub enum LineNumberStyle {
    /// No numbers.
    Off,
    Absolute,
    Relative,
}

/// How a selection by pattern acts on the entries.
#[derive(Clone, Copy, Debug, PartialEq, Eq, Structural)]
pub struct SelectOption {
    pub toggle: bool,
    pub all: bool,
    pub reverse: bool,
}

/// How a paste treats files that exist already at the destination.
#[derive(Clone, Copy, Debug, PartialEq, Eq, Structural)]
pub struct FileOperationOptions {
    pub overwrite: bool,
    pub skip_exist: bool,
}

/// Whether searches tell upper from lower case.
#[derive(Clone, Copy, Debug, PartialEq, Eq, Structural)]
pub enum CaseSensitivity {
    Insensitive,
    Sensitive,
    Smart,
}

/// Which searches a case sensitivity applies to.
#[derive(Clone, Copy, Debug, PartialEq, Eq, Structural)]
pub enum SetType {
    String,
    Glob,
    Regex,
    Fzf,
}

/// How a shell command is run.
#[derive(Clone, Copy, Debug, PartialEq, Eq, Structural)]
pub enum SubprocessCallMode {
    /// In the foreground, with the terminal.
    Interactive,
    /// In the background.
    Spawn,
}

/// What is done with the output of a command.
#[derive(Clone, Copy, Debug, PartialEq, Eq, Structural)]
pub enum PostProcessor {
    ChangeDirectory,
}

/// A command of the program, as a keymap or the command line names it.
#[derive(Clone, Debug)]
pub enum Command {
    Escape,
    ToggleVisualMode,
    BulkRename,
    ChangeDirectory { path: String },
    ParentDirectory,
    PreviousDirectory,
    CommandLine { prefix: String, suffix: String },
    CutFiles,
    CopyFiles,
    CopyFileName,
    CopyFileNameWithoutExtension,
    CopyFilePath { all_selected: bool },
    CopyDirPath,
    SymlinkFiles { relative: bool },
    PasteFiles { options: FileOperationOptions },
    DeleteFiles { background: bool, permanently: bool, noconfirm: bool },
    CursorMoveUp { offset: usize },
    CursorMoveDown { offset: usize },
    CursorMoveHome,
    CursorMoveEnd,
    /// Moves up by a part of a page; the part is the argument as written,
    /// read as a number (1 where it is none) where the screen is known.
    CursorMovePageUp(String),
    /// Moves down by a part of a page, written as for `CursorMovePageUp`.
    CursorMovePageDown(String),
    CursorMovePageHome,
    CursorMovePageMiddle,
    CursorMovePageEnd,
    SetLineMode(LineMode),
    ParentCursorMoveUp { offset: usize },
    ParentCursorMoveDown { offset: usize },
    PreviewCursorMoveUp { offset: usize },
    PreviewCursorMoveDown { offset: usize },
    NewDirectory { path: String },
    OpenFile,
    OpenFileWith { index: Option<usize> },
    Quit(QuitAction),
    ReloadDirList,
    RenameFile { new_name: String },
    RenameFileAppend,
    RenameFileAppendBase,
    RenameFilePrepend,
    RenameFileKeepExt,
    TouchFile { file_name: String },
    SearchGlob { pattern: String },
    SearchRegex { pattern: String },
    SearchString { pattern: String },
    SearchIncremental { pattern: String },
    SearchNext,
    SearchPrev,
    SelectGlob { pattern: String, options: SelectOption },
    SelectRegex { pattern: String, options: SelectOption },
    SelectString { pattern: String, options: SelectOption },
    SetCaseSensitivity { case_sensitivity: CaseSensitivity, set_type: SetType },
    SetMode,
    SubProcess { words: Vec<String>, mode: SubprocessCallMode },
    ShowTasks,
    ToggleHiddenFiles,
    SwitchLineNums(LineNumberStyle),
    Flat { depth: usize },
    NumberedCommand { initial: char },
    Sort { sort_type: SortType, reverse: Option<bool> },
    SortReverse,
    FilterGlob { pattern: String },
    FilterRegex { pattern: String },
    FilterString { pattern: String },
    NewTab { mode: NewTabMode },
    CloseTab,
    TabSwitch { offset: i32 },
    TabSwitchIndex { index: usize },
    Help,
    SearchFzf,
    SubdirFzf,
    SelectFzf { options: SelectOption },
    StdOutPostProcess { processor: PostProcessor },
    Zoxide(String),
    ZoxideInteractive,
    CustomSearch(Vec<String>),
    CustomSearchInteractive(Vec<String>),
    BookmarkAdd,
    BookmarkChangeDirectory,
}

/// The kinds of errors of the program.
#[derive(Clone, Copy, Debug, PartialEq, Eq, Structural)]
pub enum JoshutoErrorKind {
    EnvVarNotPresent,
    ParseError,
    InvalidParameters,
    UnrecognizedArgument,
    UnrecognizedCommand,
}

/// An error with its kind and a message for the user.
#[derive(Clone, Debug)]
pub struct JoshutoError {
    pub kind: JoshutoErrorKind,
    pub message: String,
}

impl JoshutoError {
    /// An error of `kind` with `message`.
    pub fn new(kind: JoshutoErrorKind, message: String) -> (r: Self)
        ensures
            r.kind == kind,
            r.message@ == message@,
    {
        JoshutoError { kind, message }
    }
}

} // verus!
