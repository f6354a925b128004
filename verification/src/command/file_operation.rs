use vstd::prelude::*;

verus! {

/// How pasting treats files that exist already at the destination.
#[derive(Clone, Copy, Debug, PartialEq, Eq, Structural)]
pub struct CopyOptions {
    pub overwrite: bool,
    pub skip_exist: bool,
}

impl CopyOptions {
    /// Neither overwrite nor skip existing files, as `fs_extra::dir::CopyOptions::new` starts.
    pub fn new() -> (r: Self)
        ensures
            !r.overwrite,
            !r.skip_exist,
    {
        CopyOptions { overwrite: false, skip_exist: false }
    }
}

/// Remembers the selected files to move them on the next paste.
#[derive(Clone, Copy, Debug, PartialEq, Eq, Structural)]
pub struct CutFiles;

impl CutFiles {
    /// The command.
    pub fn new() -> (r: Self)
        ensures
            r == CutFiles,
    {
        CutFiles
    }

    /// The name the command is written with in a keymap.
    pub fn command() -> (r: &'static str)
        ensures
            r@ == "cut_files"@,
    {
        proof {
            reveal_strlit("cut_files");
        }
        "cut_files"
    }

    /// The command as a keymap writes it: its name.
    pub fn to_string(&self) -> (r: String)
        ensures
            r@ == "cut_files"@,
    {
        String::from_str(Self::command())
    }
}

impl super::JoshutoCommand for CutFiles {}

/// Remembers the selected files to copy them on the next paste.
#[derive(Clone, Copy, Debug, PartialEq, Eq, Structural)]
pub struct CopyFiles;

impl CopyFiles {
    /// The command.
    pub fn new() -> (r: Self)
        ensures
            r == CopyFiles,
    {
        CopyFiles
    }

    /// The name the command is written with in a keymap.
    pub fn command() -> (r: &'static str)
        ensures
            r@ == "copy_files"@,
    {
        proof {
            reveal_strlit("copy_files");
        }
        "copy_files"
    }

    /// The command as a keymap writes it: its name.
    pub fn to_string(&self) -> (r: String)
        ensures
            r@ == "copy_files"@,
    {
        String::from_str(Self::command())
    }
}

impl super::JoshutoCommand for CopyFiles {}

/// Moves or copies the remembered files into the current directory.
#[derive(Clone, Copy, Debug, PartialEq, Eq, Structural)]
pub struct PasteFiles {
    pub options: CopyOptions,
}

impl PasteFiles {
    /// A paste with `options`.
    pub fn new(options: CopyOptions) -> (r: Self)
        ensures
            r.options == options,
    {
        PasteFiles { options }
    }

    /// The name the command is written with in a keymap.
    pub fn command() -> (r: &'static str)
        ensures
            r@ == "paste_files"@,
    {
        proof {
            reveal_strlit("paste_files");
        }
        "paste_files"
    }

    /// The command as shown to the user: its name and whether it overwrites.
    pub fn to_string(&self) -> (r: String)
        ensures
            r@ == "paste_files overwrite="@ + crate::text::spec_bool_str(self.options.overwrite),
    {
        proof {
            reveal_strlit("paste_files overwrite=");
        }
        let b = crate::text::bool_to_string(self.options.overwrite);
        crate::text::concat("paste_files overwrite=", b.as_str())
    }
}

impl super::JoshutoCommand for PasteFiles {}

/// Whether the next paste moves or copies the files chosen last.
#[derive(Clone, Copy, Debug, PartialEq, Eq, Structural)]
pub enum FileOp {
    Cut,
    Copy,
}

/// What the last cut or copy chose: the paths of the files, whether they
/// are moved or copied, and the tab they were chosen in. One value of it
/// holds what the program keeps between a cut or copy and the paste.
#[derive(Debug)]
pub struct FileOpState {
    pub selected_files: Vec<String>,
    pub fileop: FileOp,
    pub tab_src: usize,
}

impl FileOpState {
    /// Nothing chosen yet: no files, to be copied, from the first tab.
    pub fn new() -> (r: Self)
        ensures
            r.selected_files@.len() == 0,
            r.fileop == FileOp::Copy,
            r.tab_src == 0,
    {
        FileOpState { selected_files: Vec::new(), fileop: FileOp::Copy, tab_src: 0 }
    }

    /// Sets whether the next paste moves or copies the files.
    pub fn set_file_op(&mut self, operation: FileOp)
        ensures
            final(self).fileop == operation,
            final(self).selected_files@ == old(self).selected_files@,
            final(self).tab_src == old(self).tab_src,
    {
        self.fileop = operation;
    }

    /// Sets the tab the files were chosen in.
    pub fn set_tab_src(&mut self, tab_index: usize)
        ensures
            final(self).tab_src == tab_index,
            final(self).selected_files@ == old(self).selected_files@,
            final(self).fileop == old(self).fileop,
    {
        self.tab_src = tab_index;
    }

    /// Keeps the paths `paths` collected from the selection of a listing as
    /// the chosen files, where there are any, and says whether it did;
    /// otherwise nothing changes.
    pub fn repopulated_selected_files(&mut self, paths: Option<Vec<String>>) -> (r: bool)
        ensures
            r == paths.is_some(),
            match paths {
                Some(v) => final(self).selected_files@ == v@,
                None => final(self).selected_files@ == old(self).selected_files@,
            },
            final(self).fileop == old(self).fileop,
            final(self).tab_src == old(self).tab_src,
    {
        match paths {
            Some(v) => {
                self.selected_files = v;
                true
            },
            None => false,
        }
    }

    /// What a cut or a copy in the tab `curr_tab_index` does with the paths
    /// collected from the selection of its listing: where there are any, they
    /// become the chosen files, to be moved or copied as `operation` says,
    /// from that tab; otherwise nothing changes. Says whether it chose them.
    pub fn choose_files(&mut self, operation: FileOp, paths: Option<Vec<String>>, curr_tab_index: usize) -> (r: bool)
        ensures
            r == paths.is_some(),
            match paths {
                Some(v) => {
                    &&& final(self).selected_files@ == v@
                    &&& final(self).fileop == operation
                    &&& final(self).tab_src == curr_tab_index
                },
                None => {
                    &&& final(self).selected_files@ == old(self).selected_files@
                    &&& final(self).fileop == old(self).fileop
                    &&& final(self).tab_src == old(self).tab_src
                },
            },
    {
        if self.repopulated_selected_files(paths) {
            self.set_file_op(operation);
            self.set_tab_src(curr_tab_index);
            true
        } else {
            false
        }
    }
}

impl CutFiles {
    /// Chooses the files collected from the selection, to be moved, from
    /// the tab `curr_tab_index`, as `FileOpState::choose_files` says.
    pub fn execute(&self, state: &mut FileOpState, paths: Option<Vec<String>>, curr_tab_index: usize) -> (r: bool)
        ensures
            r == paths.is_some(),
            match paths {
                Some(v) => {
                    &&& final(state).selected_files@ == v@
                    &&& final(state).fileop == FileOp::Cut
                    &&& final(state).tab_src == curr_tab_index
                },
                None => {
                    &&& final(state).selected_files@ == old(state).selected_files@
                    &&& final(state).fileop == old(state).fileop
                    &&& final(state).tab_src == old(state).tab_src
                },
            },
    {
        state.choose_files(FileOp::Cut, paths, curr_tab_index)
    }
}

impl CopyFiles {
    /// Chooses the files collected from the selection, to be copied, from
    /// the tab `curr_tab_index`, as `FileOpState::choose_files` says.
    pub fn execute(&self, state: &mut FileOpState, paths: Option<Vec<String>>, curr_tab_index: usize) -> (r: bool)
        ensures
            r == paths.is_some(),
            match paths {
                Some(v) => {
                    &&& final(state).selected_files@ == v@
                    &&& final(state).fileop == FileOp::Copy
                    &&& final(state).tab_src == curr_tab_index
                },
                None => {
                    &&& final(state).selected_files@ == old(state).selected_files@
                    &&& final(state).fileop == old(state).fileop
                    &&& final(state).tab_src == old(state).tab_src
                },
            },
    {
        state.choose_files(FileOp::Copy, paths, curr_tab_index)
    }
}

} // verus!
