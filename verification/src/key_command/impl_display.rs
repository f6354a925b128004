use vstd::prelude::*;

use super::command::{Command, FileOperationOptions, LineMode, SelectOption, SortType};
use super::impl_appcommand::spec_command_name;
use super::traits::AppCommand;
use crate::text::{
    bool_to_string, i32_to_string, spec_bool_str, spec_decimal, spec_signed_decimal,
    usize_to_string,
};

verus! {

broadcast use vstd::string::group_string_axioms;

/// The text that Rust's `Debug` formatting gives for the string `s`: the
/// string in double quotes, with quotes, backslashes and control
/// characters escaped.
pub uninterp spec fn spec_debug_str(s: Seq<char>) -> Seq<char>;

/// `s` as Rust's `Debug` formatting writes it (`format!("{:?}", s)`).
#[verifier::external_body]
fn debug_str(s: &str) -> (r: String)
    ensures
        r@ == spec_debug_str(s@),
{
    format!("{:?}", s)
}

/// The words as Rust's `Debug` formatting writes a list of strings: each
/// word written as `spec_debug_str` says, separated by `, ` and in brackets.
pub open spec fn spec_debug_words(words: Seq<Seq<char>>) -> Seq<char> {
    "["@ + spec_join_debug(words) + "]"@
}

/// The words written as `spec_debug_str` says, separated by `, `.
pub open spec fn spec_join_debug(words: Seq<Seq<char>>) -> Seq<char>
    decreases words.len(),
{
    if words.len() == 0 {
        Seq::empty()
    } else if words.len() == 1 {
        spec_debug_str(words[0])
    } else {
        spec_join_debug(words.drop_last()) + ", "@ + spec_debug_str(words.last())
    }
}

/// The name of a line mode.
pub open spec fn spec_line_mode_str(m: LineMode) -> Seq<char> {
    match m {
        LineMode::Size => "size"@,
        LineMode::Mtime => "mtime"@,
        LineMode::User => "user"@,
        LineMode::Group => "group"@,
        LineMode::Perm => "perm"@,
    }
}

/// The name of a sort order.
pub open spec fn spec_sort_type_str(t: SortType) -> Seq<char> {
    match t {
        SortType::Lexical => "lexical"@,
        SortType::Mtime => "mtime"@,
        SortType::Natural => "natural"@,
        SortType::Size => "size"@,
        SortType::Ext => "ext"@,
    }
}

/// The paste options as the program shows them.
pub open spec fn spec_file_options_str(o: FileOperationOptions) -> Seq<char> {
    "overwrite="@ + spec_bool_str(o.overwrite) + " skip_exist="@ + spec_bool_str(o.skip_exist)
}

/// The selection options as a command line writes them.
pub open spec fn spec_select_option_str(o: SelectOption) -> Seq<char> {
    "--toggle="@ + spec_bool_str(o.toggle) + " --all="@ + spec_bool_str(o.all) + " --deselect="@
        + spec_bool_str(o.reverse)
}

impl LineMode {
    /// The name of the line mode.
    pub fn as_string(&self) -> (r: &'static str)
        ensures
            r@ == spec_line_mode_str(*self),
    {
        match self {
            LineMode::Size => "size",
            LineMode::Mtime => "mtime",
            LineMode::User => "user",
            LineMode::Group => "group",
            LineMode::Perm => "perm",
        }
    }
}

impl SortType {
    /// The name of the sort order.
    pub fn as_str(&self) -> (r: &'static str)
        ensures
            r@ == spec_sort_type_str(*self),
    {
        match self {
            SortType::Lexical => "lexical",
            SortType::Mtime => "mtime",
            SortType::Natural => "natural",
            SortType::Size => "size",
            SortType::Ext => "ext",
        }
    }
}

impl FileOperationOptions {
    /// The options as the program shows them.
    pub fn to_string(&self) -> (r: String)
        ensures
            r@ == spec_file_options_str(*self),
    {
        let mut s = String::from_str("overwrite=");
        s.append(bool_to_string(self.overwrite).as_str());
        s.append(" skip_exist=");
        s.append(bool_to_string(self.skip_exist).as_str());
        s
    }
}

impl SelectOption {
    /// The options as a command line writes them.
    pub fn to_string(&self) -> (r: String)
        ensures
            r@ == spec_select_option_str(*self),
    {
        let mut s = String::from_str("--toggle=");
        s.append(bool_to_string(self.toggle).as_str());
        s.append(" --all=");
        s.append(bool_to_string(self.all).as_str());
        s.append(" --deselect=");
        s.append(bool_to_string(self.reverse).as_str());
        s
    }
}

/// The list `words` as Rust's `Debug` formatting writes it.
fn debug_words(words: &Vec<String>) -> (r: String)
    ensures
        r@ == spec_debug_words(words@.map_values(|w: String| w@)),
{
    let ghost all = words@.map_values(|w: String| w@);
    let mut s = String::new();
    let mut i: usize = 0;
    while i < words.len()
        invariant
            i <= words@.len(),
            all == words@.map_values(|w: String| w@),
            s@ == spec_join_debug(all.take(i as int)),
        decreases words@.len() - i,
    {
        assert(all.take(i + 1).drop_last() =~= all.take(i as int));
        if i > 0 {
            s.append(", ");
        }
        s.append(debug_str(words[i].as_str()).as_str());
        proof {
            if i == 0 {
                assert(all.take(1) =~= seq![all[0]]);
            }
        }
        i = i + 1;
    }
    assert(all.take(i as int) =~= all);
    let mut out = String::from_str("[");
    out.append(s.as_str());
    out.append("]");
    out
}

/// The command as the program shows it: its name, followed by what
/// tells it apart from others of its kind.
pub open spec fn spec_display(c: Command) -> Seq<char> {
    let name = spec_command_name(c);
    match c {
        Command::ChangeDirectory { path } => name + " "@ + spec_debug_str(path@),
        Command::CommandLine { prefix, suffix } => name + " "@ + prefix@ + " || "@ + suffix@,
        Command::CursorMoveUp { offset } => name + " "@ + spec_decimal(offset as nat),
        Command::CursorMoveDown { offset } => name + " "@ + spec_decimal(offset as nat),
        Command::SetLineMode(mode) => name + " "@ + spec_line_mode_str(mode),
        Command::ParentCursorMoveUp { offset } => name + " "@ + spec_decimal(offset as nat),
        Command::ParentCursorMoveDown { offset } => name + " "@ + spec_decimal(offset as nat),
        Command::PreviewCursorMoveUp { offset } => name + " "@ + spec_decimal(offset as nat),
        Command::PreviewCursorMoveDown { offset } => name + " "@ + spec_decimal(offset as nat),
        Command::NewDirectory { path } => name + " "@ + spec_debug_str(path@),
        Command::SymlinkFiles { relative } => name + " --relative="@ + spec_bool_str(relative),
        Command::PasteFiles { options } => name + "  "@ + spec_file_options_str(options),
        Command::DeleteFiles { background, permanently, noconfirm } => name + (if !background {
            " --foreground=true"@
        } else {
            Seq::empty()
        }) + (if permanently {
            " --permanently"@
        } else {
            Seq::empty()
        }) + (if noconfirm {
            " --noconfirm"@
        } else {
            Seq::empty()
        }),
        Command::RenameFile { new_name } => name + " "@ + spec_debug_str(new_name@),
        Command::SearchGlob { pattern } => name + " "@ + pattern@,
        Command::SearchRegex { pattern } => name + " "@ + pattern@,
        Command::SearchString { pattern } => name + " "@ + pattern@,
        Command::SelectGlob { pattern, options } => name + " "@ + pattern@ + " "@
            + spec_select_option_str(options),
        Command::SelectRegex { pattern, options } => name + " "@ + pattern@ + " "@
            + spec_select_option_str(options),
        Command::SelectString { pattern, options } => name + " "@ + pattern@ + " "@
            + spec_select_option_str(options),
        Command::SubProcess { words, .. } => name + " "@ + spec_debug_words(
            words@.map_values(|w: String| w@),
        ),
        Command::Sort { sort_type, .. } => name + " "@ + spec_sort_type_str(sort_type),
        Command::TabSwitch { offset } => name + " "@ + spec_signed_decimal(offset as int),
        Command::TabSwitchIndex { index } => name + " "@ + spec_decimal(index as nat),
        _ => name,
    }
}

/// `name`, a space and `rest`.
fn spaced(name: &str, rest: &str) -> (r: String)
    ensures
        r@ == name@ + " "@ + rest@,
{
    let mut s = String::from_str(name);
    s.append(" ");
    s.append(rest);
    s
}

impl Command {
    /// The command as the program shows it, as `spec_display` says.
    pub fn to_string(&self) -> (r: String)
        ensures
            r@ == spec_display(*self),
    {
        let name = self.command();
        match self {
            Command::ChangeDirectory { path } => spaced(name, debug_str(path.as_str()).as_str()),
            Command::CommandLine { prefix, suffix } => {
                let mut s = spaced(name, prefix.as_str());
                s.append(" || ");
                s.append(suffix.as_str());
                s
            },
            Command::CursorMoveUp { offset } => spaced(name, usize_to_string(*offset).as_str()),
            Command::CursorMoveDown { offset } => spaced(name, usize_to_string(*offset).as_str()),
            Command::SetLineMode(mode) => spaced(name, mode.as_string()),
            Command::ParentCursorMoveUp { offset } => spaced(
                name,
                usize_to_string(*offset).as_str(),
            ),
            Command::ParentCursorMoveDown { offset } => spaced(
                name,
                usize_to_string(*offset).as_str(),
            ),
            Command::PreviewCursorMoveUp { offset } => spaced(
                name,
                usize_to_string(*offset).as_str(),
            ),
            Command::PreviewCursorMoveDown { offset } => spaced(
                name,
                usize_to_string(*offset).as_str(),
            ),
            Command::NewDirectory { path } => spaced(name, debug_str(path.as_str()).as_str()),
            Command::SymlinkFiles { relative } => {
                let mut s = String::from_str(name);
                s.append(" --relative=");
                s.append(bool_to_string(*relative).as_str());
                s
            },
            Command::PasteFiles { options } => {
                let mut s = String::from_str(name);
                s.append("  ");
                s.append(options.to_string().as_str());
                s
            },
            Command::DeleteFiles { background, permanently, noconfirm } => {
                let mut s = String::from_str(name);
                if !*background {
                    s.append(" --foreground=true");
                }
                let ghost s1 = s@;
                if *permanently {
                    s.append(" --permanently");
                }
                let ghost s2 = s@;
                if *noconfirm {
                    s.append(" --noconfirm");
                }
                proof {
                    assert(s1 =~= name@ + (if !*background {
                        " --foreground=true"@
                    } else {
                        Seq::<char>::empty()
                    }));
                    assert(s2 =~= s1 + (if *permanently {
                        " --permanently"@
                    } else {
                        Seq::<char>::empty()
                    }));
                    assert(s@ =~= s2 + (if *noconfirm {
                        " --noconfirm"@
                    } else {
                        Seq::<char>::empty()
                    }));
                }
                s
            },
            Command::RenameFile { new_name } => spaced(
                name,
                debug_str(new_name.as_str()).as_str(),
            ),
            Command::SearchGlob { pattern } => spaced(name, pattern.as_str()),
            Command::SearchRegex { pattern } => spaced(name, pattern.as_str()),
            Command::SearchString { pattern } => spaced(name, pattern.as_str()),
            Command::SelectGlob { pattern, options } => {
                let mut s = spaced(name, pattern.as_str());
                s.append(" ");
                s.append(options.to_string().as_str());
                s
            },
            Command::SelectRegex { pattern, options } => {
                let mut s = spaced(name, pattern.as_str());
                s.append(" ");
                s.append(options.to_string().as_str());
                s
            },
            Command::SelectString { pattern, options } => {
                let mut s = spaced(name, pattern.as_str());
                s.append(" ");
                s.append(options.to_string().as_str());
                s
            },
            Command::SubProcess { words, .. } => spaced(name, debug_words(words).as_str()),
            Command::Sort { sort_type, .. } => spaced(name, sort_type.as_str()),
            Command::TabSwitch { offset } => spaced(name, i32_to_string(*offset).as_str()),
            Command::TabSwitchIndex { index } => spaced(name, usize_to_string(*index).as_str()),
            _ => String::from_str(name),
        }
    }
}

} // verus!
