use vstd::prelude::*;

use crate::command::open_file::{insert_line, lines_sorted, OpenWithChoice};
use crate::key_command::command::QuitAction;
use crate::keymap::{BACKSPACE, ENTER, ESCAPE};
use crate::numparse::{parse_usize, spec_parse_unsigned};
use crate::text::{push_char, spec_decimal, spec_words, split_whitespace, str_to_chars, seq_to_string, usize_to_string};

verus! {

broadcast use vstd::string::group_string_axioms;

/// The paths, each followed by a newline.
pub open spec fn spec_lines(paths: Seq<String>) -> Seq<char>
    decreases paths.len(),
{
    if paths.len() == 0 {
        Seq::empty()
    } else {
        spec_lines(paths.drop_last()) + paths.last()@ + "\n"@
    }
}

/// What the program writes when it quits: the current directory, or the
/// selected files, each on a line of its own, when the quit asked for it.
pub fn run_quit(action: QuitAction, curr_path: &str, selected: &Vec<String>) -> (r: Option<String>)
    ensures
        action == QuitAction::OutputCurrentDirectory ==> (r matches Some(t) && t@ == curr_path@
            + "\n"@),
        action == QuitAction::OutputSelectedFiles ==> (r matches Some(t) && t@ == spec_lines(
            selected@,
        )),
        action != QuitAction::OutputCurrentDirectory && action != QuitAction::OutputSelectedFiles
            ==> r is None,
{
    match action {
        QuitAction::OutputCurrentDirectory => Some(crate::text::concat(curr_path, "\n")),
        QuitAction::OutputSelectedFiles => {
            let mut t = String::new();
            let mut i: usize = 0;
            while i < selected.len()
                invariant
                    i <= selected@.len(),
                    t@ == spec_lines(selected@.take(i as int)),
                decreases selected@.len() - i,
            {
                assert(selected@.take(i + 1).drop_last() =~= selected@.take(i as int));
                t.append(selected[i].as_str());
                t.append("\n");
                i = i + 1;
            }
            assert(selected@.take(i as int) =~= selected@);
            Some(t)
        },
        _ => None,
    }
}

/// What a key does to the line typed after `:open_with`.
#[derive(Clone, Copy, Debug, PartialEq, Eq, Structural)]
pub enum LineKey {
    /// The user gave up.
    Cancel,
    /// The user accepted the line.
    Done,
    /// Keep reading keys.
    Continue,
}

/// Edits the line `input` by the key `key`: Escape gives up, Enter accepts,
/// Backspace removes the last character, and any other key adds its
/// character (the low byte of its code).
pub fn open_with_key(input: &mut String, key: i32) -> (r: LineKey)
    ensures
        key == ESCAPE ==> r == LineKey::Cancel && final(input)@ == old(input)@,
        key == ENTER ==> r == LineKey::Done && final(input)@ == old(input)@,
        key != ESCAPE && key != ENTER && key == BACKSPACE ==> r == LineKey::Continue
            && final(input)@ == (if old(input)@.len() > 0 {
            old(input)@.drop_last()
        } else {
            old(input)@
        }),
        key != ESCAPE && key != ENTER && key != BACKSPACE ==> r == LineKey::Continue
            && final(input)@ == old(input)@.push((key as u8) as char),
{
    if key == ESCAPE {
        LineKey::Cancel
    } else if key == ENTER {
        LineKey::Done
    } else if key == BACKSPACE {
        let v = str_to_chars(input.as_str());
        if v.len() > 0 {
            let n = v.len() - 1;
            let shorter = crate::text::chars_to_string(v.as_slice(), 0, n);
            *input = shorter;
            assert(input@ =~= v@.drop_last());
        }
        LineKey::Continue
    } else {
        push_char(input, (key as u8) as char);
        LineKey::Continue
    }
}

/// What the accepted line `input` chooses among `options_len` commands:
/// the command of a number in range, nothing for a number out of range, and
/// otherwise the words of the line (none for an empty line) as a command.
pub fn open_with_choice(options_len: usize, input: &String) -> (r: OpenWithChoice)
    ensures
        match spec_parse_unsigned(input@, usize::MAX as int) {
            Ok(n) => if n < options_len {
                r == OpenWithChoice::Entry(n as usize)
            } else {
                r is Cancel
            },
            Err(_) => r matches OpenWithChoice::Args(words) && words@.map_values(|w: String| w@)
                == spec_words(input@),
        },
{
    let v = str_to_chars(input.as_str());
    match parse_usize(v.as_slice()) {
        Ok(n) => if n < options_len {
            OpenWithChoice::Entry(n)
        } else {
            OpenWithChoice::Cancel
        },
        Err(_) => {
            let words = split_whitespace(&v);
            let mut out: Vec<String> = Vec::new();
            let mut i: usize = 0;
            while i < words.len()
                invariant
                    i <= words@.len(),
                    out@.map_values(|w: String| w@) == words@.map_values(|w: Vec<char>| w@).take(
                        i as int,
                    ),
                decreases words@.len() - i,
            {
                let w = seq_to_string(&words[i]);
                let ghost before = out@;
                let ghost wv = w@;
                out.push(w);
                assert(out@.map_values(|w: String| w@) =~= before.map_values(|w: String| w@).push(
                    wv,
                ));
                assert(out@.map_values(|w: String| w@) =~= words@.map_values(|w: Vec<char>| w@).take(
                    i + 1,
                ));
                i = i + 1;
            }
            assert(words@.map_values(|w: Vec<char>| w@).take(i as int) =~= words@.map_values(
                |w: Vec<char>| w@,
            ));
            OpenWithChoice::Args(out)
        },
    }
}

/// The words joined by single spaces.
pub open spec fn spec_join_spaced(words: Seq<String>) -> Seq<char>
    decreases words.len(),
{
    if words.len() == 0 {
        Seq::empty()
    } else if words.len() == 1 {
        words[0]@
    } else {
        spec_join_spaced(words.drop_last()) + " "@ + words.last()@
    }
}

/// The line that offers the command `c` under the number `i`.
pub open spec fn spec_command_line(i: nat, c: Seq<String>) -> Seq<char> {
    "  "@ + spec_decimal(i) + "\t"@ + spec_join_spaced(c)
}

/// The words of `c` joined by single spaces.
fn join_spaced(c: &Vec<String>) -> (r: String)
    ensures
        r@ == spec_join_spaced(c@),
{
    let mut s = String::new();
    let mut i: usize = 0;
    while i < c.len()
        invariant
            i <= c@.len(),
            s@ == spec_join_spaced(c@.take(i as int)),
        decreases c@.len() - i,
    {
        assert(c@.take(i + 1).drop_last() =~= c@.take(i as int));
        if i > 0 {
            s.append(" ");
        }
        s.append(c[i].as_str());
        proof {
            if i == 0 {
                assert(c@.take(1) =~= seq![c@[0]]);
            }
        }
        i = i + 1;
    }
    assert(c@.take(i as int) =~= c@);
    s
}

/// The lines that offer the commands `options`, each with its number, in
/// order of their text.
pub fn command_lines(options: &Vec<Vec<String>>) -> (r: Vec<String>)
    ensures
        lines_sorted(r@),
        r@.len() == options@.len(),
        r@.map_values(|l: String| l@).to_multiset() == Seq::new(
            options@.len(),
            |i: int| spec_command_line(i as nat, options@[i]@),
        ).to_multiset(),
{
    let ghost target = Seq::new(options@.len(), |i: int| spec_command_line(i as nat, options@[i]@));
    let mut out: Vec<String> = Vec::new();
    let mut i: usize = 0;
    assert(target.take(0) =~= Seq::<Seq<char>>::empty());
    assert(out@.map_values(|l: String| l@) =~= Seq::<Seq<char>>::empty());
    while i < options.len()
        invariant
            i <= options@.len(),
            target == Seq::new(options@.len(), |i: int| spec_command_line(i as nat, options@[i]@)),
            lines_sorted(out@),
            out@.len() == i,
            out@.map_values(|l: String| l@).to_multiset() == target.take(i as int).to_multiset(),
        decreases options@.len() - i,
    {
        let mut line = String::from_str("  ");
        line.append(usize_to_string(i).as_str());
        line.append("\t");
        line.append(join_spaced(&options[i]).as_str());
        assert(line@ == target[i as int]);
        let ghost lv = line@;
        insert_line(&mut out, line);
        proof {
            assert(target.take(i + 1) =~= target.take(i as int).push(lv));
            vstd::seq_lib::to_multiset_build(target.take(i as int), lv);
        }
        i = i + 1;
    }
    assert(target.take(i as int) =~= target);
    out
}

/// Where running the commands bound to a key stands: run the command at this
/// position next, all of them ran, or one failed with this message and the
/// rest are not run.
#[derive(Debug)]
pub enum BindingStep {
    Run(usize),
    Finished,
    Stopped(String),
}

/// The first step of running the `count` commands bound to a key: the first
/// of them, or nothing to do when there are none.
pub fn first_binding_step(count: usize) -> (r: BindingStep)
    ensures
        if count > 0 {
            r matches BindingStep::Run(i) && i == 0
        } else {
            r is Finished
        },
{
    if count > 0 {
        BindingStep::Run(0)
    } else {
        BindingStep::Finished
    }
}

/// The step after the command at position `ran` of the `count` commands bound
/// to a key ran with `outcome`: a failure stops the run and reports its
/// message; otherwise the next command runs, or the run is finished after the
/// last one.
pub fn next_binding_step(count: usize, ran: usize, outcome: Result<(), String>) -> (r: BindingStep)
    requires
        ran < count,
    ensures
        match outcome {
            Err(e) => r matches BindingStep::Stopped(m) && m@ == e@,
            Ok(_) => if ran + 1 < count {
                r matches BindingStep::Run(i) && i == ran + 1
            } else {
                r is Finished
            },
        },
{
    match outcome {
        Err(e) => BindingStep::Stopped(e),
        Ok(()) => if ran + 1 < count {
            BindingStep::Run(ran + 1)
        } else {
            BindingStep::Finished
        },
    }
}

} // verus!
