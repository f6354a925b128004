use std::collections::HashMap;

use vstd::prelude::*;

use super::command::Command;
use super::impl_display::spec_display;

verus! {

/// The commands bound to a key, or the bindings of the keys that may follow it.
#[derive(Debug)]
pub enum CommandKeybind {
    /// The key runs these commands, described by `description` where it is given.
    SimpleKeybind { commands: Vec<Command>, description: Option<String> },
    /// The key starts longer sequences, bound in this map by their next key.
    CompositeKeybind(HashMap<i32, CommandKeybind>),
}

/// The commands shown one after the other, each followed by `, `.
pub open spec fn spec_commands_display(cmds: Seq<Command>) -> Seq<char>
    decreases cmds.len(),
{
    if cmds.len() == 0 {
        Seq::empty()
    } else {
        spec_commands_display(cmds.drop_last()) + spec_display(cmds.last()) + ", "@
    }
}

/// A binding as the help page shows it: its description, or else its
/// commands; `...` for keys that start longer sequences.
pub open spec fn spec_keybind_display(k: CommandKeybind) -> Seq<char> {
    match k {
        CommandKeybind::SimpleKeybind { description: Some(d), .. } => d@,
        CommandKeybind::SimpleKeybind { commands, description: None } => spec_commands_display(
            commands@,
        ),
        CommandKeybind::CompositeKeybind(_) => "..."@,
    }
}

impl CommandKeybind {
    /// The binding as the help page shows it, as `spec_keybind_display` says.
    pub fn to_string(&self) -> (r: String)
        ensures
            r@ == spec_keybind_display(*self),
    {
        match self {
            CommandKeybind::SimpleKeybind { description: Some(d), .. } => d.clone(),
            CommandKeybind::SimpleKeybind { commands, description: None } => {
                let mut s = String::new();
                let mut i: usize = 0;
                while i < commands.len()
                    invariant
                        i <= commands@.len(),
                        s@ == spec_commands_display(commands@.take(i as int)),
                    decreases commands@.len() - i,
                {
                    assert(commands@.take(i + 1).drop_last() =~= commands@.take(i as int));
                    s.append(commands[i].to_string().as_str());
                    s.append(", ");
                    i = i + 1;
                }
                assert(commands@.take(i as int) =~= commands@);
                s
            },
            CommandKeybind::CompositeKeybind(_) => String::from_str("..."),
        }
    }
}

} // verus!
