use vstd::prelude::*;

use crate::sort::{SortOption, SortType};
use crate::text::{chars_eq, str_to_chars};

verus! {

/// The sort options as a configuration file may give them, each optional.
#[derive(Clone, Copy, Debug, PartialEq, Eq, Structural)]
pub struct SortRawOption {
    pub show_hidden: Option<bool>,
    pub directories_first: Option<bool>,
    pub case_sensitive: Option<bool>,
    pub reverse: Option<bool>,
}

/// The general configuration as a configuration file gives it, each setting optional.
#[derive(Clone, Debug)]
pub struct JoshutoRawConfig {
    pub scroll_offset: Option<usize>,
    pub tilde_in_titlebar: Option<bool>,
    pub sort_type: Option<String>,
    pub sort_option: Option<SortRawOption>,
    pub column_ratio: Option<[usize; 3]>,
}

/// The general configuration of the program.
#[derive(Clone, Copy, Debug)]
pub struct JoshutoConfig {
    pub scroll_offset: usize,
    pub tilde_in_titlebar: bool,
    pub sort_type: SortType,
    pub column_ratio: (usize, usize, usize),
}

/// The sort options that a configuration gives: hidden files hidden,
/// directories first, case ignored and no reversal unless it says otherwise.
pub open spec fn spec_sort_option(raw: Option<SortRawOption>) -> SortOption {
    match raw {
        Some(s) => SortOption {
            show_hidden: match s.show_hidden { Some(b) => b, None => false },
            directories_first: match s.directories_first { Some(b) => b, None => true },
            case_sensitive: match s.case_sensitive { Some(b) => b, None => false },
            reverse: match s.reverse { Some(b) => b, None => false },
        },
        None => SortOption {
            show_hidden: false,
            directories_first: true,
            case_sensitive: false,
            reverse: false,
        },
    }
}

/// The sort order that a configuration names: by modification time for
/// `mtime`, else by name.
pub open spec fn spec_sort_type(name: Option<Seq<char>>, o: SortOption) -> SortType {
    match name {
        Some(n) => if n == "mtime"@ {
            SortType::SortMtime(o)
        } else {
            SortType::SortNatural(o)
        },
        None => SortType::SortNatural(o),
    }
}

/// The configuration that a raw configuration gives, with the defaults for
/// what it leaves out.
pub open spec fn spec_flatten_config(raw: JoshutoRawConfig) -> JoshutoConfig {
    let o = spec_sort_option(raw.sort_option);
    JoshutoConfig {
        scroll_offset: match raw.scroll_offset { Some(n) => n, None => 6 },
        tilde_in_titlebar: match raw.tilde_in_titlebar { Some(b) => b, None => true },
        sort_type: spec_sort_type(
            match raw.sort_type {
                Some(s) => Some(s@),
                None => None,
            },
            o,
        ),
        column_ratio: match raw.column_ratio {
            Some(a) => (a@[0], a@[1], a@[2]),
            None => (1, 3, 4),
        },
    }
}

impl JoshutoRawConfig {
    /// The settings a configuration file would give for the defaults.
    pub fn new() -> (r: Self)
        ensures
            r.scroll_offset == Some(8usize),
            r.tilde_in_titlebar == Some(true),
            r.sort_type matches Some(s) && s@ == "natural"@,
            r.sort_option is None,
            r.column_ratio matches Some(a) && a@ == seq![1usize, 3, 4],
    {
        let ratio: [usize; 3] = [1, 3, 4];
        proof {
            assert(ratio@ =~= seq![1usize, 3, 4]);
        }
        JoshutoRawConfig {
            scroll_offset: Some(8),
            tilde_in_titlebar: Some(true),
            sort_type: Some(String::from_str("natural")),
            sort_option: None,
            column_ratio: Some(ratio),
        }
    }

    /// The configuration, with the defaults for what this one leaves out,
    /// as `spec_flatten_config` says.
    pub fn flatten(self) -> (r: JoshutoConfig)
        ensures
            r == spec_flatten_config(self),
    {
        let column_ratio = match self.column_ratio {
            Some(s) => (s[0], s[1], s[2]),
            None => (1, 3, 4),
        };
        let scroll_offset: usize = match self.scroll_offset {
            Some(n) => n,
            None => 6,
        };
        let tilde_in_titlebar: bool = match self.tilde_in_titlebar {
            Some(b) => b,
            None => true,
        };
        let sort_option = match self.sort_option {
            Some(s) => SortOption {
                show_hidden: match s.show_hidden { Some(b) => b, None => false },
                directories_first: match s.directories_first { Some(b) => b, None => true },
                case_sensitive: match s.case_sensitive { Some(b) => b, None => false },
                reverse: match s.reverse { Some(b) => b, None => false },
            },
            None => SortOption {
                show_hidden: false,
                directories_first: true,
                case_sensitive: false,
                reverse: false,
            },
        };
        let sort_type = match &self.sort_type {
            Some(s) => {
                let v = str_to_chars(s.as_str());
                if chars_eq(v.as_slice(), "mtime") {
                    SortType::SortMtime(sort_option)
                } else {
                    SortType::SortNatural(sort_option)
                }
            },
            None => SortType::SortNatural(sort_option),
        };
        JoshutoConfig { scroll_offset, tilde_in_titlebar, sort_type, column_ratio }
    }
}

impl JoshutoConfig {
    /// The configuration used where no configuration file is found.
    pub fn new() -> (r: Self)
        ensures
            r.scroll_offset == 6,
            r.tilde_in_titlebar,
            r.sort_type == SortType::SortNatural(
                SortOption {
                    show_hidden: false,
                    directories_first: true,
                    case_sensitive: false,
                    reverse: false,
                },
            ),
            r.column_ratio == (1usize, 3usize, 4usize),
    {
        let sort_option = SortOption {
            show_hidden: false,
            directories_first: true,
            case_sensitive: false,
            reverse: false,
        };
        JoshutoConfig {
            scroll_offset: 6,
            tilde_in_titlebar: true,
            sort_type: SortType::SortNatural(sort_option),
            column_ratio: (1, 3, 4),
        }
    }
}

/// Whether no two entries of `s` have the same name, as for the entries of
/// a table of a configuration file.
pub open spec fn distinct_keys<V>(s: Seq<(String, V)>) -> bool {
    forall|i: int, j: int| 0 <= i < j < s.len() ==> s[i].0@ != s[j].0@
}

/// The entry that `table` lists under the name `key`: the first one, which
/// is the only one where no name is listed twice.
pub open spec fn spec_lookup<V>(table: Seq<(String, V)>, key: Seq<char>) -> Option<V>
    decreases table.len(),
{
    if table.len() == 0 {
        None
    } else if table[0].0@ == key {
        Some(table[0].1)
    } else {
        spec_lookup(table.drop_first(), key)
    }
}

/// The entry listed under `key` in `table`, as `spec_lookup` finds it.
pub fn lookup<'a, V>(table: &'a Vec<(String, V)>, key: &str) -> (r: Option<&'a V>)
    ensures
        match spec_lookup(table@, key@) {
            Some(v) => r matches Some(x) && *x == v,
            None => r is None,
        },
{
    let mut i: usize = 0;
    assert(table@.subrange(0, table@.len() as int) =~= table@);
    while i < table.len()
        invariant
            i <= table@.len(),
            spec_lookup(table@, key@) == spec_lookup(table@.subrange(i as int, table@.len() as int), key@),
        decreases table@.len() - i,
    {
        let ghost sub = table@.subrange(i as int, table@.len() as int);
        assert(sub.drop_first() =~= table@.subrange(i + 1, table@.len() as int));
        assert(sub[0] == table@[i as int]);
        let kt = str_to_chars(table[i].0.as_str());
        if chars_eq(kt.as_slice(), key) {
            return Some(&table[i].1);
        }
        i = i + 1;
    }
    None
}

} // verus!
