use vstd::prelude::*;

verus! {

/// The bits of a Unix mode that hold the file type.
pub const BITMASK: u32 = 0o170000;
/// File type: socket.
pub const S_IFSOCK: u32 = 0o140000;
/// File type: symbolic link.
pub const S_IFLNK: u32 = 0o120000;
/// File type: regular file.
pub const S_IFREG: u32 = 0o100000;
/// File type: block device.
pub const S_IFBLK: u32 = 0o060000;
/// File type: directory.
pub const S_IFDIR: u32 = 0o040000;
/// File type: character device.
pub const S_IFCHR: u32 = 0o020000;
/// File type: FIFO.
pub const S_IFIFO: u32 = 0o010000;

/// Permission: read by owner.
pub const S_IRUSR: u32 = 0o400;
/// Permission: write by owner.
pub const S_IWUSR: u32 = 0o200;
/// Permission: execute by owner.
pub const S_IXUSR: u32 = 0o100;
/// Permission: read by group.
pub const S_IRGRP: u32 = 0o040;
/// Permission: write by group.
pub const S_IWGRP: u32 = 0o020;
/// Permission: execute by group.
pub const S_IXGRP: u32 = 0o010;
/// Permission: read by others.
pub const S_IROTH: u32 = 0o004;
/// Permission: write by others.
pub const S_IWOTH: u32 = 0o002;
/// Permission: execute by others.
pub const S_IXOTH: u32 = 0o001;

/// Whether `mode` names a regular file.
pub fn is_reg(mode: u32) -> (r: bool)
    ensures
        r == (mode & BITMASK == S_IFREG),
{
    mode & BITMASK == S_IFREG
}

/// The name of the file type that `mode` holds.
pub open spec fn spec_unix_filetype(mode: u32) -> Seq<char> {
    let t = mode & BITMASK;
    if t == S_IFBLK {
        "inode/blockdevice"@
    } else if t == S_IFCHR {
        "inode/chardevice"@
    } else if t == S_IFDIR {
        "inode/directory"@
    } else if t == S_IFIFO {
        "inode/fifo"@
    } else if t == S_IFLNK {
        "inode/symlink"@
    } else if t == S_IFSOCK {
        "inode/socket"@
    } else if t == S_IFREG {
        "inode/regular"@
    } else {
        "unknown"@
    }
}

/// The name of the file type that `mode` holds.
pub fn get_unix_filetype(mode: u32) -> (r: &'static str)
    ensures
        r@ == spec_unix_filetype(mode),
{
    proof {
        reveal_strlit("inode/blockdevice");
        reveal_strlit("inode/chardevice");
        reveal_strlit("inode/directory");
        reveal_strlit("inode/fifo");
        reveal_strlit("inode/symlink");
        reveal_strlit("inode/socket");
        reveal_strlit("inode/regular");
        reveal_strlit("unknown");
    }
    let t = mode & BITMASK;
    if t == S_IFBLK {
        "inode/blockdevice"
    } else if t == S_IFCHR {
        "inode/chardevice"
    } else if t == S_IFDIR {
        "inode/directory"
    } else if t == S_IFIFO {
        "inode/fifo"
    } else if t == S_IFLNK {
        "inode/symlink"
    } else if t == S_IFSOCK {
        "inode/socket"
    } else if t == S_IFREG {
        "inode/regular"
    } else {
        "unknown"
    }
}

/// Whether anyone may execute a file of mode `mode`.
pub fn is_executable(mode: u32) -> (r: bool)
    ensures
        r == (mode & S_IXUSR != 0 || mode & S_IXGRP != 0 || mode & S_IXOTH != 0),
{
    let vals: [u32; 3] = [S_IXUSR, S_IXGRP, S_IXOTH];
    let mut i: usize = 0;
    while i < 3
        invariant
            i <= 3,
            vals@ == seq![S_IXUSR, S_IXGRP, S_IXOTH],
            forall|j: int| 0 <= j < i ==> mode & #[trigger] vals@[j] == 0,
        decreases 3 - i,
    {
        if mode & vals[i] != 0 {
            return true;
        }
        i = i + 1;
    }
    assert(mode & vals@[0] == 0 && mode & vals@[1] == 0 && mode & vals@[2] == 0);
    false
}

/// The permission bit shown at position `i` of a mode string (0 to 8).
pub open spec fn perm_bit(i: int) -> u32 {
    if i == 0 {
        S_IRUSR
    } else if i == 1 {
        S_IWUSR
    } else if i == 2 {
        S_IXUSR
    } else if i == 3 {
        S_IRGRP
    } else if i == 4 {
        S_IWGRP
    } else if i == 5 {
        S_IXGRP
    } else if i == 6 {
        S_IROTH
    } else if i == 7 {
        S_IWOTH
    } else {
        S_IXOTH
    }
}

/// The letter shown at position `i` of a mode string (0 to 8) when its bit is set.
pub open spec fn perm_letter(i: int) -> char {
    if i % 3 == 0 {
        'r'
    } else if i % 3 == 1 {
        'w'
    } else {
        'x'
    }
}

/// The file-type letter of a mode string: the first of socket, symlink,
/// regular, block device, directory, character device and FIFO whose bits
/// meet `mode`, or nothing.
pub open spec fn spec_type_letter(mode: u32) -> Seq<char> {
    if mode & S_IFSOCK != 0 {
        seq!['s']
    } else if mode & S_IFLNK != 0 {
        seq!['l']
    } else if mode & S_IFREG != 0 {
        seq!['-']
    } else if mode & S_IFBLK != 0 {
        seq!['b']
    } else if mode & S_IFDIR != 0 {
        seq!['d']
    } else if mode & S_IFCHR != 0 {
        seq!['c']
    } else if mode & S_IFIFO != 0 {
        seq!['f']
    } else {
        seq![]
    }
}

/// The nine permission letters of a mode string.
pub open spec fn spec_perm_letters(mode: u32) -> Seq<char> {
    Seq::new(9, |i: int| if mode & perm_bit(i) != 0 { perm_letter(i) } else { '-' })
}

/// The mode string of `mode`, as `ls -l` shows it.
pub open spec fn spec_stringify_mode(mode: u32) -> Seq<char> {
    spec_type_letter(mode) + spec_perm_letters(mode)
}

/// The mode string of `mode`, as `ls -l` shows it.
pub fn stringify_mode(mode: u32) -> (r: String)
    ensures
        r@ == spec_stringify_mode(mode),
{
    let mut mode_str = String::new();
    if mode & S_IFSOCK != 0 {
        crate::text::push_char(&mut mode_str, 's');
    } else if mode & S_IFLNK != 0 {
        crate::text::push_char(&mut mode_str, 'l');
    } else if mode & S_IFREG != 0 {
        crate::text::push_char(&mut mode_str, '-');
    } else if mode & S_IFBLK != 0 {
        crate::text::push_char(&mut mode_str, 'b');
    } else if mode & S_IFDIR != 0 {
        crate::text::push_char(&mut mode_str, 'd');
    } else if mode & S_IFCHR != 0 {
        crate::text::push_char(&mut mode_str, 'c');
    } else if mode & S_IFIFO != 0 {
        crate::text::push_char(&mut mode_str, 'f');
    }
    assert(mode_str@ =~= spec_type_letter(mode));
    let ghost prefix = mode_str@;
    let perm_vals: [u32; 9] = [
        S_IRUSR,
        S_IWUSR,
        S_IXUSR,
        S_IRGRP,
        S_IWGRP,
        S_IXGRP,
        S_IROTH,
        S_IWOTH,
        S_IXOTH,
    ];
    let perm_chars: [char; 9] = ['r', 'w', 'x', 'r', 'w', 'x', 'r', 'w', 'x'];
    let mut k: usize = 0;
    while k < 9
        invariant
            k <= 9,
            forall|j: int| 0 <= j < 9 ==> #[trigger] perm_vals@[j] == perm_bit(j),
            forall|j: int| 0 <= j < 9 ==> #[trigger] perm_chars@[j] == perm_letter(j),
            perm_vals@.len() == 9,
            perm_chars@.len() == 9,
            mode_str@ == prefix + spec_perm_letters(mode).take(k as int),
        decreases 9 - k,
    {
        if mode & perm_vals[k] != 0 {
            crate::text::push_char(&mut mode_str, perm_chars[k]);
        } else {
            crate::text::push_char(&mut mode_str, '-');
        }
        assert(spec_perm_letters(mode).take(k + 1) =~= spec_perm_letters(mode).take(k as int).push(
            spec_perm_letters(mode)[k as int],
        ));
        k = k + 1;
    }
    assert(spec_perm_letters(mode).take(9) =~= spec_perm_letters(mode));
    mode_str
}

/// Opening a file is done by the program around the library; this does nothing.
pub fn open_file() {
}

} // verus!

verus! {

/// The permission bits that a string of up to nine letters sets: position `i`
/// sets its bit when it holds the letter that a mode string shows there.
pub open spec fn spec_parse_mode(s: Seq<char>) -> u32
    decreases s.len(),
{
    if s.len() == 0 {
        0
    } else {
        let k = s.len() - 1;
        spec_parse_mode(s.drop_last()) | (if s[k] == perm_letter(k) {
            perm_bit(k)
        } else {
            0
        })
    }
}

/// The permission bits that the letters `s` set, as `set_mode` reads a user's answer.
pub fn parse_mode(s: &str) -> (r: u32)
    requires
        s@.len() <= 9,
    ensures
        r == spec_parse_mode(s@),
{
    let chars = crate::text::str_to_chars(s);
    let perm_vals: [u32; 9] = [
        S_IRUSR,
        S_IWUSR,
        S_IXUSR,
        S_IRGRP,
        S_IWGRP,
        S_IXGRP,
        S_IROTH,
        S_IWOTH,
        S_IXOTH,
    ];
    let perm_chars: [char; 9] = ['r', 'w', 'x', 'r', 'w', 'x', 'r', 'w', 'x'];
    let mut mode: u32 = 0;
    let mut i: usize = 0;
    while i < chars.len()
        invariant
            chars@ == s@,
            chars@.len() <= 9,
            i <= chars@.len(),
            forall|j: int| 0 <= j < 9 ==> #[trigger] perm_vals@[j] == perm_bit(j),
            forall|j: int| 0 <= j < 9 ==> #[trigger] perm_chars@[j] == perm_letter(j),
            perm_vals@.len() == 9,
            perm_chars@.len() == 9,
            mode == spec_parse_mode(chars@.take(i as int)),
        decreases chars.len() - i,
    {
        assert(chars@.take(i + 1).drop_last() =~= chars@.take(i as int));
        if chars[i] == perm_chars[i] {
            mode = mode | perm_vals[i];
        } else {
            assert(mode | 0 == mode) by (bit_vector);
        }
        i = i + 1;
    }
    assert(chars@.take(chars@.len() as int) =~= chars@);
    mode
}

proof fn lemma_single_bit(m: u32)
    ensures
        (if m & 0o400u32 != 0 { 0o400u32 } else { 0u32 }) == m & 0o400u32,
        (if m & 0o200u32 != 0 { 0o200u32 } else { 0u32 }) == m & 0o200u32,
        (if m & 0o100u32 != 0 { 0o100u32 } else { 0u32 }) == m & 0o100u32,
        (if m & 0o040u32 != 0 { 0o040u32 } else { 0u32 }) == m & 0o040u32,
        (if m & 0o020u32 != 0 { 0o020u32 } else { 0u32 }) == m & 0o020u32,
        (if m & 0o010u32 != 0 { 0o010u32 } else { 0u32 }) == m & 0o010u32,
        (if m & 0o004u32 != 0 { 0o004u32 } else { 0u32 }) == m & 0o004u32,
        (if m & 0o002u32 != 0 { 0o002u32 } else { 0u32 }) == m & 0o002u32,
        (if m & 0o001u32 != 0 { 0o001u32 } else { 0u32 }) == m & 0o001u32,
        ((((((((((0u32 | (m & 0o400u32)) | (m & 0o200u32)) | (m & 0o100u32)) | (m & 0o040u32)) | (m
            & 0o020u32)) | (m & 0o010u32)) | (m & 0o004u32)) | (m & 0o002u32)) | (m & 0o001u32)))
            == m & 0o777u32,
{
    assert((if m & 0o400u32 != 0 { 0o400u32 } else { 0u32 }) == m & 0o400u32) by (bit_vector);
    assert((if m & 0o200u32 != 0 { 0o200u32 } else { 0u32 }) == m & 0o200u32) by (bit_vector);
    assert((if m & 0o100u32 != 0 { 0o100u32 } else { 0u32 }) == m & 0o100u32) by (bit_vector);
    assert((if m & 0o040u32 != 0 { 0o040u32 } else { 0u32 }) == m & 0o040u32) by (bit_vector);
    assert((if m & 0o020u32 != 0 { 0o020u32 } else { 0u32 }) == m & 0o020u32) by (bit_vector);
    assert((if m & 0o010u32 != 0 { 0o010u32 } else { 0u32 }) == m & 0o010u32) by (bit_vector);
    assert((if m & 0o004u32 != 0 { 0o004u32 } else { 0u32 }) == m & 0o004u32) by (bit_vector);
    assert((if m & 0o002u32 != 0 { 0o002u32 } else { 0u32 }) == m & 0o002u32) by (bit_vector);
    assert((if m & 0o001u32 != 0 { 0o001u32 } else { 0u32 }) == m & 0o001u32) by (bit_vector);
    assert(((((((((((0u32 | (m & 0o400u32)) | (m & 0o200u32)) | (m & 0o100u32)) | (m & 0o040u32))
        | (m & 0o020u32)) | (m & 0o010u32)) | (m & 0o004u32)) | (m & 0o002u32)) | (m & 0o001u32)))
        == m & 0o777u32) by (bit_vector);
}

/// Reading back the permission letters of a mode string gives the
/// permission bits of the mode it was made from.
pub proof fn lemma_mode_string_round_trip(mode: u32)
    ensures
        spec_parse_mode(spec_perm_letters(mode)) == mode & 0o777u32,
        spec_stringify_mode(mode).len() == spec_type_letter(mode).len() + 9,
        spec_type_letter(mode).len() == 1 ==> spec_stringify_mode(mode).drop_first()
            == spec_perm_letters(mode),
{
    let p = spec_perm_letters(mode);
    lemma_single_bit(mode);
    assert(p.take(0).len() == 0);
    assert(p.take(1).drop_last() =~= p.take(0));
    assert(p.take(2).drop_last() =~= p.take(1));
    assert(p.take(3).drop_last() =~= p.take(2));
    assert(p.take(4).drop_last() =~= p.take(3));
    assert(p.take(5).drop_last() =~= p.take(4));
    assert(p.take(6).drop_last() =~= p.take(5));
    assert(p.take(7).drop_last() =~= p.take(6));
    assert(p.take(8).drop_last() =~= p.take(7));
    assert(p.take(9).drop_last() =~= p.take(8));
    assert(p.take(9) =~= p);
    let s1 = spec_parse_mode(p.take(1));
    let s2 = spec_parse_mode(p.take(2));
    let s3 = spec_parse_mode(p.take(3));
    let s4 = spec_parse_mode(p.take(4));
    let s5 = spec_parse_mode(p.take(5));
    let s6 = spec_parse_mode(p.take(6));
    let s7 = spec_parse_mode(p.take(7));
    let s8 = spec_parse_mode(p.take(8));
    let s9 = spec_parse_mode(p.take(9));
    assert(spec_parse_mode(p.take(0)) == 0);
    assert(s1 == 0u32 | (mode & 0o400u32));
    assert(s2 == s1 | (mode & 0o200u32));
    assert(s3 == s2 | (mode & 0o100u32));
    assert(s4 == s3 | (mode & 0o040u32));
    assert(s5 == s4 | (mode & 0o020u32));
    assert(s6 == s5 | (mode & 0o010u32));
    assert(s7 == s6 | (mode & 0o004u32));
    assert(s8 == s7 | (mode & 0o002u32));
    assert(s9 == s8 | (mode & 0o001u32));
    if spec_type_letter(mode).len() == 1 {
        assert(spec_stringify_mode(mode).drop_first() =~= p);
    }
}

} // verus!
