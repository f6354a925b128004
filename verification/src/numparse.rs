use vstd::prelude::*;

verus! {

/// Why a string is not an integer, as `std::num::IntErrorKind` tells it.
#[derive(Clone, Copy, Debug, PartialEq, Eq, Structural)]
pub enum IntErrorKind {
    Empty,
    InvalidDigit,
    PosOverflow,
    NegOverflow,
}

/// The value of a decimal digit character.
pub open spec fn digit_value(c: char) -> Option<int> {
    if '0' <= c && c <= '9' {
        Some(c as int - '0' as int)
    } else {
        None
    }
}

/// Reads the digits `d` after a value `acc` read so far, the value staying at
/// most `bound`; `over` is the error when it does not.
pub open spec fn accumulate(d: Seq<char>, acc: int, bound: int, over: IntErrorKind) -> Result<
    int,
    IntErrorKind,
>
    decreases d.len(),
{
    if d.len() == 0 {
        Ok(acc)
    } else {
        match digit_value(d[0]) {
            None => Err(IntErrorKind::InvalidDigit),
            Some(v) => {
                let n = acc * 10 + v;
                if n > bound {
                    Err(over)
                } else {
                    accumulate(d.drop_first(), n, bound, over)
                }
            },
        }
    }
}

/// The value of `s` as an unsigned integer of at most `max`, as `str::parse`
/// reads it: an optional '+' and decimal digits.
pub open spec fn spec_parse_unsigned(s: Seq<char>, max: int) -> Result<int, IntErrorKind> {
    if s.len() == 0 {
        Err(IntErrorKind::Empty)
    } else if (s[0] == '+' || s[0] == '-') && s.len() == 1 {
        Err(IntErrorKind::InvalidDigit)
    } else if s[0] == '+' {
        accumulate(s.drop_first(), 0, max, IntErrorKind::PosOverflow)
    } else {
        accumulate(s, 0, max, IntErrorKind::PosOverflow)
    }
}

/// The value of `s` as an `i32`, as `str::parse::<i32>` reads it: an optional
/// sign and decimal digits.
pub open spec fn spec_parse_i32(s: Seq<char>) -> Result<int, IntErrorKind> {
    if s.len() == 0 {
        Err(IntErrorKind::Empty)
    } else if (s[0] == '+' || s[0] == '-') && s.len() == 1 {
        Err(IntErrorKind::InvalidDigit)
    } else if s[0] == '+' {
        accumulate(s.drop_first(), 0, i32::MAX as int, IntErrorKind::PosOverflow)
    } else if s[0] == '-' {
        match accumulate(s.drop_first(), 0, 0x8000_0000, IntErrorKind::NegOverflow) {
            Ok(m) => Ok(-m),
            Err(e) => Err(e),
        }
    } else {
        accumulate(s, 0, i32::MAX as int, IntErrorKind::PosOverflow)
    }
}

/// A value that `accumulate` gives lies between the value read so far and the bound.
pub proof fn lemma_accumulate_bounds(d: Seq<char>, acc: int, bound: int, over: IntErrorKind)
    requires
        0 <= acc <= bound,
    ensures
        accumulate(d, acc, bound, over) matches Ok(v) ==> 0 <= v <= bound,
    decreases d.len(),
{
    if d.len() > 0 {
        if let Some(v) = digit_value(d[0]) {
            let n = acc * 10 + v;
            if n <= bound {
                lemma_accumulate_bounds(d.drop_first(), n, bound, over);
            }
        }
    }
}

/// A value that `spec_parse_unsigned` reads lies between 0 and its bound.
pub proof fn lemma_parse_unsigned_bounds(s: Seq<char>, max: int)
    requires
        0 <= max,
    ensures
        spec_parse_unsigned(s, max) matches Ok(v) ==> 0 <= v <= max,
{
    if s.len() > 0 {
        lemma_accumulate_bounds(s.drop_first(), 0, max, IntErrorKind::PosOverflow);
        lemma_accumulate_bounds(s, 0, max, IntErrorKind::PosOverflow);
    }
}

/// Reads the digits `v[from..]` after a value `acc`, staying at most `bound`.
fn accumulate_exec(v: &[char], from: usize, acc: u64, bound: u64, over: IntErrorKind) -> (r: Result<
    u64,
    IntErrorKind,
>)
    requires
        from <= v@.len(),
        acc <= bound,
        bound <= 0x1_0000_0000u64,
    ensures
        match accumulate(v@.subrange(from as int, v@.len() as int), acc as int, bound as int, over) {
            Ok(x) => r == Ok::<u64, IntErrorKind>(x as u64),
            Err(e) => r == Err::<u64, IntErrorKind>(e),
        },
    decreases v@.len() - from,
{
    let ghost d = v@.subrange(from as int, v@.len() as int);
    if from == v.len() {
        return Ok(acc);
    }
    let c = v[from];
    assert(d[0] == c);
    assert(d.drop_first() =~= v@.subrange(from + 1, v@.len() as int));
    if '0' <= c && c <= '9' {
        let dv: u64 = (c as u32 - '0' as u32) as u64;
        let n = acc * 10 + dv;
        if n > bound {
            Err(over)
        } else {
            accumulate_exec(v, from + 1, n, bound, over)
        }
    } else {
        Err(over_invalid())
    }
}

fn over_invalid() -> (r: IntErrorKind)
    ensures
        r == IntErrorKind::InvalidDigit,
{
    IntErrorKind::InvalidDigit
}

/// The value of the characters `v` as a `usize`, as `str::parse::<usize>` reads it.
pub fn parse_usize(v: &[char]) -> (r: Result<usize, IntErrorKind>)
    ensures
        match spec_parse_unsigned(v@, usize::MAX as int) {
            Ok(x) => r == Ok::<usize, IntErrorKind>(x as usize),
            Err(e) => r == Err::<usize, IntErrorKind>(e),
        },
        r matches Ok(x) ==> spec_parse_unsigned(v@, usize::MAX as int) == Ok::<int, IntErrorKind>(
            x as int,
        ),
{
    proof {
        lemma_parse_unsigned_bounds(v@, usize::MAX as int);
    }
    let max: u64 = usize::MAX as u64;
    assert(v@.subrange(0, v@.len() as int) =~= v@);
    if v.len() == 0 {
        return Err(IntErrorKind::Empty);
    }
    if (v[0] == '+' || v[0] == '-') && v.len() == 1 {
        return Err(IntErrorKind::InvalidDigit);
    }
    let from: usize = if v[0] == '+' {
        1
    } else {
        0
    };
    proof {
        assert(v@.drop_first() =~= v@.subrange(1, v@.len() as int));
    }
    if usize::MAX as u64 <= 0x1_0000_0000 {
        let r = accumulate_exec(v, from, 0, max, IntErrorKind::PosOverflow);
        proof {
            lemma_accumulate_bounds(v@.subrange(from as int, v@.len() as int), 0, max as int, IntErrorKind::PosOverflow);
        }
        match r {
            Ok(x) => Ok(x as usize),
            Err(e) => Err(e),
        }
    } else {
        parse_usize_wide(v, from)
    }
}

/// Reads `v[from..]` with `usize::MAX` as the bound, when that bound is too
/// large to multiply by ten in a `u64`.
fn parse_usize_wide(v: &[char], from: usize) -> (r: Result<usize, IntErrorKind>)
    requires
        from <= v@.len(),
    ensures
        match accumulate(v@.subrange(from as int, v@.len() as int), 0, usize::MAX as int, IntErrorKind::PosOverflow) {
            Ok(x) => r == Ok::<usize, IntErrorKind>(x as usize),
            Err(e) => r == Err::<usize, IntErrorKind>(e),
        },
{
    let mut acc: u128 = 0;
    let mut i: usize = from;
    let bound: u128 = usize::MAX as u128;
    while i < v.len()
        invariant
            from <= i <= v@.len(),
            acc <= bound,
            bound == usize::MAX as u128,
            accumulate(v@.subrange(from as int, v@.len() as int), 0, bound as int, IntErrorKind::PosOverflow)
                == accumulate(v@.subrange(i as int, v@.len() as int), acc as int, bound as int, IntErrorKind::PosOverflow),
        decreases v@.len() - i,
    {
        let ghost d = v@.subrange(i as int, v@.len() as int);
        let c = v[i];
        assert(d[0] == c);
        assert(d.drop_first() =~= v@.subrange(i + 1, v@.len() as int));
        if '0' <= c && c <= '9' {
            let dv: u128 = (c as u32 - '0' as u32) as u128;
            let n = acc * 10 + dv;
            if n > bound {
                return Err(IntErrorKind::PosOverflow);
            }
            acc = n;
        } else {
            return Err(IntErrorKind::InvalidDigit);
        }
        i = i + 1;
    }
    assert(v@.subrange(i as int, v@.len() as int).len() == 0);
    Ok(acc as usize)
}

/// The value of the characters `v` as an `i32`, as `str::parse::<i32>` reads it.
pub fn parse_i32(v: &[char]) -> (r: Result<i32, IntErrorKind>)
    ensures
        match spec_parse_i32(v@) {
            Ok(x) => r == Ok::<i32, IntErrorKind>(x as i32),
            Err(e) => r == Err::<i32, IntErrorKind>(e),
        },
        spec_parse_i32(v@) matches Ok(x) ==> i32::MIN <= x <= i32::MAX,
{
    assert(v@.subrange(0, v@.len() as int) =~= v@);
    assert(v@.len() > 0 ==> v@.drop_first() =~= v@.subrange(1, v@.len() as int));
    if v.len() == 0 {
        return Err(IntErrorKind::Empty);
    }
    if (v[0] == '+' || v[0] == '-') && v.len() == 1 {
        return Err(IntErrorKind::InvalidDigit);
    }
    if v[0] == '-' {
        let r = accumulate_exec(v, 1, 0, 0x8000_0000, IntErrorKind::NegOverflow);
        proof {
            lemma_accumulate_bounds(v@.subrange(1, v@.len() as int), 0, 0x8000_0000, IntErrorKind::NegOverflow);
        }
        match r {
            Ok(m) => {
                if m == 0x8000_0000 {
                    Ok(i32::MIN)
                } else {
                    Ok(-(m as i32))
                }
            },
            Err(e) => Err(e),
        }
    } else {
        let from: usize = if v[0] == '+' {
            1
        } else {
            0
        };
        let r = accumulate_exec(v, from, 0, 0x7fff_ffff, IntErrorKind::PosOverflow);
        proof {
            lemma_accumulate_bounds(v@.subrange(from as int, v@.len() as int), 0, 0x7fff_ffff, IntErrorKind::PosOverflow);
        }
        match r {
            Ok(x) => Ok(x as i32),
            Err(e) => Err(e),
        }
    }
}

/// The message `std::num::ParseIntError` shows for an error of this kind.
pub open spec fn int_error_message(k: IntErrorKind) -> Seq<char> {
    match k {
        IntErrorKind::Empty => "cannot parse integer from empty string"@,
        IntErrorKind::InvalidDigit => "invalid digit found in string"@,
        IntErrorKind::PosOverflow => "number too large to fit in target type"@,
        IntErrorKind::NegOverflow => "number too small to fit in target type"@,
    }
}

impl IntErrorKind {
    /// The message `std::num::ParseIntError` shows for an error of this kind.
    pub fn message(&self) -> (r: String)
        ensures
            r@ == int_error_message(*self),
    {
        match self {
            IntErrorKind::Empty => String::from_str("cannot parse integer from empty string"),
            IntErrorKind::InvalidDigit => String::from_str("invalid digit found in string"),
            IntErrorKind::PosOverflow => String::from_str("number too large to fit in target type"),
            IntErrorKind::NegOverflow => String::from_str("number too small to fit in target type"),
        }
    }
}

/// The value of `s` as a `bool`, as `str::parse::<bool>` reads it.
pub open spec fn spec_parse_bool(s: Seq<char>) -> Option<bool> {
    if s == "true"@ {
        Some(true)
    } else if s == "false"@ {
        Some(false)
    } else {
        None
    }
}

/// The value of the characters `v` as a `bool`, as `str::parse::<bool>` reads it.
pub fn parse_bool(v: &[char]) -> (r: Option<bool>)
    ensures
        r == spec_parse_bool(v@),
{
    if crate::text::chars_eq(v, "true") {
        Some(true)
    } else if crate::text::chars_eq(v, "false") {
        Some(false)
    } else {
        None
    }
}

} // verus!
