//! The side-car's command line: `<file_path> <width> <height>`.
use vstd::prelude::*;

verus! {

pub open spec fn is_digit(c: char) -> bool {
    '0' <= c <= '9'
}

/// The value of a string of decimal digits.
pub open spec fn digits_value(s: Seq<char>) -> int
    decreases s.len(),
{
    if s.len() == 0 {
        0
    } else {
        digits_value(s.drop_last()) * 10 + (s.last() as int - '0' as int)
    }
}

pub open spec fn all_digits(d: Seq<char>) -> bool {
    forall|i: int| 0 <= i < d.len() ==> is_digit(#[trigger] d[i])
}

/// `s` without its sign, if it has one.
pub open spec fn unsigned_part(s: Seq<char>) -> Seq<char> {
    if s.len() > 0 && (s[0] == '-' || s[0] == '+') {
        s.drop_first()
    } else {
        s
    }
}

/// What `i32::from_str` accepts: an optional '+' or '-', then one or more
/// ASCII digits, with a value in range.
pub open spec fn i32_of(s: Seq<char>) -> Option<i32> {
    let neg = s.len() > 0 && s[0] == '-';
    let d = unsigned_part(s);
    let v = if neg {
        -digits_value(d)
    } else {
        digits_value(d)
    };
    if d.len() > 0 && all_digits(d) && i32::MIN <= v <= i32::MAX {
        Some(v as i32)
    } else {
        None
    }
}

proof fn lemma_digits_value_nonneg(s: Seq<char>)
    requires
        forall|i: int| 0 <= i < s.len() ==> is_digit(#[trigger] s[i]),
    ensures
        digits_value(s) >= 0,
    decreases s.len(),
{
    if s.len() > 0 {
        lemma_digits_value_nonneg(s.drop_last());
    }
}

/// Parses a decimal `i32` as `str::parse` does.
pub fn parse_i32(s: &str) -> (r: Option<i32>)
    ensures
        r == i32_of(s@),
{
    let n = s.unicode_len();
    let neg = n > 0 && s.get_char(0) == '-';
    let start: usize = if n > 0 && (s.get_char(0) == '-' || s.get_char(0) == '+') {
        1
    } else {
        0
    };
    let ghost d = unsigned_part(s@);
    assert(d =~= s@.subrange(start as int, n as int));
    if start == n {
        return None;
    }
    // Magnitude so far; once it exceeds 2^31 no suffix brings it back in range.
    let mut acc: i64 = 0;
    let mut big = false;
    let mut i: usize = start;
    while i < n
        invariant
            n == s@.len(),
            start <= i <= n,
            d == s@.subrange(start as int, n as int),
            d == unsigned_part(s@),
            forall|k: int| start <= k < i ==> is_digit(#[trigger] s@[k]),
            !big ==> acc == digits_value(s@.subrange(start as int, i as int)),
            !big ==> 0 <= acc <= 2147483648,
            big ==> digits_value(s@.subrange(start as int, i as int)) > 2147483648,
        decreases n - i,
    {
        let c = s.get_char(i);
        if !('0' <= c && c <= '9') {
            assert(!is_digit(d[i - start]));
            assert(!all_digits(d));
            return None;
        }
        let ghost pre = s@.subrange(start as int, i as int);
        let ghost next = s@.subrange(start as int, i + 1);
        assert(next.drop_last() =~= pre);
        assert forall|k: int| 0 <= k < pre.len() implies is_digit(#[trigger] pre[k]) by {
            assert(pre[k] == s@[start + k]);
        }
        proof {
            lemma_digits_value_nonneg(pre);
        }
        if !big {
            let v = acc * 10 + (c as i64 - '0' as i64);
            if v > 2147483648 {
                big = true;
            } else {
                acc = v;
            }
        }
        i = i + 1;
    }
    assert(s@.subrange(start as int, n as int) == d);
    assert forall|k: int| 0 <= k < d.len() implies is_digit(#[trigger] d[k]) by {
        assert(d[k] == s@[start + k]);
    }
    assert(all_digits(d));
    if big {
        return None;
    }
    if neg {
        Some((-acc) as i32)
    } else if acc <= 2147483647 {
        Some(acc as i32)
    } else {
        None
    }
}

/// What the side-car was asked to play, and at which size.
#[derive(Debug)]
pub struct PlayerArgs {
    pub video_path: String,
    pub width: i32,
    pub height: i32,
}

/// Why the command line was refused.
#[derive(Debug, Clone, Copy, PartialEq, Eq, Structural)]
pub enum ArgsError {
    /// Fewer than three arguments after the program name.
    Usage,
    InvalidWidth,
    InvalidHeight,
}

/// Reads `<program> <file_path> <width> <height>`; arguments after those are
/// ignored.
pub fn parse_player_args(args: &Vec<String>) -> (r: Result<PlayerArgs, ArgsError>)
    ensures
        args@.len() < 4 ==> r == Err::<PlayerArgs, ArgsError>(ArgsError::Usage),
        args@.len() >= 4 && i32_of(args@[2]@) is None ==> r == Err::<PlayerArgs, ArgsError>(
            ArgsError::InvalidWidth,
        ),
        args@.len() >= 4 && i32_of(args@[2]@) is Some && i32_of(args@[3]@) is None ==> r == Err::<
            PlayerArgs,
            ArgsError,
        >(ArgsError::InvalidHeight),
        r is Ok <==> (args@.len() >= 4 && i32_of(args@[2]@) is Some && i32_of(args@[3]@) is Some),
        r matches Ok(a) ==> a.video_path@ == args@[1]@ && Some(a.width) == i32_of(args@[2]@)
            && Some(a.height) == i32_of(args@[3]@),
{
    if args.len() < 4 {
        return Err(ArgsError::Usage);
    }
    let width = match parse_i32(args[2].as_str()) {
        Some(w) => w,
        None => return Err(ArgsError::InvalidWidth),
    };
    let height = match parse_i32(args[3].as_str()) {
        Some(h) => h,
        None => return Err(ArgsError::InvalidHeight),
    };
    Ok(PlayerArgs { video_path: args[1].clone(), width, height })
}

} // verus!
