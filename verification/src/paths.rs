//! Path and file-name construction for the persistence service.
//!
//! The configuration file lives at `<home>/.openclaw/openclaw.json`; a
//! backup is a copy named `openclaw_backup_<YYYYMMDD_HHMMSS>.json` in the
//! `backups` directory beside the configuration file. Everything here is
//! character-exact: the timestamp formatting and the parent-directory
//! computation are specified down to each character.

use vstd::prelude::*;

verus! {

/// The decimal digit character for `d` (0 to 9).
pub open spec fn digit_char(d: nat) -> char {
    if d == 0 {
        '0'
    } else if d == 1 {
        '1'
    } else if d == 2 {
        '2'
    } else if d == 3 {
        '3'
    } else if d == 4 {
        '4'
    } else if d == 5 {
        '5'
    } else if d == 6 {
        '6'
    } else if d == 7 {
        '7'
    } else if d == 8 {
        '8'
    } else {
        '9'
    }
}

/// Decimal digits of `n`, most significant first, with no leading zeros
/// (a single `'0'` for zero).
pub open spec fn dec_chars(n: nat) -> Seq<char>
    decreases n,
{
    if n < 10 {
        seq![digit_char(n)]
    } else {
        dec_chars(n / 10).push(digit_char(n % 10))
    }
}

/// Decimal digits of `n`, zero-padded to at least two characters.
pub open spec fn pad2(n: nat) -> Seq<char> {
    if n < 10 {
        seq!['0'] + dec_chars(n)
    } else {
        dec_chars(n)
    }
}

/// Decimal digits of `n`, zero-padded to at least four characters.
pub open spec fn pad4(n: nat) -> Seq<char> {
    if n < 10 {
        seq!['0', '0', '0'] + dec_chars(n)
    } else if n < 100 {
        seq!['0', '0'] + dec_chars(n)
    } else if n < 1000 {
        seq!['0'] + dec_chars(n)
    } else {
        dec_chars(n)
    }
}

/// A year, zero-padded to four digits, with a leading minus sign for
/// years before year zero.
pub open spec fn year_chars(y: int) -> Seq<char> {
    if y < 0 {
        seq!['-'] + pad4((-y) as nat)
    } else {
        pad4(y as nat)
    }
}

/// The characters of a `YYYYMMDD_HHMMSS` timestamp.
pub open spec fn timestamp_chars(y: int, mo: nat, d: nat, h: nat, mi: nat, s: nat) -> Seq<char> {
    year_chars(y) + pad2(mo) + pad2(d) + seq!['_'] + pad2(h) + pad2(mi) + pad2(s)
}

/// The characters of a backup file's name for the given timestamp.
pub open spec fn backup_name_chars(y: int, mo: nat, d: nat, h: nat, mi: nat, s: nat) -> Seq<
    char,
> {
    "openclaw_backup_"@ + timestamp_chars(y, mo, d, h, mi, s) + ".json"@
}

/// Whether some character of `s` is a path separator.
pub open spec fn has_slash(s: Seq<char>) -> bool {
    exists|i: int| 0 <= i < s.len() && s[i] == '/'
}

/// The one-character string for the digit `d`.
fn digit_str(d: u32) -> (r: &'static str)
    requires
        d <= 9,
    ensures
        r@ == seq![digit_char(d as nat)],
{
    proof {
        reveal_strlit("0");
        reveal_strlit("1");
        reveal_strlit("2");
        reveal_strlit("3");
        reveal_strlit("4");
        reveal_strlit("5");
        reveal_strlit("6");
        reveal_strlit("7");
        reveal_strlit("8");
        reveal_strlit("9");
        assert("0"@ =~= seq!['0']);
        assert("1"@ =~= seq!['1']);
        assert("2"@ =~= seq!['2']);
        assert("3"@ =~= seq!['3']);
        assert("4"@ =~= seq!['4']);
        assert("5"@ =~= seq!['5']);
        assert("6"@ =~= seq!['6']);
        assert("7"@ =~= seq!['7']);
        assert("8"@ =~= seq!['8']);
        assert("9"@ =~= seq!['9']);
    }
    match d {
        0 => "0",
        1 => "1",
        2 => "2",
        3 => "3",
        4 => "4",
        5 => "5",
        6 => "6",
        7 => "7",
        8 => "8",
        _ => "9",
    }
}

/// Appends the decimal digits of `n` to `out`.
fn push_dec(out: &mut String, n: u32)
    ensures
        final(out)@ == old(out)@ + dec_chars(n as nat),
    decreases n,
{
    if n < 10 {
        out.append(digit_str(n));
    } else {
        push_dec(out, n / 10);
        out.append(digit_str(n % 10));
        proof {
            assert(final(out)@ =~= old(out)@ + dec_chars(n as nat));
        }
    }
}

/// Appends the decimal digits of `n`, zero-padded to two characters.
fn push_pad2(out: &mut String, n: u32)
    ensures
        final(out)@ == old(out)@ + pad2(n as nat),
{
    if n < 10 {
        proof {
            reveal_strlit("0");
            assert("0"@ =~= seq!['0']);
        }
        out.append("0");
    }
    push_dec(out, n);
    proof {
        assert(final(out)@ =~= old(out)@ + pad2(n as nat));
    }
}

/// Appends the decimal digits of `n`, zero-padded to four characters.
fn push_pad4(out: &mut String, n: u32)
    ensures
        final(out)@ == old(out)@ + pad4(n as nat),
{
    proof {
        reveal_strlit("0");
        reveal_strlit("00");
        reveal_strlit("000");
        assert("0"@ =~= seq!['0']);
        assert("00"@ =~= seq!['0', '0']);
        assert("000"@ =~= seq!['0', '0', '0']);
    }
    if n < 10 {
        out.append("000");
    } else if n < 100 {
        out.append("00");
    } else if n < 1000 {
        out.append("0");
    }
    push_dec(out, n);
    proof {
        assert(final(out)@ =~= old(out)@ + pad4(n as nat));
    }
}

/// Formats a UTC timestamp as `YYYYMMDD_HHMMSS`.
pub fn format_timestamp(y: i32, mo: u32, d: u32, h: u32, mi: u32, s: u32) -> (r: String)
    ensures
        r@ == timestamp_chars(y as int, mo as nat, d as nat, h as nat, mi as nat, s as nat),
{
    let mut out = String::new();
    if y < 0 {
        proof {
            reveal_strlit("-");
            assert("-"@ =~= seq!['-']);
        }
        out.append("-");
        let mag: u32 = (-(y as i64)) as u32;
        push_pad4(&mut out, mag);
    } else {
        push_pad4(&mut out, y as u32);
    }
    proof {
        assert(out@ =~= year_chars(y as int));
    }
    push_pad2(&mut out, mo);
    push_pad2(&mut out, d);
    proof {
        reveal_strlit("_");
        assert("_"@ =~= seq!['_']);
    }
    out.append("_");
    push_pad2(&mut out, h);
    push_pad2(&mut out, mi);
    push_pad2(&mut out, s);
    proof {
        assert(out@ =~= timestamp_chars(
            y as int,
            mo as nat,
            d as nat,
            h as nat,
            mi as nat,
            s as nat,
        ));
    }
    out
}

/// The file name of a backup taken at the given UTC timestamp.
pub fn backup_file_name(y: i32, mo: u32, d: u32, h: u32, mi: u32, s: u32) -> (r: String)
    ensures
        r@ == backup_name_chars(y as int, mo as nat, d as nat, h as nat, mi as nat, s as nat),
{
    let mut out = String::from_str("openclaw_backup_");
    let ts = format_timestamp(y, mo, d, h, mi, s);
    out.append(ts.as_str());
    out.append(".json");
    proof {
        assert(out@ =~= backup_name_chars(
            y as int,
            mo as nat,
            d as nat,
            h as nat,
            mi as nat,
            s as nat,
        ));
    }
    out
}

/// The configuration file's path under the given home directory.
pub fn config_path_for_home(home: &str) -> (r: String)
    ensures
        r@ == home@ + "/.openclaw/openclaw.json"@,
{
    home.to_owned().concat("/.openclaw/openclaw.json")
}

/// Joins a directory and a file name with a path separator.
pub fn join_path(dir: &str, name: &str) -> (r: String)
    ensures
        r@ == dir@ + "/"@ + name@,
{
    let mut out = dir.to_owned();
    out.append("/");
    out.append(name);
    proof {
        assert(out@ =~= dir@ + "/"@ + name@);
    }
    out
}

/// The directory part of `p`: everything before the last path separator.
/// Returns `None` when `p` has no separator.
pub fn parent_dir(p: &str) -> (r: Option<String>)
    ensures
        match r {
            Some(d) => exists|i: int|
                0 <= i < p@.len() && p@[i] == '/' && d@ == p@.subrange(0, i) && (forall|j: int|
                    i < j < p@.len() ==> p@[j] != '/'),
            None => !has_slash(p@),
        },
        r is Some <==> has_slash(p@),
{
    let n = p.unicode_len();
    let mut i: usize = n;
    while i > 0
        invariant
            n == p@.len(),
            i <= n,
            forall|j: int| i <= j < n ==> p@[j] != '/',
        decreases i,
    {
        i = i - 1;
        if p.get_char(i) == '/' {
            let d = String::from_str(p.substring_char(0, i));
            proof {
                assert(0 <= i < p@.len() && p@[i as int] == '/' && d@ == p@.subrange(0, i as int)
                    && (forall|j: int| i < j < p@.len() ==> p@[j] != '/'));
            }
            return Some(d);
        }
    }
    None
}

} // verus!
