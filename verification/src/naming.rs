//! Names of stored files and their place under the storage directory.

use vstd::prelude::*;

verus! {

/// The character that writes a value below ten.
pub open spec fn digit_char(d: nat) -> char {
    if d == 0 {
        '0'
    } else if d == 1 {
        '1'
    } else if d == 2 {
        '2'
    } else if d == 3 {
        '3'
    } else if d == 4 {
        '4'
    } else if d == 5 {
        '5'
    } else if d == 6 {
        '6'
    } else if d == 7 {
        '7'
    } else if d == 8 {
        '8'
    } else {
        '9'
    }
}

/// The decimal numeral of `n`, most significant digit first, without leading zeros.
pub open spec fn decimal(n: nat) -> Seq<char>
    decreases n,
{
    if n < 10 {
        seq![digit_char(n)]
    } else {
        decimal(n / 10).push(digit_char(n % 10))
    }
}

/// What separates the timestamp from the declared file name.
pub open spec fn separator() -> Seq<char> {
    seq![' ', '-', ' ']
}

/// The name composed for an upload: the timestamp in microseconds, the
/// separator, and the file name the client declared.
pub open spec fn composed(micros: nat, declared: Seq<char>) -> Seq<char> {
    decimal(micros) + separator() + declared
}

/// Whether `s` can be appended to a directory as one path component without
/// leaving that directory: it holds no path separator and is neither `.` nor `..`.
pub open spec fn is_segment(s: Seq<char>) -> bool {
    &&& forall|i: int| 0 <= i < s.len() ==> s[i] != '/' && s[i] != '\\'
    &&& s != seq!['.']
    &&& s != seq!['.', '.']
}

/// Whether `s` holds none of the control characters U+0000 to U+001F.
pub open spec fn is_free_of_controls(s: Seq<char>) -> bool {
    forall|i: int| 0 <= i < s.len() ==> s[i] as u32 >= 0x20
}

/// The path of the entry `name` directly under the directory `dir`.
pub open spec fn storage_path(dir: Seq<char>, name: Seq<char>) -> Seq<char> {
    dir + seq!['/'] + name
}

/// Whether `path` names an entry directly under `dir`.
pub open spec fn is_within(dir: Seq<char>, path: Seq<char>) -> bool {
    exists|name: Seq<char>| is_segment(name) && path == #[trigger] storage_path(dir, name)
}

/// What `sanitize_filename::sanitize_with_options` returns for a name and the
/// three options `windows`, `truncate` and `replacement`.
pub uninterp spec fn sanitized(
    name: Seq<char>,
    windows: bool,
    truncate: bool,
    replacement: Seq<char>,
) -> Seq<char>;

/// The name under which an upload is stored: the composed name, sanitized
/// with the options this library fixes (see [`sanitize`]).
pub open spec fn stored(micros: nat, declared: Seq<char>) -> Seq<char> {
    sanitized(composed(micros, declared), false, true, Seq::empty())
}

/// Calls `sanitize_filename::sanitize_with_options` with the given name and options.
///
/// Trusted, not proved: the result is a function of the four arguments
/// alone, and with an empty replacement it holds no `/`, no `\` and no
/// control character below U+0020, and is neither `.` nor `..`. The outside
/// function first replaces every `/` and `\` (among other characters) by the
/// replacement, then every control character, then a name made of dots
/// only; what follows replaces by the replacement again or cuts the name at
/// the last character boundary within 255 bytes, which leaves more than two
/// characters.
#[verifier::external_body]
fn sanitize_with(name: &str, windows: bool, truncate: bool, replacement: &str) -> (out: String)
    ensures
        out@ == sanitized(name@, windows, truncate, replacement@),
        replacement@.len() == 0 ==> is_segment(out@) && is_free_of_controls(out@),
{
    sanitize_filename::sanitize_with_options(
        name,
        sanitize_filename::Options { windows, truncate, replacement },
    )
}

/// Makes `name` safe to use as one path component. The options are fixed so
/// that the result does not depend on the platform: no Windows rules, cut at
/// 255 bytes, offending characters deleted.
pub fn sanitize(name: &str) -> (out: String)
    ensures
        out@ == sanitized(name@, false, true, Seq::empty()),
        is_segment(out@),
        is_free_of_controls(out@),
{
    let replacement = "";
    proof {
        reveal_strlit("");
        assert(replacement@ =~= Seq::<char>::empty());
    }
    sanitize_with(name, false, true, replacement)
}

/// The one-character string of a digit.
fn digit_str(d: u8) -> (out: &'static str)
    requires
        d < 10,
    ensures
        out@ == seq![digit_char(d as nat)],
{
    proof {
        reveal_strlit("0");
        reveal_strlit("1");
        reveal_strlit("2");
        reveal_strlit("3");
        reveal_strlit("4");
        reveal_strlit("5");
        reveal_strlit("6");
        reveal_strlit("7");
        reveal_strlit("8");
        reveal_strlit("9");
    }
    let out = if d == 0 {
        "0"
    } else if d == 1 {
        "1"
    } else if d == 2 {
        "2"
    } else if d == 3 {
        "3"
    } else if d == 4 {
        "4"
    } else if d == 5 {
        "5"
    } else if d == 6 {
        "6"
    } else if d == 7 {
        "7"
    } else if d == 8 {
        "8"
    } else {
        "9"
    };
    assert(out@ =~= seq![digit_char(d as nat)]);
    out
}

/// Writes `n` in decimal.
pub fn decimal_string(n: u128) -> (out: String)
    ensures
        out@ == decimal(n as nat),
    decreases n,
{
    if n < 10 {
        String::from_str(digit_str(n as u8))
    } else {
        let mut out = decimal_string(n / 10);
        out.append(digit_str((n % 10) as u8));
        assert(out@ =~= decimal(n as nat));
        out
    }
}

/// Composes the name of an upload received at `micros` microseconds since the
/// epoch under the file name `declared` by the client.
pub fn compose_name(micros: u128, declared: &str) -> (out: String)
    ensures
        out@ == composed(micros as nat, declared@),
{
    let mut out = decimal_string(micros);
    proof {
        reveal_strlit(" - ");
    }
    out.append(" - ");
    out.append(declared);
    assert(out@ =~= composed(micros as nat, declared@));
    out
}

/// The sanitized name under which an upload is stored.
pub fn stored_name(micros: u128, declared: &str) -> (out: String)
    ensures
        out@ == stored(micros as nat, declared@),
        is_segment(out@),
        is_free_of_controls(out@),
{
    let name = compose_name(micros, declared);
    sanitize(name.as_str())
}

/// Joins a storage directory and an entry name into a path.
pub fn join_path(dir: &str, name: &str) -> (out: String)
    ensures
        out@ == storage_path(dir@, name@),
{
    let mut out = String::from_str(dir);
    proof {
        reveal_strlit("/");
    }
    out.append("/");
    out.append(name);
    assert(out@ =~= storage_path(dir@, name@));
    out
}

/// Decides whether `name` is one path component that stays in its directory.
pub fn is_safe_name(name: &str) -> (ok: bool)
    ensures
        ok == is_segment(name@),
{
    let n: usize = name.unicode_len();
    let mut dots: usize = 0;
    let mut i: usize = 0;
    while i < n
        invariant
            n == name@.len(),
            0 <= i <= n,
            dots <= i,
            forall|j: int| 0 <= j < i ==> name@[j] != '/' && name@[j] != '\\',
            dots == i <==> (forall|j: int| 0 <= j < i ==> name@[j] == '.'),
        decreases n - i,
    {
        let c = name.get_char(i);
        if c == '/' || c == '\\' {
            return false;
        }
        if c == '.' && dots == i {
            dots = dots + 1;
        }
        i = i + 1;
    }
    if (n == 1 || n == 2) && dots == n {
        proof {
            if n == 1 {
                assert(name@ =~= seq!['.']);
            } else {
                assert(name@ =~= seq!['.', '.']);
            }
        }
        false
    } else {
        proof {
            if name@ == seq!['.'] {
                assert(n == 1);
            }
            if name@ == seq!['.', '.'] {
                assert(n == 2);
            }
        }
        true
    }
}

} // verus!
