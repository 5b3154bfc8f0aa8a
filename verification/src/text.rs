//! File names and paths, as sequences of characters.

use vstd::prelude::*;

verus! {

/// A character that cannot be part of a file's name: one that separates the
/// components of a path, or the character that ends a path.
pub open spec fn is_separator(c: char) -> bool {
    c == '/' || c == '\\' || c == '\0'
}

/// Whether `name` names a file directly inside a directory: one component,
/// not empty, neither `.` nor `..`, and free of separators. A path made by
/// joining a directory and such a name stays inside the directory.
pub open spec fn is_safe_file_name(name: Seq<char>) -> bool {
    &&& name.len() > 0
    &&& name != seq!['.']
    &&& name != seq!['.', '.']
    &&& forall|i: int| 0 <= i < name.len() ==> !is_separator(#[trigger] name[i])
}

/// The path of `name` inside `dir`: the two joined by one `/`, which is left
/// out where `dir` is empty or already ends in one.
pub open spec fn joined_path(dir: Seq<char>, name: Seq<char>) -> Seq<char> {
    if dir.len() == 0 {
        name
    } else if dir.last() == '/' {
        dir + name
    } else {
        dir + seq!['/'] + name
    }
}

/// The path of a safe name inside a directory ends in that name, with a `/`
/// before it where the directory is not empty, and with no `/` after that:
/// the name is the path's last component, and the directory is all that comes
/// before it.
pub proof fn lemma_safe_name_is_last_component(dir: Seq<char>, name: Seq<char>)
    requires
        is_safe_file_name(name),
    ensures
        dir.is_prefix_of(joined_path(dir, name)),
        name.is_suffix_of(joined_path(dir, name)),
        joined_path(dir, name).len() <= dir.len() + 1 + name.len(),
        dir.len() > 0 ==> joined_path(dir, name)[joined_path(dir, name).len() - name.len() - 1]
            == '/',
        forall|i: int|
            joined_path(dir, name).len() - name.len() <= i < joined_path(dir, name).len()
                ==> #[trigger] joined_path(dir, name)[i] != '/',
{
    let path = joined_path(dir, name);
    let start = path.len() - name.len();
    assert(path.subrange(0, dir.len() as int) =~= dir);
    assert(path.subrange(start, path.len() as int) =~= name);
    assert forall|i: int| start <= i < path.len() implies #[trigger] path[i] != '/' by {
        assert(path[i] == name[i - start]);
        assert(!is_separator(name[i - start]));
    }
}

/// The character for a digit below ten.
pub open spec fn decimal_digit(digit: int) -> char {
    seq!['0', '1', '2', '3', '4', '5', '6', '7', '8', '9'][digit]
}

/// A number in decimal, without leading zeros.
pub open spec fn decimal_text(n: nat) -> Seq<char>
    decreases n,
{
    if n < 10 {
        seq![decimal_digit(n as int)]
    } else {
        decimal_text(n / 10).push(decimal_digit((n % 10) as int))
    }
}

/// The characters of `s`, in order.
pub fn chars_of(s: &str) -> (chars: Vec<char>)
    ensures
        chars@ == s@,
{
    let mut chars: Vec<char> = Vec::new();
    for c in it: s.chars()
        invariant
            chars@ == s@.take(it.index() as int),
            it.seq() == s@,
    {
        chars.push(c);
    }
    chars
}

/// Decides `is_safe_file_name`.
pub fn check_safe_file_name(name: &str) -> (safe: bool)
    ensures
        safe == is_safe_file_name(name@),
{
    let chars = chars_of(name);
    let n = chars.len();
    if n == 0 {
        return false;
    }
    if n == 1 && chars[0] == '.' {
        assert(name@ =~= seq!['.']);
        return false;
    }
    if n == 2 && chars[0] == '.' && chars[1] == '.' {
        assert(name@ =~= seq!['.', '.']);
        return false;
    }
    assert(name@ != seq!['.']) by {
        if name@ == seq!['.'] {
            assert(seq!['.'].len() == 1);
            assert(seq!['.'][0] == '.');
        }
    }
    assert(name@ != seq!['.', '.']) by {
        if name@ == seq!['.', '.'] {
            assert(seq!['.', '.'].len() == 2);
            assert(seq!['.', '.'][0] == '.');
            assert(seq!['.', '.'][1] == '.');
        }
    }
    let mut i: usize = 0;
    while i < n
        invariant
            n == chars.len(),
            chars@ == name@,
            i <= n,
            forall|j: int| 0 <= j < i ==> !is_separator(#[trigger] name@[j]),
        decreases n - i,
    {
        let c = chars[i];
        if c == '/' || c == '\\' || c == '\0' {
            assert(is_separator(name@[i as int]));
            return false;
        }
        i += 1;
    }
    true
}

/// The path of `name` inside `dir`.
pub fn join_path(dir: &str, name: &str) -> (path: String)
    ensures
        path@ == joined_path(dir@, name@),
{
    let chars = chars_of(dir);
    let n = chars.len();
    if n == 0 {
        return name.to_owned();
    }
    let mut path = dir.to_owned();
    if chars[n - 1] != '/' {
        proof {
            reveal_strlit("/");
            assert("/"@ =~= seq!['/']);
        }
        path.append("/");
    }
    path.append(name);
    path
}

fn decimal_digit_str(digit: u64) -> (text: &'static str)
    requires
        digit < 10,
    ensures
        text@ == seq![decimal_digit(digit as int)],
{
    proof {
        reveal_strlit("0");
        reveal_strlit("1");
        reveal_strlit("2");
        reveal_strlit("3");
        reveal_strlit("4");
        reveal_strlit("5");
        reveal_strlit("6");
        reveal_strlit("7");
        reveal_strlit("8");
        reveal_strlit("9");
    }
    let text = match digit {
        0 => "0",
        1 => "1",
        2 => "2",
        3 => "3",
        4 => "4",
        5 => "5",
        6 => "6",
        7 => "7",
        8 => "8",
        _ => "9",
    };
    assert(text@ =~= seq![decimal_digit(digit as int)]);
    text
}

/// Appends `n` in decimal to `out`.
pub fn push_decimal(out: &mut String, n: u64)
    ensures
        final(out)@ == old(out)@ + decimal_text(n as nat),
    decreases n,
{
    if n >= 10 {
        push_decimal(out, n / 10);
    }
    out.append(decimal_digit_str(n % 10));
    proof {
        let digit = seq![decimal_digit((n % 10) as int)];
        if n >= 10 {
            assert(decimal_text(n as nat) =~= decimal_text((n / 10) as nat) + digit);
            assert(old(out)@ + decimal_text((n / 10) as nat) + digit =~= old(out)@ + (decimal_text(
                (n / 10) as nat,
            ) + digit));
        }
    }
}

/// `n` in decimal.
pub fn decimal(n: u64) -> (text: String)
    ensures
        text@ == decimal_text(n as nat),
{
    let mut text = String::new();
    push_decimal(&mut text, n);
    assert(Seq::<char>::empty() + decimal_text(n as nat) =~= decimal_text(n as nat));
    text
}

} // verus!
