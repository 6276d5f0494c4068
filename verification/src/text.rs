use vstd::prelude::*;
use vstd::string::*;

verus! {

/// The code of `c` with the upper-case ASCII letters moved onto their
/// lower-case partners; every other character keeps its own code.
pub open spec fn fold_code(c: char) -> int {
    if 'A' <= c && c <= 'Z' {
        c as int + 32
    } else {
        c as int
    }
}

/// Two texts are the same up to the case of their ASCII letters.
pub open spec fn same_ignoring_case(a: Seq<char>, b: Seq<char>) -> bool {
    &&& a.len() == b.len()
    &&& forall|i: int| 0 <= i < a.len() ==> fold_code(#[trigger] a[i]) == fold_code(b[i])
}

/// The character that writes the digit `d`.
pub open spec fn digit_char(d: int) -> char {
    if d == 0 {
        '0'
    } else if d == 1 {
        '1'
    } else if d == 2 {
        '2'
    } else if d == 3 {
        '3'
    } else if d == 4 {
        '4'
    } else if d == 5 {
        '5'
    } else if d == 6 {
        '6'
    } else if d == 7 {
        '7'
    } else if d == 8 {
        '8'
    } else {
        '9'
    }
}

/// `n` in base ten, most significant digit first, without leading zeros.
pub open spec fn decimal(n: nat) -> Seq<char>
    decreases n,
{
    if n < 10 {
        seq![digit_char(n as int)]
    } else {
        decimal(n / 10).push(digit_char((n % 10) as int))
    }
}

/// `v` in base ten, with a leading minus sign when it is negative.
pub open spec fn signed_decimal(v: int) -> Seq<char> {
    if v < 0 {
        seq!['-'] + decimal((-v) as nat)
    } else {
        decimal(v as nat)
    }
}

/// Every text matches itself.
pub proof fn case_match_is_reflexive(a: Seq<char>)
    ensures
        same_ignoring_case(a, a),
{
}

/// A match does not depend on the side a text stands on.
pub proof fn case_match_is_symmetric(a: Seq<char>, b: Seq<char>)
    requires
        same_ignoring_case(a, b),
    ensures
        same_ignoring_case(b, a),
{
    assert forall|i: int| 0 <= i < b.len() implies fold_code(#[trigger] b[i]) == fold_code(
        a[i],
    ) by {
        assert(fold_code(a[i]) == fold_code(b[i]));
    }
}

/// Two texts that match a third match each other.
pub proof fn case_match_is_transitive(a: Seq<char>, b: Seq<char>, c: Seq<char>)
    requires
        same_ignoring_case(a, b),
        same_ignoring_case(b, c),
    ensures
        same_ignoring_case(a, c),
{
    assert forall|i: int| 0 <= i < a.len() implies fold_code(#[trigger] a[i]) == fold_code(
        c[i],
    ) by {
        assert(fold_code(a[i]) == fold_code(b[i]));
        assert(fold_code(b[i]) == fold_code(c[i]));
    }
}

/// Two texts that differ at most by turning ASCII letters into their
/// partners of the other case match.
pub proof fn change_of_case_matches(a: Seq<char>, b: Seq<char>)
    requires
        a.len() == b.len(),
        forall|i: int|
            0 <= i < a.len() ==> {
                ||| #[trigger] a[i] == b[i]
                ||| ('A' <= a[i] <= 'Z' && b[i] as int == a[i] as int + 32)
                ||| ('A' <= b[i] <= 'Z' && a[i] as int == b[i] as int + 32)
            },
    ensures
        same_ignoring_case(a, b),
{
    assert forall|i: int| 0 <= i < a.len() implies fold_code(#[trigger] a[i]) == fold_code(
        b[i],
    ) by {
        let x = a[i];
        let y = b[i];
        assert(x == y || ('A' <= x <= 'Z' && y as int == x as int + 32) || ('A' <= y <= 'Z'
            && x as int == y as int + 32));
    }
}

fn fold(c: char) -> (code: u32)
    ensures
        code == fold_code(c),
{
    if 'A' <= c && c <= 'Z' {
        c as u32 + 32
    } else {
        c as u32
    }
}

/// Compares two texts character by character, taking an upper-case ASCII
/// letter and its lower-case partner as equal.
pub fn eq_ignore_ascii_case(a: &str, b: &str) -> (same: bool)
    ensures
        same == same_ignoring_case(a@, b@),
{
    let n: usize = a.unicode_len();
    if b.unicode_len() != n {
        return false;
    }
    let mut i: usize = 0;
    while i < n
        invariant
            n == a@.len(),
            n == b@.len(),
            i <= n,
            forall|j: int| 0 <= j < i ==> fold_code(#[trigger] a@[j]) == fold_code(b@[j]),
        decreases n - i,
    {
        if fold(a.get_char(i)) != fold(b.get_char(i)) {
            return false;
        }
        i = i + 1;
    }
    true
}

fn digit_text(d: u16) -> (text: &'static str)
    requires
        d < 10,
    ensures
        text@ == seq![digit_char(d as int)],
{
    proof {
        reveal_strlit("0");
        reveal_strlit("1");
        reveal_strlit("2");
        reveal_strlit("3");
        reveal_strlit("4");
        reveal_strlit("5");
        reveal_strlit("6");
        reveal_strlit("7");
        reveal_strlit("8");
        reveal_strlit("9");
    }
    let text = if d == 0 {
        "0"
    } else if d == 1 {
        "1"
    } else if d == 2 {
        "2"
    } else if d == 3 {
        "3"
    } else if d == 4 {
        "4"
    } else if d == 5 {
        "5"
    } else if d == 6 {
        "6"
    } else if d == 7 {
        "7"
    } else if d == 8 {
        "8"
    } else {
        "9"
    };
    assert(text@ =~= seq![digit_char(d as int)]);
    text
}

/// Appends `n` in base ten to `out`.
pub fn append_decimal(out: &mut String, n: u16)
    ensures
        final(out)@ == old(out)@ + decimal(n as nat),
    decreases n,
{
    if n >= 10 {
        append_decimal(out, n / 10);
    }
    out.append(digit_text(n % 10));
    assert(final(out)@ =~= old(out)@ + decimal(n as nat));
}

/// Writes a signal strength as a bare integer.
pub fn render_rssi(v: i16) -> (text: String)
    ensures
        text@ == signed_decimal(v as int),
{
    let mut text = String::new();
    if v < 0 {
        text.append("-");
        proof {
            reveal_strlit("-");
        }
        let magnitude: u16 = (-(v as i32)) as u16;
        append_decimal(&mut text, magnitude);
        assert(text@ =~= signed_decimal(v as int));
    } else {
        append_decimal(&mut text, v as u16);
        assert(text@ =~= signed_decimal(v as int));
    }
    text
}

} // verus!
