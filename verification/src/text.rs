//! The text of identities, positions and hexadecimal discriminators.

use vstd::prelude::*;
use vstd::string::*;

verus! {

/// The four parts with a hyphen between each two.
pub open spec fn joined4(a: Seq<char>, b: Seq<char>, c: Seq<char>, d: Seq<char>) -> Seq<char> {
    a + seq!['-'] + b + seq!['-'] + c + seq!['-'] + d
}

/// `"true"` or `"false"`.
pub open spec fn bool_text(b: bool) -> Seq<char> {
    if b {
        seq!['t', 'r', 'u', 'e']
    } else {
        seq!['f', 'a', 'l', 's', 'e']
    }
}

/// The lower-case hexadecimal digit of a number below 16.
pub open spec fn hex_digit(n: int) -> char {
    if n == 0 {
        '0'
    } else if n == 1 {
        '1'
    } else if n == 2 {
        '2'
    } else if n == 3 {
        '3'
    } else if n == 4 {
        '4'
    } else if n == 5 {
        '5'
    } else if n == 6 {
        '6'
    } else if n == 7 {
        '7'
    } else if n == 8 {
        '8'
    } else if n == 9 {
        '9'
    } else if n == 10 {
        'a'
    } else if n == 11 {
        'b'
    } else if n == 12 {
        'c'
    } else if n == 13 {
        'd'
    } else if n == 14 {
        'e'
    } else {
        'f'
    }
}

/// The decimal digits of `n`, most significant first, without leading zeros.
pub open spec fn decimal_text(n: nat) -> Seq<char>
    decreases n,
{
    if n < 10 {
        seq![hex_digit(n as int)]
    } else {
        decimal_text(n / 10) + seq![hex_digit((n % 10) as int)]
    }
}

/// The position of an inner instruction: the two numbers with a dot between.
pub open spec fn nested_index_text(outer: nat, inner: nat) -> Seq<char> {
    decimal_text(outer) + seq!['.'] + decimal_text(inner)
}

/// Whether `text` is `0x` followed by the two lower-case hexadecimal digits of
/// each of the first bytes of `data`, in order.
pub open spec fn hex_prefix_matches(text: Seq<char>, data: Seq<u8>) -> bool {
    &&& text.len() >= 2
    &&& text.len() % 2 == 0
    &&& text.len() - 2 <= 2 * data.len()
    &&& text[0] == '0'
    &&& text[1] == 'x'
    &&& forall|i: int|
        0 <= i < (text.len() - 2) / 2 ==> {
            &&& #[trigger] text[2 + 2 * i] == hex_digit(data[i] as int / 16)
            &&& text[3 + 2 * i] == hex_digit(data[i] as int % 16)
        }
}

/// The number of bytes that a hexadecimal discriminator stands for.
pub open spec fn hex_byte_count(text: Seq<char>) -> int {
    if text.len() >= 2 {
        (text.len() - 2) / 2
    } else {
        0
    }
}

fn digit_char(n: u8) -> (c: char)
    requires
        n < 16,
    ensures
        c == hex_digit(n as int),
{
    if n == 0 {
        '0'
    } else if n == 1 {
        '1'
    } else if n == 2 {
        '2'
    } else if n == 3 {
        '3'
    } else if n == 4 {
        '4'
    } else if n == 5 {
        '5'
    } else if n == 6 {
        '6'
    } else if n == 7 {
        '7'
    } else if n == 8 {
        '8'
    } else if n == 9 {
        '9'
    } else if n == 10 {
        'a'
    } else if n == 11 {
        'b'
    } else if n == 12 {
        'c'
    } else if n == 13 {
        'd'
    } else if n == 14 {
        'e'
    } else {
        'f'
    }
}

/// Whether a hexadecimal discriminator is the beginning of `data`.
pub fn hex_matches(text: &str, data: &[u8]) -> (b: bool)
    ensures
        b == hex_prefix_matches(text@, data@),
{
    let n: usize = text.unicode_len();
    if n < 2 || n % 2 != 0 {
        return false;
    }
    let count: usize = (n - 2) / 2;
    if count > data.len() {
        return false;
    }
    if text.get_char(0) != '0' || text.get_char(1) != 'x' {
        return false;
    }
    let mut i: usize = 0;
    while i < count
        invariant
            n == text@.len(),
            n >= 2,
            n % 2 == 0,
            count == (n - 2) / 2,
            count <= data@.len(),
            i <= count,
            forall|j: int|
                0 <= j < i ==> {
                    &&& #[trigger] text@[2 + 2 * j] == hex_digit(data@[j] as int / 16)
                    &&& text@[3 + 2 * j] == hex_digit(data@[j] as int % 16)
                },
        decreases count - i,
    {
        let b: u8 = data[i];
        let hi = digit_char(b / 16);
        let lo = digit_char(b % 16);
        if text.get_char(2 + 2 * i) != hi || text.get_char(3 + 2 * i) != lo {
            assert(!(text@[2 + 2 * (i as int)] == hex_digit(data@[i as int] as int / 16)
                && text@[3 + 2 * (i as int)] == hex_digit(data@[i as int] as int % 16)));
            return false;
        }
        i += 1;
    }
    true
}

/// `"true"` or `"false"`.
pub fn bool_str(b: bool) -> (s: &'static str)
    ensures
        s@ == bool_text(b),
{
    proof {
        reveal_strlit("true");
        reveal_strlit("false");
    }
    if b {
        let s = "true";
        assert(s@ =~= bool_text(true));
        s
    } else {
        let s = "false";
        assert(s@ =~= bool_text(false));
        s
    }
}

/// The four parts with a hyphen between each two.
pub fn join4(a: &str, b: &str, c: &str, d: &str) -> (s: String)
    ensures
        s@ == joined4(a@, b@, c@, d@),
{
    proof {
        reveal_strlit("-");
    }
    let mut s = String::from_str(a);
    s.append("-");
    s.append(b);
    s.append("-");
    s.append(c);
    s.append("-");
    s.append(d);
    assert(s@ =~= joined4(a@, b@, c@, d@));
    s
}

fn digit_str(n: usize) -> (s: &'static str)
    requires
        n < 10,
    ensures
        s@ == seq![hex_digit(n as int)],
{
    proof {
        reveal_strlit("0");
        reveal_strlit("1");
        reveal_strlit("2");
        reveal_strlit("3");
        reveal_strlit("4");
        reveal_strlit("5");
        reveal_strlit("6");
        reveal_strlit("7");
        reveal_strlit("8");
        reveal_strlit("9");
    }
    let s = if n == 0 {
        "0"
    } else if n == 1 {
        "1"
    } else if n == 2 {
        "2"
    } else if n == 3 {
        "3"
    } else if n == 4 {
        "4"
    } else if n == 5 {
        "5"
    } else if n == 6 {
        "6"
    } else if n == 7 {
        "7"
    } else if n == 8 {
        "8"
    } else {
        "9"
    };
    assert(s@ =~= seq![hex_digit(n as int)]);
    s
}

/// Appends the decimal digits of `n`.
pub fn push_decimal(s: &mut String, n: usize)
    ensures
        final(s)@ == old(s)@ + decimal_text(n as nat),
    decreases n,
{
    if n >= 10 {
        push_decimal(s, n / 10);
        s.append(digit_str(n % 10));
        assert(s@ =~= old(s)@ + decimal_text(n as nat));
    } else {
        s.append(digit_str(n));
    }
}

/// The position of a top-level instruction as text.
pub fn index_string(outer: usize) -> (s: String)
    ensures
        s@ == decimal_text(outer as nat),
{
    let mut s = String::new();
    push_decimal(&mut s, outer);
    assert(s@ =~= decimal_text(outer as nat));
    s
}

/// The position of an inner instruction as text, such as `3.1`.
pub fn nested_index_string(outer: usize, inner: usize) -> (s: String)
    ensures
        s@ == nested_index_text(outer as nat, inner as nat),
{
    proof {
        reveal_strlit(".");
    }
    let mut s = String::new();
    push_decimal(&mut s, outer);
    s.append(".");
    push_decimal(&mut s, inner);
    assert(s@ =~= nested_index_text(outer as nat, inner as nat));
    s
}

} // verus!
