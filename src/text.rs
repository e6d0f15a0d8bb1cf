//! Text helpers: lower-case hex, hyphenated uuids, attributed message bodies
//! and command prefixes.
use vstd::prelude::*;

verus! {

/// The lower-case hex digit of `d` (`d < 16`).
pub open spec fn hex_digit(d: nat) -> char {
    seq!['0', '1', '2', '3', '4', '5', '6', '7', '8', '9', 'a', 'b', 'c', 'd', 'e', 'f'][d as int]
}

/// `n` in lower-case hex, without leading zeros (`0` is `"0"`).
pub open spec fn hex_lower(n: nat) -> Seq<char>
    decreases n,
{
    if n < 16 {
        seq![hex_digit(n)]
    } else {
        hex_lower(n / 16).push(hex_digit(n % 16))
    }
}

/// The last `width` hex digits of `n`, zero padded.
pub open spec fn hex_fixed(n: nat, width: nat) -> Seq<char>
    decreases width,
{
    if width == 0 {
        Seq::empty()
    } else {
        hex_fixed(n / 16, (width - 1) as nat).push(hex_digit(n % 16))
    }
}

/// Two lower-case hex digits for each byte.
pub open spec fn hex_of(b: Seq<u8>) -> Seq<char>
    decreases b.len(),
{
    if b.len() == 0 {
        Seq::empty()
    } else {
        hex_of(b.drop_last()) + hex_fixed(b.last() as nat, 2)
    }
}

/// A 128-bit account id as `xxxxxxxx-xxxx-xxxx-xxxx-xxxxxxxxxxxx`.
pub open spec fn uuid_text(u: u128) -> Seq<char> {
    let n = u as nat;
    hex_fixed(n / 0x1_0000_0000_0000_0000_0000_0000, 8) + seq!['-'] + hex_fixed(
        n / 0x1_0000_0000_0000_0000_0000,
        4,
    ) + seq!['-'] + hex_fixed(n / 0x1_0000_0000_0000_0000, 4) + seq!['-'] + hex_fixed(
        n / 0x1_0000_0000_0000,
        4,
    ) + seq!['-'] + hex_fixed(n, 12)
}

/// A body attributed to a sender: `"<name>:\n<text>"`.
pub open spec fn attributed(name: Seq<char>, text: Seq<char>) -> Seq<char> {
    name + seq![':', '\n'] + text
}

/// Whether `s` begins with `p`.
pub open spec fn starts_with(s: Seq<char>, p: Seq<char>) -> bool {
    p.len() <= s.len() && s.subrange(0, p.len() as int) == p
}

fn digit_str(d: u32) -> (r: &'static str)
    requires
        d < 16,
    ensures
        r@ == seq![hex_digit(d as nat)],
{
    proof {
        reveal_strlit("0");
        reveal_strlit("1");
        reveal_strlit("2");
        reveal_strlit("3");
        reveal_strlit("4");
        reveal_strlit("5");
        reveal_strlit("6");
        reveal_strlit("7");
        reveal_strlit("8");
        reveal_strlit("9");
        reveal_strlit("a");
        reveal_strlit("b");
        reveal_strlit("c");
        reveal_strlit("d");
        reveal_strlit("e");
        reveal_strlit("f");
    }
    let r = if d == 0 {
        "0"
    } else if d == 1 {
        "1"
    } else if d == 2 {
        "2"
    } else if d == 3 {
        "3"
    } else if d == 4 {
        "4"
    } else if d == 5 {
        "5"
    } else if d == 6 {
        "6"
    } else if d == 7 {
        "7"
    } else if d == 8 {
        "8"
    } else if d == 9 {
        "9"
    } else if d == 10 {
        "a"
    } else if d == 11 {
        "b"
    } else if d == 12 {
        "c"
    } else if d == 13 {
        "d"
    } else if d == 14 {
        "e"
    } else {
        "f"
    };
    assert(r@ =~= seq![hex_digit(d as nat)]);
    r
}

/// `n` in lower-case hex without leading zeros, as `{:x}` writes it.
pub fn hex_u32(n: u32) -> (r: String)
    ensures
        r@ == hex_lower(n as nat),
    decreases n,
{
    if n < 16 {
        digit_str(n).to_owned()
    } else {
        let mut s = hex_u32(n / 16);
        s.append(digit_str(n % 16));
        s
    }
}

fn hex_fixed_string(n: u128, width: u32) -> (r: String)
    ensures
        r@ == hex_fixed(n as nat, width as nat),
    decreases width,
{
    if width == 0 {
        String::new()
    } else {
        let mut s = hex_fixed_string(n / 16, width - 1);
        s.append(digit_str((n % 16) as u32));
        s
    }
}

/// The hyphenated lower-case text of an account id.
pub fn uuid_string(u: u128) -> (r: String)
    ensures
        r@ == uuid_text(u),
{
    let mut s = hex_fixed_string(u / 0x1_0000_0000_0000_0000_0000_0000, 8);
    s.append("-");
    s.append(hex_fixed_string(u / 0x1_0000_0000_0000_0000_0000, 4).as_str());
    s.append("-");
    s.append(hex_fixed_string(u / 0x1_0000_0000_0000_0000, 4).as_str());
    s.append("-");
    s.append(hex_fixed_string(u / 0x1_0000_0000_0000, 4).as_str());
    s.append("-");
    s.append(hex_fixed_string(u, 12).as_str());
    proof {
        reveal_strlit("-");
        assert(s@ =~= uuid_text(u));
    }
    s
}

/// `"<name>:\n<text>"`.
pub fn attribute(name: &str, text: &str) -> (r: String)
    ensures
        r@ == attributed(name@, text@),
{
    let mut s = name.to_owned();
    s.append(":\n");
    s.append(text);
    proof {
        reveal_strlit(":\n");
        assert(s@ =~= attributed(name@, text@));
    }
    s
}

/// Whether `s` begins with `p`, compared character by character.
pub fn has_prefix(s: &str, p: &str) -> (r: bool)
    ensures
        r == starts_with(s@, p@),
{
    let n = p.unicode_len();
    let m = s.unicode_len();
    if n > m {
        return false;
    }
    let mut i: usize = 0;
    while i < n
        invariant
            n == p@.len(),
            m == s@.len(),
            n <= m,
            i <= n,
            forall|j: int| 0 <= j < i ==> s@[j] == p@[j],
        decreases n - i,
    {
        if s.get_char(i) != p.get_char(i) {
            return false;
        }
        i = i + 1;
    }
    assert(s@.subrange(0, p@.len() as int) =~= p@);
    true
}

/// Whether `s` is exactly `p`.
pub fn same_text(s: &str, p: &str) -> (r: bool)
    ensures
        r == (s@ == p@),
{
    if s.unicode_len() != p.unicode_len() {
        return false;
    }
    let r = has_prefix(s, p);
    assert(s@.subrange(0, p@.len() as int) =~= s@);
    r
}

} // verus!
