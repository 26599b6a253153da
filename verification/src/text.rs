//! Rendering of numbers, identifiers and JSON string literals as text.

use vstd::prelude::*;
use vstd::string::*;

verus! {

/// The lower-case hexadecimal digit for `d` (`0`..`9`, then `a`..`f`);
/// for `d < 10` this is also the decimal digit.
pub open spec fn hex_char(d: nat) -> char {
    if d == 0 { '0' }
    else if d == 1 { '1' }
    else if d == 2 { '2' }
    else if d == 3 { '3' }
    else if d == 4 { '4' }
    else if d == 5 { '5' }
    else if d == 6 { '6' }
    else if d == 7 { '7' }
    else if d == 8 { '8' }
    else if d == 9 { '9' }
    else if d == 10 { 'a' }
    else if d == 11 { 'b' }
    else if d == 12 { 'c' }
    else if d == 13 { 'd' }
    else if d == 14 { 'e' }
    else { 'f' }
}

/// The decimal notation of `n`: no sign, no leading zeros (`0` is `"0"`).
pub open spec fn decimal(n: nat) -> Seq<char>
    decreases n,
{
    if n < 10 {
        seq![hex_char(n)]
    } else {
        decimal(n / 10).push(hex_char(n % 10))
    }
}

/// The `width` lowest hexadecimal digits of `n`, most significant first,
/// padded with zeros.
pub open spec fn hex_digits(n: nat, width: nat) -> Seq<char>
    decreases width,
{
    if width == 0 {
        Seq::empty()
    } else {
        hex_digits(n / 16, (width - 1) as nat).push(hex_char(n % 16))
    }
}

/// The hyphenated lower-case form of a 128-bit identifier read big-endian:
/// groups of 8, 4, 4, 4 and 12 hexadecimal digits joined by `-`.
pub open spec fn uuid_text(id: u128) -> Seq<char> {
    let h = hex_digits(id as nat, 32);
    h.subrange(0, 8) + seq!['-'] + h.subrange(8, 12) + seq!['-'] + h.subrange(12, 16)
        + seq!['-'] + h.subrange(16, 20) + seq!['-'] + h.subrange(20, 32)
}

/// How one character stands inside a JSON string literal: the quote and the
/// backslash are escaped, the control characters below U+0020 take the short
/// escapes `\b \t \n \f \r` where they exist and `\u00xx` (lower-case hex)
/// otherwise; every other character stands for itself.
pub open spec fn json_escape_char(c: char) -> Seq<char> {
    if c == '"' {
        seq!['\\', '"']
    } else if c == '\\' {
        seq!['\\', '\\']
    } else if c == '\x08' {
        seq!['\\', 'b']
    } else if c == '\t' {
        seq!['\\', 't']
    } else if c == '\n' {
        seq!['\\', 'n']
    } else if c == '\x0c' {
        seq!['\\', 'f']
    } else if c == '\r' {
        seq!['\\', 'r']
    } else if (c as u32) < 0x20 {
        seq!['\\', 'u', '0', '0', hex_char((c as nat) / 16), hex_char((c as nat) % 16)]
    } else {
        seq![c]
    }
}

/// The characters of `s`, each escaped as in a JSON string literal.
pub open spec fn json_escape(s: Seq<char>) -> Seq<char>
    decreases s.len(),
{
    if s.len() == 0 {
        Seq::empty()
    } else {
        json_escape(s.drop_last()) + json_escape_char(s.last())
    }
}

/// `s` as a JSON string literal: escaped and enclosed in double quotes.
pub open spec fn json_string(s: Seq<char>) -> Seq<char> {
    seq!['"'] + json_escape(s) + seq!['"']
}

/// The one-character text of the hexadecimal digit `d`.
fn hex_digit_str(d: u64) -> (r: &'static str)
    requires
        d < 16,
    ensures
        r@ == seq![hex_char(d as nat)],
{
    proof {
        reveal_strlit("0");
        reveal_strlit("1");
        reveal_strlit("2");
        reveal_strlit("3");
        reveal_strlit("4");
        reveal_strlit("5");
        reveal_strlit("6");
        reveal_strlit("7");
        reveal_strlit("8");
        reveal_strlit("9");
        reveal_strlit("a");
        reveal_strlit("b");
        reveal_strlit("c");
        reveal_strlit("d");
        reveal_strlit("e");
        reveal_strlit("f");
    }
    if d == 0 { "0" }
    else if d == 1 { "1" }
    else if d == 2 { "2" }
    else if d == 3 { "3" }
    else if d == 4 { "4" }
    else if d == 5 { "5" }
    else if d == 6 { "6" }
    else if d == 7 { "7" }
    else if d == 8 { "8" }
    else if d == 9 { "9" }
    else if d == 10 { "a" }
    else if d == 11 { "b" }
    else if d == 12 { "c" }
    else if d == 13 { "d" }
    else if d == 14 { "e" }
    else { "f" }
}

/// The decimal notation of `n`, as `u64`'s `Display` writes it.
pub fn decimal_string(n: u64) -> (r: String)
    ensures
        r@ == decimal(n as nat),
    decreases n,
{
    if n < 10 {
        String::from_str(hex_digit_str(n))
    } else {
        let mut r = decimal_string(n / 10);
        r.append(hex_digit_str(n % 10));
        r
    }
}

/// `uuid::Uuid::from_u128` followed by its `Display` (`to_string`).
/// Claimed: the text is the hyphenated lower-case form of the identifier's
/// 16 big-endian bytes, which is what `Uuid`'s `Display` forwards to
/// (`LowerHex` of `as_hyphenated`).
#[verifier::external_body]
pub(crate) fn uuid_string(id: u128) -> (r: String)
    ensures
        r@ == uuid_text(id),
{
    uuid::Uuid::from_u128(id).to_string()
}

/// `serde_json::to_string` on a `str`.
/// Claimed: it returns `Ok`, and the text is the string literal that
/// serde_json's string serializer writes (quote, escaped contents, quote).
/// For a `str` the serializer's only failure is an I/O error of the writer,
/// and `to_string` writes into a `Vec<u8>`, whose writes do not fail.
#[verifier::external_body]
pub(crate) fn json_quote(s: &str) -> (r: Option<String>)
    ensures
        r is Some,
        r matches Some(q) ==> q@ == json_string(s@),
{
    match serde_json::to_string(s) {
        Ok(q) => Some(q),
        Err(_) => None,
    }
}

/// Whether `c` is white space in Unicode's sense, as `char::is_whitespace`
/// decides it.
pub open spec fn is_whitespace(c: char) -> bool {
    let n = c as u32;
    n == 0x20 || (0x09 <= n <= 0x0d) || n == 0x85 || n == 0xa0 || n == 0x1680
        || (0x2000 <= n <= 0x200a) || n == 0x2028 || n == 0x2029 || n == 0x202f
        || n == 0x205f || n == 0x3000
}

/// Whether `s` holds no brace, so no unfilled `{}` placeholder.
pub open spec fn brace_free(s: Seq<char>) -> bool {
    forall|k: int| 0 <= k < s.len() ==> s[k] != '{' && s[k] != '}'
}

/// `s` holds no brace from position `i` on (checked one position at a time).
pub(crate) open spec fn brace_free_from(s: Seq<char>, i: nat) -> bool
    decreases s.len() - i,
{
    i >= s.len() || (s[i as int] != '{' && s[i as int] != '}' && brace_free_from(s, i + 1))
}

pub(crate) proof fn lemma_brace_free_from(s: Seq<char>, i: nat)
    requires
        brace_free_from(s, i),
    ensures
        forall|k: int| i <= k < s.len() ==> s[k] != '{' && s[k] != '}',
    decreases s.len() - i,
{
    if i < s.len() {
        lemma_brace_free_from(s, i + 1);
    }
}

/// Every character of a decimal notation is a digit `0`..`9`.
pub(crate) proof fn lemma_decimal_chars(n: nat)
    ensures
        decimal(n).len() >= 1,
        forall|k: int| 0 <= k < decimal(n).len() ==> '0' <= #[trigger] decimal(n)[k] <= '9',
        n < 10 <==> decimal(n).len() == 1,
    decreases n,
{
    if n >= 10 {
        lemma_decimal_chars(n / 10);
        assert forall|k: int| 0 <= k < decimal(n).len() implies '0' <= #[trigger] decimal(n)[k]
            <= '9' by {
            if k < decimal(n / 10).len() {
                assert(decimal(n)[k] == decimal(n / 10)[k]);
            }
        }
    }
}

/// Distinct numbers have distinct decimal notations.
pub(crate) proof fn lemma_decimal_injective(m: nat, n: nat)
    requires
        decimal(m) == decimal(n),
    ensures
        m == n,
    decreases m,
{
    lemma_decimal_chars(m);
    lemma_decimal_chars(n);
    if m >= 10 {
        assert(decimal(m).drop_last() =~= decimal(m / 10));
        assert(decimal(n).drop_last() =~= decimal(n / 10));
        assert(decimal(m).last() == hex_char(m % 10));
        assert(decimal(n).last() == hex_char(n % 10));
        lemma_decimal_injective(m / 10, n / 10);
    } else {
        assert(decimal(m)[0] == hex_char(m));
        assert(decimal(n)[0] == hex_char(n));
    }
}

/// An escaped string read from the front: the first character's escape,
/// then the rest.
proof fn lemma_json_escape_front(s: Seq<char>)
    requires
        s.len() > 0,
    ensures
        json_escape(s) == json_escape_char(s[0]) + json_escape(s.drop_first()),
    decreases s.len(),
{
    if s.len() == 1 {
        assert(s.drop_last() =~= Seq::<char>::empty());
        assert(s.drop_first() =~= Seq::<char>::empty());
        assert(json_escape(s) =~= json_escape_char(s[0]) + json_escape(s.drop_first()));
    } else {
        let dl = s.drop_last();
        lemma_json_escape_front(dl);
        assert(s.drop_first().drop_last() =~= dl.drop_first());
        assert(s.drop_first().last() == s.last());
        assert(dl[0] == s[0]);
        assert(json_escape(s) =~= json_escape_char(s[0]) + json_escape(s.drop_first()));
    }
}

/// The hexadecimal digit determines its value.
proof fn lemma_hex_char_injective(a: nat, b: nat)
    requires
        a < 16,
        b < 16,
        hex_char(a) == hex_char(b),
    ensures
        a == b,
{
}

/// No character's escape is empty, and none starts with a double quote.
proof fn lemma_json_escape_char_shape(c: char)
    ensures
        json_escape_char(c).len() >= 1,
        json_escape_char(c)[0] != '"',
{
}

/// Escapes are read unambiguously from the front: when one escaped
/// character followed by `x` equals another followed by `y`, the characters
/// and the rests are equal.
proof fn lemma_json_escape_char_prefix_free(a: char, b: char, x: Seq<char>, y: Seq<char>)
    requires
        json_escape_char(a) + x == json_escape_char(b) + y,
    ensures
        a == b,
        x == y,
{
    let ua = json_escape_char(a);
    let ub = json_escape_char(b);
    let l = ua + x;
    assert(l[0] == ua[0]);
    assert((ub + y)[0] == ub[0]);
    if ua[0] == '\\' {
        assert(l[1] == ua[1]);
        assert((ub + y)[1] == ub[1]);
        if ua[1] == 'u' {
            assert(l[4] == ua[4]);
            assert(l[5] == ua[5]);
            assert((ub + y)[4] == ub[4]);
            assert((ub + y)[5] == ub[5]);
            lemma_hex_char_injective((a as nat) / 16, (b as nat) / 16);
            lemma_hex_char_injective((a as nat) % 16, (b as nat) % 16);
            assert((a as nat) == (b as nat));
        }
    }
    assert(ua == ub);
    assert(x =~= l.skip(ua.len() as int));
    assert(y =~= (ub + y).skip(ub.len() as int));
}

/// An escaped string followed by a double quote is read unambiguously: the
/// quote that ends it is the first unescaped one.
proof fn lemma_json_escape_then_quote(s1: Seq<char>, s2: Seq<char>, x: Seq<char>, y: Seq<char>)
    requires
        json_escape(s1) + (seq!['"'] + x) == json_escape(s2) + (seq!['"'] + y),
    ensures
        s1 == s2,
        x == y,
    decreases s1.len(),
{
    let l = json_escape(s1) + (seq!['"'] + x);
    if s1.len() == 0 {
        assert(json_escape(s1) =~= Seq::<char>::empty());
        assert(l[0] == '"');
        if s2.len() > 0 {
            lemma_json_escape_front(s2);
            lemma_json_escape_char_shape(s2[0]);
            let u = json_escape_char(s2[0]);
            assert((json_escape(s2) + (seq!['"'] + y))[0] == u[0]);
        }
        assert(json_escape(s2) =~= Seq::<char>::empty());
        assert(x =~= l.skip(1));
        assert(y =~= (json_escape(s2) + (seq!['"'] + y)).skip(1));
        assert(s1 =~= s2);
    } else if s2.len() == 0 {
        assert(json_escape(s2) =~= Seq::<char>::empty());
        lemma_json_escape_front(s1);
        lemma_json_escape_char_shape(s1[0]);
        let u = json_escape_char(s1[0]);
        assert(l[0] == u[0]);
    } else {
        lemma_json_escape_front(s1);
        lemma_json_escape_front(s2);
        let r1 = json_escape(s1.drop_first()) + (seq!['"'] + x);
        let r2 = json_escape(s2.drop_first()) + (seq!['"'] + y);
        assert(l =~= json_escape_char(s1[0]) + r1);
        assert(json_escape(s2) + (seq!['"'] + y) =~= json_escape_char(s2[0]) + r2);
        lemma_json_escape_char_prefix_free(s1[0], s2[0], r1, r2);
        lemma_json_escape_then_quote(s1.drop_first(), s2.drop_first(), x, y);
        assert(s1 =~= seq![s1[0]] + s1.drop_first());
        assert(s2 =~= seq![s2[0]] + s2.drop_first());
    }
}

/// Law: a JSON string literal is read back unambiguously, also when more
/// text follows it: equal texts that start with literals of `s1` and `s2`
/// have `s1 == s2` and equal remainders. In particular distinct strings have
/// distinct literals.
pub proof fn lemma_json_string_prefix_free(s1: Seq<char>, s2: Seq<char>, x: Seq<char>, y: Seq<char>)
    requires
        json_string(s1) + x == json_string(s2) + y,
    ensures
        s1 == s2,
        x == y,
{
    let l = json_string(s1) + x;
    let r = json_string(s2) + y;
    assert(l.skip(1) =~= json_escape(s1) + (seq!['"'] + x));
    assert(r.skip(1) =~= json_escape(s2) + (seq!['"'] + y));
    lemma_json_escape_then_quote(s1, s2, x, y);
}

} // verus!
