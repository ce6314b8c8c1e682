//! The dump formatter: one line of text for a group of sampled bytes.

use vstd::prelude::*;

verus! {

/// The uppercase hexadecimal digit for `d < 16`.
pub open spec fn hex_digit(d: nat) -> char {
    if d < 10 {
        (48 + d) as char
    } else {
        (55 + d) as char
    }
}

/// Whether a byte is shown as itself in the ASCII column: strictly between
/// space and DEL.
pub open spec fn is_shown(b: u8) -> bool {
    0x20 < b < 0x7F
}

/// The ASCII column's rendering of a byte: the byte itself where it is
/// printable, `.` otherwise.
pub open spec fn shown_char(b: u8) -> char {
    if is_shown(b) {
        b as char
    } else {
        '.'
    }
}

/// A byte's hex token: two uppercase digits and a space.
pub open spec fn hex_token(b: u8) -> Seq<char> {
    seq![hex_digit(b as nat / 16), hex_digit(b as nat % 16), ' ']
}

/// A byte's ASCII token: its rendering and a space.
pub open spec fn ascii_token(b: u8) -> Seq<char> {
    seq![shown_char(b), ' ']
}

/// The hex tokens of `bytes`, in order.
pub open spec fn hex_tokens(bytes: Seq<u8>) -> Seq<char>
    decreases bytes.len(),
{
    if bytes.len() == 0 {
        Seq::empty()
    } else {
        hex_tokens(bytes.drop_last()) + hex_token(bytes.last())
    }
}

/// The ASCII tokens of `bytes`, in order.
pub open spec fn ascii_tokens(bytes: Seq<u8>) -> Seq<char>
    decreases bytes.len(),
{
    if bytes.len() == 0 {
        Seq::empty()
    } else {
        ascii_tokens(bytes.drop_last()) + ascii_token(bytes.last())
    }
}

/// The dump line of a group: its hex tokens, then, with the ASCII column, two
/// spaces and its ASCII tokens, then a line break.
pub open spec fn group_line(bytes: Seq<u8>, with_ascii: bool) -> Seq<char> {
    hex_tokens(bytes) + if with_ascii {
        seq![' ', ' '] + ascii_tokens(bytes)
    } else {
        Seq::empty()
    } + seq!['\n']
}

/// The hex tokens of `n` bytes take `3 * n` characters, the token of byte
/// `i` standing at `3 * i`.
pub proof fn lemma_hex_tokens_layout(bytes: Seq<u8>)
    ensures
        hex_tokens(bytes).len() == 3 * bytes.len(),
        forall|i: int|
            0 <= i < bytes.len() ==> #[trigger] hex_tokens(bytes).subrange(3 * i, 3 * i + 3)
                == hex_token(bytes[i]),
    decreases bytes.len(),
{
    if bytes.len() > 0 {
        let front = bytes.drop_last();
        lemma_hex_tokens_layout(front);
        let t = hex_tokens(bytes);
        assert forall|i: int| 0 <= i < bytes.len() implies #[trigger] t.subrange(3 * i, 3 * i + 3)
            == hex_token(bytes[i]) by {
            if i < front.len() {
                assert(t.subrange(3 * i, 3 * i + 3) =~= hex_tokens(front).subrange(3 * i, 3 * i + 3));
            } else {
                assert(t.subrange(3 * i, 3 * i + 3) =~= hex_token(bytes.last()));
            }
        }
    }
}

/// Different digit values give different hex digits.
proof fn lemma_hex_digit_injective(a: nat, b: nat)
    requires
        a < 16,
        b < 16,
        hex_digit(a) == hex_digit(b),
    ensures
        a == b,
{
}

/// Without the ASCII column, a line has exactly one hex token per byte,
/// whatever the byte values: sixteen bytes always take 49 characters.
pub proof fn lemma_hex_line_length(bytes: Seq<u8>)
    requires
        bytes.len() == 16,
    ensures
        group_line(bytes, false).len() == 49,
{
    lemma_hex_tokens_layout(bytes);
}

/// Without the ASCII column, two different groups of sixteen bytes never
/// render as the same line.
pub proof fn lemma_hex_line_injective(a: Seq<u8>, b: Seq<u8>)
    requires
        a.len() == 16,
        b.len() == 16,
        group_line(a, false) == group_line(b, false),
    ensures
        a == b,
{
    lemma_hex_tokens_layout(a);
    lemma_hex_tokens_layout(b);
    let la = group_line(a, false);
    assert(hex_tokens(a) =~= la.take(48));
    assert(hex_tokens(b) =~= la.take(48));
    assert forall|i: int| 0 <= i < 16 implies a[i] == b[i] by {
        let ta = hex_tokens(a).subrange(3 * i, 3 * i + 3);
        let tb = hex_tokens(b).subrange(3 * i, 3 * i + 3);
        assert(ta[0] == tb[0] && ta[1] == tb[1]);
        lemma_hex_digit_injective(a[i] as nat / 16, b[i] as nat / 16);
        lemma_hex_digit_injective(a[i] as nat % 16, b[i] as nat % 16);
    }
    assert(a =~= b);
}

/// Relies on `String::push`: appends one character.
#[verifier::external_body]
fn push_char(s: &mut String, c: char)
    ensures
        final(s)@ == old(s)@.push(c),
{
    s.push(c)
}

/// The uppercase hexadecimal digit for a value below 16.
pub fn hex_digit_of(d: u8) -> (c: char)
    requires
        d < 16,
    ensures
        c == hex_digit(d as nat),
{
    if d < 10 {
        (48 + d) as char
    } else {
        (55 + d) as char
    }
}

/// How the ASCII column shows a byte.
pub fn ascii_char(b: u8) -> (c: char)
    ensures
        c == shown_char(b),
{
    if 0x20 < b && b < 0x7F {
        b as char
    } else {
        '.'
    }
}

/// Renders a group of bytes as one dump line: for each byte two uppercase
/// hex digits and a space; with `with_ascii`, then two spaces and for each
/// byte its ASCII rendering and a space; then a line break.
pub fn format_group(bytes: &[u8], with_ascii: bool) -> (line: String)
    ensures
        line@ == group_line(bytes@, with_ascii),
{
    let n = bytes.len();
    let mut line = String::new();
    let mut i: usize = 0;
    while i < n
        invariant
            i <= n,
            n == bytes@.len(),
            line@ == hex_tokens(bytes@.take(i as int)),
        decreases n - i,
    {
        let b = bytes[i];
        push_char(&mut line, hex_digit_of(b / 16));
        push_char(&mut line, hex_digit_of(b % 16));
        push_char(&mut line, ' ');
        assert(bytes@.take(i + 1).drop_last() =~= bytes@.take(i as int));
        assert(line@ =~= hex_tokens(bytes@.take(i + 1)));
        i = i + 1;
    }
    assert(bytes@.take(n as int) =~= bytes@);
    let ghost hex = line@;
    if with_ascii {
        push_char(&mut line, ' ');
        push_char(&mut line, ' ');
        let mut j: usize = 0;
        while j < n
            invariant
                j <= n,
                n == bytes@.len(),
                hex == hex_tokens(bytes@),
                line@ == hex + seq![' ', ' '] + ascii_tokens(bytes@.take(j as int)),
            decreases n - j,
        {
            push_char(&mut line, ascii_char(bytes[j]));
            push_char(&mut line, ' ');
            assert(bytes@.take(j + 1).drop_last() =~= bytes@.take(j as int));
            assert(line@ =~= hex + seq![' ', ' '] + ascii_tokens(bytes@.take(j + 1)));
            j = j + 1;
        }
        assert(bytes@.take(n as int) =~= bytes@);
    }
    push_char(&mut line, '\n');
    assert(line@ =~= group_line(bytes@, with_ascii));
    line
}

} // verus!
