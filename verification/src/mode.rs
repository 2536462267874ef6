//! Mode bits: the twelve low bits of a file's mode, three special bits above
//! nine permission bits. Bits above the twelfth say what kind of file it is
//! and are never read as permissions here.
use vstd::prelude::*;
use vstd::string::*;

verus! {

/// Set-user-id on execution.
pub const SETUID: u16 = 0o4000;

/// Set-group-id on execution.
pub const SETGID: u16 = 0o2000;

/// The sticky bit: in a directory, only an entry's owner may remove it.
pub const STICKY: u16 = 0o1000;

/// The three special bits.
pub const SPECIAL_BITS: u16 = 0o7000;

/// The nine permission bits.
pub const PERMISSION_BITS: u16 = 0o777;

/// Does `actual` hold every bit of `wanted`?
pub open spec fn contains(actual: u16, wanted: u16) -> bool {
    actual & wanted == wanted
}

/// The special bits as a number from 0 to 7.
pub open spec fn special_group(mode: u16) -> nat {
    ((mode & SPECIAL_BITS) >> 9) as nat
}

/// The permission bits as a number from 0 to 0o777.
pub open spec fn permission_group(mode: u16) -> nat {
    (mode & PERMISSION_BITS) as nat
}

/// The character of one base-8 digit.
pub open spec fn octal_digit(d: nat) -> char {
    if d == 0 {
        '0'
    } else if d == 1 {
        '1'
    } else if d == 2 {
        '2'
    } else if d == 3 {
        '3'
    } else if d == 4 {
        '4'
    } else if d == 5 {
        '5'
    } else if d == 6 {
        '6'
    } else {
        '7'
    }
}

/// The base-8 numeral of `n`: most significant digit first, no padding, one
/// digit for zero.
pub open spec fn octal(n: nat) -> Seq<char>
    decreases n,
{
    if n < 8 {
        seq![octal_digit(n)]
    } else {
        octal(n / 8).push(octal_digit(n % 8))
    }
}

/// A mode as text: the numeral of the special bits, then the numeral of the
/// permission bits.
pub open spec fn rendered(mode: u16) -> Seq<char> {
    octal(special_group(mode)) + octal(permission_group(mode))
}

/// Tests whether all bits of `wanted` are set in `actual`. One missing bit makes it false.
pub fn mode_contains(actual: u16, wanted: u16) -> (held: bool)
    ensures
        held == contains(actual, wanted),
{
    actual & wanted == wanted
}

/// The one-character text of a base-8 digit.
fn digit_text(d: u16) -> (text: &'static str)
    requires
        d < 8,
    ensures
        text@ == seq![octal_digit(d as nat)],
{
    proof {
        reveal_strlit("0");
        reveal_strlit("1");
        reveal_strlit("2");
        reveal_strlit("3");
        reveal_strlit("4");
        reveal_strlit("5");
        reveal_strlit("6");
        reveal_strlit("7");
    }
    let text = if d == 0 {
        "0"
    } else if d == 1 {
        "1"
    } else if d == 2 {
        "2"
    } else if d == 3 {
        "3"
    } else if d == 4 {
        "4"
    } else if d == 5 {
        "5"
    } else if d == 6 {
        "6"
    } else {
        "7"
    };
    assert(text@ =~= seq![octal_digit(d as nat)]);
    text
}

/// Appends the base-8 numeral of a number below 0o1000.
fn append_octal(text: &mut String, n: u16)
    requires
        n < 512,
    ensures
        final(text)@ == old(text)@ + octal(n as nat),
{
    let high: u16 = n / 64;
    let middle: u16 = (n / 8) % 8;
    let low: u16 = n % 8;
    proof {
        reveal_with_fuel(octal, 3);
    }
    if high > 0 {
        text.append(digit_text(high));
        text.append(digit_text(middle));
        text.append(digit_text(low));
        assert((n as nat / 8) / 8 == high);
        assert((n as nat / 8) % 8 == middle);
        assert(octal(n as nat) =~= seq![
            octal_digit(high as nat),
            octal_digit(middle as nat),
            octal_digit(low as nat),
        ]);
        assert(final(text)@ =~= old(text)@ + octal(n as nat));
    } else if middle > 0 {
        text.append(digit_text(middle));
        text.append(digit_text(low));
        assert(n as nat / 8 == middle);
        assert(octal(n as nat) =~= seq![octal_digit(middle as nat), octal_digit(low as nat)]);
        assert(final(text)@ =~= old(text)@ + octal(n as nat));
    } else {
        text.append(digit_text(low));
        assert(final(text)@ =~= old(text)@ + octal(n as nat));
    }
}

/// Writes a mode as text: the special bits as one base-8 numeral, then the
/// permission bits as another. `0o644` reads "0644", `0o4750` reads "4750".
/// Bits above the twelfth leave no trace.
pub fn render(mode: u16) -> (text: String)
    ensures
        text@ == rendered(mode),
{
    let special: u16 = (mode & SPECIAL_BITS) >> 9;
    let permission: u16 = mode & PERMISSION_BITS;
    assert((mode & 0o7000u16) >> 9 < 8) by (bit_vector);
    assert(mode & 0o777u16 < 512) by (bit_vector);
    let mut text = String::new();
    append_octal(&mut text, special);
    append_octal(&mut text, permission);
    text
}

/// The sticky test looks at the sticky bit and at nothing else: whatever the
/// other fifteen bits of a mode are, the mode holds `STICKY` exactly when its
/// bit of value 0o1000 is one.
pub proof fn sticky_test_reads_one_bit(actual: u16)
    ensures
        contains(actual, STICKY) <==> (actual >> 9) & 1 == 1,
        contains(actual, STICKY) == contains(actual & STICKY, STICKY),
        contains(actual | STICKY, STICKY),
        !contains(actual & !STICKY, STICKY),
{
    assert((actual & 0o1000u16 == 0o1000u16) <==> (actual >> 9) & 1 == 1) by (bit_vector);
    assert((actual & 0o1000u16 == 0o1000u16) == ((actual & 0o1000u16) & 0o1000u16 == 0o1000u16))
        by (bit_vector);
    assert((actual | 0o1000u16) & 0o1000u16 == 0o1000u16) by (bit_vector);
    assert((actual & !0o1000u16) & 0o1000u16 != 0o1000u16) by (bit_vector);
}

/// A mode holds a set of bits exactly when it holds each of them: a test for
/// several bits at once is no weaker than the tests one by one, and a mode
/// that lacks any of them fails it.
pub proof fn contains_every_bit(actual: u16, first: u16, second: u16)
    ensures
        contains(actual, first | second) <==> contains(actual, first) && contains(actual, second),
{
    assert((actual & (first | second) == first | second) <==> (actual & first == first && actual
        & second == second)) by (bit_vector);
}

/// The text of a mode depends on its twelve low bits alone, and is the digit
/// of the special bits followed by one to three digits of the permission bits.
pub proof fn rendered_reads_twelve_bits(mode: u16)
    ensures
        rendered(mode) == rendered(mode & 0o7777),
        special_group(mode) < 8,
        permission_group(mode) < 512,
        special_group(mode) == (mode as nat / 512) % 8,
        permission_group(mode) == mode as nat % 512,
        rendered(mode)[0] == octal_digit(special_group(mode)),
        2 <= rendered(mode).len() <= 4,
{
    assert((mode & 0o7777u16) & 0o7000u16 == mode & 0o7000u16) by (bit_vector);
    assert((mode & 0o7777u16) & 0o777u16 == mode & 0o777u16) by (bit_vector);
    assert((mode & 0o7000u16) >> 9 < 8) by (bit_vector);
    assert(mode & 0o777u16 < 512) by (bit_vector);
    assert((mode & 0o7000u16) >> 9 == (mode / 512) % 8) by (bit_vector);
    assert(mode & 0o777u16 == mode % 512) by (bit_vector);
    reveal_with_fuel(octal, 3);
}

/// After a change of mode the text is that of the mode asked for: a mode
/// that agrees with `asked` in its twelve low bits, whatever stands above
/// them, is written as `asked` is.
pub proof fn rendered_after_change(asked: u16, reported: u16)
    requires
        reported & 0o7777 == asked & 0o7777,
    ensures
        rendered(reported) == rendered(asked),
{
    rendered_reads_twelve_bits(asked);
    rendered_reads_twelve_bits(reported);
}

} // verus!
