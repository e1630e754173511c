//! The record that a hook emits for an event it has observed: the name of
//! the hook, the handle of the window in hexadecimal, and the class name of
//! the window.

use vstd::prelude::*;
use vstd::slice::slice_subrange;
use crate::error::HookKind;

verus! {

/// The text that stands for a sequence of UTF-16 code units when every
/// unit that is not part of a valid encoding is replaced by the replacement
/// character.
pub uninterp spec fn utf16_lossy(units: Seq<u16>) -> Seq<char>;

/// Decodes UTF-16 code units with `String::from_utf16_lossy` of the standard
/// library. Nothing is proved of the decoding: the result is taken to be the
/// one text that the standard library gives for these units, named
/// [`utf16_lossy`], whatever the units are.
#[verifier::external_body]
fn decode_utf16_lossy(units: &[u16]) -> (text: String)
    ensures
        text@ == utf16_lossy(units@),
{
    String::from_utf16_lossy(units)
}

/// The number of code units of a class name, from the length that the
/// operating system reported: a negative report counts as no name.
pub open spec fn class_name_len(reported: i32) -> nat {
    if reported < 0 {
        0
    } else {
        reported as nat
    }
}

/// The digit that stands for `d` in upper-case hexadecimal.
pub open spec fn hex_digit(d: int) -> char {
    if d == 0 {
        '0'
    } else if d == 1 {
        '1'
    } else if d == 2 {
        '2'
    } else if d == 3 {
        '3'
    } else if d == 4 {
        '4'
    } else if d == 5 {
        '5'
    } else if d == 6 {
        '6'
    } else if d == 7 {
        '7'
    } else if d == 8 {
        '8'
    } else if d == 9 {
        '9'
    } else if d == 10 {
        'A'
    } else if d == 11 {
        'B'
    } else if d == 12 {
        'C'
    } else if d == 13 {
        'D'
    } else if d == 14 {
        'E'
    } else {
        'F'
    }
}

/// The digits of `n` in upper-case hexadecimal, most significant first and
/// without leading zeros; zero is the single digit `0`.
pub open spec fn hex_digits(n: nat) -> Seq<char>
    decreases n,
{
    if n < 16 {
        seq![hex_digit(n as int)]
    } else {
        hex_digits(n / 16).push(hex_digit((n % 16) as int))
    }
}

/// `digits` with as many zeros in front as it takes to reach `width`.
pub open spec fn zero_padded(digits: Seq<char>, width: nat) -> Seq<char> {
    if digits.len() >= width {
        digits
    } else {
        Seq::new((width - digits.len()) as nat, |i: int| '0') + digits
    }
}

/// A window handle as it is shown in a record: upper-case hexadecimal, at
/// least eight digits.
pub open spec fn handle_text(window: usize) -> Seq<char> {
    zero_padded(hex_digits(window as nat), 8)
}

/// The name under which a hook signs its records.
pub open spec fn hook_label(source: HookKind) -> Seq<char> {
    match source {
        HookKind::WindowProc => "win_proc_hook"@,
        HookKind::WindowProcReturn => "win_proc_ret_hook"@,
        HookKind::GetMessage => "get_message_hook"@,
    }
}

/// The record of one observation, as one line of text.
pub open spec fn observation_line(source: HookKind, window: usize, class_name: Seq<char>) -> Seq<
    char,
> {
    hook_label(source) + " Window: "@ + handle_text(window) + " Class: "@ + class_name
}

/// The digits that are still to be written in front of those already
/// found, when `rest` is what remains of the number.
spec fn leading(rest: nat) -> Seq<char> {
    if rest == 0 {
        Seq::empty()
    } else {
        hex_digits(rest)
    }
}

/// The characters of the digit values `low_first`, in reverse order.
spec fn high_first(low_first: Seq<u8>) -> Seq<char> {
    Seq::new(low_first.len(), |i: int| hex_digit(low_first[low_first.len() - 1 - i] as int))
}

/// Taking one more digit off the remainder moves it from the digits still
/// to be written to those found.
proof fn lemma_take_digit(rest: nat, low_first: Seq<u8>)
    requires
        rest != 0,
    ensures
        leading(rest) + high_first(low_first) == leading(rest / 16) + high_first(
            low_first.push((rest % 16) as u8),
        ),
{
    let d = (rest % 16) as u8;
    let longer = low_first.push(d);
    assert(high_first(longer) =~= seq![hex_digit(d as int)] + high_first(low_first)) by {
        assert forall|i: int| 0 <= i < longer.len() implies high_first(longer)[i] == (
        seq![hex_digit(d as int)] + high_first(low_first))[i] by {
            if i > 0 {
                assert(longer[longer.len() - 1 - i] == low_first[low_first.len() - 1 - (i - 1)]);
            }
        }
    }
    assert(leading(rest) =~= leading(rest / 16) + seq![hex_digit(d as int)]);
    assert(leading(rest) + high_first(low_first) =~= leading(rest / 16) + high_first(longer));
}

/// The text of one hexadecimal digit.
fn hex_digit_text(d: u8) -> (text: &'static str)
    requires
        d < 16,
    ensures
        text@ == seq![hex_digit(d as int)],
{
    proof {
        reveal_strlit("0");
        reveal_strlit("1");
        reveal_strlit("2");
        reveal_strlit("3");
        reveal_strlit("4");
        reveal_strlit("5");
        reveal_strlit("6");
        reveal_strlit("7");
        reveal_strlit("8");
        reveal_strlit("9");
        reveal_strlit("A");
        reveal_strlit("B");
        reveal_strlit("C");
        reveal_strlit("D");
        reveal_strlit("E");
        reveal_strlit("F");
    }
    let text = match d {
        0 => "0",
        1 => "1",
        2 => "2",
        3 => "3",
        4 => "4",
        5 => "5",
        6 => "6",
        7 => "7",
        8 => "8",
        9 => "9",
        10 => "A",
        11 => "B",
        12 => "C",
        13 => "D",
        14 => "E",
        _ => "F",
    };
    assert(text@ =~= seq![hex_digit(d as int)]);
    text
}

/// Writes a window handle in upper-case hexadecimal, with zeros in front
/// up to a width of eight digits.
pub fn format_handle(window: usize) -> (text: String)
    ensures
        text@ == handle_text(window),
{
    let mut low_first: Vec<u8> = Vec::new();
    let mut rest: usize = window;
    proof {
        assert(high_first(low_first@) =~= Seq::<char>::empty());
        if window != 0 {
            assert(leading(window as nat) + high_first(low_first@) =~= hex_digits(window as nat));
        }
    }
    low_first.push((rest % 16) as u8);
    rest = rest / 16;
    proof {
        let first = seq![(window % 16) as u8];
        assert(low_first@ =~= first);
        if window < 16 {
            assert(high_first(first) =~= hex_digits(window as nat));
            assert(leading(rest as nat) + high_first(low_first@) =~= hex_digits(window as nat));
        } else {
            lemma_take_digit(window as nat, Seq::<u8>::empty());
            assert(Seq::<u8>::empty().push((window % 16) as u8) =~= first);
        }
    }
    while rest != 0
        invariant
            low_first@.len() >= 1,
            forall|i: int| 0 <= i < low_first@.len() ==> low_first@[i] < 16,
            hex_digits(window as nat) == leading(rest as nat) + high_first(low_first@),
        decreases rest,
    {
        proof {
            lemma_take_digit(rest as nat, low_first@);
        }
        low_first.push((rest % 16) as u8);
        rest = rest / 16;
    }
    let digits: Ghost<Seq<char>> = Ghost(high_first(low_first@));
    proof {
        assert(hex_digits(window as nat) =~= digits@);
    }
    let mut text = String::new();
    let mut width: usize = low_first.len();
    while width < 8
        invariant
            low_first@.len() <= width,
            width <= 8 || width == low_first@.len(),
            text@ == Seq::new((width - low_first@.len()) as nat, |i: int| '0'),
        decreases 8 - width,
    {
        proof {
            reveal_strlit("0");
        }
        text.append("0");
        width += 1;
        assert(text@ =~= Seq::new((width - low_first@.len()) as nat, |i: int| '0'));
    }
    let padding: Ghost<Seq<char>> = Ghost(text@);
    proof {
        assert(zero_padded(digits@, 8) =~= padding@ + digits@);
    }
    let mut i: usize = low_first.len();
    while i > 0
        invariant
            i <= low_first@.len(),
            forall|j: int| 0 <= j < low_first@.len() ==> low_first@[j] < 16,
            digits@ == high_first(low_first@),
            text@ == padding@ + digits@.take(low_first@.len() - i),
        decreases i,
    {
        i -= 1;
        let piece = hex_digit_text(low_first[i]);
        text.append(piece);
        proof {
            let done = low_first@.len() - i;
            assert(digits@.take(done) =~= digits@.take(done - 1).push(
                hex_digit(low_first@[i as int] as int),
            ));
            assert(text@ =~= padding@ + digits@.take(done));
        }
    }
    proof {
        assert(digits@.take(low_first@.len() as int) =~= digits@);
    }
    text
}

/// The name under which a hook signs its records.
pub fn hook_name(source: HookKind) -> (name: &'static str)
    ensures
        name@ == hook_label(source),
{
    match source {
        HookKind::WindowProc => "win_proc_hook",
        HookKind::WindowProcReturn => "win_proc_ret_hook",
        HookKind::GetMessage => "get_message_hook",
    }
}

/// The class name of a window, from the buffer that the operating system
/// filled and the length that it reported. A negative length counts as no
/// name. The length must not reach past the buffer.
pub fn get_class(text: &[u16], reported: i32) -> (name: String)
    requires
        class_name_len(reported) <= text@.len(),
    ensures
        name@ == utf16_lossy(text@.subrange(0, class_name_len(reported) as int)),
{
    let length: usize = if reported < 0 {
        0
    } else {
        reported as usize
    };
    decode_utf16_lossy(slice_subrange(text, 0, length))
}

/// The class name of a window as [`get_class`] gives it, or `None` when the
/// reported length reaches past the buffer.
pub fn get_class_checked(text: &[u16], reported: i32) -> (name: Option<String>)
    ensures
        name is Some <==> class_name_len(reported) <= text@.len(),
        name matches Some(name) ==> name@ == utf16_lossy(
            text@.subrange(0, class_name_len(reported) as int),
        ),
{
    if reported >= 0 && reported as usize > text.len() {
        None
    } else {
        Some(get_class(text, reported))
    }
}

/// Writes the record of one observation: the name of the hook, the window
/// handle in hexadecimal and the class name of the window.
pub fn describe_observation(source: HookKind, window: usize, class_name: &str) -> (line: String)
    ensures
        line@ == observation_line(source, window, class_name@),
{
    let mut line = String::from_str(hook_name(source));
    line.append(" Window: ");
    let handle = format_handle(window);
    line.append(handle.as_str());
    line.append(" Class: ");
    line.append(class_name);
    line
}

} // verus!
