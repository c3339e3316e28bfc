//! Text helpers for status lines and error messages.

use vstd::prelude::*;
use vstd::string::{StrSliceExecFns, StringExecFns};

verus! {

/// The character of one decimal digit.
pub open spec fn digit_char(d: int) -> char {
    if d == 0 {
        '0'
    } else if d == 1 {
        '1'
    } else if d == 2 {
        '2'
    } else if d == 3 {
        '3'
    } else if d == 4 {
        '4'
    } else if d == 5 {
        '5'
    } else if d == 6 {
        '6'
    } else if d == 7 {
        '7'
    } else if d == 8 {
        '8'
    } else {
        '9'
    }
}

/// The decimal notation of a number: no sign, no leading zero, `0` for zero.
pub open spec fn decimal_digits(n: nat) -> Seq<char>
    decreases n,
{
    if n < 10 {
        seq![digit_char(n as int)]
    } else {
        decimal_digits(n / 10).push(digit_char((n % 10) as int))
    }
}

/// The one-character text of a decimal digit.
fn digit_text(d: u32) -> (text: &'static str)
    requires
        d < 10,
    ensures
        text@ == seq![digit_char(d as int)],
{
    proof {
        reveal_strlit("0");
        reveal_strlit("1");
        reveal_strlit("2");
        reveal_strlit("3");
        reveal_strlit("4");
        reveal_strlit("5");
        reveal_strlit("6");
        reveal_strlit("7");
        reveal_strlit("8");
        reveal_strlit("9");
    }
    let text = if d == 0 {
        "0"
    } else if d == 1 {
        "1"
    } else if d == 2 {
        "2"
    } else if d == 3 {
        "3"
    } else if d == 4 {
        "4"
    } else if d == 5 {
        "5"
    } else if d == 6 {
        "6"
    } else if d == 7 {
        "7"
    } else if d == 8 {
        "8"
    } else {
        "9"
    };
    assert(text@ =~= seq![digit_char(d as int)]);
    text
}

/// Appends the decimal notation of `n` to `out`.
pub fn push_decimal(out: &mut String, n: u32)
    ensures
        final(out)@ == old(out)@ + decimal_digits(n as nat),
    decreases n,
{
    if n >= 10 {
        push_decimal(out, n / 10);
    }
    out.append(digit_text(n % 10));
    assert(out@ =~= old(out)@ + decimal_digits(n as nat));
}

/// The decimal notation of `n` as a string.
pub fn decimal_text(n: u32) -> (text: String)
    ensures
        text@ == decimal_digits(n as nat),
{
    let mut text = String::new();
    push_decimal(&mut text, n);
    assert(text@ =~= decimal_digits(n as nat));
    text
}

/// Whether `text` ends with the characters of `suffix`.
pub open spec fn has_suffix(text: Seq<char>, suffix: Seq<char>) -> bool {
    text.len() >= suffix.len() && text.subrange(text.len() - suffix.len(), text.len() as int)
        == suffix
}

/// Tells whether `text` ends with `suffix`, character by character.
pub fn ends_with(text: &str, suffix: &str) -> (found: bool)
    ensures
        found == has_suffix(text@, suffix@),
{
    let text_len = text.unicode_len();
    let suffix_len = suffix.unicode_len();
    if text_len < suffix_len {
        return false;
    }
    let start = text_len - suffix_len;
    let ghost tail = text@.subrange(start as int, text_len as int);
    let mut i: usize = 0;
    while i < suffix_len
        invariant
            text_len == text@.len(),
            suffix_len == suffix@.len(),
            start + suffix_len == text_len,
            i <= suffix_len,
            tail == text@.subrange(start as int, text_len as int),
            forall|k: int| 0 <= k < i ==> tail[k] == suffix@[k],
        decreases suffix_len - i,
    {
        if text.get_char(start + i) != suffix.get_char(i) {
            assert(tail[i as int] != suffix@[i as int]);
            return false;
        }
        i = i + 1;
    }
    assert(tail =~= suffix@);
    true
}

/// How many characters of `text` are left when the NUL characters at its
/// end are dropped.
pub open spec fn trimmed_len(text: Seq<char>) -> nat
    decreases text.len(),
{
    if text.len() > 0 && text.last() == '\0' {
        trimmed_len(text.drop_last())
    } else {
        text.len()
    }
}

/// `text` without the NUL characters at its end.
pub open spec fn without_trailing_nuls(text: Seq<char>) -> Seq<char> {
    text.take(trimmed_len(text) as int)
}

proof fn trimmed_len_of_prefix(text: Seq<char>, kept: int)
    requires
        0 <= kept <= text.len(),
        forall|k: int| kept <= k < text.len() ==> text[k] == '\0',
    ensures
        trimmed_len(text) == trimmed_len(text.take(kept)),
    decreases text.len() - kept,
{
    if kept < text.len() {
        assert(text.drop_last().take(kept) =~= text.take(kept));
        trimmed_len_of_prefix(text.drop_last(), kept);
    } else {
        assert(text.take(kept) =~= text);
    }
}

/// Copies `text` up to the NUL characters that end it, as a buffer filled by
/// a system call is read.
pub fn trim_trailing_nuls(text: &str) -> (trimmed: String)
    ensures
        trimmed@ == without_trailing_nuls(text@),
{
    let len = text.unicode_len();
    let mut kept: usize = len;
    while kept > 0 && text.get_char(kept - 1) == '\0'
        invariant
            len == text@.len(),
            kept <= len,
            forall|k: int| kept <= k < len ==> text@[k] == '\0',
        decreases kept,
    {
        kept = kept - 1;
    }
    proof {
        trimmed_len_of_prefix(text@, kept as int);
        let prefix = text@.take(kept as int);
        assert(trimmed_len(prefix) == kept) by {
            if kept > 0 {
                assert(prefix.last() == text@[kept - 1]);
            }
        }
        assert(text@.subrange(0, kept as int) =~= text@.take(kept as int));
    }
    String::from_str(text.substring_char(0, kept))
}

} // verus!
