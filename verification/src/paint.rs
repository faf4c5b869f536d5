//! Colour for the terminal, and what colour leaves visible.
//!
//! Nothing here measures text: the callers measure the visible text first and
//! colour it afterwards.

use colored::Colorize;
use vstd::prelude::*;

verus! {

/// The character that starts every escape sequence.
pub const ESCAPE: char = '\x1b';

/// The escape sequence that ends every colouring.
pub open spec fn reset_code() -> Seq<char> {
    "\x1b[0m"@
}

/// The escape sequence that starts green text.
pub open spec fn green_code() -> Seq<char> {
    "\x1b[32m"@
}

/// The escape sequence that starts bright blue text.
pub open spec fn bright_blue_code() -> Seq<char> {
    "\x1b[94m"@
}

/// Whether `text` holds the reset sequence somewhere.
pub open spec fn holds_reset(text: Seq<char>) -> bool {
    exists|i: int|
        0 <= i <= text.len() - reset_code().len() && #[trigger] text.subrange(
            i,
            i + reset_code().len(),
        ) == reset_code()
}

/// Whether `out` can be what colouring `text` gives, `on` being the sequence
/// that starts the colour.
///
/// Colour is switched on or off by the variables `NO_COLOR`, `CLICOLOR` and
/// `CLICOLOR_FORCE`, by whether standard output is a terminal, and by a
/// process-wide override, so one text has more than one possible colouring:
/// the text itself where colour is off, the text between `on` and the reset
/// sequence where it is on, and the text followed by the reset sequence alone
/// where the switch was turned off while the text was being written. Of a
/// text that already holds the reset sequence nothing is said: there the
/// colour is opened again after each reset.
pub open spec fn painted(text: Seq<char>, on: Seq<char>, out: Seq<char>) -> bool {
    ||| holds_reset(text)
    ||| out == text
    ||| out == on + text + reset_code()
    ||| out == text + reset_code()
}

/// `text` in green, as `colored::Colorize::green` and the `Display` of the
/// `ColoredString` it returns write it.
///
/// Trusted: the result is one of the colourings that [`painted`] admits for
/// the green opening sequence. Which one depends on the colour switch, so
/// two calls on one text may differ.
#[verifier::external_body]
pub(crate) fn paint_green(text: &str) -> (out: String)
    ensures
        painted(text@, green_code(), out@),
{
    text.green().to_string()
}

/// `text` in bright blue, as `colored::Colorize::bright_blue` and the
/// `Display` of the `ColoredString` it returns write it.
///
/// Trusted: the result is one of the colourings that [`painted`] admits for
/// the bright blue opening sequence. Which one depends on the colour switch,
/// so two calls on one text may differ.
#[verifier::external_body]
pub(crate) fn paint_bright_blue(text: &str) -> (out: String)
    ensures
        painted(text@, bright_blue_code(), out@),
{
    text.bright_blue().to_string()
}

/// Whether `code` is one colour code: an escape character, then anything
/// but an `m`, then an `m`.
pub open spec fn is_code(code: Seq<char>) -> bool {
    &&& code.len() >= 2
    &&& code[0] == ESCAPE
    &&& code.last() == 'm'
    &&& forall|i: int| 0 <= i < code.len() - 1 ==> code[i] != 'm'
}

/// What a terminal shows of `s`, where `inside` says whether `s` begins in
/// the middle of a colour code: a code runs from an escape character to the
/// next `m` and shows nothing, every other character shows as itself.
pub open spec fn shown(s: Seq<char>, inside: bool) -> Seq<char>
    decreases s.len(),
{
    if s.len() == 0 {
        Seq::empty()
    } else if inside {
        shown(s.drop_first(), s[0] != 'm')
    } else if s[0] == ESCAPE {
        shown(s.drop_first(), true)
    } else {
        seq![s[0]] + shown(s.drop_first(), false)
    }
}

/// `s` with its colour codes taken out.
pub open spec fn without_codes(s: Seq<char>) -> Seq<char> {
    shown(s, false)
}

/// The three escape sequences of this library are colour codes.
pub proof fn lemma_colour_codes()
    ensures
        is_code(green_code()),
        is_code(bright_blue_code()),
        is_code(reset_code()),
{
    reveal_strlit("\x1b[32m");
    reveal_strlit("\x1b[94m");
    reveal_strlit("\x1b[0m");
}

/// Text without an escape character shows as it is, and what follows it is
/// read from a fresh start.
pub proof fn lemma_plain_text_is_shown(plain: Seq<char>, rest: Seq<char>)
    requires
        !plain.contains(ESCAPE),
    ensures
        without_codes(plain + rest) == plain + without_codes(rest),
    decreases plain.len(),
{
    if plain.len() == 0 {
        assert(plain + rest =~= rest);
        assert(plain + without_codes(rest) =~= without_codes(rest));
    } else {
        let whole = plain + rest;
        let tail = plain.drop_first();
        assert(plain.contains(plain[0]));
        assert(!tail.contains(ESCAPE)) by {
            if tail.contains(ESCAPE) {
                let i = choose|i: int| 0 <= i < tail.len() && tail[i] == ESCAPE;
                assert(plain[i + 1] == ESCAPE);
            }
        }
        assert(whole.drop_first() =~= tail + rest);
        lemma_plain_text_is_shown(tail, rest);
        assert(seq![whole[0]] + (tail + without_codes(rest)) =~= plain + without_codes(rest));
    }
}

/// Inside a colour code nothing shows up to its closing `m`.
proof fn lemma_code_tail_is_hidden(tail: Seq<char>, rest: Seq<char>)
    requires
        tail.len() >= 1,
        tail.last() == 'm',
        forall|i: int| 0 <= i < tail.len() - 1 ==> tail[i] != 'm',
    ensures
        shown(tail + rest, true) == without_codes(rest),
    decreases tail.len(),
{
    let whole = tail + rest;
    assert(whole[0] == tail[0]);
    if tail.len() == 1 {
        assert(whole.drop_first() =~= rest);
    } else {
        let shorter = tail.drop_first();
        assert(whole.drop_first() =~= shorter + rest);
        assert(shorter.last() == tail.last());
        assert forall|i: int| 0 <= i < shorter.len() - 1 implies shorter[i] != 'm' by {
            assert(shorter[i] == tail[i + 1]);
        }
        lemma_code_tail_is_hidden(shorter, rest);
    }
}

/// A colour code shows nothing, and what follows it is read from a fresh
/// start.
pub proof fn lemma_code_is_hidden(code: Seq<char>, rest: Seq<char>)
    requires
        is_code(code),
    ensures
        without_codes(code + rest) == without_codes(rest),
{
    let whole = code + rest;
    let tail = code.drop_first();
    assert(whole[0] == code[0]);
    assert(whole.drop_first() =~= tail + rest);
    assert(tail.last() == code.last());
    assert forall|i: int| 0 <= i < tail.len() - 1 implies tail[i] != 'm' by {
        assert(tail[i] == code[i + 1]);
    }
    lemma_code_tail_is_hidden(tail, rest);
}

/// Colour is invisible: whichever colouring of a text without an escape
/// character came out, it shows as the text itself.
pub proof fn lemma_painted_text_is_shown(
    text: Seq<char>,
    on: Seq<char>,
    out: Seq<char>,
    rest: Seq<char>,
)
    requires
        !text.contains(ESCAPE),
        is_code(on),
        painted(text, on, out),
    ensures
        without_codes(out + rest) == text + without_codes(rest),
{
    lemma_colour_codes();
    let reset = reset_code();
    assert(!holds_reset(text)) by {
        if holds_reset(text) {
            let i = choose|i: int|
                0 <= i <= text.len() - reset.len() && #[trigger] text.subrange(i, i + reset.len())
                    == reset;
            assert(text.subrange(i, i + reset.len())[0] == reset[0]);
            assert(text[i] == ESCAPE);
        }
    }
    if out == text {
        lemma_plain_text_is_shown(text, rest);
    } else if out == on + text + reset {
        assert(out + rest =~= on + (text + (reset + rest)));
        lemma_code_is_hidden(on, text + (reset + rest));
        lemma_plain_text_is_shown(text, reset + rest);
        lemma_code_is_hidden(reset, rest);
    } else {
        assert(out + rest =~= text + (reset + rest));
        lemma_plain_text_is_shown(text, reset + rest);
        lemma_code_is_hidden(reset, rest);
    }
}

} // verus!
