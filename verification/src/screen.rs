//! The whole screen, from the answers of the host to the rows to print.

use crate::facts::{collect_lines, Facts, HostFacts};
use crate::layout::{
    is_styled_row, lemma_colour_keeps_the_columns, row_count, row_text, styled_rows,
};
use crate::logo::{arch_logo, arch_logo_rows, lemma_arch_logo_widths};
use crate::paint::without_codes;
use vstd::prelude::*;

verus! {

/// Whatever the colour switch says, the screen shows the same: every row
/// that can be printed for a host shows as the row of the plain layout. This
/// holds of every host whose answers hold no escape character.
pub proof fn lemma_screen_shows_the_plain_rows(facts: Facts, i: int, out: Seq<char>)
    requires
        facts.is_escape_free(),
        0 <= i < row_count(arch_logo_rows(), facts.lines()),
        is_styled_row(arch_logo_rows(), facts.lines(), i, out),
    ensures
        without_codes(out) == row_text(arch_logo_rows(), facts.lines(), i),
{
    lemma_arch_logo_widths();
    if i < facts.lines().len() {
        facts.lemma_lines_are_escape_free(i);
    }
    lemma_colour_keeps_the_columns(arch_logo_rows(), facts.lines(), i, out);
}

/// The rows to print for a host: the logo with the facts beside it, in
/// colour.
///
/// Where the uptime query failed, nothing is laid out, not even the logo:
/// the message of the failure comes back, for the caller to report before it
/// gives up. No other failure stops the screen.
pub fn render(facts: &HostFacts) -> (out: Result<Vec<String>, String>)
    ensures
        match out {
            Ok(rows) => {
                &&& facts@.uptime is Ok
                &&& rows@.len() == row_count(arch_logo_rows(), facts@.lines())
                &&& forall|i: int|
                    0 <= i < rows@.len() ==> is_styled_row(
                        arch_logo_rows(),
                        facts@.lines(),
                        i,
                        #[trigger] rows@[i]@,
                    )
            },
            Err(message) => facts@.uptime == Err::<nat, Seq<char>>(message@),
        },
{
    match collect_lines(facts) {
        Ok(info_lines) => Ok(styled_rows(&arch_logo(), &info_lines)),
        Err(message) => Err(message),
    }
}

} // verus!
