//! Two columns side by side: the logo on the left, the facts on the right.
//!
//! The logo leads. Every logo row is filled with spaces up to the width of
//! the widest one, one more space parts the columns, and the fact follows.
//! Where one column is shorter than the other, its missing rows are empty:
//! an empty logo row is all filling, an empty fact is nothing at all.

use crate::line::{models, InfoLine, Line};
use crate::paint::{
    bright_blue_code, lemma_colour_codes, lemma_painted_text_is_shown, lemma_plain_text_is_shown,
    paint_bright_blue, painted, without_codes, ESCAPE,
};
use crate::text::{repeated, spaces, texts};
use vstd::prelude::*;
use vstd::string::*;

verus! {

/// The length of the longest of `rows`, and 0 where there are none.
pub open spec fn widest(rows: Seq<Seq<char>>) -> nat
    decreases rows.len(),
{
    if rows.len() == 0 {
        0
    } else if rows.last().len() > widest(rows.drop_last()) {
        rows.last().len()
    } else {
        widest(rows.drop_last())
    }
}

/// The number of rows on the screen: that of the longer column.
pub open spec fn row_count(logo: Seq<Seq<char>>, info: Seq<Line>) -> nat {
    if logo.len() > info.len() {
        logo.len()
    } else {
        info.len()
    }
}

/// The logo's part of row `i`: the logo row, or nothing below the logo.
pub open spec fn logo_cell(logo: Seq<Seq<char>>, i: int) -> Seq<char> {
    if 0 <= i < logo.len() {
        logo[i]
    } else {
        Seq::empty()
    }
}

/// The fact of row `i`, or an empty rule below the last fact.
pub open spec fn info_cell(info: Seq<Line>, i: int) -> Line {
    if 0 <= i < info.len() {
        info[i]
    } else {
        Line::Separator { width: 0 }
    }
}

/// The spaces between the logo's part of row `i` and the fact: the filling
/// up to the logo's width, and the one space that parts the columns.
pub open spec fn gap(logo: Seq<Seq<char>>, i: int) -> Seq<char> {
    repeated(' ', (widest(logo) - logo_cell(logo, i).len() + 1) as nat)
}

/// The visible text of row `i`.
pub open spec fn row_text(logo: Seq<Seq<char>>, info: Seq<Line>, i: int) -> Seq<char> {
    logo_cell(logo, i) + gap(logo, i) + info_cell(info, i).text()
}

/// Whether `cell` can be the coloured form of the logo's part of row `i`:
/// a logo row in bright blue, or nothing below the logo.
pub open spec fn is_styled_cell(logo: Seq<Seq<char>>, i: int, cell: Seq<char>) -> bool {
    if 0 <= i < logo.len() {
        painted(logo[i], bright_blue_code(), cell)
    } else {
        cell == Seq::<char>::empty()
    }
}

/// Whether `out` can be row `i` as it is printed: the coloured logo row, the
/// same spaces as in the visible text, the coloured fact.
pub open spec fn is_styled_row(
    logo: Seq<Seq<char>>,
    info: Seq<Line>,
    i: int,
    out: Seq<char>,
) -> bool {
    exists|cell: Seq<char>, line: Seq<char>|
        #[trigger] is_styled_cell(logo, i, cell) && #[trigger] info_cell(info, i).styled_as(line)
            && out == cell + gap(logo, i) + line
}

/// No row is longer than [`widest`] says, and, unless there are no rows, one
/// of them is exactly that long.
pub proof fn lemma_widest_is_the_maximum(rows: Seq<Seq<char>>)
    ensures
        forall|i: int| 0 <= i < rows.len() ==> (#[trigger] rows[i]).len() <= widest(rows),
        rows.len() == 0 ==> widest(rows) == 0,
        rows.len() > 0 ==> exists|i: int|
            0 <= i < rows.len() && (#[trigger] rows[i]).len() == widest(rows),
    decreases rows.len(),
{
    if rows.len() > 0 {
        let rest = rows.drop_last();
        lemma_widest_is_the_maximum(rest);
        assert forall|i: int| 0 <= i < rows.len() implies (#[trigger] rows[i]).len() <= widest(
            rows,
        ) by {
            if i < rest.len() {
                assert(rows[i] == rest[i]);
            }
        }
        if rows.last().len() > widest(rest) || rest.len() == 0 {
            assert(rows[rows.len() - 1].len() == widest(rows));
        } else {
            let j = choose|j: int| 0 <= j < rest.len() && (#[trigger] rest[j]).len() == widest(rest);
            assert(rows[j] == rest[j]);
        }
    }
}

/// The screen is aligned, whatever the lengths of the two columns: there are
/// as many rows as the longer column has, and in every row the logo's part
/// comes first, spaces fill it up to the width of the widest logo row, one
/// more space follows, and the fact starts in the column after that.
pub proof fn lemma_rows_are_aligned(logo: Seq<Seq<char>>, info: Seq<Line>, i: int)
    requires
        0 <= i < row_count(logo, info),
    ensures
        row_count(logo, info) >= logo.len(),
        row_count(logo, info) >= info.len(),
        row_count(logo, info) == logo.len() || row_count(logo, info) == info.len(),
        logo_cell(logo, i).len() <= widest(logo),
        row_text(logo, info, i).len() == widest(logo) + 1 + info_cell(info, i).length(),
        row_text(logo, info, i).subrange(0, logo_cell(logo, i).len() as int) == logo_cell(
            logo,
            i,
        ),
        forall|k: int|
            logo_cell(logo, i).len() <= k <= widest(logo) ==> #[trigger] row_text(logo, info, i)[k]
                == ' ',
        row_text(logo, info, i).subrange(
            widest(logo) as int + 1,
            row_text(logo, info, i).len() as int,
        ) == info_cell(info, i).text(),
{
    lemma_widest_is_the_maximum(logo);
    info_cell(info, i).lemma_length_is_text_length();
    if i < logo.len() {
        assert(logo[i].len() <= widest(logo));
    }
}

/// The visible text of a row is one of its printed forms: the one that comes
/// out where colour is switched off.
pub proof fn lemma_row_text_is_a_styling(logo: Seq<Seq<char>>, info: Seq<Line>, i: int)
    ensures
        is_styled_row(logo, info, i, row_text(logo, info, i)),
{
    info_cell(info, i).lemma_text_is_a_styling();
    assert(is_styled_cell(logo, i, logo_cell(logo, i)));
    assert(info_cell(info, i).styled_as(info_cell(info, i).text()));
}

/// Colour never moves a column: whichever printed form of a row came out, it
/// shows as the visible text of the row. This holds of every row whose logo
/// part and fact hold no escape character of their own.
pub proof fn lemma_colour_keeps_the_columns(
    logo: Seq<Seq<char>>,
    info: Seq<Line>,
    i: int,
    out: Seq<char>,
)
    requires
        !logo_cell(logo, i).contains(ESCAPE),
        info_cell(info, i).is_escape_free(),
        is_styled_row(logo, info, i, out),
    ensures
        without_codes(out) == row_text(logo, info, i),
{
    let (cell, line) = choose|cell: Seq<char>, line: Seq<char>|
        #[trigger] is_styled_cell(logo, i, cell) && #[trigger] info_cell(info, i).styled_as(line)
            && out == cell + gap(logo, i) + line;
    let filling = gap(logo, i);
    lemma_colour_codes();
    info_cell(info, i).lemma_colour_is_invisible(line);
    lemma_plain_text_is_shown(filling, line);
    assert(out =~= cell + (filling + line));
    if 0 <= i < logo.len() {
        lemma_painted_text_is_shown(logo[i], bright_blue_code(), cell, filling + line);
    } else {
        assert(cell + (filling + line) =~= filling + line);
    }
    assert(logo_cell(logo, i) + (filling + info_cell(info, i).text()) =~= row_text(logo, info, i));
}

/// The length of the longest row of the logo, in characters.
pub fn logo_width(logo: &Vec<String>) -> (width: usize)
    ensures
        width == widest(texts(logo@)),
{
    let mut width: usize = 0;
    let mut i: usize = 0;
    while i < logo.len()
        invariant
            i <= logo.len(),
            width == widest(texts(logo@).take(i as int)),
        decreases logo.len() - i,
    {
        let len: usize = logo[i].as_str().unicode_len();
        proof {
            let grown = texts(logo@).take(i + 1);
            assert(grown.drop_last() =~= texts(logo@).take(i as int));
            assert(grown.last() == logo@[i as int]@);
        }
        if len > width {
            width = len;
        }
        i = i + 1;
    }
    assert(texts(logo@).take(i as int) =~= texts(logo@));
    width
}

/// Sets a fact to the right of a logo row: the row, `padding` spaces to fill
/// the logo's column, the space that parts the columns, the fact.
pub fn compose_row(cell: &str, padding: usize, line: &str) -> (out: String)
    ensures
        out@ == cell@ + repeated(' ', padding as nat + 1) + line@,
{
    proof {
        reveal_strlit(" ");
    }
    let mut out = String::from_str(cell);
    out.append(spaces(padding).as_str());
    out.append(" ");
    out.append(line);
    assert(out@ =~= cell@ + repeated(' ', padding as nat + 1) + line@);
    out
}

/// Lays the two columns out row by row, with or without colour.
fn lay_out(logo: &Vec<String>, info: &Vec<InfoLine>, colour: bool) -> (rows: Vec<String>)
    ensures
        rows@.len() == row_count(texts(logo@), models(info@)),
        forall|i: int|
            0 <= i < rows@.len() ==> if colour {
                is_styled_row(texts(logo@), models(info@), i, #[trigger] rows@[i]@)
            } else {
                #[trigger] rows@[i]@ == row_text(texts(logo@), models(info@), i)
            },
{
    let width: usize = logo_width(logo);
    let count: usize = if logo.len() > info.len() {
        logo.len()
    } else {
        info.len()
    };
    let blank = InfoLine::Separator(0);
    let mut rows: Vec<String> = Vec::new();
    let mut i: usize = 0;
    proof {
        lemma_widest_is_the_maximum(texts(logo@));
        reveal_strlit("");
    }
    while i < count
        invariant
            i <= count,
            count == row_count(texts(logo@), models(info@)),
            width == widest(texts(logo@)),
            blank@ == (Line::Separator { width: 0 }),
            ""@.len() == 0,
            forall|j: int|
                0 <= j < logo@.len() ==> (#[trigger] texts(logo@)[j]).len() <= widest(
                    texts(logo@),
                ),
            rows@.len() == i,
            forall|j: int|
                0 <= j < i ==> if colour {
                    is_styled_row(texts(logo@), models(info@), j, #[trigger] rows@[j]@)
                } else {
                    #[trigger] rows@[j]@ == row_text(texts(logo@), models(info@), j)
                },
        decreases count - i,
    {
        let logo_line: &str = if i < logo.len() {
            logo[i].as_str()
        } else {
            ""
        };
        let info_line: &InfoLine = if i < info.len() {
            &info[i]
        } else {
            &blank
        };
        assert(logo_line@ =~= logo_cell(texts(logo@), i as int));
        assert(info_line@ == info_cell(models(info@), i as int));
        assert(logo_line@.len() <= width) by {
            if i < logo.len() {
                assert(texts(logo@)[i as int].len() <= widest(texts(logo@)));
            }
        }
        let logo_padding: usize = width - logo_line.unicode_len();
        let row = if colour {
            let cell = if i < logo.len() {
                paint_bright_blue(logo_line)
            } else {
                String::new()
            };
            let line = info_line.styled();
            let row = compose_row(cell.as_str(), logo_padding, line.as_str());
            proof {
                assert(is_styled_cell(texts(logo@), i as int, cell@));
                assert(info_cell(models(info@), i as int).styled_as(line@));
                assert(row@ == cell@ + gap(texts(logo@), i as int) + line@);
            }
            row
        } else {
            let line = info_line.plain();
            compose_row(logo_line, logo_padding, line.as_str())
        };
        rows.push(row);
        i = i + 1;
    }
    rows
}

/// The screen as a reader sees it, without any colour: one string for each
/// row, from the top.
pub fn plain_rows(logo: &Vec<String>, info: &Vec<InfoLine>) -> (rows: Vec<String>)
    ensures
        rows@.len() == row_count(texts(logo@), models(info@)),
        forall|i: int|
            0 <= i < rows@.len() ==> #[trigger] rows@[i]@ == row_text(
                texts(logo@),
                models(info@),
                i,
            ),
{
    lay_out(logo, info, false)
}

/// The screen as it is printed: the logo in bright blue, labels and names in
/// green, and the spaces between the columns exactly as in the visible text.
pub fn styled_rows(logo: &Vec<String>, info: &Vec<InfoLine>) -> (rows: Vec<String>)
    ensures
        rows@.len() == row_count(texts(logo@), models(info@)),
        forall|i: int|
            0 <= i < rows@.len() ==> is_styled_row(
                texts(logo@),
                models(info@),
                i,
                #[trigger] rows@[i]@,
            ),
{
    lay_out(logo, info, true)
}

} // verus!
