//! One line of the facts column: its model, its length and its two renderings.

use crate::paint::{
    green_code, lemma_colour_codes, lemma_painted_text_is_shown, lemma_plain_text_is_shown,
    paint_green, painted, without_codes, ESCAPE,
};
use crate::text::{dashes, repeated};
use vstd::prelude::*;
use vstd::string::*;

verus! {

/// The visible text of a title: the user, an at sign, the host.
pub open spec fn title_text(user: Seq<char>, host: Seq<char>) -> Seq<char> {
    user + seq!['@'] + host
}

/// The visible text of a fact: the label, a colon and a space, the value.
pub open spec fn fact_text(label: Seq<char>, value: Seq<char>) -> Seq<char> {
    label + seq![':', ' '] + value
}

/// Whether `out` can be the coloured form of a title: both names in green
/// around a plain at sign.
pub open spec fn is_styled_title(user: Seq<char>, host: Seq<char>, out: Seq<char>) -> bool {
    exists|u: Seq<char>, h: Seq<char>|
        #[trigger] painted(user, green_code(), u) && #[trigger] painted(host, green_code(), h)
            && out == title_text(u, h)
}

/// Whether `out` can be the coloured form of a fact: the label in green, then
/// the plain colon, space and value.
pub open spec fn is_styled_fact(label: Seq<char>, value: Seq<char>, out: Seq<char>) -> bool {
    exists|l: Seq<char>| #[trigger] painted(label, green_code(), l) && out == fact_text(l, value)
}

/// The mathematical model of a line: what it holds, as sequences of characters.
pub enum Line {
    /// `user@host`.
    Title { user: Seq<char>, host: Seq<char> },
    /// A rule of `width` dashes.
    Separator { width: nat },
    /// `label: value`.
    Fact { label: Seq<char>, value: Seq<char> },
}

impl Line {
    /// The text of the line as a reader sees it, without any colour.
    pub open spec fn text(self) -> Seq<char> {
        match self {
            Line::Title { user, host } => title_text(user, host),
            Line::Separator { width } => repeated('-', width),
            Line::Fact { label, value } => fact_text(label, value),
        }
    }

    /// The length that the line declares: the number of characters it takes
    /// on the screen.
    pub open spec fn length(self) -> nat {
        match self {
            Line::Title { user, host } => user.len() + 1 + host.len(),
            Line::Separator { width } => width,
            Line::Fact { label, value } => label.len() + 2 + value.len(),
        }
    }

    /// Whether `out` can be the coloured form of the line: the label of a
    /// fact and the two names of a title in green, everything else as it is.
    pub open spec fn styled_as(self, out: Seq<char>) -> bool {
        match self {
            Line::Title { user, host } => is_styled_title(user, host, out),
            Line::Separator { width } => out == repeated('-', width),
            Line::Fact { label, value } => is_styled_fact(label, value, out),
        }
    }

    /// Whether no part of the line holds an escape character.
    pub open spec fn is_escape_free(self) -> bool {
        match self {
            Line::Title { user, host } => !user.contains(ESCAPE) && !host.contains(ESCAPE),
            Line::Separator { width } => true,
            Line::Fact { label, value } => !label.contains(ESCAPE) && !value.contains(ESCAPE),
        }
    }

    /// The declared length of every line is the number of characters of its
    /// visible text.
    pub proof fn lemma_length_is_text_length(self)
        ensures
            self.length() == self.text().len(),
    {
    }

    /// A title reads `user@host`, and is as long as the two names and the
    /// sign between them.
    pub proof fn lemma_title(user: Seq<char>, host: Seq<char>)
        ensures
            (Line::Title { user, host }).text() == user + seq!['@'] + host,
            (Line::Title { user, host }).length() == user.len() + 1 + host.len(),
            (Line::Title { user, host }).text().len() == user.len() + 1 + host.len(),
    {
    }

    /// A separator of width `n` is `n` dashes and nothing else.
    pub proof fn lemma_separator(n: nat)
        ensures
            (Line::Separator { width: n }).length() == n,
            (Line::Separator { width: n }).text().len() == n,
            forall|i: int|
                0 <= i < n ==> #[trigger] (Line::Separator { width: n }).text()[i] == '-',
    {
    }

    /// A fact reads `label: value`, and is as long as the label, the value
    /// and the two characters between them.
    pub proof fn lemma_fact(label: Seq<char>, value: Seq<char>)
        ensures
            (Line::Fact { label, value }).text() == label + seq![':', ' '] + value,
            (Line::Fact { label, value }).length() == label.len() + 2 + value.len(),
            (Line::Fact { label, value }).text().len() == label.len() + 2 + value.len(),
    {
    }

    /// Colour is never counted: whichever coloured form of a line came out,
    /// it shows as the visible text of the line, and the declared length is
    /// the number of characters that show. This holds of every line without
    /// an escape character of its own.
    pub proof fn lemma_colour_is_invisible(self, out: Seq<char>)
        requires
            self.is_escape_free(),
            self.styled_as(out),
        ensures
            without_codes(out) == self.text(),
            without_codes(out).len() == self.length(),
    {
        let end = Seq::<char>::empty();
        lemma_colour_codes();
        match self {
            Line::Title { user, host } => {
                let (u, h) = choose|u: Seq<char>, h: Seq<char>|
                    #[trigger] painted(user, green_code(), u) && #[trigger] painted(
                        host,
                        green_code(),
                        h,
                    ) && out == title_text(u, h);
                let sign = seq!['@'];
                assert(out =~= u + (sign + (h + end)));
                lemma_painted_text_is_shown(user, green_code(), u, sign + (h + end));
                lemma_plain_text_is_shown(sign, h + end);
                lemma_painted_text_is_shown(host, green_code(), h, end);
                assert(user + (sign + (host + end)) =~= title_text(user, host));
            },
            Line::Separator { width } => {
                lemma_plain_text_is_shown(out, end);
                assert(out + end =~= out);
            },
            Line::Fact { label, value } => {
                let l = choose|l: Seq<char>| #[trigger]
                    painted(label, green_code(), l) && out == fact_text(l, value);
                let tail = seq![':', ' '] + value;
                assert(out =~= l + (tail + end));
                lemma_painted_text_is_shown(label, green_code(), l, tail + end);
                assert(!tail.contains(ESCAPE)) by {
                    if tail.contains(ESCAPE) {
                        let i = choose|i: int| 0 <= i < tail.len() && tail[i] == ESCAPE;
                        assert(i >= 2);
                        assert(value[i - 2] == ESCAPE);
                    }
                }
                lemma_plain_text_is_shown(tail, end);
                assert(label + (tail + end) =~= fact_text(label, value));
            },
        }
    }

    /// The visible text of a line is one of its coloured forms: the one that
    /// comes out where colour is switched off.
    pub proof fn lemma_text_is_a_styling(self)
        ensures
            self.styled_as(self.text()),
    {
        match self {
            Line::Title { user, host } => {
                assert(painted(user, green_code(), user));
                assert(painted(host, green_code(), host));
            },
            Line::Separator { width } => {},
            Line::Fact { label, value } => {
                assert(painted(label, green_code(), label));
            },
        }
    }
}

/// Joins a user and a host into one title.
pub fn join_title(user: &str, host: &str) -> (out: String)
    ensures
        out@ == title_text(user@, host@),
{
    proof {
        reveal_strlit("@");
    }
    let mut out = String::from_str(user);
    out.append("@");
    out.append(host);
    assert(out@ =~= title_text(user@, host@));
    out
}

/// Joins a label and a value into one fact.
pub fn join_fact(label: &str, value: &str) -> (out: String)
    ensures
        out@ == fact_text(label@, value@),
{
    proof {
        reveal_strlit(": ");
    }
    let mut out = String::from_str(label);
    out.append(": ");
    out.append(value);
    assert(out@ =~= fact_text(label@, value@));
    out
}

/// A line of the facts column.
#[derive(Debug, PartialEq, Eq)]
pub enum InfoLine {
    /// A labelled fact, shown as `label: value`.
    Normal { label: String, value: String },
    /// The title, shown as `username@hostname`.
    Top { username: String, hostname: String },
    /// A rule of that many dashes.
    Separator(usize),
}

impl View for InfoLine {
    type V = Line;

    open spec fn view(&self) -> Line {
        match *self {
            InfoLine::Normal { label, value } => Line::Fact { label: label@, value: value@ },
            InfoLine::Top { username, hostname } => Line::Title {
                user: username@,
                host: hostname@,
            },
            InfoLine::Separator(width) => Line::Separator { width: width as nat },
        }
    }
}

/// The models of a sequence of lines.
pub open spec fn models(lines: Seq<InfoLine>) -> Seq<Line> {
    lines.map_values(|line: InfoLine| line@)
}

impl InfoLine {
    /// The visible text of the line.
    pub fn plain(&self) -> (out: String)
        ensures
            out@ == self@.text(),
    {
        match self {
            InfoLine::Normal { label, value } => join_fact(label.as_str(), value.as_str()),
            InfoLine::Top { username, hostname } => join_title(
                username.as_str(),
                hostname.as_str(),
            ),
            InfoLine::Separator(width) => dashes(*width),
        }
    }

    /// The number of characters that the line takes on the screen.
    pub fn len(&self) -> (n: usize)
        ensures
            n == self@.length(),
    {
        match self {
            InfoLine::Separator(width) => *width,
            _ => self.plain().as_str().unicode_len(),
        }
    }

    /// The line as it is printed: its visible text with the label, or the
    /// two names of a title, in green.
    pub fn styled(&self) -> (out: String)
        ensures
            self@.styled_as(out@),
    {
        match self {
            InfoLine::Normal { label, value } => {
                let green_label = paint_green(label.as_str());
                join_fact(green_label.as_str(), value.as_str())
            },
            InfoLine::Top { username, hostname } => {
                let green_user = paint_green(username.as_str());
                let green_host = paint_green(hostname.as_str());
                join_title(green_user.as_str(), green_host.as_str())
            },
            InfoLine::Separator(width) => dashes(*width),
        }
    }
}

} // verus!
