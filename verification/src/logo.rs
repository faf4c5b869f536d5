//! The logo: seven rows of ASCII art, the same on every run.

use crate::layout::widest;
use crate::paint::ESCAPE;
use crate::text::texts;
use vstd::prelude::*;
use vstd::string::*;

verus! {

/// The rows of the logo, from the top.
pub open spec fn arch_logo_rows() -> Seq<Seq<char>> {
    seq![
        "      /#\\"@,
        "     /###\\"@,
        "    /p^###\\"@,
        "   /##P^q##\\"@,
        "  /##(   )##\\"@,
        " /###P   q#,^\\"@,
        "/P^         ^q\\"@,
    ]
}

/// The logo has seven rows, each one character longer than the one above
/// it, from nine characters to fifteen, and none holds an escape character.
pub proof fn lemma_arch_logo_widths()
    ensures
        arch_logo_rows().len() == 7,
        forall|i: int| 0 <= i < 7 ==> (#[trigger] arch_logo_rows()[i]).len() == 9 + i,
        forall|i: int| 0 <= i < 7 ==> !(#[trigger] arch_logo_rows()[i]).contains(ESCAPE),
        widest(arch_logo_rows()) == 15,
{
    reveal_strlit("      /#\\");
    reveal_strlit("     /###\\");
    reveal_strlit("    /p^###\\");
    reveal_strlit("   /##P^q##\\");
    reveal_strlit("  /##(   )##\\");
    reveal_strlit(" /###P   q#,^\\");
    reveal_strlit("/P^         ^q\\");
    reveal_with_fuel(widest, 8);
    let rows = arch_logo_rows();
    let r6 = rows.drop_last();
    let r5 = r6.drop_last();
    let r4 = r5.drop_last();
    let r3 = r4.drop_last();
    let r2 = r3.drop_last();
    let r1 = r2.drop_last();
    assert(r1.drop_last().len() == 0);
    assert(widest(r1) == 9);
    assert(widest(r2) == 10);
    assert(widest(r3) == 11);
    assert(widest(r4) == 12);
    assert(widest(r5) == 13);
    assert(widest(r6) == 14);
}

/// The logo.
pub fn arch_logo() -> (logo: Vec<String>)
    ensures
        texts(logo@) == arch_logo_rows(),
{
    let mut logo: Vec<String> = Vec::new();
    logo.push(String::from_str("      /#\\"));
    logo.push(String::from_str("     /###\\"));
    logo.push(String::from_str("    /p^###\\"));
    logo.push(String::from_str("   /##P^q##\\"));
    logo.push(String::from_str("  /##(   )##\\"));
    logo.push(String::from_str(" /###P   q#,^\\"));
    logo.push(String::from_str("/P^         ^q\\"));
    assert(texts(logo@) =~= arch_logo_rows());
    logo
}

} // verus!
