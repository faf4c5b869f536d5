//! The two values that are computed rather than copied: uptime and memory.

use crate::paint::ESCAPE;
use crate::text::{
    decimal, decimal_two_wide, lemma_concat_lacks, lemma_decimal_holds_digits, push_decimal,
    push_decimal_two_wide, push_signed_decimal, signed_decimal,
};
use vstd::prelude::*;
use vstd::string::*;

verus! {

/// An uptime of `secs` seconds as hours and minutes: the whole hours, `h`, a
/// space, the minutes left over in two digits, `m`. Seconds are dropped.
pub open spec fn uptime_text(secs: nat) -> Seq<char> {
    decimal(secs / 3600) + "h "@ + decimal_two_wide((secs % 3600) / 60) + "m"@
}

/// A numeral holds no escape character.
proof fn lemma_decimal_is_escape_free(n: nat)
    ensures
        !decimal(n).contains(ESCAPE),
{
    reveal_strlit("0123456789");
    lemma_decimal_holds_digits(n);
    if decimal(n).contains(ESCAPE) {
        let i = choose|i: int| 0 <= i < decimal(n).len() && decimal(n)[i] == ESCAPE;
        assert("0123456789"@.contains(decimal(n)[i]));
    }
}

/// A formatted uptime holds no escape character.
pub proof fn lemma_uptime_text_is_escape_free(secs: nat)
    ensures
        !uptime_text(secs).contains(ESCAPE),
{
    reveal_strlit("h ");
    reveal_strlit("m");
    reveal_strlit("0");
    let hours = decimal(secs / 3600);
    let minutes = decimal_two_wide((secs % 3600) / 60);
    lemma_decimal_is_escape_free(secs / 3600);
    lemma_decimal_is_escape_free((secs % 3600) / 60);
    lemma_concat_lacks(seq!['0'], decimal((secs % 3600) / 60), ESCAPE);
    lemma_concat_lacks(hours, "h "@, ESCAPE);
    lemma_concat_lacks(hours + "h "@, minutes, ESCAPE);
    lemma_concat_lacks(hours + "h "@ + minutes, "m"@, ESCAPE);
}

/// Formats an uptime given in seconds, as `5400` gives `1h 30m`.
pub fn format_uptime(secs: u64) -> (out: String)
    ensures
        out@ == uptime_text(secs as nat),
{
    let mut out = String::new();
    push_decimal(&mut out, secs / 3600);
    out.append("h ");
    push_decimal_two_wide(&mut out, (secs % 3600) / 60);
    out.append("m");
    assert(out@ =~= uptime_text(secs as nat));
    out
}

/// The two readings of memory, each as its query reports it.
#[derive(Clone, Copy, Debug, PartialEq, Eq)]
pub struct MemoryStatus {
    /// The amount in use. It is shown divided by 1024.
    pub used: i32,
    /// The amount installed. It is shown divided by 1024 twice.
    pub total: u64,
}

/// The quotient of `a` by a positive `b`, rounded toward zero.
pub open spec fn quotient_toward_zero(a: int, b: int) -> int {
    if a < 0 {
        -((-a) / b)
    } else {
        a / b
    }
}

/// Memory as `used` of `total`, both scaled down and marked `MiB`.
pub open spec fn memory_text(used: int, total: nat) -> Seq<char> {
    signed_decimal(quotient_toward_zero(used, 1024)) + "MiB / "@ + decimal(total / 1024 / 1024)
        + "MiB"@
}

/// Formatted memory holds no escape character.
pub proof fn lemma_memory_text_is_escape_free(used: int, total: nat)
    ensures
        !memory_text(used, total).contains(ESCAPE),
{
    reveal_strlit("MiB / ");
    reveal_strlit("MiB");
    let scaled = quotient_toward_zero(used, 1024);
    let in_use = signed_decimal(scaled);
    let installed = decimal(total / 1024 / 1024);
    if scaled < 0 {
        lemma_decimal_is_escape_free((-scaled) as nat);
        lemma_concat_lacks(seq!['-'], decimal((-scaled) as nat), ESCAPE);
    } else {
        lemma_decimal_is_escape_free(scaled as nat);
    }
    lemma_decimal_is_escape_free(total / 1024 / 1024);
    lemma_concat_lacks(in_use, "MiB / "@, ESCAPE);
    lemma_concat_lacks(in_use + "MiB / "@, installed, ESCAPE);
    lemma_concat_lacks(in_use + "MiB / "@ + installed, "MiB"@, ESCAPE);
}

/// Formats the two readings of memory, as `2097152` in use of `17179869184`
/// gives `2048MiB / 16384MiB`.
pub fn format_memory(status: &MemoryStatus) -> (out: String)
    ensures
        out@ == memory_text(status.used as int, status.total as nat),
{
    let mut out = String::new();
    push_signed_decimal(&mut out, status.used / 1024);
    out.append("MiB / ");
    push_decimal(&mut out, status.total / 1024 / 1024);
    out.append("MiB");
    assert(out@ =~= memory_text(status.used as int, status.total as nat));
    out
}

} // verus!
