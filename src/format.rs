//! Short human-readable texts for sizes and ages.

use vstd::prelude::*;
use crate::text::{decimal, digit_char, digit_char_exec, owned, push_decimal, push_text, string_of};

verus! {

/// Formats values for display.
pub struct OutputFormatter;

/// A number of tenths written with one decimal place.
pub open spec fn one_decimal(tenths: nat) -> Seq<char> {
    decimal(tenths / 10) + seq!['.', digit_char((tenths % 10) as int)]
}

/// A size in bytes: whole bytes below 1024, else kilobytes below 1024 * 1024,
/// else megabytes, both to the nearest tenth (no size falls halfway).
pub open spec fn size_text(bytes: nat) -> Seq<char> {
    if bytes < 1024 {
        decimal(bytes) + "B"@
    } else if bytes < 1048576 {
        one_decimal((bytes * 10 + 512) / 1024) + "KB"@
    } else {
        one_decimal((bytes * 10 + 524288) / 1048576) + "MB"@
    }
}

/// How long ago, from the seconds elapsed, where known.
pub open spec fn age_text(elapsed: Option<u64>) -> Seq<char> {
    match elapsed {
        None => "unknown"@,
        Some(s) => if s < 60 {
            "just now"@
        } else if s < 3600 {
            decimal((s / 60) as nat) + "m ago"@
        } else if s < 86400 {
            decimal((s / 3600) as nat) + "h ago"@
        } else {
            decimal((s / 86400) as nat) + "d ago"@
        },
    }
}

fn push_one_decimal(out: &mut Vec<char>, tenths: u64)
    ensures
        final(out)@ == old(out)@ + one_decimal(tenths as nat),
{
    push_decimal(out, tenths / 10);
    out.push('.');
    out.push(digit_char_exec(tenths % 10));
    assert(final(out)@ =~= old(out)@ + one_decimal(tenths as nat)) by {
        assert(out@ =~= old(out)@ + decimal((tenths / 10) as nat) + seq![
            '.',
            digit_char((tenths % 10) as int),
        ]);
    }
}

impl OutputFormatter {
    pub fn format_size(bytes: u64) -> (r: String)
        ensures
            r@ == size_text(bytes as nat),
    {
        let mut out: Vec<char> = Vec::new();
        if bytes < 1024 {
            push_decimal(&mut out, bytes);
            push_text(&mut out, "B");
        } else if bytes < 1048576 {
            let t = ((bytes as u128 * 10 + 512) / 1024) as u64;
            push_one_decimal(&mut out, t);
            push_text(&mut out, "KB");
        } else {
            let t = ((bytes as u128 * 10 + 524288) / 1048576) as u64;
            push_one_decimal(&mut out, t);
            push_text(&mut out, "MB");
        }
        assert(out@ =~= size_text(bytes as nat));
        string_of(out.as_slice())
    }

    pub fn format_time_ago(elapsed: Option<u64>) -> (r: String)
        ensures
            r@ == age_text(elapsed),
    {
        match elapsed {
            None => owned("unknown"),
            Some(s) => {
                if s < 60 {
                    owned("just now")
                } else {
                    let mut out: Vec<char> = Vec::new();
                    if s < 3600 {
                        push_decimal(&mut out, s / 60);
                        push_text(&mut out, "m ago");
                    } else if s < 86400 {
                        push_decimal(&mut out, s / 3600);
                        push_text(&mut out, "h ago");
                    } else {
                        push_decimal(&mut out, s / 86400);
                        push_text(&mut out, "d ago");
                    }
                    assert(out@ =~= age_text(elapsed));
                    string_of(out.as_slice())
                }
            },
        }
    }
}

} // verus!
