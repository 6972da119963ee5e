//! Times and sizes as text.

use crate::number;
use crate::text;
use vstd::prelude::*;

verus! {

/// The seconds since the epoch that a clock tells; 0 for a clock that stands before the epoch.
pub fn now_secs(since_epoch: Option<u64>) -> (r: u64)
    ensures
        r == match since_epoch {
            Some(secs) => secs,
            None => 0,
        },
{
    match since_epoch {
        Some(secs) => secs,
        None => 0,
    }
}

/// Hours, minutes and seconds, each with at least two digits.
pub open spec fn hms(secs: nat) -> Seq<char> {
    number::dec2(secs / 3600) + ":"@ + number::dec2((secs % 3600) / 60) + ":"@ + number::dec2(
        secs % 60,
    )
}

/// A duration as hours, minutes and seconds.
pub fn duration_hms(secs: u64) -> (r: String)
    ensures
        r@ == hms(secs as nat),
{
    let h = number::to_dec2(secs / 3600);
    let m = number::to_dec2((secs % 3600) / 60);
    let s = number::to_dec2(secs % 60);
    text::cat5(h.as_str(), ":", m.as_str(), ":", s.as_str())
}

/// The time of day that a number of seconds since the epoch stands for.
pub open spec fn time_of_day(secs: nat) -> Seq<char> {
    hms(secs % 86400)
}

pub fn epoch_hms(secs: u64) -> (r: String)
    ensures
        r@ == time_of_day(secs as nat),
{
    duration_hms(secs % 86_400)
}

/// The units of size: each is 1024 times the one before it.
pub open spec fn unit_size(k: nat) -> nat {
    if k == 0 {
        1
    } else if k == 1 {
        1024
    } else if k == 2 {
        1_048_576
    } else if k == 3 {
        1_073_741_824
    } else {
        1_099_511_627_776
    }
}

pub open spec fn unit_name(k: nat) -> Seq<char> {
    if k == 0 {
        "B"@
    } else if k == 1 {
        "KB"@
    } else if k == 2 {
        "MB"@
    } else if k == 3 {
        "GB"@
    } else {
        "TB"@
    }
}

/// The largest unit that is not larger than the size.
pub open spec fn unit_for(bytes: nat) -> nat {
    if bytes < unit_size(1) {
        0
    } else if bytes < unit_size(2) {
        1
    } else if bytes < unit_size(3) {
        2
    } else if bytes < unit_size(4) {
        3
    } else {
        4
    }
}

/// A size in its largest unit, with one decimal place, cut off, for all units but the byte.
pub open spec fn size_text(bytes: nat) -> Seq<char> {
    let k = unit_for(bytes);
    if k == 0 {
        number::dec(bytes) + " "@ + unit_name(0)
    } else {
        number::dec(bytes / unit_size(k)) + "."@ + number::dec(
            (((bytes / unit_size((k - 1) as nat)) % 1024) * 10) / 1024,
        ) + " "@ + unit_name(k)
    }
}

fn unit_label(k: usize) -> (r: &'static str)
    ensures
        r@ == unit_name(k as nat),
{
    if k == 0 {
        "B"
    } else if k == 1 {
        "KB"
    } else if k == 2 {
        "MB"
    } else if k == 3 {
        "GB"
    } else {
        "TB"
    }
}

pub fn format_bytes(bytes: u64) -> (r: String)
    ensures
        r@ == size_text(bytes as nat),
{
    let mut rest: u64 = bytes;
    let mut idx: usize = 0;
    let mut fraction: u64 = 0;
    while rest >= 1024 && idx < 4
        invariant
            idx <= 4,
            rest == bytes as nat / unit_size(idx as nat),
            fraction < 1024,
            idx > 0 ==> fraction == (bytes as nat / unit_size((idx - 1) as nat)) % 1024,
            idx > 0 ==> rest >= 1,
        decreases 4 - idx,
    {
        fraction = rest % 1024;
        rest = rest / 1024;
        idx = idx + 1;
    }
    assert(idx as nat == unit_for(bytes as nat));
    if idx == 0 {
        return text::cat3(number::to_dec(rest).as_str(), " ", unit_label(0));
    }
    let decimal: u64 = (fraction * 10) / 1024;
    text::cat5(
        number::to_dec(rest).as_str(),
        ".",
        number::to_dec(decimal).as_str(),
        " ",
        unit_label(idx),
    )
}

/// The scale of a gauge: a fifth more than the largest value seen, and at least 1.
pub fn gauge_scale(max_seen: u64) -> (r: u64)
    ensures
        r == if (if max_seen * 12 > u64::MAX {
            u64::MAX as int
        } else {
            max_seen * 12
        }) / 10 < 1 {
            1
        } else {
            (if max_seen * 12 > u64::MAX {
                u64::MAX as int
            } else {
                max_seen * 12
            }) / 10
        },
{
    let grown: u64 = match max_seen.checked_mul(12) {
        Some(n) => n,
        None => u64::MAX,
    };
    let scale = grown / 10;
    if scale < 1 {
        1
    } else {
        scale
    }
}

/// `s` with spaces after it up to `width` characters.
pub open spec fn padded_right(s: Seq<char>, width: nat) -> Seq<char>
    decreases width - s.len(),
{
    if s.len() >= width {
        s
    } else {
        padded_right(s.push(' '), width)
    }
}

/// `s` with spaces before it up to `width` characters.
pub open spec fn padded_left(s: Seq<char>, width: nat) -> Seq<char>
    decreases width - s.len(),
{
    if s.len() >= width {
        s
    } else {
        padded_left(seq![' '] + s, width)
    }
}

pub fn pad_right(s: &str, width: usize) -> (r: String)
    ensures
        r@ == padded_right(s@, width as nat),
{
    let mut n: usize = s.unicode_len();
    let mut r = s.to_owned();
    while n < width
        invariant
            n == r@.len(),
            padded_right(r@, width as nat) == padded_right(s@, width as nat),
        decreases width - n,
    {
        r.push(' ');
        n = n + 1;
    }
    r
}

pub fn pad_left(s: &str, width: usize) -> (r: String)
    ensures
        r@ == padded_left(s@, width as nat),
{
    let mut n: usize = s.unicode_len();
    let mut r = s.to_owned();
    proof {
        reveal_strlit(" ");
        assert(" "@ =~= seq![' ']);
    }
    while n < width
        invariant
            n == r@.len(),
            " "@ == seq![' '],
            padded_left(r@, width as nat) == padded_left(s@, width as nat),
        decreases width - n,
    {
        r = text::cat2(" ", r.as_str());
        n = n + 1;
    }
    r
}

} // verus!
