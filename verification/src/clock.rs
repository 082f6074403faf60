//! Calendar timestamps as plain field values, with their wire rendering,
//! and the one call out to the system clock.

use crate::textenc::{push_pad2, push_year, spec_pad2, spec_year};
use chrono::{Datelike, Timelike};
use vstd::prelude::*;

verus! {

/// A UTC calendar timestamp held as plain field values, so that verified
/// code can render and compare it.
#[derive(Clone, Copy, PartialEq, Eq, Structural, Debug)]
pub struct Timestamp {
    pub year: i32,
    pub month: u32,
    pub day: u32,
    pub hour: u32,
    pub minute: u32,
    pub second: u32,
}

impl Timestamp {
    /// Field ranges of a calendar date-time; the year range is the one the
    /// clock library supports.
    pub open spec fn wf(&self) -> bool {
        &&& -262143 <= self.year <= 262142
        &&& 1 <= self.month <= 12
        &&& 1 <= self.day <= 31
        &&& self.hour <= 23
        &&& self.minute <= 59
        &&& self.second <= 59
    }

    /// The ISO-8601-like rendering `YYYY-MM-DDTHH:MM:SS`.
    pub open spec fn spec_render(&self) -> Seq<u8> {
        spec_year(self.year as int) + seq![('-' as u8)] + spec_pad2(self.month as nat) + seq![
            ('-' as u8),
        ] + spec_pad2(self.day as nat) + seq![('T' as u8)] + spec_pad2(self.hour as nat) + seq![
            (':' as u8),
        ] + spec_pad2(self.minute as nat) + seq![(':' as u8)] + spec_pad2(self.second as nat)
    }

    /// The current UTC time, read from the system clock.
    pub fn now() -> (r: Timestamp)
        ensures
            r.wf(),
    {
        now_timestamp()
    }
}

/// Relies on chrono: `Utc::now().naive_utc()` is the current UTC date-time;
/// its `Datelike` accessors return a month in 1..=12 and a day in 1..=31,
/// its `Timelike` accessors an hour below 24 and a minute and second below
/// 60, and its year lies within chrono's supported range of about
/// -262143..=262142.
#[verifier::external_body]
fn now_timestamp() -> (r: Timestamp)
    ensures
        r.wf(),
{
    let t = chrono::Utc::now().naive_utc();
    Timestamp {
        year: t.year(),
        month: t.month(),
        day: t.day(),
        hour: t.hour(),
        minute: t.minute(),
        second: t.second(),
    }
}

/// Appends the ISO-8601-like rendering of `ts` to `out`.
pub fn push_timestamp(out: &mut Vec<u8>, ts: &Timestamp)
    requires
        ts.wf(),
    ensures
        final(out)@ == old(out)@ + ts.spec_render(),
{
    push_year(out, ts.year);
    out.push('-' as u8);
    push_pad2(out, ts.month as usize);
    out.push('-' as u8);
    push_pad2(out, ts.day as usize);
    out.push('T' as u8);
    push_pad2(out, ts.hour as usize);
    out.push(':' as u8);
    push_pad2(out, ts.minute as usize);
    out.push(':' as u8);
    push_pad2(out, ts.second as usize);
    proof {
        assert(out@ =~= old(out)@ + ts.spec_render());
    }
}

} // verus!
