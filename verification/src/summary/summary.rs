//! The summary of the nodes and the vote account: a table of the nodes'
//! statuses, the reference slot, the identity's balance and the vote lag.

use vstd::prelude::*;
use crate::handlers::status::Status;
use crate::text::{dec, dec_padded, push_char, push_str, push_dec, push_dec_padded, decimal};

verus! {

/// A duration in milliseconds as hours, minutes and seconds, each of at least
/// two digits: `HH:MM:SS`.
pub open spec fn clock_text(ms: u64) -> Seq<char> {
    let seconds = ms / 1000;
    let minutes = seconds / 60;
    let hours = minutes / 60;
    dec_padded(hours as nat, 2) + seq![':'] + dec_padded((minutes % 60) as nat, 2) + seq![':']
        + dec_padded((seconds % 60) as nat, 2)
}

/// Writes a duration in milliseconds as `HH:MM:SS`.
pub fn format_ms(ms: u64) -> (r: String)
    ensures
        r@ == clock_text(ms),
{
    let seconds = ms / 1000;
    let minutes = seconds / 60;
    let hours = minutes / 60;
    let mut s = String::new();
    push_dec_padded(&mut s, hours as u128, 2);
    push_char(&mut s, ':');
    push_dec_padded(&mut s, (minutes % 60) as u128, 2);
    push_char(&mut s, ':');
    push_dec_padded(&mut s, (seconds % 60) as u128, 2);
    assert(s@ =~= clock_text(ms));
    s
}

/// The parts of the clock text add up to the whole seconds of the duration,
/// and the minutes and seconds are below 60.
pub proof fn law_clock_parts(ms: u64)
    ensures
        ({
            let seconds = ms / 1000;
            let h = seconds / 3600;
            let m = (seconds / 60) % 60;
            let s = seconds % 60;
            &&& h * 3600 + m * 60 + s == seconds
            &&& m < 60 && s < 60
            &&& clock_text(ms) == dec_padded(h as nat, 2) + seq![':'] + dec_padded(m as nat, 2) + seq![':']
                + dec_padded(s as nat, 2)
        }),
{
    let seconds = ms / 1000;
    assert((seconds / 60) / 60 == seconds / 3600) by (nonlinear_arith);
    assert((seconds / 3600) * 3600 + ((seconds / 60) % 60) * 60 + seconds % 60 == seconds)
        by (nonlinear_arith);
}

/// The headers of the table's columns.
pub fn table_headers() -> (r: Vec<String>)
    ensures
        r@.len() == 5,
        r@[0]@ == "Hostname"@,
        r@[1]@ == "Slot"@,
        r@[2]@ == "Identity"@,
        r@[3]@ == "Version"@,
        r@[4]@ == "Uptime"@,
{
    let mut r: Vec<String> = Vec::new();
    r.push("Hostname".to_owned());
    r.push("Slot".to_owned());
    r.push("Identity".to_owned());
    r.push("Version".to_owned());
    r.push("Uptime".to_owned());
    r
}

impl Status {
    /// The row of the table for this status: host, slot, identity, version
    /// and uptime.
    pub fn table_fields(&self) -> (r: Vec<String>)
        ensures
            r@.len() == 5,
            r@[0]@ == self.hostname@,
            r@[1]@ == dec(self.slot as nat),
            r@[2]@ == self.identity@,
            r@[3]@ == self.version@,
            r@[4]@ == clock_text(self.uptime_ms),
    {
        let mut r: Vec<String> = Vec::new();
        r.push(self.hostname.clone());
        r.push(decimal(self.slot as u128));
        r.push(self.identity.clone());
        r.push(self.version.clone());
        r.push(format_ms(self.uptime_ms));
        r
    }
}

/// The number of lamports in a SOL.
pub open spec fn lamports_per_sol() -> u64 {
    1_000_000_000
}

/// A balance in lamports as SOL with nine decimals.
pub open spec fn sol_text(lamports: u64) -> Seq<char> {
    dec((lamports / lamports_per_sol()) as nat) + seq!['.'] + dec_padded((lamports % lamports_per_sol()) as nat, 9)
}

/// The lines after the table: the reference slot, the identity's balance and
/// how many slots the latest vote lags the reference slot.
pub fn report_lines(ref_slot: u64, identity_balance: u64, last_vote_slot: u64) -> (r: Vec<String>)
    ensures
        r@.len() == 3,
        r@[0]@ == "Ref slot: "@ + dec(ref_slot as nat),
        r@[1]@ == "Identity balance: "@ + sol_text(identity_balance),
        r@[2]@ == "Vote diff: "@ + dec(if ref_slot >= last_vote_slot { (ref_slot - last_vote_slot) as nat } else { 0 }),
{
    let mut r: Vec<String> = Vec::new();
    let mut a = "Ref slot: ".to_owned();
    push_dec(&mut a, ref_slot as u128);
    r.push(a);
    let mut b = "Identity balance: ".to_owned();
    push_dec(&mut b, (identity_balance / 1_000_000_000) as u128);
    push_char(&mut b, '.');
    push_dec_padded(&mut b, (identity_balance % 1_000_000_000) as u128, 9);
    assert(b@ =~= "Identity balance: "@ + sol_text(identity_balance));
    r.push(b);
    let mut c = "Vote diff: ".to_owned();
    push_dec(&mut c, ref_slot.saturating_sub(last_vote_slot) as u128);
    r.push(c);
    r
}

} // verus!
