//! The reconciliation report: payment events set against local salary
//! records, one row of text per event.

use crate::decimal::decimal;
use crate::decimal::digit_char;
use crate::decimal::digit_str;
use crate::decimal::push_decimal;
use crate::rpc::PayrollEvent;
use crate::text::before_first;
use crate::text::byte_prefix;
use crate::text::first_segment;
use crate::text::lemma_prefix_within_ascii;
use crate::text::prefix_within;
use vstd::prelude::*;
use vstd::string::StringExecFns;

verus! {

/// The default endpoint of the event feed.
pub const DEFAULT_RPC_URL: &'static str = "https://soroban-testnet.stellar.org";

/// One XLM in stroops.
pub const STROOPS_PER_XLM: i128 = 10_000_000;

/// What a reconciliation run is asked for.
pub struct ReconcileArgs<'a> {
    /// The endpoint of the event feed.
    pub rpc_url: &'a str,
    /// The contract whose events are read.
    pub contract_id: &'a str,
    /// The company whose payments are reconciled.
    pub company_id: &'a str,
    /// The first ledger to read.
    pub start_ledger: u32,
}

/// `s` if it takes at most `max` bytes; else its longest prefix that does,
/// with an ellipsis behind it.
pub open spec fn truncated(s: Seq<char>, max: int) -> Seq<char> {
    if vstd::utf8::encode_utf8(s).len() <= max {
        s
    } else {
        prefix_within(s, max) + seq!['…']
    }
}

/// Shortens `s` to at most `max` bytes and marks the cut with an ellipsis.
/// A character that the cut would split is left out whole.
pub fn truncate(s: &str, max: usize) -> (short: String)
    ensures
        short@ == truncated(s@, max as int),
        vstd::utf8::is_ascii_chars(s@) ==> short@ == (if s@.len() <= max {
            s@
        } else {
            s@.take(max as int) + seq!['…']
        }),
{
    proof {
        if vstd::utf8::is_ascii_chars(s@) {
            lemma_prefix_within_ascii(s@, max as int);
        }
    }
    if s.as_bytes().len() <= max {
        String::from_str(s)
    } else {
        let mut short = String::from_str(byte_prefix(s, max));
        proof {
            reveal_strlit("…");
        }
        short.append("…");
        assert(short@ =~= truncated(s@, max as int));
        short
    }
}

/// The distance of `x` from zero.
pub open spec fn magnitude(x: i128) -> nat {
    if x < 0 {
        (-x) as nat
    } else {
        x as nat
    }
}

/// An amount of stroops in thousandths of an XLM, rounded to the nearest;
/// a half is rounded away from zero.
pub open spec fn thousandths(stroops: i128) -> nat {
    (magnitude(stroops) + 5000) / 10000
}

/// The three decimal digits of a number below 1000.
pub open spec fn three_digits(n: nat) -> Seq<char> {
    seq![digit_char(n / 100 % 10), digit_char(n / 10 % 10), digit_char(n % 10)]
}

/// An amount of stroops as XLM with three decimal places: a minus sign for
/// an amount below zero, the whole XLM, a point, the thousandths, and the
/// unit.
pub open spec fn xlm_display(stroops: i128) -> Seq<char> {
    (if stroops < 0 {
        seq!['-']
    } else {
        Seq::<char>::empty()
    }) + decimal(thousandths(stroops) / 1000) + seq!['.'] + three_digits(thousandths(stroops) % 1000)
        + seq![' ', 'X', 'L', 'M']
}

/// Appends an amount of stroops as XLM with three decimal places.
pub fn push_xlm(out: &mut String, stroops: i128)
    ensures
        final(out)@ == old(out)@ + xlm_display(stroops),
{
    proof {
        reveal_strlit("-");
        reveal_strlit(".");
        reveal_strlit(" XLM");
    }
    let size: u128 = if stroops < 0 {
        out.append("-");
        ((-(stroops + 1)) as u128) + 1
    } else {
        stroops as u128
    };
    assert(size == magnitude(stroops));
    let rounded: u128 = (size + 5000) / 10000;
    let fraction: u128 = rounded % 1000;
    push_decimal(out, rounded / 1000);
    out.append(".");
    out.append(digit_str((fraction / 100 % 10) as u8));
    out.append(digit_str((fraction / 10 % 10) as u8));
    out.append(digit_str((fraction % 10) as u8));
    out.append(" XLM");
    assert(out@ =~= old(out)@ + xlm_display(stroops));
}

/// Formats an amount of stroops as XLM with three decimal places, such as
/// `12.346 XLM`.
pub fn stroops_to_xlm_display(stroops: i128) -> (text: String)
    ensures
        text@ == xlm_display(stroops),
{
    let mut text = String::new();
    push_xlm(&mut text, stroops);
    assert(text@ =~= xlm_display(stroops));
    text
}

/// The sentence that tells of one payment: the day the ledger closed, the
/// first eight bytes of the employee's address, the amount and the period.
pub open spec fn narrative(employee: Seq<char>, amount: i128, period: u32, closed_at: Seq<char>) -> Seq<
    char,
> {
    seq!['O', 'n', ' '] + before_first(closed_at, 'T') + seq![',', ' ', 'p', 'a', 'i', 'd', ' ']
        + prefix_within(employee, 8) + seq!['…', ' '] + xlm_display(amount) + seq![
        ' ',
        '(',
        'p',
        'e',
        'r',
        'i',
        'o',
        'd',
        ' ',
    ] + decimal(period as nat) + seq![')']
}

/// Tells of one payment in a sentence, such as
/// `On 2024-12-01, paid GAAZ1234… 1.000 XLM (period 3)`.
pub fn build_narrative(employee: &str, amount: i128, period: u32, closed_at: &str) -> (text: String)
    ensures
        text@ == narrative(employee@, amount, period, closed_at@),
{
    proof {
        reveal_strlit("On ");
        reveal_strlit(", paid ");
        reveal_strlit("… ");
        reveal_strlit(" (period ");
        reveal_strlit(")");
    }
    let mut text = String::from_str("On ");
    text.append(first_segment(closed_at, 'T'));
    text.append(", paid ");
    text.append(byte_prefix(employee, 8));
    text.append("… ");
    push_xlm(&mut text, amount);
    text.append(" (period ");
    push_decimal(&mut text, period as u128);
    text.append(")");
    assert(text@ =~= narrative(employee@, amount, period, closed_at@));
    text
}

/// One row of the report.
#[derive(Clone, Debug, PartialEq, Eq)]
pub struct ReportRow {
    /// The employee's address, shortened to twenty bytes.
    pub employee: String,
    /// The amount in XLM.
    pub amount: String,
    /// The pay period.
    pub period: String,
    /// The closing time of the ledger.
    pub ledger_closed_at: String,
    /// A check mark if the employee is in the local records, else a cross.
    pub in_local_db: String,
    /// The payment told in a sentence.
    pub narrative: String,
}

/// The row of the report that shows `event`.
pub fn report_row(event: &PayrollEvent, in_db: bool) -> (row: ReportRow)
    ensures
        row.employee@ == truncated(event.employee@, 20),
        row.amount@ == xlm_display(event.amount),
        row.period@ == decimal(event.period as nat),
        row.ledger_closed_at@ == event.ledger_closed_at@,
        row.in_local_db@ == (if in_db {
            seq!['✓']
        } else {
            seq!['✗']
        }),
        row.narrative@ == narrative(
            event.employee@,
            event.amount,
            event.period,
            event.ledger_closed_at@,
        ),
{
    proof {
        reveal_strlit("✓");
        reveal_strlit("✗");
    }
    let mut period = String::new();
    push_decimal(&mut period, event.period as u128);
    assert(period@ =~= decimal(event.period as nat));
    ReportRow {
        employee: truncate(event.employee.as_str(), 20),
        amount: stroops_to_xlm_display(event.amount),
        period,
        ledger_closed_at: String::from_str(event.ledger_closed_at.as_str()),
        in_local_db: String::from_str(if in_db { "✓" } else { "✗" }),
        narrative: build_narrative(
            event.employee.as_str(),
            event.amount,
            event.period,
            event.ledger_closed_at.as_str(),
        ),
    }
}

/// Whether the amount of a payment differs from the salary on local record;
/// a payment to an employee without a local record differs from nothing.
pub open spec fn mismatch(amount: i128, local_salary: Option<u64>) -> bool {
    match local_salary {
        Some(salary) => salary as int != amount as int,
        None => false,
    }
}

/// Whether the amount of `event` differs from the salary on local record.
pub fn salary_differs(event: &PayrollEvent, local_salary: Option<u64>) -> (differs: bool)
    ensures
        differs == mismatch(event.amount, local_salary),
{
    match local_salary {
        Some(salary) => salary as i128 != event.amount,
        None => false,
    }
}

/// How many of the first `n` payments differ from the salary on local
/// record.
pub open spec fn mismatches(events: Seq<PayrollEvent>, local_salaries: Seq<Option<u64>>, n: int) -> nat
    decreases n,
{
    if n <= 0 {
        0
    } else {
        mismatches(events, local_salaries, n - 1) + (if mismatch(
            events[n - 1].amount,
            local_salaries[n - 1],
        ) {
            1nat
        } else {
            0nat
        })
    }
}

/// Counts the payments whose amount differs from the salary on local
/// record.  `local_salaries` holds, for each event in order, the salary of
/// its employee where there is a local record; events beyond the end of that
/// list have no local record.
pub fn check_salary_mismatches(events: &Vec<PayrollEvent>, local_salaries: &Vec<Option<u64>>) -> (count:
    usize)
    ensures
        count == mismatches(
            events@,
            local_salaries@,
            if events@.len() <= local_salaries@.len() {
                events@.len() as int
            } else {
                local_salaries@.len() as int
            },
        ),
{
    let mut count: usize = 0;
    let mut i: usize = 0;
    while i < events.len() && i < local_salaries.len()
        invariant
            i <= events@.len(),
            i <= local_salaries@.len(),
            count <= i,
            count == mismatches(events@, local_salaries@, i as int),
        decreases events@.len() - i,
    {
        if salary_differs(&events[i], local_salaries[i]) {
            count = count + 1;
        }
        i = i + 1;
    }
    count
}

} // verus!
