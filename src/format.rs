use vstd::prelude::*;
use crate::config::valid_timestamp;

verus! {

/// The decimal digit `d` as a character.
pub open spec fn digit_char(d: nat) -> char {
    if d == 0 { '0' }
    else if d == 1 { '1' }
    else if d == 2 { '2' }
    else if d == 3 { '3' }
    else if d == 4 { '4' }
    else if d == 5 { '5' }
    else if d == 6 { '6' }
    else if d == 7 { '7' }
    else if d == 8 { '8' }
    else { '9' }
}

/// `n` written in decimal, without sign or leading zeros.
pub open spec fn decimal(n: nat) -> Seq<char>
    decreases n,
{
    if n < 10 {
        seq![digit_char(n)]
    } else {
        decimal(n / 10).push(digit_char(n % 10))
    }
}

fn digit_str(d: u64) -> (r: &'static str)
    requires
        d < 10,
    ensures
        r@ == seq![digit_char(d as nat)],
{
    if d == 0 {
        proof { reveal_strlit("0"); }
        "0"
    } else if d == 1 {
        proof { reveal_strlit("1"); }
        "1"
    } else if d == 2 {
        proof { reveal_strlit("2"); }
        "2"
    } else if d == 3 {
        proof { reveal_strlit("3"); }
        "3"
    } else if d == 4 {
        proof { reveal_strlit("4"); }
        "4"
    } else if d == 5 {
        proof { reveal_strlit("5"); }
        "5"
    } else if d == 6 {
        proof { reveal_strlit("6"); }
        "6"
    } else if d == 7 {
        proof { reveal_strlit("7"); }
        "7"
    } else if d == 8 {
        proof { reveal_strlit("8"); }
        "8"
    } else {
        proof { reveal_strlit("9"); }
        "9"
    }
}

/// Appends `n` in decimal to `out`.
pub fn push_decimal(out: &mut String, n: u64)
    ensures
        final(out)@ == old(out)@ + decimal(n as nat),
    decreases n,
{
    if n >= 10 {
        push_decimal(out, n / 10);
    }
    out.append(digit_str(n % 10));
    assert(decimal(n as nat) =~= if n < 10 { seq![digit_char(n as nat)] } else {
        decimal((n / 10) as nat).push(digit_char((n % 10) as nat))
    });
}

/// `n` in decimal.
pub fn to_decimal(n: u64) -> (r: String)
    ensures
        r@ == decimal(n as nat),
{
    let mut out = String::new();
    push_decimal(&mut out, n);
    assert(out@ =~= decimal(n as nat));
    out
}

/// The HTML that comrak renders from a markdown text with its default options.
pub uninterp spec fn markdown_html_of(md: Seq<char>) -> Seq<char>;

/// Relies on `comrak::markdown_to_html` with default options: its output
/// depends on the markdown text alone.
#[verifier::external_body]
pub(crate) fn markdown_to_html(md: &str) -> (r: String)
    ensures
        r@ == markdown_html_of(md@),
{
    comrak::markdown_to_html(md, &comrak::ComrakOptions::default())
}

/// The date-time `secs` formatted by chrono as `%a, %d %b %Y %T %z`.
pub uninterp spec fn rfc822_of(secs: int) -> Seq<char>;

/// Relies on chrono's `DateTime::from_timestamp`, which succeeds on every
/// representable second, and on its `format("%a, %d %b %Y %T %z")`.
#[verifier::external_body]
pub(crate) fn format_rfc822(secs: i64) -> (r: String)
    requires
        valid_timestamp(secs as int),
    ensures
        r@ == rfc822_of(secs as int),
{
    chrono::DateTime::from_timestamp(secs, 0).unwrap().format("%a, %d %b %Y %T %z").to_string()
}

/// The date of `secs` formatted by chrono as `%Y-%m-%d`.
pub uninterp spec fn ymd_of(secs: int) -> Seq<char>;

/// Relies on chrono's `DateTime::from_timestamp`, which succeeds on every
/// representable second, and on its `format("%Y-%m-%d")`.
#[verifier::external_body]
pub(crate) fn format_ymd(secs: i64) -> (r: String)
    requires
        valid_timestamp(secs as int),
    ensures
        r@ == ymd_of(secs as int),
{
    chrono::DateTime::from_timestamp(secs, 0).unwrap().format("%Y-%m-%d").to_string()
}

/// The midnight (UTC) of the date that chrono parses from `text` as
/// `%Y-%m-%d`, in seconds since the Unix epoch; `None` where it does not parse.
pub uninterp spec fn parsed_day_of(text: Seq<char>) -> Option<int>;

/// Relies on chrono's `NaiveDate::parse_from_str(text, "%Y-%m-%d")`, and on
/// `and_hms_opt(0, 0, 0)`, which succeeds on every date. Midnight of any
/// date chrono holds is a representable second.
#[verifier::external_body]
pub(crate) fn parse_day(text: &str) -> (r: Result<i64, chrono::format::ParseError>)
    ensures
        match r {
            Ok(t) => parsed_day_of(text@) == Some(t as int) && valid_timestamp(t as int),
            Err(_) => parsed_day_of(text@) is None,
        },
{
    chrono::NaiveDate::parse_from_str(text, "%Y-%m-%d")
        .map(|d| d.and_hms_opt(0, 0, 0).unwrap().and_utc().timestamp())
}

/// Relies on chrono's `Utc::now`: the current time, which any UTC date-time
/// holds within the representable range.
#[verifier::external_body]
pub(crate) fn now_timestamp() -> (r: i64)
    ensures
        valid_timestamp(r as int),
{
    chrono::Utc::now().timestamp()
}

} // verus!
