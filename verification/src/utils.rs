//! Human-readable spans of time.
use vstd::prelude::*;
use crate::text::{int_decimal, push_i64};
use crate::time::{Duration, trunc_div, trunc_rem};
use vstd::arithmetic::div_mod::{lemma_div_denominator, lemma_fundamental_div_mod};

verus! {

/// The text of a span of `secs` whole seconds: hours within the day, minutes
/// within the hour and seconds within the minute, led by the number of days
/// when there is at least one. Each part keeps the sign of the span.
pub open spec fn pretty_text(secs: int) -> Seq<char> {
    let days = trunc_div(secs, 86_400);
    let h = trunc_rem(trunc_div(secs, 3600), 24);
    let m = trunc_rem(trunc_div(secs, 60), 60);
    let s = trunc_rem(secs, 60);
    let clock = int_decimal(h) + " hours "@ + int_decimal(m) + " mins "@ + int_decimal(s) + " secs."@;
    if days > 0 {
        int_decimal(days) + " days, "@ + clock
    } else {
        clock
    }
}

/// The layout `duration_pretty` prints a span's parts in: the days (left out
/// unless there is at least one), then hours, minutes and seconds.
pub open spec fn span_layout(days: int, h: int, m: int, s: int) -> Seq<char> {
    let clock = int_decimal(h) + " hours "@ + int_decimal(m) + " mins "@ + int_decimal(s) + " secs."@;
    if days > 0 {
        int_decimal(days) + " days, "@ + clock
    } else {
        clock
    }
}

/// `text` shows a span of `secs` whole seconds: it lays out days, hours,
/// minutes and seconds that add back up to the span, each within its unit
/// and with the span's sign, and it leaves out the days only when there are
/// none.
pub open spec fn shows_span(text: Seq<char>, secs: int) -> bool {
    exists|days: int, h: int, m: int, s: int| {
        &&& text == span_layout(days, h, m, s)
        &&& days * 86_400 + h * 3600 + m * 60 + s == secs
        &&& -24 < h && h < 24
        &&& -60 < m && m < 60
        &&& -60 < s && s < 60
        &&& days >= 0
        &&& secs >= 0 ==> h >= 0 && m >= 0 && s >= 0
        &&& secs <= 0 ==> h <= 0 && m <= 0 && s <= 0
    }
}

/// What `duration_pretty` prints shows the span: the printed days, hours,
/// minutes and seconds add back up to it, each within its unit. (A span of a
/// day or more into the past is the exception: its days are negative, and
/// the original leaves them out.)
pub proof fn lemma_pretty_shows_span(secs: int)
    requires
        secs > -86_400,
    ensures
        shows_span(pretty_text(secs), secs),
{
    let days = trunc_div(secs, 86_400);
    let h = trunc_rem(trunc_div(secs, 3600), 24);
    let m = trunc_rem(trunc_div(secs, 60), 60);
    let s = trunc_rem(secs, 60);
    lemma_pretty_parts_recompose(secs);
    if secs < 0 {
        assert(days == 0) by (nonlinear_arith)
            requires
                -86_400 < secs < 0,
                days == -((-secs) / 86_400),
        ;
    }
    assert(pretty_text(secs) == span_layout(days, h, m, s));
    assert(days * 86_400 + h * 3600 + m * 60 + s == secs);
}

/// Writes `d` as "`D` days, `H` hours `M` mins `S` secs.", leaving out the
/// days when the span is shorter than one day.
pub fn duration_pretty(d: Duration) -> (r: String)
    requires
        d.wf(),
    ensures
        r@ == pretty_text(d.whole_seconds()),
        d.whole_seconds() > -86_400 ==> shows_span(r@, d.whole_seconds()),
{
    let h = d.num_hours() % 24;
    let m = d.num_minutes() % 60;
    let s = d.num_seconds() % 60;
    let mut out = String::new();
    let days = d.num_days();
    if days > 0 {
        push_i64(&mut out, days);
        out.append(" days, ");
    }
    push_i64(&mut out, h);
    out.append(" hours ");
    push_i64(&mut out, m);
    out.append(" mins ");
    push_i64(&mut out, s);
    out.append(" secs.");
    assert(out@ =~= pretty_text(d.whole_seconds()));
    proof {
        if d.whole_seconds() > -86_400 {
            lemma_pretty_shows_span(d.whole_seconds());
        }
    }
    out
}


/// The parts that `duration_pretty` prints lose nothing: for any number of
/// whole seconds, days, hours within the day, minutes within the hour and
/// seconds within the minute add back up to it, each part stays within its
/// unit and carries the sign of the span.
pub proof fn lemma_pretty_parts_recompose(secs: int)
    ensures
        trunc_div(secs, 86_400) * 86_400 + trunc_rem(trunc_div(secs, 3600), 24) * 3600
            + trunc_rem(trunc_div(secs, 60), 60) * 60 + trunc_rem(secs, 60) == secs,
        -24 < trunc_rem(trunc_div(secs, 3600), 24) < 24,
        -60 < trunc_rem(trunc_div(secs, 60), 60) < 60,
        -60 < trunc_rem(secs, 60) < 60,
        secs >= 0 ==> trunc_div(secs, 86_400) >= 0 && trunc_rem(trunc_div(secs, 3600), 24) >= 0
            && trunc_rem(trunc_div(secs, 60), 60) >= 0 && trunc_rem(secs, 60) >= 0,
        secs <= 0 ==> trunc_div(secs, 86_400) <= 0 && trunc_rem(trunc_div(secs, 3600), 24) <= 0
            && trunc_rem(trunc_div(secs, 60), 60) <= 0 && trunc_rem(secs, 60) <= 0,
{
    let a: int = if secs >= 0 { secs } else { -secs };
    lemma_fundamental_div_mod(a, 60);
    lemma_fundamental_div_mod(a / 60, 60);
    lemma_fundamental_div_mod(a / 3600, 24);
    lemma_div_denominator(a, 60, 60);
    lemma_div_denominator(a, 3600, 24);
    assert(a / 60 >= 0 && a / 3600 >= 0 && a / 86_400 >= 0) by (nonlinear_arith)
        requires a >= 0;
    assert(a == (a / 86_400) * 86_400 + ((a / 3600) % 24) * 3600 + ((a / 60) % 60) * 60 + a % 60);
}

} // verus!
