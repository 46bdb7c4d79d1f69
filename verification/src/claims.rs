//! Claims analysis: one ordered pass over the recognized payload fields,
//! emitting an informational line per claim present and warnings for a
//! not-yet-valid or expired token. Pure in the payload and the injected
//! current time.

use vstd::prelude::*;
use vstd::string::StringExecFns;

use crate::jsonval::{
    get_int_field, get_str_field, get_str_list_field, json_obj_ints, json_obj_str_lists,
    json_obj_strs, opts_view,
};
use crate::textnum::dec_digits;
use crate::textnum::dec_string;

use chrono::TimeZone;

verus! {

/// One line of the analysis, tagged as a warning or as informational.
pub struct ClaimMessage {
    pub warning: bool,
    pub text: String,
}

pub ghost struct ClaimMessageView {
    pub warning: bool,
    pub text: Seq<char>,
}

impl View for ClaimMessage {
    type V = ClaimMessageView;

    open spec fn view(&self) -> ClaimMessageView {
        ClaimMessageView { warning: self.warning, text: self.text@ }
    }
}

pub open spec fn msgs_view(s: Seq<ClaimMessage>) -> Seq<ClaimMessageView> {
    s.map_values(|m: ClaimMessage| m@)
}

pub open spec fn info_msg(t: Seq<char>) -> ClaimMessageView {
    ClaimMessageView { warning: false, text: t }
}

pub open spec fn warn_msg(t: Seq<char>) -> ClaimMessageView {
    ClaimMessageView { warning: true, text: t }
}

/// What chrono renders for an in-range epoch second count: the RFC 3339 UTC
/// timestamp; `None` where the calendar cannot represent the instant.
pub uninterp spec fn utc_rendering(ts: int) -> Option<Seq<char>>;

/// Relies on chrono's `TimeZone::timestamp_opt` for `Utc` and on
/// `DateTime::to_rfc3339`: the rendering is a function of the epoch seconds
/// alone, and out-of-range seconds give no instant.
#[verifier::external_body]
fn format_utc(ts: i64) -> (r: Option<String>)
    ensures
        r is Some <==> utc_rendering(ts as int) is Some,
        r matches Some(s) ==> Some(s@) == utc_rendering(ts as int),
{
    chrono::Utc.timestamp_opt(ts, 0).single().map(|dt| dt.to_rfc3339())
}

/// The bucket size for a magnitude: days, hours, minutes or seconds.
pub open spec fn rel_unit(mag: int) -> Seq<char> {
    if mag >= 86400 {
        "day"@
    } else if mag >= 3600 {
        "hour"@
    } else if mag >= 60 {
        "minute"@
    } else {
        "second"@
    }
}

pub open spec fn rel_count(mag: int) -> int {
    if mag >= 86400 {
        mag / 86400
    } else if mag >= 3600 {
        mag / 3600
    } else if mag >= 60 {
        mag / 60
    } else {
        mag
    }
}

/// The relative-time annotation: count and bucket unit, pluralized when the
/// count is not one, "... ago" for the past and "in ..." for the future.
pub open spec fn rel_time_text(now: int, ts: int) -> Seq<char> {
    let diff = now - ts;
    let mag = if diff < 0 {
        -diff
    } else {
        diff
    };
    let count = rel_count(mag);
    let core = dec_digits(count as nat) + " "@ + rel_unit(mag) + (if count != 1 {
        "s"@
    } else {
        Seq::<char>::empty()
    });
    if diff > 0 {
        core + " ago"@
    } else {
        "in "@ + core
    }
}

/// Renders how far `ts` lies from `now`, both in epoch seconds.
pub fn relative_time(now: i64, ts: i64) -> (r: String)
    ensures
        r@ == rel_time_text(now as int, ts as int),
{
    let diff: i128 = now as i128 - ts as i128;
    let mag: u128 = if diff < 0 {
        (-diff) as u128
    } else {
        diff as u128
    };
    let count: u128 = if mag >= 86400 {
        mag / 86400
    } else if mag >= 3600 {
        mag / 3600
    } else if mag >= 60 {
        mag / 60
    } else {
        mag
    };
    let unit: &str = if mag >= 86400 {
        "day"
    } else if mag >= 3600 {
        "hour"
    } else if mag >= 60 {
        "minute"
    } else {
        "second"
    };
    let mut core = dec_string(count);
    core.append(" ");
    core.append(unit);
    if count != 1 {
        core.append("s");
    }
    if diff > 0 {
        core.append(" ago");
        core
    } else {
        let mut out = "in ".to_owned();
        out.append(core.as_str());
        out
    }
}

/// Whether some element of the list is present.
pub open spec fn has_some(l: Seq<Option<Seq<char>>>) -> bool
    decreases l.len(),
{
    if l.len() == 0 {
        false
    } else {
        l[0] is Some || has_some(l.drop_first())
    }
}

/// The present elements of the list joined with ", ".
pub open spec fn join_opt(l: Seq<Option<Seq<char>>>) -> Seq<char>
    decreases l.len(),
{
    if l.len() == 0 {
        Seq::empty()
    } else {
        match l[0] {
            None => join_opt(l.drop_first()),
            Some(s) => if has_some(l.drop_first()) {
                s + ", "@ + join_opt(l.drop_first())
            } else {
                s
            },
        }
    }
}

fn any_some_from(l: &Vec<Option<String>>, i: usize) -> (b: bool)
    requires
        i <= l.len(),
    ensures
        b == has_some(opts_view(l@).skip(i as int)),
    decreases l.len() - i,
{
    proof {
        if i < l.len() {
            assert(opts_view(l@).skip(i as int).drop_first() =~= opts_view(l@).skip(i + 1));
            assert(opts_view(l@)[i as int] == match l@[i as int] {
                Some(x) => Some(x@),
                None => None,
            });
        } else {
            assert(opts_view(l@).skip(i as int).len() == 0);
        }
    }
    if i == l.len() {
        false
    } else if l[i].is_some() {
        true
    } else {
        any_some_from(l, i + 1)
    }
}

fn join_from(l: &Vec<Option<String>>, i: usize) -> (r: String)
    requires
        i <= l.len(),
    ensures
        r@ == join_opt(opts_view(l@).skip(i as int)),
    decreases l.len() - i,
{
    proof {
        if i < l.len() {
            assert(opts_view(l@).skip(i as int).drop_first() =~= opts_view(l@).skip(i + 1));
            assert(opts_view(l@)[i as int] == match l@[i as int] {
                Some(x) => Some(x@),
                None => None,
            });
        } else {
            assert(opts_view(l@).skip(i as int).len() == 0);
        }
    }
    if i == l.len() {
        String::new()
    } else {
        match &l[i] {
            None => join_from(l, i + 1),
            Some(s) => {
                if any_some_from(l, i + 1) {
                    let mut out = s.clone();
                    out.append(", ");
                    out.append(join_from(l, i + 1).as_str());
                    out
                } else {
                    s.clone()
                }
            },
        }
    }
}

/// The message for a string-valued claim: the prefix followed by the value,
/// where the claim is present.
pub open spec fn str_claim_msgs(
    strs: Map<Seq<char>, Seq<char>>,
    key: Seq<char>,
    prefix: Seq<char>,
) -> Seq<ClaimMessageView> {
    if strs.dom().contains(key) {
        seq![info_msg(prefix + strs[key])]
    } else {
        Seq::empty()
    }
}

/// The audience as one string: the value where it is a string, the present
/// elements joined with ", " where it is an array, empty otherwise.
pub open spec fn aud_text(
    strs: Map<Seq<char>, Seq<char>>,
    lists: Map<Seq<char>, Seq<Option<Seq<char>>>>,
) -> Seq<char> {
    if strs.dom().contains("aud"@) {
        strs["aud"@]
    } else if lists.dom().contains("aud"@) {
        join_opt(lists["aud"@])
    } else {
        Seq::empty()
    }
}

/// The audience message, skipped where the rendered audience is empty.
pub open spec fn aud_msgs(
    strs: Map<Seq<char>, Seq<char>>,
    lists: Map<Seq<char>, Seq<Option<Seq<char>>>>,
) -> Seq<ClaimMessageView> {
    if aud_text(strs, lists).len() > 0 {
        seq![info_msg("Audience (aud): "@ + aud_text(strs, lists))]
    } else {
        Seq::empty()
    }
}

/// The message for a time-valued claim: absolute RFC 3339 timestamp plus the
/// relative annotation; silently omitted where the calendar cannot represent
/// the instant.
pub open spec fn time_claim_msgs(
    ints: Map<Seq<char>, int>,
    key: Seq<char>,
    prefix: Seq<char>,
    now: int,
) -> Seq<ClaimMessageView> {
    if ints.dom().contains(key) {
        match utc_rendering(ints[key]) {
            Some(d) => seq![
                info_msg(prefix + d + " ("@ + rel_time_text(now, ints[key]) + ")"@),
            ],
            None => Seq::empty(),
        }
    } else {
        Seq::empty()
    }
}

pub open spec fn nbf_warning(ints: Map<Seq<char>, int>, now: int) -> Seq<ClaimMessageView> {
    if ints.dom().contains("nbf"@) && ints["nbf"@] > now {
        seq![warn_msg("Warning: Token not yet valid (nbf in future)"@)]
    } else {
        Seq::empty()
    }
}

pub open spec fn exp_warning(ints: Map<Seq<char>, int>, now: int) -> Seq<ClaimMessageView> {
    if ints.dom().contains("exp"@) && ints["exp"@] < now {
        seq![warn_msg("Warning: Token expired"@)]
    } else {
        Seq::empty()
    }
}

/// Every message of the analysis, in the fixed claim order.
pub open spec fn claims_messages(
    strs: Map<Seq<char>, Seq<char>>,
    ints: Map<Seq<char>, int>,
    lists: Map<Seq<char>, Seq<Option<Seq<char>>>>,
    now: int,
) -> Seq<ClaimMessageView> {
    str_claim_msgs(strs, "iss"@, "Issuer (iss): "@) + str_claim_msgs(
        strs,
        "sub"@,
        "Subject (sub): "@,
    ) + aud_msgs(strs, lists) + str_claim_msgs(strs, "jti"@, "JWT ID (jti): "@) + time_claim_msgs(
        ints,
        "iat"@,
        "Issued At (iat): "@,
        now,
    ) + time_claim_msgs(ints, "nbf"@, "Not Before (nbf): "@, now) + nbf_warning(ints, now)
        + time_claim_msgs(ints, "exp"@, "Expires (exp): "@, now) + exp_warning(ints, now)
}

proof fn lemma_msgs_view_push(s: Seq<ClaimMessage>, m: ClaimMessage)
    ensures
        msgs_view(s.push(m)) == msgs_view(s) + seq![m@],
{
    assert(msgs_view(s.push(m)) =~= msgs_view(s) + seq![m@]);
}

fn push_str_claim(
    msgs: &mut Vec<ClaimMessage>,
    payload: &serde_json::Value,
    key: &str,
    prefix: &str,
)
    ensures
        msgs_view(final(msgs)@) == msgs_view(old(msgs)@) + str_claim_msgs(
            json_obj_strs(*payload),
            key@,
            prefix@,
        ),
{
    match get_str_field(payload, key) {
        Some(v) => {
            let mut t = prefix.to_owned();
            t.append(v.as_str());
            let m = ClaimMessage { warning: false, text: t };
            proof {
                lemma_msgs_view_push(msgs@, m);
            }
            msgs.push(m);
        },
        None => {
            proof {
                assert(msgs_view(msgs@) =~= msgs_view(msgs@) + Seq::<ClaimMessageView>::empty());
            }
        },
    }
}

fn push_aud_claim(msgs: &mut Vec<ClaimMessage>, payload: &serde_json::Value)
    ensures
        msgs_view(final(msgs)@) == msgs_view(old(msgs)@) + aud_msgs(
            json_obj_strs(*payload),
            json_obj_str_lists(*payload),
        ),
{
    let t: String = match get_str_field(payload, "aud") {
        Some(s) => s,
        None => {
            match get_str_list_field(payload, "aud") {
                Some(l) => {
                    proof {
                        assert(opts_view(l@).skip(0) =~= opts_view(l@));
                    }
                    join_from(&l, 0)
                },
                None => String::new(),
            }
        },
    };
    if !t.as_str().is_empty() {
        let mut line = "Audience (aud): ".to_owned();
        line.append(t.as_str());
        let m = ClaimMessage { warning: false, text: line };
        proof {
            lemma_msgs_view_push(msgs@, m);
        }
        msgs.push(m);
    } else {
        proof {
            assert(msgs_view(msgs@) =~= msgs_view(msgs@) + Seq::<ClaimMessageView>::empty());
        }
    }
}

fn push_time_claim(
    msgs: &mut Vec<ClaimMessage>,
    payload: &serde_json::Value,
    key: &str,
    prefix: &str,
    now: i64,
)
    ensures
        msgs_view(final(msgs)@) == msgs_view(old(msgs)@) + time_claim_msgs(
            json_obj_ints(*payload),
            key@,
            prefix@,
            now as int,
        ),
{
    let pushed = match get_int_field(payload, key) {
        Some(ts) => {
            match format_utc(ts) {
                Some(d) => {
                    let mut t = prefix.to_owned();
                    t.append(d.as_str());
                    t.append(" (");
                    t.append(relative_time(now, ts).as_str());
                    t.append(")");
                    let m = ClaimMessage { warning: false, text: t };
                    proof {
                        lemma_msgs_view_push(msgs@, m);
                    }
                    msgs.push(m);
                    true
                },
                None => false,
            }
        },
        None => false,
    };
    if !pushed {
        proof {
            assert(msgs_view(msgs@) =~= msgs_view(msgs@) + Seq::<ClaimMessageView>::empty());
        }
    }
}

fn push_warning(msgs: &mut Vec<ClaimMessage>, text: &str)
    ensures
        msgs_view(final(msgs)@) == msgs_view(old(msgs)@) + seq![warn_msg(text@)],
{
    let m = ClaimMessage { warning: true, text: text.to_owned() };
    proof {
        lemma_msgs_view_push(msgs@, m);
    }
    msgs.push(m);
}

/// Walks the recognized claims of the payload in their fixed order and
/// returns the analysis messages. `current_time` is injected epoch seconds.
pub fn analyze_claims(payload: &serde_json::Value, current_time: i64) -> (r: Vec<ClaimMessage>)
    ensures
        msgs_view(r@) == claims_messages(
            json_obj_strs(*payload),
            json_obj_ints(*payload),
            json_obj_str_lists(*payload),
            current_time as int,
        ),
{
    let ghost strs = json_obj_strs(*payload);
    let ghost ints = json_obj_ints(*payload);
    let ghost lists = json_obj_str_lists(*payload);
    let mut msgs: Vec<ClaimMessage> = Vec::new();
    push_str_claim(&mut msgs, payload, "iss", "Issuer (iss): ");
    push_str_claim(&mut msgs, payload, "sub", "Subject (sub): ");
    push_aud_claim(&mut msgs, payload);
    push_str_claim(&mut msgs, payload, "jti", "JWT ID (jti): ");
    push_time_claim(&mut msgs, payload, "iat", "Issued At (iat): ", current_time);
    push_time_claim(&mut msgs, payload, "nbf", "Not Before (nbf): ", current_time);
    let nbf_due = match get_int_field(payload, "nbf") {
        Some(v) => v > current_time,
        None => false,
    };
    if nbf_due {
        push_warning(&mut msgs, "Warning: Token not yet valid (nbf in future)");
    } else {
        proof {
            assert(msgs_view(msgs@) =~= msgs_view(msgs@) + nbf_warning(ints, current_time as int));
        }
    }
    push_time_claim(&mut msgs, payload, "exp", "Expires (exp): ", current_time);
    let exp_due = match get_int_field(payload, "exp") {
        Some(v) => v < current_time,
        None => false,
    };
    if exp_due {
        push_warning(&mut msgs, "Warning: Token expired");
    } else {
        proof {
            assert(msgs_view(msgs@) =~= msgs_view(msgs@) + exp_warning(ints, current_time as int));
        }
    }
    proof {
        assert(msgs_view(msgs@) =~= claims_messages(strs, ints, lists, current_time as int));
    }
    msgs
}

} // verus!
