//! Report assembly: one growing text blob and an ordered list of labeled
//! sections whose ranges partition the blob — contiguous, non-overlapping,
//! strictly increasing, each covering exactly what its section wrote.
//! Offsets count characters of the text.

use vstd::prelude::*;
use vstd::string::{StrSliceExecFns, StringExecFns};

use crate::claims::{msgs_view, ClaimMessage, ClaimMessageView};

verus! {

/// A labeled range of the report text.
pub struct Section {
    pub label: String,
    pub start: usize,
    pub end: usize,
}

pub ghost struct SectionView {
    pub label: Seq<char>,
    pub start: int,
    pub end: int,
}

impl View for Section {
    type V = SectionView;

    open spec fn view(&self) -> SectionView {
        SectionView { label: self.label@, start: self.start as int, end: self.end as int }
    }
}

pub open spec fn secs_view(s: Seq<Section>) -> Seq<SectionView> {
    s.map_values(|x: Section| x@)
}

/// The assembled report: the text blob and its sections, in emission order.
pub struct Report {
    pub text: String,
    pub sections: Vec<Section>,
}

/// One analysis line as rendered into the report: warnings emphasized,
/// informational lines as bullets.
pub open spec fn rendered_msg(m: ClaimMessageView) -> Seq<char> {
    if m.warning {
        "**"@ + m.text + "**\n"@
    } else {
        "- "@ + m.text + "\n"@
    }
}

pub open spec fn rendered_msgs(msgs: Seq<ClaimMessageView>) -> Seq<char>
    decreases msgs.len(),
{
    if msgs.len() == 0 {
        Seq::empty()
    } else {
        rendered_msgs(msgs.drop_last()) + rendered_msg(msgs.last())
    }
}

/// The claims section text; empty (and the section absent) without messages.
pub open spec fn claims_block(msgs: Seq<ClaimMessageView>) -> Seq<char> {
    if msgs.len() == 0 {
        Seq::empty()
    } else {
        "## Claims Analysis\n"@ + rendered_msgs(msgs) + "\n"@
    }
}

pub open spec fn header_block(h: Seq<char>) -> Seq<char> {
    "## Header\n```json\n"@ + h + "\n```\n\n"@
}

pub open spec fn payload_block(p: Seq<char>) -> Seq<char> {
    "## Payload\n```json\n"@ + p + "\n```\n\n"@
}

pub open spec fn sig_block(s: Seq<char>) -> Seq<char> {
    "## Signature\n```\n"@ + s + "\n```\n\n"@
}

pub open spec fn verif_block(v: Option<bool>) -> Seq<char> {
    match v {
        None => Seq::empty(),
        Some(true) => "## Verification\n"@ + "Signature is valid.\n"@,
        Some(false) => "## Verification\n"@ + "**Warning:** Signature is invalid.\n"@,
    }
}

/// The whole report text, in section order.
pub open spec fn report_text(
    msgs: Seq<ClaimMessageView>,
    h: Seq<char>,
    p: Seq<char>,
    s: Seq<char>,
    v: Option<bool>,
) -> Seq<char> {
    claims_block(msgs) + header_block(h) + payload_block(p) + sig_block(s) + verif_block(v)
}

/// The section list: ranges laid end to end over the report text, the
/// claims section only when there are messages, the verification section
/// only when an outcome was supplied.
pub open spec fn report_sections(
    msgs: Seq<ClaimMessageView>,
    h: Seq<char>,
    p: Seq<char>,
    s: Seq<char>,
    v: Option<bool>,
) -> Seq<SectionView> {
    let c = claims_block(msgs).len() as int;
    let he = c + header_block(h).len();
    let pe = he + payload_block(p).len();
    let se = pe + sig_block(s).len();
    let ve = se + verif_block(v).len();
    let head: Seq<SectionView> = if msgs.len() == 0 {
        Seq::empty()
    } else {
        seq![SectionView { label: "Claims Analysis"@, start: 0, end: c }]
    };
    let mid = head + seq![
        SectionView { label: "Header"@, start: c, end: he },
        SectionView { label: "Payload"@, start: he, end: pe },
        SectionView { label: "Signature (base64url)"@, start: pe, end: se },
    ];
    if v is Some {
        mid + seq![SectionView { label: "Verification"@, start: se, end: ve }]
    } else {
        mid
    }
}

/// Assembles the report from the analysis messages, the pretty-printed
/// header and payload texts, the signature display text, and the optional
/// verification outcome.
pub fn build_output(
    messages: Vec<ClaimMessage>,
    header_json: String,
    payload_json: String,
    sig_str: String,
    verification: Option<bool>,
) -> (r: Report)
    ensures
        r.text@ == report_text(
            msgs_view(messages@),
            header_json@,
            payload_json@,
            sig_str@,
            verification,
        ),
        secs_view(r.sections@) == report_sections(
            msgs_view(messages@),
            header_json@,
            payload_json@,
            sig_str@,
            verification,
        ),
{
    let ghost mv = msgs_view(messages@);
    let mut text = String::new();
    let mut sections: Vec<Section> = Vec::new();
    if messages.len() > 0 {
        text.append("## Claims Analysis\n");
        let mut i: usize = 0;
        while i < messages.len()
            invariant
                i <= messages.len(),
                mv == msgs_view(messages@),
                mv.len() == messages@.len(),
                text@ == "## Claims Analysis\n"@ + rendered_msgs(mv.take(i as int)),
            decreases messages.len() - i,
        {
            proof {
                assert(mv.take(i + 1).drop_last() =~= mv.take(i as int));
                assert(mv.take(i + 1).last() == mv[i as int]);
                assert(mv[i as int] == messages@[i as int]@);
            }
            if messages[i].warning {
                text.append("**");
                text.append(messages[i].text.as_str());
                text.append("**\n");
            } else {
                text.append("- ");
                text.append(messages[i].text.as_str());
                text.append("\n");
            }
            i = i + 1;
        }
        proof {
            assert(mv.take(messages@.len() as int) =~= mv);
        }
        text.append("\n");
        let end = text.as_str().unicode_len();
        sections.push(Section { label: "Claims Analysis".to_owned(), start: 0, end });
    }
    proof {
        assert(text@ =~= claims_block(mv));
    }
    let hstart = text.as_str().unicode_len();
    text.append("## Header\n```json\n");
    text.append(header_json.as_str());
    text.append("\n```\n\n");
    let hend = text.as_str().unicode_len();
    sections.push(Section { label: "Header".to_owned(), start: hstart, end: hend });
    text.append("## Payload\n```json\n");
    text.append(payload_json.as_str());
    text.append("\n```\n\n");
    let pend = text.as_str().unicode_len();
    sections.push(Section { label: "Payload".to_owned(), start: hend, end: pend });
    text.append("## Signature\n```\n");
    text.append(sig_str.as_str());
    text.append("\n```\n\n");
    let send = text.as_str().unicode_len();
    sections.push(Section { label: "Signature (base64url)".to_owned(), start: pend, end: send });
    match verification {
        None => {},
        Some(is_valid) => {
            text.append("## Verification\n");
            if is_valid {
                text.append("Signature is valid.\n");
            } else {
                text.append("**Warning:** Signature is invalid.\n");
            }
            let vend = text.as_str().unicode_len();
            sections.push(Section { label: "Verification".to_owned(), start: send, end: vend });
        },
    }
    proof {
        assert(text@ =~= report_text(mv, header_json@, payload_json@, sig_str@, verification));
        assert(secs_view(sections@) =~~= report_sections(
            mv,
            header_json@,
            payload_json@,
            sig_str@,
            verification,
        ));
    }
    Report { text, sections }
}

/// The section ranges partition the report text: the first starts at zero,
/// each section ends where the next begins, and the last ends at the text's
/// length.
pub proof fn lemma_report_sections_partition(
    msgs: Seq<ClaimMessageView>,
    h: Seq<char>,
    p: Seq<char>,
    s: Seq<char>,
    v: Option<bool>,
)
    ensures
        ({
            let secs = report_sections(msgs, h, p, s, v);
            let text = report_text(msgs, h, p, s, v);
            &&& secs.len() > 0
            &&& secs[0].start == 0
            &&& forall|i: int| 0 <= i < secs.len() - 1 ==> #[trigger] secs[i].end == secs[i + 1].start
            &&& secs[secs.len() - 1].end == text.len()
            &&& forall|i: int| 0 <= i < secs.len() ==> #[trigger] secs[i].start <= secs[i].end
        }),
{
    let secs = report_sections(msgs, h, p, s, v);
    let text = report_text(msgs, h, p, s, v);
    assert(text.len() == claims_block(msgs).len() + header_block(h).len() + payload_block(
        p,
    ).len() + sig_block(s).len() + verif_block(v).len());
    if msgs.len() == 0 {
        assert(claims_block(msgs).len() == 0);
    }
}

/// A decode-style report — analysis messages present, no verification
/// outcome — has exactly four sections: Claims Analysis, Header, Payload and
/// Signature, in that order, with contiguous ranges that slice the text back
/// into exactly each section's contribution.
pub proof fn lemma_decode_report_shape(
    msgs: Seq<ClaimMessageView>,
    h: Seq<char>,
    p: Seq<char>,
    s: Seq<char>,
)
    requires
        msgs.len() > 0,
    ensures
        ({
            let secs = report_sections(msgs, h, p, s, None);
            let text = report_text(msgs, h, p, s, None);
            &&& secs.len() == 4
            &&& secs[0].label == "Claims Analysis"@
            &&& secs[1].label == "Header"@
            &&& secs[2].label == "Payload"@
            &&& secs[3].label == "Signature (base64url)"@
            &&& secs[0].start == 0
            &&& secs[0].end == secs[1].start
            &&& secs[1].end == secs[2].start
            &&& secs[2].end == secs[3].start
            &&& secs[3].end == text.len()
            &&& text.subrange(secs[0].start, secs[0].end) == claims_block(msgs)
            &&& text.subrange(secs[1].start, secs[1].end) == header_block(h)
            &&& text.subrange(secs[2].start, secs[2].end) == payload_block(p)
            &&& text.subrange(secs[3].start, secs[3].end) == sig_block(s)
        }),
{
    let secs = report_sections(msgs, h, p, s, None);
    let text = report_text(msgs, h, p, s, None);
    lemma_report_sections_partition(msgs, h, p, s, None);
    assert(text.subrange(secs[0].start, secs[0].end) =~= claims_block(msgs));
    assert(text.subrange(secs[1].start, secs[1].end) =~= header_block(h));
    assert(text.subrange(secs[2].start, secs[2].end) =~= payload_block(p));
    assert(text.subrange(secs[3].start, secs[3].end) =~= sig_block(s));
}

} // verus!
