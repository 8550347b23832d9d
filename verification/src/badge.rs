//! The badge endpoint: which branch a request asks for, which colour a status
//! gets, and the response that carries the rendered badge.
use crate::error::BadgeError;
use crate::models::{opt_text, Run, StatusEnum};
use crate::run::{latest, QueryRun, QueryRunView, RunStore};
use crate::text::{
    chars_of, contains_text, find_text, first_occurrence, lemma_first_occurrence, occurs_at,
    trim_end, trimmed_end,
};
use crate::web::{HttpReply, HttpReplyView};
use badge::{Badge, BadgeOptions};
use vstd::prelude::*;

verus! {

pub const GREEN: &'static str = "#21BA45";

pub const RED: &'static str = "#FF4F60";

pub const BLUE: &'static str = "#4fa3e3";

pub const GREY: &'static str = "grey";

/// The text on the left side of every badge.
pub const SUBJECT: &'static str = "CDS";

/// The most bytes that subject and status may take together when they are
/// handed to the renderer: 2^29. The renderer computes for each of the two
/// texts `width + (bytes - 1) * 2` in `u32`, adds 6 to each, and adds the two.
/// `width` is the pixel position behind the last glyph, which it adds up in
/// `f32`, glyph by glyph. At the size it draws, no glyph of its font moves the
/// position by more than 22 pixels, and an `f32` that has reached 2^29 no
/// longer changes when less than 32 is added, so each width stays below 2^30.
/// With at most 2^29 bytes in both texts, twice their bytes is at most 2^30,
/// and the sum of everything stays below 2^32.
pub const RENDER_TEXT_LIMIT: usize = 536870912;

/// The number of bytes that a text takes in UTF-8.
pub open spec fn byte_len(text: Seq<char>) -> nat {
    vstd::utf8::encode_utf8(text).len()
}

/// Whether a subject and a status are together short enough for the renderer.
pub open spec fn fits(subject: Seq<char>, status: Seq<char>) -> bool {
    byte_len(subject) + byte_len(status) <= RENDER_TEXT_LIMIT
}

/// A text takes at least one byte and at most four for each character.
pub proof fn lemma_byte_len(text: Seq<char>)
    ensures
        text.len() <= byte_len(text) <= 4 * text.len(),
    decreases text.len(),
{
    if text.len() > 0 {
        let first = vstd::utf8::encode_scalar(text[0] as u32);
        assert(1 <= first.len() <= 4);
        lemma_byte_len(text.drop_first());
    }
}

/// The subject of the badges takes three bytes, so a status of up to
/// 2^27 - 1 characters is short enough beside it, whatever its characters.
pub proof fn lemma_status_fits(status: Seq<char>)
    ensures
        byte_len(SUBJECT@) == 3,
        status.len() < 134217728 ==> fits(SUBJECT@, status),
{
    reveal_strlit("CDS");
    assert(vstd::utf8::is_ascii_chars(SUBJECT@));
    vstd::utf8::is_ascii_chars_encode_utf8(SUBJECT@);
    lemma_byte_len(status);
}

/// The colour of a status.
pub open spec fn color_of(status: StatusEnum) -> Seq<char> {
    match status {
        StatusEnum::Success => GREEN@,
        StatusEnum::Building | StatusEnum::Waiting | StatusEnum::Checking => BLUE@,
        StatusEnum::Fail | StatusEnum::Stopped => RED@,
        StatusEnum::Pending
        | StatusEnum::Disabled
        | StatusEnum::NeverBuilt
        | StatusEnum::Unknown
        | StatusEnum::Skipped => GREY@,
    }
}

/// The colour of a status.
pub fn status_color(status: StatusEnum) -> (r: &'static str)
    ensures
        r@ == color_of(status),
{
    match status {
        StatusEnum::Success => GREEN,
        StatusEnum::Building | StatusEnum::Waiting | StatusEnum::Checking => BLUE,
        StatusEnum::Fail | StatusEnum::Stopped => RED,
        StatusEnum::Pending
        | StatusEnum::Disabled
        | StatusEnum::NeverBuilt
        | StatusEnum::Unknown
        | StatusEnum::Skipped => GREY,
    }
}

/// The colour of a status given as text: that of the status the text decodes
/// to, hence grey for a text that is no status token.
pub fn color_for(status: &str) -> (r: &'static str)
    ensures
        r@ == color_of(StatusEnum::parse(status@)),
{
    status_color(StatusEnum::from_text(status))
}

/// Every status text has one of the four colours, and a text that is no
/// status token has grey.
pub proof fn lemma_color_total(text: Seq<char>)
    ensures
        ({
            let c = color_of(StatusEnum::parse(text));
            c == GREEN@ || c == BLUE@ || c == RED@ || c == GREY@
        }),
        (forall|s: StatusEnum| text != #[trigger] s.name()) ==> color_of(StatusEnum::parse(text))
            == GREY@,
{
    crate::models::lemma_parse_total(text);
}

/// Every status text that the renderer can hold and that is not empty gets
/// its badge, whether it is a status token or not: the response is `200`, an
/// SVG image, the drawing of the subject `CDS`, the text itself and the
/// colour of the status that the text decodes to.
pub proof fn lemma_badge_for_every_status(status: Seq<char>)
    requires
        0 < status.len(),
        fits(SUBJECT@, status),
    ensures
        badge_view(status) == (HttpReplyView {
            status: 200,
            content_type: "image/svg+xml"@,
            body: badge_svg(SUBJECT@, status, color_of(StatusEnum::parse(status))),
        }),
{
}

/// The branch that a `Referer` header names. After the first `/tree/` it is
/// the rest of the header. Failing that, after the first `/src/` it is the
/// rest without the slashes at its end. A header with neither names none.
pub open spec fn referer_branch(referer: Seq<char>) -> Option<Seq<char>> {
    if contains_text(referer, "/tree/"@) {
        let at = first_occurrence(referer, "/tree/"@);
        Some(referer.subrange(at + "/tree/"@.len(), referer.len() as int))
    } else if contains_text(referer, "/src/"@) {
        let at = first_occurrence(referer, "/src/"@);
        Some(trim_end(referer.subrange(at + "/src/"@.len(), referer.len() as int), '/'))
    } else {
        None
    }
}

/// The characters of an optional string slice.
pub open spec fn opt_str_text(s: Option<&str>) -> Option<Seq<char>> {
    match s {
        Some(t) => Some(t@),
        None => None,
    }
}

/// The branch that a request asks for: the `branch` parameter where it is
/// given and not empty, else the branch that the `Referer` header names, else
/// none.
pub open spec fn resolved_branch(param: Option<Seq<char>>, referer: Option<Seq<char>>) -> Option<
    Seq<char>,
> {
    match param {
        Some(b) if b.len() > 0 => Some(b),
        _ => match referer {
            Some(h) => referer_branch(h),
            None => None,
        },
    }
}

/// The branch that the value of a `Referer` header names, if any.
pub fn get_branch_from_referer(referer: Option<&str>) -> (r: Option<String>)
    ensures
        opt_text(r) == match referer {
            Some(h) => referer_branch(h@),
            None => None,
        },
{
    match referer {
        None => None,
        Some(h) => {
            let hay = chars_of(h);
            let end = hay.len();
            let tree = chars_of("/tree/");
            match find_text(&hay, &tree) {
                Some(at) => {
                    proof {
                        lemma_first_occurrence(hay@, tree@, at as int);
                        assert(occurs_at(hay@, tree@, at as int));
                    }
                    Some(h.substring_char(at + tree.len(), end).to_owned())
                },
                None => {
                    let src = chars_of("/src/");
                    match find_text(&hay, &src) {
                        Some(at) => {
                            proof {
                                lemma_first_occurrence(hay@, src@, at as int);
                                assert(occurs_at(hay@, src@, at as int));
                            }
                            let from = at + src.len();
                            let to = trimmed_end(&hay, from, '/');
                            Some(h.substring_char(from, to).to_owned())
                        },
                        None => None,
                    }
                },
            }
        },
    }
}

/// The branch that a request asks for.
pub fn resolve_branch(branch_param: Option<&str>, referer: Option<&str>) -> (r: Option<String>)
    ensures
        opt_text(r) == resolved_branch(opt_str_text(branch_param), opt_str_text(referer)),
{
    match branch_param {
        Some(b) => {
            if b.is_empty() {
                get_branch_from_referer(referer)
            } else {
                Some(b.to_owned())
            }
        },
        None => get_branch_from_referer(referer),
    }
}

/// Precedence of the branch sources: a `branch` parameter that is not empty
/// wins over any header; without one, a branch named by the header wins over
/// none; and with neither the query is for runs without a branch.
pub proof fn lemma_branch_precedence(param: Option<Seq<char>>, referer: Option<Seq<char>>)
    ensures
        param is Some && param->0.len() > 0 ==> resolved_branch(param, referer) == param,
        (param is None || param->0.len() == 0) && referer is Some ==> resolved_branch(
            param,
            referer,
        ) == referer_branch(referer->0),
        (param is None || param->0.len() == 0) && (referer is None || referer_branch(referer->0)
            is None) ==> resolved_branch(param, referer) is None,
{
}

/// The query that a badge request stands for.
pub fn badge_query(
    project: &str,
    workflow: &str,
    branch_param: Option<&str>,
    referer: Option<&str>,
) -> (r: QueryRun)
    ensures
        r@ == (QueryRunView {
            project_key: project@,
            workflow_name: workflow@,
            branch: resolved_branch(opt_str_text(branch_param), opt_str_text(referer)),
        }),
{
    QueryRun {
        project_key: project.to_owned(),
        workflow_name: workflow.to_owned(),
        branch: resolve_branch(branch_param, referer),
    }
}

/// The SVG text that the renderer draws for a subject, a status and a colour.
pub uninterp spec fn badge_svg(subject: Seq<char>, status: Seq<char>, color: Seq<char>) -> Seq<char>;

/// Draws a badge with `badge::Badge::new` and `badge::Badge::to_svg`. Trusted:
/// the renderer refuses exactly an empty subject or status, with one fixed
/// message, and otherwise its drawing depends on the three texts alone. The
/// two texts that it measures must together not be longer than its arithmetic
/// holds.
#[verifier::external_body]
fn draw_badge(subject: &str, status: &str, color: &str) -> (r: Result<String, String>)
    requires
        fits(subject@, status@),
    ensures
        r is Err <==> subject@.len() == 0 || status@.len() == 0,
        r is Ok ==> r->Ok_0@ == badge_svg(subject@, status@, color@),
        r is Err ==> r->Err_0@ == "status and subject must not be empty"@,
{
    let options = BadgeOptions {
        subject: subject.to_string(),
        status: status.to_string(),
        color: color.to_string(),
    };
    match Badge::new(options) {
        Ok(badge) => Ok(badge.to_svg()),
        Err(message) => Err(message),
    }
}

/// The response that carries what the renderer gave: the drawing as an SVG
/// image, or its refusal as a bad request.
pub fn svg_reply(rendered: Result<String, String>) -> (r: HttpReply)
    ensures
        r@ == match rendered {
            Ok(svg) => HttpReplyView { status: 200, content_type: "image/svg+xml"@, body: svg@ },
            Err(message) => HttpReplyView {
                status: 400,
                content_type: "text/plain; charset=utf-8"@,
                body: message@,
            },
        },
{
    match rendered {
        Ok(svg) => HttpReply { status: 200, content_type: "image/svg+xml".to_owned(), body: svg },
        Err(message) => HttpReply {
            status: 400,
            content_type: "text/plain; charset=utf-8".to_owned(),
            body: message,
        },
    }
}

/// The response to a failure.
pub open spec fn failure_view(e: BadgeError) -> HttpReplyView {
    HttpReplyView {
        status: e.status_code(),
        content_type: "application/json"@,
        body: e.public_body(),
    }
}

/// The badge response for a status text: the badge of the subject `CDS`, the
/// status and its colour, whether the status is a token or not. An empty
/// status is a bad request, as the renderer refuses it. A status that is,
/// with the subject, of more bytes than the renderer's arithmetic holds is an
/// internal failure.
pub open spec fn badge_view(status: Seq<char>) -> HttpReplyView {
    if !fits(SUBJECT@, status) {
        failure_view(BadgeError::UnexpectedError { cause: arbitrary() })
    } else if status.len() == 0 {
        HttpReplyView {
            status: 400,
            content_type: "text/plain; charset=utf-8"@,
            body: "status and subject must not be empty"@,
        }
    } else {
        HttpReplyView {
            status: 200,
            content_type: "image/svg+xml"@,
            body: badge_svg(SUBJECT@, status, color_of(StatusEnum::parse(status))),
        }
    }
}

/// The response to a badge request, from what the store answered: the badge
/// of the run that was found, or the response to the failure.
pub fn badge_reply(result: Result<Run, BadgeError>) -> (r: HttpReply)
    ensures
        r@ == match result {
            Ok(run) => badge_view(run.status@),
            Err(e) => failure_view(e),
        },
{
    match result {
        Err(e) => e.error_response(),
        Ok(run) => {
            proof {
                lemma_status_fits(run.status@);
            }
            let room = RENDER_TEXT_LIMIT - SUBJECT.as_bytes().len();
            if run.status.as_str().as_bytes().len() > room {
                let e = BadgeError::UnexpectedError { cause: "status too long to render".to_owned() };
                e.error_response()
            } else {
                let color = color_for(run.status.as_str());
                svg_reply(draw_badge(SUBJECT, run.status.as_str(), color))
            }
        },
    }
}

/// Serves a badge request from a store: resolves the branch, looks up the
/// latest run, and answers with its badge, or with `404` where the store has
/// no run for the project, workflow and branch.
pub fn badge_handler(
    store: &RunStore,
    project: &str,
    workflow: &str,
    branch_param: Option<&str>,
    referer: Option<&str>,
) -> (r: HttpReply)
    ensures
        ({
            let key = QueryRunView {
                project_key: project@,
                workflow_name: workflow@,
                branch: resolved_branch(opt_str_text(branch_param), opt_str_text(referer)),
            };
            r@ == match latest(store@, key) {
                Some(run) => badge_view(run.status),
                None => failure_view(BadgeError::NoRunAvailable),
            }
        }),
{
    let query = badge_query(project, workflow, branch_param, referer);
    badge_reply(store.query_latest_run(&query))
}

} // verus!
