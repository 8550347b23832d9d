use badge::{Badge, BadgeOptions};
use cds_badge::badge::{
    badge_query, badge_reply, get_branch_from_referer, resolve_branch, svg_reply,
    RENDER_TEXT_LIMIT,
};
use cds_badge::error::BadgeError;
use cds_badge::models::Run;

fn run_with_status(status: &str) -> Run {
    let mut run = Run::default();
    run.project_key = "TEST".to_string();
    run.workflow_name = "wf1".to_string();
    run.status = status.to_string();
    run
}

fn drawn(status: &str, color: &str) -> String {
    Badge::new(BadgeOptions {
        subject: "CDS".to_string(),
        status: status.to_string(),
        color: color.to_string(),
    })
    .unwrap()
    .to_svg()
}

#[test]
fn referer_tree_gives_the_rest() {
    assert_eq!(
        get_branch_from_referer(Some("https://example/TEST/wf1/tree/main")),
        Some("main".to_string())
    );
    assert_eq!(
        get_branch_from_referer(Some("https://example/p/tree/feature/x/")),
        Some("feature/x/".to_string())
    );
    assert_eq!(get_branch_from_referer(Some("/tree/")), Some(String::new()));
    assert_eq!(
        get_branch_from_referer(Some("https://h/tree/a/tree/b")),
        Some("a/tree/b".to_string())
    );
}

#[test]
fn referer_src_strips_trailing_slashes() {
    assert_eq!(
        get_branch_from_referer(Some("https://example/p/src/develop/")),
        Some("develop".to_string())
    );
    assert_eq!(
        get_branch_from_referer(Some("https://example/p/src/develop///")),
        Some("develop".to_string())
    );
    assert_eq!(
        get_branch_from_referer(Some("https://example/p/src/a/b")),
        Some("a/b".to_string())
    );
    assert_eq!(get_branch_from_referer(Some("https://example/p/src/")), Some(String::new()));
    assert_eq!(get_branch_from_referer(Some("https://example/p/src///")), Some(String::new()));
}

#[test]
fn referer_tree_wins_over_src() {
    assert_eq!(
        get_branch_from_referer(Some("https://example/src/x/tree/y/")),
        Some("y/".to_string())
    );
}

#[test]
fn referer_without_a_branch() {
    assert_eq!(get_branch_from_referer(None), None);
    assert_eq!(get_branch_from_referer(Some("")), None);
    assert_eq!(get_branch_from_referer(Some("https://example/TEST/wf1")), None);
    assert_eq!(get_branch_from_referer(Some("https://example/tree")), None);
    assert_eq!(get_branch_from_referer(Some("https://example/src")), None);
}

#[test]
fn referer_with_wide_characters() {
    assert_eq!(
        get_branch_from_referer(Some("https://exämple/ü/tree/brañch")),
        Some("brañch".to_string())
    );
    assert_eq!(
        get_branch_from_referer(Some("https://例/src/枝/")),
        Some("枝".to_string())
    );
}

#[test]
fn branch_precedence() {
    let referer = Some("https://example/TEST/wf1/tree/main");
    assert_eq!(resolve_branch(Some("dev"), referer), Some("dev".to_string()));
    assert_eq!(resolve_branch(Some(""), referer), Some("main".to_string()));
    assert_eq!(resolve_branch(None, referer), Some("main".to_string()));
    assert_eq!(resolve_branch(None, None), None);
    assert_eq!(resolve_branch(Some(""), None), None);
    assert_eq!(resolve_branch(None, Some("https://example/TEST/wf1")), None);
    assert_eq!(resolve_branch(Some("dev"), None), Some("dev".to_string()));
}

#[test]
fn query_of_a_request() {
    let query = badge_query("TEST", "wf1", None, Some("https://example/TEST/wf1/src/rel/"));
    assert_eq!(query.project_key, "TEST");
    assert_eq!(query.workflow_name, "wf1");
    assert_eq!(query.branch, Some("rel".to_string()));
    let query = badge_query("TEST", "wf1", Some("main"), None);
    assert_eq!(query.branch, Some("main".to_string()));
    let query = badge_query("", "", None, None);
    assert_eq!(query.project_key, "");
    assert_eq!(query.branch, None);
}

#[test]
fn reply_carries_the_drawing() {
    let reply = badge_reply(Ok(run_with_status("Success")));
    assert_eq!(reply.status, 200);
    assert_eq!(reply.content_type, "image/svg+xml");
    assert_eq!(reply.body, drawn("Success", "#21BA45"));
    assert!(reply.body.contains("fill=\"#21BA45\""));
    assert!(reply.body.contains(">Success</text>"));
    assert!(reply.body.contains(">CDS</text>"));
    assert_ne!(reply.body, "Success");
}

#[test]
fn reply_colours_follow_the_status() {
    assert_eq!(badge_reply(Ok(run_with_status("Building"))).body, drawn("Building", "#4fa3e3"));
    assert_eq!(badge_reply(Ok(run_with_status("Fail"))).body, drawn("Fail", "#FF4F60"));
    assert_eq!(badge_reply(Ok(run_with_status("Skipped"))).body, drawn("Skipped", "grey"));
    assert_eq!(badge_reply(Ok(run_with_status("Exploded"))).body, drawn("Exploded", "grey"));
}

#[test]
fn reply_to_an_empty_status() {
    let reply = badge_reply(Ok(run_with_status("")));
    assert_eq!(reply.status, 400);
    assert_eq!(reply.content_type, "text/plain; charset=utf-8");
    assert_eq!(reply.body, "status and subject must not be empty");
}

#[test]
fn reply_to_a_long_status() {
    let long = "x".repeat(70000);
    let reply = badge_reply(Ok(run_with_status(&long)));
    assert_eq!(reply.status, 200);
    assert_eq!(reply.content_type, "image/svg+xml");
    assert_eq!(reply.body, drawn(&long, "grey"));
    let wide = "\u{679d}".repeat(300);
    let reply = badge_reply(Ok(run_with_status(&wide)));
    assert_eq!(reply.status, 200);
    assert_eq!(reply.body, drawn(&wide, "grey"));
    assert_eq!(RENDER_TEXT_LIMIT, 1 << 29);
}

#[test]
fn reply_to_failures() {
    let reply = badge_reply(Err(BadgeError::NoRunAvailable));
    assert_eq!(reply.status, 404);
    assert_eq!(reply.content_type, "application/json");
    assert_eq!(reply.body, "\"Not run found\"");
    let reply = badge_reply(Err(BadgeError::DatabaseError {
        cause: "SELECT * FROM run failed".to_string(),
    }));
    assert_eq!(reply.status, 500);
    assert_eq!(reply.body, "\"Database error\"");
    assert!(!reply.body.contains("SELECT"));
}

#[test]
fn reply_from_the_renderer() {
    let reply = svg_reply(Ok("<svg/>".to_string()));
    assert_eq!(reply.status, 200);
    assert_eq!(reply.content_type, "image/svg+xml");
    assert_eq!(reply.body, "<svg/>");
    let reply = svg_reply(Err("no".to_string()));
    assert_eq!(reply.status, 400);
    assert_eq!(reply.content_type, "text/plain; charset=utf-8");
    assert_eq!(reply.body, "no");
}

#[test]
fn failures_become_responses() {
    let cases = vec![
        (BadgeError::Unauthorised, 401, "\"Unauthorised\"", "Unauthorised"),
        (BadgeError::NoRunAvailable, 404, "\"Not run found\"", "No run available"),
        (BadgeError::InvalidParameter, 400, "\"Invalid parameter\"", "Invalid parameter"),
        (
            BadgeError::DatabaseError { cause: "secret".to_string() },
            500,
            "\"Database error\"",
            "Database Error",
        ),
        (
            BadgeError::MailboxError { cause: "secret".to_string() },
            500,
            "\"Communication error\"",
            "Mailbox actix Error",
        ),
        (
            BadgeError::UnexpectedError { cause: "secret".to_string() },
            500,
            "\"Unexpected error\"",
            "Unexpected error",
        ),
    ];
    for (error, status, body, description) in cases {
        let reply = error.error_response();
        assert_eq!(reply.status, status);
        assert_eq!(reply.content_type, "application/json");
        assert_eq!(reply.body, body);
        assert_eq!(error.describe(), description);
    }
}
