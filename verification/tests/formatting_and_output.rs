use reqtool::http::Response;
use reqtool::out::{
    display_content_type, display_request, display_response, display_status, Color, StyledLine,
    StyledSegment,
};
use reqtool::response::format_body;

fn not_found_response() -> Response {
    Response {
        status: 404,
        status_message: "Not Found".to_string(),
        content_type: Some("application/json".to_string()),
        body: "{\"error\":\"missing\"}".to_string(),
    }
}

fn line_text(line: &StyledLine) -> String {
    let mut s = String::new();
    for seg in &line.segments {
        s.push_str(&seg.text);
    }
    s
}

#[test]
fn irregular_json_body_is_pretty_printed() {
    assert_eq!(format_body("{\"x\":  1}"), "{\n  \"x\": 1\n}");
}

#[test]
fn non_json_body_passes_through_unchanged() {
    assert_eq!(format_body("not json"), "not json");
}

#[test]
fn json_array_body_is_pretty_printed() {
    assert_eq!(format_body("[1,2]"), "[\n  1,\n  2\n]");
}

#[test]
fn segment_builders_compose() {
    let seg = StyledSegment::new("GET").color(Color::Cyan).bold().space();
    assert_eq!(seg.text, "GET ");
    assert_eq!(seg.color, Some(Color::Cyan));
    assert!(seg.bold);
    assert!(!seg.italic);
    let seg = StyledSegment::new("x").italic().newline();
    assert_eq!(seg.text, "x\n");
    assert_eq!(seg.color, None);
    assert!(seg.italic);
}

#[test]
fn lines_collect_segments_in_order() {
    let line = StyledLine::new()
        .add(StyledSegment::new("a"))
        .add(StyledSegment::new("b").space());
    assert_eq!(line.segments.len(), 2);
    assert_eq!(line_text(&line), "ab ");
}

#[test]
fn request_line_echoes_method_and_url() {
    let line = display_request("POST", "https://example.com");
    assert_eq!(line_text(&line), "POST https://example.com");
    assert_eq!(line.segments[0].color, Some(Color::Cyan));
    assert!(line.segments[0].bold);
    assert_eq!(line.segments[1].color, Some(Color::White));
}

#[test]
fn status_line_shows_code_and_reason() {
    let line = display_status(404, "Not Found");
    assert_eq!(line_text(&line), "Status 404 Not Found");
    assert_eq!(line.segments[1].text, "404 ");
    assert_eq!(line.segments[1].color, Some(Color::Blue));
    assert!(line.segments[1].bold);
}

#[test]
fn status_line_handles_large_codes() {
    let line = display_status(599, "Unknown");
    assert_eq!(line_text(&line), "Status 599 Unknown");
}

#[test]
fn content_type_line_shows_the_header() {
    let line = display_content_type(&not_found_response()).expect("header line owed");
    assert_eq!(line_text(&line), "Content-Type application/json");
}

#[test]
fn absent_content_type_yields_no_line() {
    let mut response = not_found_response();
    response.content_type = None;
    assert!(display_content_type(&response).is_none());
}

#[test]
fn error_status_still_renders_fully() {
    let response = not_found_response();
    let body = format_body(&response.body);
    let lines = display_response(&response, &body, false, "GET", "https://example.com/x");
    assert_eq!(lines.len(), 3);
    assert_eq!(line_text(&lines[0]), "Status 404 Not Found");
    assert_eq!(line_text(&lines[1]), "Content-Type application/json");
    assert_eq!(line_text(&lines[2]), "{\n  \"error\": \"missing\"\n}");
}

#[test]
fn verbose_rendering_prepends_the_request_line() {
    let response = not_found_response();
    let lines = display_response(&response, "body", true, "GET", "https://example.com/x");
    assert_eq!(lines.len(), 4);
    assert_eq!(line_text(&lines[0]), "GET https://example.com/x");
    assert_eq!(line_text(&lines[1]), "Status 404 Not Found");
}
