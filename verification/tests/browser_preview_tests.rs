use forge_runtime::types::ForgeError;
use forge_runtime::tools::browser_preview_tool::{ServerHandle, ServerRegistry};
use forge_runtime::tool_registry::Tool;
use forge_runtime::tools::browser_preview_tool::{
    error_response, guess_content_type, ok_header, request_target, BrowserPreviewTool,
};
use forge_runtime::types::ExecutionMode;
use std::path::Path;

fn content_type_of(path: &Path) -> &'static str {
    guess_content_type(path.extension().and_then(|e| e.to_str()))
}

#[test]
fn test_browser_preview_tool_name() {
    let tool = BrowserPreviewTool::new();
    assert_eq!(tool.name().as_str(), "browser_preview");
}

#[test]
fn test_browser_preview_tool_allowed_modes() {
    let tool = BrowserPreviewTool::new();
    assert!(!tool.allowed_in_mode(ExecutionMode::Analysis));
    assert!(tool.allowed_in_mode(ExecutionMode::Edit));
    assert!(tool.allowed_in_mode(ExecutionMode::Fix));
    assert!(tool.allowed_in_mode(ExecutionMode::Batch));
}

#[test]
fn test_guess_content_type() {
    assert_eq!(content_type_of(Path::new("test.html")), "text/html");
    assert_eq!(content_type_of(Path::new("test.css")), "text/css");
    assert_eq!(content_type_of(Path::new("test.js")), "application/javascript");
    assert_eq!(content_type_of(Path::new("test.png")), "image/png");
    assert_eq!(content_type_of(Path::new("test.unknown")), "application/octet-stream");
}

#[test]
fn content_type_for_remaining_extensions() {
    assert_eq!(guess_content_type(Some("jpeg")), "image/jpeg");
    assert_eq!(guess_content_type(Some("woff2")), "font/woff2");
    assert_eq!(guess_content_type(None), "application/octet-stream");
}

#[test]
fn request_lines_name_their_file() {
    assert_eq!(request_target("GET / HTTP/1.1").as_deref(), Some("index.html"));
    assert_eq!(request_target("GET //css/site.css HTTP/1.1").as_deref(), Some("css/site.css"));
    assert_eq!(request_target("GET").as_deref(), None);
}

#[test]
fn responses_are_framed() {
    assert_eq!(ok_header("text/html", 12), "HTTP/1.1 200 OK\r\nContent-Type: text/html\r\nContent-Length: 12\r\n\r\n");
    assert_eq!(
        error_response(404, "Not Found"),
        "HTTP/1.1 404 Not Found\r\nContent-Type: text/plain\r\nContent-Length: 9\r\n\r\nNot Found"
    );
}

#[test]
fn server_registry_tracks_one_server_per_port() {
    let mut reg = ServerRegistry::new();
    let h = |port: u16, dir: &str| ServerHandle {
        port,
        url: format!("http://127.0.0.1:{}/", port),
        root_dir: dir.to_string(),
    };
    reg.register(h(8080, "a"));
    reg.register(h(8081, "b"));
    reg.register(h(8080, "c"));
    let active = reg.active_servers();
    assert_eq!(active.len(), 2);
    assert_eq!(active[0].root_dir, "c");
    assert!(reg.stop_server(8080).is_ok());
    assert!(matches!(reg.stop_server(8080), Err(ForgeError::InvalidArgument(m)) if m == "No active server found on port 8080"));
    assert_eq!(reg.active_servers().len(), 1);
}
