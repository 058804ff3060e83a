use obsidian_mcp::client::{ObsidianClient, ServerInfo};
use obsidian_mcp::error::AppError;
use obsidian_mcp::http::{Header, HttpRequest, HttpResponse, Method};
use obsidian_mcp::types::{Operation, PatchParams, TargetType};

fn make_client() -> ObsidianClient {
    ObsidianClient::new(
        "https://localhost:27124".to_string(),
        "test-api-key".to_string(),
    )
}

fn mock_client(uri: String) -> ObsidianClient {
    ObsidianClient::new(uri, "test-key".to_string())
}

const MOCK: &str = "http://127.0.0.1:8080";

fn header<'a>(req: &'a HttpRequest, name: &str) -> Option<&'a str> {
    req.headers
        .iter()
        .find(|h: &&Header| h.name == name)
        .map(|h| h.value.as_str())
}

fn pairs(v: &[Header]) -> Vec<(String, String)> {
    v.iter().map(|h| (h.name.clone(), h.value.clone())).collect()
}

fn ok(status: u16, body: &str) -> Result<HttpResponse, String> {
    Ok(HttpResponse { status, body: Ok(body.to_string()) })
}

#[test]
fn url_concatenates_base_and_path() {
    let client = make_client();
    assert_eq!(
        client.url("/vault/test.md"),
        "https://localhost:27124/vault/test.md"
    );
}

#[test]
fn bearer_token_formats_correctly() {
    let client = make_client();
    assert_eq!(client.bearer_token(), "Bearer test-api-key");
}

#[test]
fn periodic_url_with_all_date_params() {
    let client = make_client();
    let url = client.periodic_url("daily", Some(2026), Some(3), Some(6));
    assert_eq!(url, "https://localhost:27124/periodic/daily/2026/3/6/");
}

#[test]
fn periodic_url_without_date_params() {
    let client = make_client();
    let url = client.periodic_url("weekly", None, None, None);
    assert_eq!(url, "https://localhost:27124/periodic/weekly/");
}

#[test]
fn periodic_url_with_partial_date_falls_back_to_period_only() {
    let client = make_client();
    // year only, no month/day
    let url = client.periodic_url("monthly", Some(2026), None, None);
    assert_eq!(url, "https://localhost:27124/periodic/monthly/");

    // year and month, no day
    let url = client.periodic_url("daily", Some(2026), Some(3), None);
    assert_eq!(url, "https://localhost:27124/periodic/daily/");
}

#[test]
fn periodic_url_with_day_and_month_only_falls_back() {
    let client = make_client();
    let url = client.periodic_url("daily", None, Some(3), Some(6));
    assert_eq!(url, "https://localhost:27124/periodic/daily/");
}

#[test]
fn server_info_success() {
    let client = mock_client(MOCK.to_string());
    let req = client.server_info();
    assert_eq!(req.method, Method::Get);
    assert_eq!(req.url, "http://127.0.0.1:8080/");
    assert_eq!(header(&req, "Authorization"), Some("Bearer test-key"));
    let reply = ok(200, "{\"status\": \"OK\", \"versions\": {}}");
    let decoded = Some(ServerInfo { status: "OK".to_string(), versions: serde_json::Value::Object(serde_json::Map::new()) });
    let info = client.server_info_reply(reply, decoded).unwrap();
    assert_eq!(info.status, "OK");
}

#[test]
fn read_note_success() {
    let client = mock_client(MOCK.to_string());
    let req = client.read_note("folder/note.md");
    assert_eq!(req.method, Method::Get);
    assert_eq!(req.url, "http://127.0.0.1:8080/vault/folder/note.md");
    assert_eq!(header(&req, "Authorization"), Some("Bearer test-key"));
    assert_eq!(header(&req, "Accept"), Some("text/markdown"));
    assert!(req.body.is_none());
    let result = client.text_reply(ok(200, "# Hello")).unwrap();
    assert_eq!(result, "# Hello");
}

#[test]
fn create_note_sends_put_with_markdown() {
    let client = mock_client(MOCK.to_string());
    let req = client.create_note("new.md", "# New note");
    assert_eq!(req.method, Method::Put);
    assert_eq!(req.url, "http://127.0.0.1:8080/vault/new.md");
    assert_eq!(header(&req, "Authorization"), Some("Bearer test-key"));
    assert_eq!(header(&req, "Content-Type"), Some("text/markdown"));
    assert_eq!(req.body.as_deref(), Some("# New note"));
    client.empty_reply(ok(204, "")).unwrap();
}

#[test]
fn append_note_sends_post_with_markdown() {
    let client = mock_client(MOCK.to_string());
    let req = client.append_note("existing.md", "appended content");
    assert_eq!(req.method, Method::Post);
    assert_eq!(req.url, "http://127.0.0.1:8080/vault/existing.md");
    assert_eq!(header(&req, "Authorization"), Some("Bearer test-key"));
    assert_eq!(header(&req, "Content-Type"), Some("text/markdown"));
    assert_eq!(req.body.as_deref(), Some("appended content"));
    client.empty_reply(ok(200, "")).unwrap();
}

#[test]
fn patch_note_sends_v3_headers() {
    let client = mock_client(MOCK.to_string());
    let params = PatchParams {
        operation: Operation::Append,
        target_type: TargetType::Heading,
        target: "Introduction".to_string(),
        target_delimiter: None,
        trim_target_whitespace: None,
        create_target_if_missing: None,
        content_type: None,
    };
    let req = client.patch_note("note.md", &params, "new content");
    assert_eq!(req.method, Method::Patch);
    assert_eq!(req.url, "http://127.0.0.1:8080/vault/note.md");
    assert_eq!(
        pairs(&req.headers),
        vec![
            ("Authorization".to_string(), "Bearer test-key".to_string()),
            ("Content-Type".to_string(), "text/markdown".to_string()),
            ("Operation".to_string(), "append".to_string()),
            ("Target-Type".to_string(), "heading".to_string()),
            ("Target".to_string(), "Introduction".to_string()),
        ]
    );
    assert_eq!(req.body.as_deref(), Some("new content"));
    let result = client.text_reply(ok(200, "ok")).unwrap();
    assert_eq!(result, "ok");
}

#[test]
fn patch_note_sends_optional_headers() {
    let client = mock_client(MOCK.to_string());
    let params = PatchParams {
        operation: Operation::Replace,
        target_type: TargetType::Frontmatter,
        target: "tags".to_string(),
        target_delimiter: Some("/".to_string()),
        trim_target_whitespace: Some(true),
        create_target_if_missing: Some(true),
        content_type: None,
    };
    let req = client.patch_note("note.md", &params, "new-tag");
    assert_eq!(req.method, Method::Patch);
    assert_eq!(req.url, "http://127.0.0.1:8080/vault/note.md");
    assert_eq!(header(&req, "Authorization"), Some("Bearer test-key"));
    assert_eq!(header(&req, "Content-Type"), Some("text/markdown"));
    assert_eq!(header(&req, "Operation"), Some("replace"));
    assert_eq!(header(&req, "Target-Type"), Some("frontmatter"));
    assert_eq!(header(&req, "Target"), Some("tags"));
    assert_eq!(header(&req, "Target-Delimiter"), Some("/"));
    assert_eq!(header(&req, "Trim-Target-Whitespace"), Some("true"));
    assert_eq!(header(&req, "Create-Target-If-Missing"), Some("true"));
    assert_eq!(req.body.as_deref(), Some("new-tag"));
    let result = client.text_reply(ok(200, "ok")).unwrap();
    assert_eq!(result, "ok");
}

#[test]
fn patch_note_false_flags_and_content_type() {
    let client = mock_client(MOCK.to_string());
    let params = PatchParams {
        operation: Operation::Prepend,
        target_type: TargetType::Block,
        target: "abc".to_string(),
        target_delimiter: None,
        trim_target_whitespace: Some(false),
        create_target_if_missing: Some(false),
        content_type: Some("application/json".to_string()),
    };
    let req = client.patch_note("n.md", &params, "[1]");
    assert_eq!(header(&req, "Content-Type"), Some("application/json"));
    assert_eq!(header(&req, "Target-Delimiter"), None);
    assert_eq!(header(&req, "Trim-Target-Whitespace"), Some("false"));
    assert_eq!(header(&req, "Create-Target-If-Missing"), Some("false"));
    assert_eq!(req.headers.len(), 7);
}

#[test]
fn delete_note_sends_delete() {
    let client = mock_client(MOCK.to_string());
    let req = client.delete_note("old.md");
    assert_eq!(req.method, Method::Delete);
    assert_eq!(req.url, "http://127.0.0.1:8080/vault/old.md");
    assert_eq!(header(&req, "Authorization"), Some("Bearer test-key"));
    assert!(req.body.is_none());
    client.empty_reply(ok(204, "")).unwrap();
}

#[test]
fn list_files_root() {
    let client = mock_client(MOCK.to_string());
    let req = client.list_files(None);
    assert_eq!(req.method, Method::Get);
    assert_eq!(req.url, "http://127.0.0.1:8080/vault/");
    assert_eq!(header(&req, "Authorization"), Some("Bearer test-key"));
    assert_eq!(header(&req, "Accept"), Some("application/json"));
    let result = client
        .json_reply(ok(200, "{\"files\": [\"a.md\", \"b.md\"]}"))
        .unwrap();
    assert_eq!(result, "{\"files\":[\"a.md\",\"b.md\"]}");
}

#[test]
fn list_files_subdirectory() {
    let client = mock_client(MOCK.to_string());
    let req = client.list_files(Some("subdir"));
    assert_eq!(req.method, Method::Get);
    assert_eq!(req.url, "http://127.0.0.1:8080/vault/subdir/");
    assert_eq!(header(&req, "Accept"), Some("application/json"));
    let result = client.json_reply(ok(200, "{\"files\": [\"subdir/c.md\"]}")).unwrap();
    assert_eq!(result, "{\"files\":[\"subdir/c.md\"]}");
}

#[test]
fn search_simple_success() {
    let client = mock_client(MOCK.to_string());
    let req = client.search_simple("my query");
    assert_eq!(req.method, Method::Post);
    assert_eq!(req.url, "http://127.0.0.1:8080/search/simple/");
    assert_eq!(header(&req, "Authorization"), Some("Bearer test-key"));
    assert_eq!(header(&req, "Content-Type"), Some("text/plain"));
    assert_eq!(req.body.as_deref(), Some("my query"));
    assert_eq!(pairs(&req.query), vec![("query".to_string(), "my query".to_string())]);
    let result = client.json_reply(ok(200, "[{\"filename\": \"a.md\"}]")).unwrap();
    assert_eq!(result, "[{\"filename\":\"a.md\"}]");
}

#[test]
fn search_query_success() {
    let client = mock_client(MOCK.to_string());
    let req = client.search_query("TABLE file.name FROM #tag");
    assert_eq!(req.method, Method::Post);
    assert_eq!(req.url, "http://127.0.0.1:8080/search/");
    assert_eq!(
        header(&req, "Content-Type"),
        Some("application/vnd.olrapi.dataview.dql+txt")
    );
    assert_eq!(req.body.as_deref(), Some("TABLE file.name FROM #tag"));
    let result = client.json_reply(ok(200, "{\"results\": []}")).unwrap();
    assert_eq!(result, "{\"results\":[]}");
}

#[test]
fn list_commands_success() {
    let client = mock_client(MOCK.to_string());
    let req = client.list_commands();
    assert_eq!(req.method, Method::Get);
    assert_eq!(req.url, "http://127.0.0.1:8080/commands/");
    assert_eq!(header(&req, "Authorization"), Some("Bearer test-key"));
    let result = client
        .json_reply(ok(200, "{\"commands\": [{\"id\": \"cmd1\", \"name\": \"Command 1\"}]}"))
        .unwrap();
    assert_eq!(result, "{\"commands\":[{\"id\":\"cmd1\",\"name\":\"Command 1\"}]}");
}

#[test]
fn execute_command_sends_post() {
    let client = mock_client(MOCK.to_string());
    let req = client.execute_command("editor:toggle-bold");
    assert_eq!(req.method, Method::Post);
    assert_eq!(req.url, "http://127.0.0.1:8080/commands/editor:toggle-bold/");
    assert_eq!(header(&req, "Authorization"), Some("Bearer test-key"));
    client.empty_reply(ok(204, "")).unwrap();
}

#[test]
fn open_file_sends_post() {
    let client = mock_client(MOCK.to_string());
    let req = client.open_file("my-note.md");
    assert_eq!(req.method, Method::Post);
    assert_eq!(req.url, "http://127.0.0.1:8080/open/my-note.md");
    assert_eq!(header(&req, "Authorization"), Some("Bearer test-key"));
    client.empty_reply(ok(200, "")).unwrap();
}

#[test]
fn get_periodic_note_without_date() {
    let client = mock_client(MOCK.to_string());
    let req = client.get_periodic_note("daily", None, None, None);
    assert_eq!(req.method, Method::Get);
    assert_eq!(req.url, "http://127.0.0.1:8080/periodic/daily/");
    assert_eq!(header(&req, "Accept"), Some("text/markdown"));
    let result = client.text_reply(ok(200, "# Daily Note")).unwrap();
    assert_eq!(result, "# Daily Note");
}

#[test]
fn get_periodic_note_with_date() {
    let client = mock_client(MOCK.to_string());
    let req = client.get_periodic_note("daily", Some(2026), Some(3), Some(6));
    assert_eq!(req.method, Method::Get);
    assert_eq!(req.url, "http://127.0.0.1:8080/periodic/daily/2026/3/6/");
    assert_eq!(header(&req, "Accept"), Some("text/markdown"));
    let result = client.text_reply(ok(200, "# 2026-03-06")).unwrap();
    assert_eq!(result, "# 2026-03-06");
}

#[test]
fn update_periodic_note_sends_put() {
    let client = mock_client(MOCK.to_string());
    let req = client.update_periodic_note("weekly", Some(2026), Some(3), Some(6), "weekly content");
    assert_eq!(req.method, Method::Put);
    assert_eq!(req.url, "http://127.0.0.1:8080/periodic/weekly/2026/3/6/");
    assert_eq!(header(&req, "Content-Type"), Some("text/markdown"));
    assert_eq!(req.body.as_deref(), Some("weekly content"));
    client.empty_reply(ok(204, "")).unwrap();
}

#[test]
fn append_periodic_note_sends_post() {
    let client = mock_client(MOCK.to_string());
    let req = client.append_periodic_note("daily", Some(2026), Some(3), Some(6), "appended");
    assert_eq!(req.method, Method::Post);
    assert_eq!(req.url, "http://127.0.0.1:8080/periodic/daily/2026/3/6/");
    assert_eq!(header(&req, "Content-Type"), Some("text/markdown"));
    assert_eq!(req.body.as_deref(), Some("appended"));
    client.empty_reply(ok(200, "")).unwrap();
}

#[test]
fn patch_periodic_note_sends_v3_headers() {
    let client = mock_client(MOCK.to_string());
    let params = PatchParams {
        operation: Operation::Append,
        target_type: TargetType::Heading,
        target: "Tasks".to_string(),
        target_delimiter: None,
        trim_target_whitespace: None,
        create_target_if_missing: None,
        content_type: None,
    };
    let req = client.patch_periodic_note("daily", Some(2026), Some(3), Some(6), &params, "- [ ] do thing");
    assert_eq!(req.method, Method::Patch);
    assert_eq!(req.url, "http://127.0.0.1:8080/periodic/daily/2026/3/6/");
    assert_eq!(header(&req, "Authorization"), Some("Bearer test-key"));
    assert_eq!(header(&req, "Content-Type"), Some("text/markdown"));
    assert_eq!(header(&req, "Operation"), Some("append"));
    assert_eq!(header(&req, "Target-Type"), Some("heading"));
    assert_eq!(header(&req, "Target"), Some("Tasks"));
    assert_eq!(req.body.as_deref(), Some("- [ ] do thing"));
    let result = client.text_reply(ok(200, "patched daily")).unwrap();
    assert_eq!(result, "patched daily");
}

#[test]
fn patch_periodic_note_without_date() {
    let client = mock_client(MOCK.to_string());
    let params = PatchParams {
        operation: Operation::Replace,
        target_type: TargetType::Block,
        target: "abc123".to_string(),
        target_delimiter: None,
        trim_target_whitespace: None,
        create_target_if_missing: None,
        content_type: None,
    };
    let req = client.patch_periodic_note("monthly", None, None, None, &params, "replaced");
    assert_eq!(req.method, Method::Patch);
    assert_eq!(req.url, "http://127.0.0.1:8080/periodic/monthly/");
    assert_eq!(header(&req, "Operation"), Some("replace"));
    assert_eq!(header(&req, "Target-Type"), Some("block"));
    assert_eq!(header(&req, "Target"), Some("abc123"));
    assert_eq!(req.body.as_deref(), Some("replaced"));
    let result = client.text_reply(ok(200, "ok")).unwrap();
    assert_eq!(result, "ok");
}

#[test]
fn api_error_on_non_success_status() {
    let client = mock_client(MOCK.to_string());
    let req = client.read_note("missing.md");
    assert_eq!(req.url, "http://127.0.0.1:8080/vault/missing.md");
    let err = client.text_reply(ok(404, "File not found")).unwrap_err();
    match err {
        AppError::Api { status, body } => {
            assert_eq!(status, 404);
            assert_eq!(body, "File not found");
        }
        other => panic!("expected AppError::Api, got: {:?}", other),
    }
}

#[test]
fn check_response_passes_2xx_and_rejects_others() {
    let client = make_client();
    for status in [200u16, 201, 204, 299] {
        let r = client.check_response(HttpResponse { status, body: Ok("b".to_string()) });
        assert_eq!(r.unwrap().status, status);
    }
    for status in [100u16, 199, 300, 301, 404, 500, 503] {
        let r = client.check_response(HttpResponse { status, body: Ok("b".to_string()) });
        assert!(matches!(r, Err(AppError::Api { status: s, ref body }) if s == status && body == "b"));
    }
    let r = client.check_response(HttpResponse { status: 500, body: Err("reset".to_string()) });
    assert!(matches!(r, Err(AppError::Api { status: 500, ref body }) if body.is_empty()));
}

#[test]
fn transport_and_body_failures_are_http_errors() {
    let client = make_client();
    let r = client.text_reply(Err("connection refused".to_string()));
    assert!(matches!(r, Err(AppError::Http(ref m)) if m == "connection refused"));
    let r = client.text_reply(Ok(HttpResponse { status: 200, body: Err("reset".to_string()) }));
    assert!(matches!(r, Err(AppError::Http(ref m)) if m == "reset"));
    let r = client.empty_reply(Ok(HttpResponse { status: 204, body: Err("reset".to_string()) }));
    assert!(r.is_ok());
    let r = client.empty_reply(Err("timeout".to_string()));
    assert!(matches!(r, Err(AppError::Http(ref m)) if m == "timeout"));
}

#[test]
fn json_reply_rejects_malformed_json() {
    let client = make_client();
    let r = client.json_reply(ok(200, "this is not json"));
    match r {
        Err(AppError::Http(m)) => assert_eq!(m, "error decoding response body"),
        other => panic!("expected a decode error, got {:?}", other),
    }
    let r = client.json_reply(ok(200, "  {\n \"a\" : [ true, null, 1.5 ] }  "));
    assert_eq!(r.unwrap(), "{\"a\":[true,null,1.5]}");
}

#[test]
fn server_info_reply_requires_a_decoded_body() {
    let client = make_client();
    let r = client.server_info_reply(ok(200, "{}"), None);
    assert!(matches!(r, Err(AppError::Http(ref m)) if m == "error decoding response body"));
    let r = client.server_info_reply(ok(401, "unauthorized"), None);
    assert!(matches!(r, Err(AppError::Api { status: 401, .. })));
}

#[test]
fn every_request_carries_the_bearer_token_first() {
    let client = make_client();
    let params = PatchParams {
        operation: Operation::Append,
        target_type: TargetType::Heading,
        target: "H".to_string(),
        target_delimiter: None,
        trim_target_whitespace: None,
        create_target_if_missing: None,
        content_type: None,
    };
    let reqs = vec![
        client.server_info(),
        client.read_note("a"),
        client.create_note("a", "b"),
        client.append_note("a", "b"),
        client.patch_note("a", &params, "b"),
        client.delete_note("a"),
        client.list_files(None),
        client.search_simple("q"),
        client.search_query("TABLE"),
        client.list_commands(),
        client.execute_command("c"),
        client.open_file("f"),
        client.get_periodic_note("daily", None, None, None),
        client.update_periodic_note("daily", None, None, None, "x"),
        client.append_periodic_note("daily", None, None, None, "x"),
        client.patch_periodic_note("daily", None, None, None, &params, "x"),
    ];
    for r in reqs {
        assert_eq!(r.headers[0].name, "Authorization");
        assert_eq!(r.headers[0].value, "Bearer test-api-key");
    }
}
