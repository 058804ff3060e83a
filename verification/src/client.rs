//! The Obsidian Local REST API client. Each API operation is one HTTP
//! exchange: the client decides the request (method, URL, headers, body) and
//! interprets the reply it is handed back; the caller performs the exchange.
use vstd::prelude::*;

use crate::error::{AppError, AppErrorView};
use crate::http::{
    is_success, no_pairs, pairs_view, push_pair, status_is_success, HttpRequest, HttpResponse,
    Method, RequestView, ResponseView,
};
use crate::json::{compact_json, reformat_json};
use crate::text::{decimal, push_decimal};
use crate::types::{PatchParams, PatchParamsView};

verus! {

/// Status and version information reported by the API (`GET /`).
#[derive(Debug)]
pub struct ServerInfo {
    pub status: String,
    pub versions: serde_json::Value,
}

/// Client of the Obsidian Local REST API at `base_url`, authenticated by an API key.
pub struct ObsidianClient {
    base_url: String,
    bearer_token: String,
}

/// The mathematical value of an [`ObsidianClient`].
pub struct ClientView {
    pub base_url: Seq<char>,
    pub bearer_token: Seq<char>,
}

impl View for ObsidianClient {
    type V = ClientView;

    closed spec fn view(&self) -> ClientView {
        ClientView { base_url: self.base_url@, bearer_token: self.bearer_token@ }
    }
}

/// A list of name/value pairs.
pub type Pairs = Seq<(Seq<char>, Seq<char>)>;

/// The `Authorization` header every request carries.
pub open spec fn auth_pair(c: ClientView) -> (Seq<char>, Seq<char>) {
    ("Authorization"@, c.bearer_token)
}

/// The absolute URL of an API path.
pub open spec fn endpoint(c: ClientView, path: Seq<char>) -> Seq<char> {
    c.base_url + path
}

/// The API path of a vault file.
pub open spec fn vault_path(path: Seq<char>) -> Seq<char> {
    "/vault/"@ + path
}

/// The API path of a vault directory listing: the root, or `dir` with a trailing slash.
pub open spec fn listing_path(dir: Option<Seq<char>>) -> Seq<char> {
    match dir {
        Some(d) => "/vault/"@ + d + "/"@,
        None => "/vault/"@,
    }
}

/// The API path of a periodic note: dated when all of year, month and day are
/// given, else the current period.
pub open spec fn periodic_path(
    period: Seq<char>,
    year: Option<u32>,
    month: Option<u32>,
    day: Option<u32>,
) -> Seq<char> {
    match (year, month, day) {
        (Some(y), Some(m), Some(d)) => "/periodic/"@ + period + "/"@ + decimal(y as nat) + "/"@
            + decimal(m as nat) + "/"@ + decimal(d as nat) + "/"@,
        _ => "/periodic/"@ + period + "/"@,
    }
}

/// `true` or `false`, as a header value.
pub open spec fn bool_text(b: bool) -> Seq<char> {
    if b {
        "true"@
    } else {
        "false"@
    }
}

/// One pair when a value is present, none otherwise.
pub open spec fn optional_pair(name: Seq<char>, value: Option<Seq<char>>) -> Pairs {
    match value {
        Some(v) => seq![(name, v)],
        None => Seq::empty(),
    }
}

/// The optional boolean as header text.
pub open spec fn optional_bool(b: Option<bool>) -> Option<Seq<char>> {
    match b {
        Some(v) => Some(bool_text(v)),
        None => None,
    }
}

/// The content type of a patch body: the one asked for, else `text/markdown`.
pub open spec fn patch_content_type(p: PatchParamsView) -> Seq<char> {
    match p.content_type {
        Some(t) => t,
        None => "text/markdown"@,
    }
}

/// The headers of a v3 PATCH request: authorization, content type, the three
/// required target headers, then each optional header that is present.
pub open spec fn patch_headers(c: ClientView, p: PatchParamsView) -> Pairs {
    seq![
        auth_pair(c),
        ("Content-Type"@, patch_content_type(p)),
        ("Operation"@, p.operation.name()),
        ("Target-Type"@, p.target_type.name()),
        ("Target"@, p.target),
    ] + optional_pair("Target-Delimiter"@, p.target_delimiter) + optional_pair(
        "Trim-Target-Whitespace"@,
        optional_bool(p.trim_target_whitespace),
    ) + optional_pair("Create-Target-If-Missing"@, optional_bool(p.create_target_if_missing))
}

/// A request with no query pairs.
pub open spec fn plain_request(
    method: Method,
    url: Seq<char>,
    headers: Pairs,
    body: Option<Seq<char>>,
) -> RequestView {
    RequestView { method, url, query: Seq::empty(), headers, body }
}

pub open spec fn server_info_request(c: ClientView) -> RequestView {
    plain_request(Method::Get, endpoint(c, "/"@), seq![auth_pair(c)], None)
}

pub open spec fn read_note_request(c: ClientView, path: Seq<char>) -> RequestView {
    plain_request(
        Method::Get,
        endpoint(c, vault_path(path)),
        seq![auth_pair(c), ("Accept"@, "text/markdown"@)],
        None,
    )
}

pub open spec fn create_note_request(c: ClientView, path: Seq<char>, content: Seq<char>) -> RequestView {
    plain_request(
        Method::Put,
        endpoint(c, vault_path(path)),
        seq![auth_pair(c), ("Content-Type"@, "text/markdown"@)],
        Some(content),
    )
}

pub open spec fn append_note_request(c: ClientView, path: Seq<char>, content: Seq<char>) -> RequestView {
    plain_request(
        Method::Post,
        endpoint(c, vault_path(path)),
        seq![auth_pair(c), ("Content-Type"@, "text/markdown"@)],
        Some(content),
    )
}

pub open spec fn patch_note_request(
    c: ClientView,
    path: Seq<char>,
    p: PatchParamsView,
    content: Seq<char>,
) -> RequestView {
    plain_request(Method::Patch, endpoint(c, vault_path(path)), patch_headers(c, p), Some(content))
}

pub open spec fn delete_note_request(c: ClientView, path: Seq<char>) -> RequestView {
    plain_request(Method::Delete, endpoint(c, vault_path(path)), seq![auth_pair(c)], None)
}

pub open spec fn list_files_request(c: ClientView, dir: Option<Seq<char>>) -> RequestView {
    plain_request(
        Method::Get,
        endpoint(c, listing_path(dir)),
        seq![auth_pair(c), ("Accept"@, "application/json"@)],
        None,
    )
}

/// A simple search sends the query both as the `query` URL parameter and as the body.
pub open spec fn search_simple_request(c: ClientView, query: Seq<char>) -> RequestView {
    RequestView {
        method: Method::Post,
        url: endpoint(c, "/search/simple/"@),
        query: seq![("query"@, query)],
        headers: seq![auth_pair(c), ("Content-Type"@, "text/plain"@)],
        body: Some(query),
    }
}

pub open spec fn search_query_request(c: ClientView, query: Seq<char>) -> RequestView {
    plain_request(
        Method::Post,
        endpoint(c, "/search/"@),
        seq![auth_pair(c), ("Content-Type"@, "application/vnd.olrapi.dataview.dql+txt"@)],
        Some(query),
    )
}

pub open spec fn list_commands_request(c: ClientView) -> RequestView {
    plain_request(Method::Get, endpoint(c, "/commands/"@), seq![auth_pair(c)], None)
}

pub open spec fn execute_command_request(c: ClientView, command_id: Seq<char>) -> RequestView {
    plain_request(
        Method::Post,
        endpoint(c, "/commands/"@ + command_id + "/"@),
        seq![auth_pair(c)],
        None,
    )
}

pub open spec fn open_file_request(c: ClientView, filename: Seq<char>) -> RequestView {
    plain_request(Method::Post, endpoint(c, "/open/"@ + filename), seq![auth_pair(c)], None)
}

pub open spec fn get_periodic_note_request(
    c: ClientView,
    period: Seq<char>,
    year: Option<u32>,
    month: Option<u32>,
    day: Option<u32>,
) -> RequestView {
    plain_request(
        Method::Get,
        endpoint(c, periodic_path(period, year, month, day)),
        seq![auth_pair(c), ("Accept"@, "text/markdown"@)],
        None,
    )
}

pub open spec fn update_periodic_note_request(
    c: ClientView,
    period: Seq<char>,
    year: Option<u32>,
    month: Option<u32>,
    day: Option<u32>,
    content: Seq<char>,
) -> RequestView {
    plain_request(
        Method::Put,
        endpoint(c, periodic_path(period, year, month, day)),
        seq![auth_pair(c), ("Content-Type"@, "text/markdown"@)],
        Some(content),
    )
}

pub open spec fn append_periodic_note_request(
    c: ClientView,
    period: Seq<char>,
    year: Option<u32>,
    month: Option<u32>,
    day: Option<u32>,
    content: Seq<char>,
) -> RequestView {
    plain_request(
        Method::Post,
        endpoint(c, periodic_path(period, year, month, day)),
        seq![auth_pair(c), ("Content-Type"@, "text/markdown"@)],
        Some(content),
    )
}

pub open spec fn patch_periodic_note_request(
    c: ClientView,
    period: Seq<char>,
    year: Option<u32>,
    month: Option<u32>,
    day: Option<u32>,
    p: PatchParamsView,
    content: Seq<char>,
) -> RequestView {
    plain_request(
        Method::Patch,
        endpoint(c, periodic_path(period, year, month, day)),
        patch_headers(c, p),
        Some(content),
    )
}

/// The body of a reply whose status and body were received, or the error it gives:
/// a non-success status is an API error carrying the status and the body text
/// (empty when the body could not be read); a body that could not be read is a
/// transport error.
pub open spec fn checked_body(reply: Result<ResponseView, Seq<char>>) -> Result<
    Seq<char>,
    AppErrorView,
> {
    match reply {
        Err(m) => Err(AppErrorView::Http(m)),
        Ok(r) => if !is_success(r.status) {
            Err(
                AppErrorView::Api {
                    status: r.status,
                    body: match r.body {
                        Ok(b) => b,
                        Err(_) => Seq::empty(),
                    },
                },
            )
        } else {
            match r.body {
                Ok(b) => Ok(b),
                Err(m) => Err(AppErrorView::Http(m)),
            }
        },
    }
}

/// The outcome of an operation that ignores the reply body.
pub open spec fn checked_status(reply: Result<ResponseView, Seq<char>>) -> Result<
    (),
    AppErrorView,
> {
    match reply {
        Err(m) => Err(AppErrorView::Http(m)),
        Ok(r) => if !is_success(r.status) {
            Err(
                AppErrorView::Api {
                    status: r.status,
                    body: match r.body {
                        Ok(b) => b,
                        Err(_) => Seq::empty(),
                    },
                },
            )
        } else {
            Ok(())
        },
    }
}

/// The message of a reply body that is not JSON.
pub open spec fn decode_error_message() -> Seq<char> {
    "error decoding response body"@
}

/// The outcome of an operation whose reply body is JSON: its compact text.
pub open spec fn checked_json(reply: Result<ResponseView, Seq<char>>) -> Result<
    Seq<char>,
    AppErrorView,
> {
    match checked_body(reply) {
        Err(e) => Err(e),
        Ok(b) => match compact_json(b) {
            Some(j) => Ok(j),
            None => Err(AppErrorView::Http(decode_error_message())),
        },
    }
}

/// The view of a reply: the response, or the message of the transport failure.
pub open spec fn reply_view(reply: Result<HttpResponse, String>) -> Result<
    ResponseView,
    Seq<char>,
> {
    match reply {
        Ok(r) => Ok(r@),
        Err(m) => Err(m@),
    }
}

/// The view of an outcome that carries text.
pub open spec fn text_outcome(r: Result<String, AppError>) -> Result<Seq<char>, AppErrorView> {
    match r {
        Ok(s) => Ok(s@),
        Err(e) => Err(e@),
    }
}

/// The view of an outcome that carries nothing.
pub open spec fn unit_outcome(r: Result<(), AppError>) -> Result<(), AppErrorView> {
    match r {
        Ok(_) => Ok(()),
        Err(e) => Err(e@),
    }
}

/// `s` as an owned string.
fn owned(s: &str) -> (r: String)
    ensures
        r@ == s@,
{
    String::from_str(s)
}

impl ObsidianClient {
    /// A client of the API at `base_url`, authenticating with `Bearer {api_key}`.
    pub fn new(base_url: String, api_key: String) -> (c: Self)
        ensures
            c@.base_url == base_url@,
            c@.bearer_token == "Bearer "@ + api_key@,
    {
        let mut bearer_token = String::from_str("Bearer ");
        bearer_token.append(api_key.as_str());
        ObsidianClient { base_url, bearer_token }
    }

    /// The base URL of the API.
    pub fn base_url(&self) -> (s: &str)
        ensures
            s@ == self@.base_url,
    {
        self.base_url.as_str()
    }

    /// The value of the `Authorization` header.
    pub fn bearer_token(&self) -> (s: &str)
        ensures
            s@ == self@.bearer_token,
    {
        self.bearer_token.as_str()
    }

    /// The absolute URL of an API path.
    pub fn url(&self, path: &str) -> (s: String)
        ensures
            s@ == endpoint(self@, path@),
    {
        let mut s = self.base_url.clone();
        s.append(path);
        s
    }

    /// The absolute URL of a periodic note.
    pub fn periodic_url(
        &self,
        period: &str,
        year: Option<u32>,
        month: Option<u32>,
        day: Option<u32>,
    ) -> (s: String)
        ensures
            s@ == endpoint(self@, periodic_path(period@, year, month, day)),
    {
        let mut p = String::from_str("/periodic/");
        p.append(period);
        p.append("/");
        match (year, month, day) {
            (Some(y), Some(m), Some(d)) => {
                push_decimal(&mut p, y);
                p.append("/");
                push_decimal(&mut p, m);
                p.append("/");
                push_decimal(&mut p, d);
                p.append("/");
            },
            _ => {},
        }
        self.url(p.as_str())
    }

    fn auth_headers(&self) -> (h: Vec<crate::http::Header>)
        ensures
            pairs_view(h@) == seq![auth_pair(self@)],
    {
        let mut h = no_pairs();
        push_pair(&mut h, "Authorization", self.bearer_token.as_str());
        h
    }

    fn auth_headers_with(&self, name: &str, value: &str) -> (h: Vec<crate::http::Header>)
        ensures
            pairs_view(h@) == seq![auth_pair(self@), (name@, value@)],
    {
        let mut h = self.auth_headers();
        push_pair(&mut h, name, value);
        h
    }

    fn patch_header_list(&self, params: &PatchParams) -> (h: Vec<crate::http::Header>)
        ensures
            pairs_view(h@) == patch_headers(self@, params@),
    {
        let content_type = match &params.content_type {
            Some(t) => t.as_str(),
            None => "text/markdown",
        };
        let mut h = self.auth_headers_with("Content-Type", content_type);
        push_pair(&mut h, "Operation", params.operation.as_str());
        push_pair(&mut h, "Target-Type", params.target_type.as_str());
        push_pair(&mut h, "Target", params.target.as_str());
        let ghost required = pairs_view(h@);
        if let Some(delimiter) = &params.target_delimiter {
            push_pair(&mut h, "Target-Delimiter", delimiter.as_str());
        }
        let ghost with_delimiter = pairs_view(h@);
        assert(with_delimiter =~= required + optional_pair(
            "Target-Delimiter"@,
            params@.target_delimiter,
        ));
        if let Some(trim) = params.trim_target_whitespace {
            push_pair(&mut h, "Trim-Target-Whitespace", if trim { "true" } else { "false" });
        }
        let ghost with_trim = pairs_view(h@);
        assert(with_trim =~= with_delimiter + optional_pair(
            "Trim-Target-Whitespace"@,
            optional_bool(params.trim_target_whitespace),
        ));
        if let Some(create) = params.create_target_if_missing {
            push_pair(&mut h, "Create-Target-If-Missing", if create { "true" } else { "false" });
        }
        assert(pairs_view(h@) =~= with_trim + optional_pair(
            "Create-Target-If-Missing"@,
            optional_bool(params.create_target_if_missing),
        ));
        h
    }

    fn vault_url(&self, path: &str) -> (s: String)
        ensures
            s@ == endpoint(self@, vault_path(path@)),
    {
        let mut p = String::from_str("/vault/");
        p.append(path);
        self.url(p.as_str())
    }

    /// `GET /`: server status and versions.
    pub fn server_info(&self) -> (r: HttpRequest)
        ensures
            r@ == server_info_request(self@),
    {
        let r = HttpRequest {
            method: Method::Get,
            url: self.url("/"),
            query: no_pairs(),
            headers: self.auth_headers(),
            body: None,
        };
        assert(r@ =~~= server_info_request(self@));
        r
    }

    /// `GET /vault/{path}` as markdown.
    pub fn read_note(&self, path: &str) -> (r: HttpRequest)
        ensures
            r@ == read_note_request(self@, path@),
    {
        let r = HttpRequest {
            method: Method::Get,
            url: self.vault_url(path),
            query: no_pairs(),
            headers: self.auth_headers_with("Accept", "text/markdown"),
            body: None,
        };
        assert(r@ =~~= read_note_request(self@, path@));
        r
    }

    /// `PUT /vault/{path}` with a markdown body: creates or overwrites the note.
    pub fn create_note(&self, path: &str, content: &str) -> (r: HttpRequest)
        ensures
            r@ == create_note_request(self@, path@, content@),
    {
        let r = HttpRequest {
            method: Method::Put,
            url: self.vault_url(path),
            query: no_pairs(),
            headers: self.auth_headers_with("Content-Type", "text/markdown"),
            body: Some(owned(content)),
        };
        assert(r@ =~~= create_note_request(self@, path@, content@));
        r
    }

    /// `POST /vault/{path}` with a markdown body: appends to the note.
    pub fn append_note(&self, path: &str, content: &str) -> (r: HttpRequest)
        ensures
            r@ == append_note_request(self@, path@, content@),
    {
        let r = HttpRequest {
            method: Method::Post,
            url: self.vault_url(path),
            query: no_pairs(),
            headers: self.auth_headers_with("Content-Type", "text/markdown"),
            body: Some(owned(content)),
        };
        assert(r@ =~~= append_note_request(self@, path@, content@));
        r
    }

    /// `PATCH /vault/{path}` with the patch parameters as headers and `content` as body.
    pub fn patch_note(&self, path: &str, params: &PatchParams, content: &str) -> (r: HttpRequest)
        ensures
            r@ == patch_note_request(self@, path@, params@, content@),
    {
        let r = HttpRequest {
            method: Method::Patch,
            url: self.vault_url(path),
            query: no_pairs(),
            headers: self.patch_header_list(params),
            body: Some(owned(content)),
        };
        assert(r@ =~~= patch_note_request(self@, path@, params@, content@));
        r
    }

    /// `DELETE /vault/{path}`.
    pub fn delete_note(&self, path: &str) -> (r: HttpRequest)
        ensures
            r@ == delete_note_request(self@, path@),
    {
        let r = HttpRequest {
            method: Method::Delete,
            url: self.vault_url(path),
            query: no_pairs(),
            headers: self.auth_headers(),
            body: None,
        };
        assert(r@ =~~= delete_note_request(self@, path@));
        r
    }

    /// `GET /vault/` or `GET /vault/{dir}/` as JSON.
    pub fn list_files(&self, path: Option<&str>) -> (r: HttpRequest)
        ensures
            r@ == list_files_request(
                self@,
                match path {
                    Some(p) => Some(p@),
                    None => None,
                },
            ),
    {
        let url = match path {
            Some(p) => {
                let mut s = String::from_str("/vault/");
                s.append(p);
                s.append("/");
                self.url(s.as_str())
            },
            None => self.url("/vault/"),
        };
        let r = HttpRequest {
            method: Method::Get,
            url,
            query: no_pairs(),
            headers: self.auth_headers_with("Accept", "application/json"),
            body: None,
        };
        assert(r@ =~~= list_files_request(
            self@,
            match path {
                Some(p) => Some(p@),
                None => None,
            },
        ));
        r
    }

    /// `POST /search/simple/?query={query}` with the query as a plain-text body.
    pub fn search_simple(&self, query: &str) -> (r: HttpRequest)
        ensures
            r@ == search_simple_request(self@, query@),
    {
        let mut q = no_pairs();
        push_pair(&mut q, "query", query);
        let r = HttpRequest {
            method: Method::Post,
            url: self.url("/search/simple/"),
            query: q,
            headers: self.auth_headers_with("Content-Type", "text/plain"),
            body: Some(owned(query)),
        };
        assert(r@ =~~= search_simple_request(self@, query@));
        r
    }

    /// `POST /search/` with a Dataview DQL body.
    pub fn search_query(&self, query: &str) -> (r: HttpRequest)
        ensures
            r@ == search_query_request(self@, query@),
    {
        let r = HttpRequest {
            method: Method::Post,
            url: self.url("/search/"),
            query: no_pairs(),
            headers: self.auth_headers_with(
                "Content-Type",
                "application/vnd.olrapi.dataview.dql+txt",
            ),
            body: Some(owned(query)),
        };
        assert(r@ =~~= search_query_request(self@, query@));
        r
    }

    /// `GET /commands/`.
    pub fn list_commands(&self) -> (r: HttpRequest)
        ensures
            r@ == list_commands_request(self@),
    {
        let r = HttpRequest {
            method: Method::Get,
            url: self.url("/commands/"),
            query: no_pairs(),
            headers: self.auth_headers(),
            body: None,
        };
        assert(r@ =~~= list_commands_request(self@));
        r
    }

    /// `POST /commands/{command_id}/`.
    pub fn execute_command(&self, command_id: &str) -> (r: HttpRequest)
        ensures
            r@ == execute_command_request(self@, command_id@),
    {
        let mut p = String::from_str("/commands/");
        p.append(command_id);
        p.append("/");
        let r = HttpRequest {
            method: Method::Post,
            url: self.url(p.as_str()),
            query: no_pairs(),
            headers: self.auth_headers(),
            body: None,
        };
        assert(r@ =~~= execute_command_request(self@, command_id@));
        r
    }

    /// `POST /open/{filename}`: opens the file in the Obsidian UI.
    pub fn open_file(&self, filename: &str) -> (r: HttpRequest)
        ensures
            r@ == open_file_request(self@, filename@),
    {
        let mut p = String::from_str("/open/");
        p.append(filename);
        let r = HttpRequest {
            method: Method::Post,
            url: self.url(p.as_str()),
            query: no_pairs(),
            headers: self.auth_headers(),
            body: None,
        };
        assert(r@ =~~= open_file_request(self@, filename@));
        r
    }

    /// `GET` of a periodic note as markdown.
    pub fn get_periodic_note(
        &self,
        period: &str,
        year: Option<u32>,
        month: Option<u32>,
        day: Option<u32>,
    ) -> (r: HttpRequest)
        ensures
            r@ == get_periodic_note_request(self@, period@, year, month, day),
    {
        let r = HttpRequest {
            method: Method::Get,
            url: self.periodic_url(period, year, month, day),
            query: no_pairs(),
            headers: self.auth_headers_with("Accept", "text/markdown"),
            body: None,
        };
        assert(r@ =~~= get_periodic_note_request(self@, period@, year, month, day));
        r
    }

    /// `PUT` of a periodic note: replaces its whole content.
    pub fn update_periodic_note(
        &self,
        period: &str,
        year: Option<u32>,
        month: Option<u32>,
        day: Option<u32>,
        content: &str,
    ) -> (r: HttpRequest)
        ensures
            r@ == update_periodic_note_request(self@, period@, year, month, day, content@),
    {
        let r = HttpRequest {
            method: Method::Put,
            url: self.periodic_url(period, year, month, day),
            query: no_pairs(),
            headers: self.auth_headers_with("Content-Type", "text/markdown"),
            body: Some(owned(content)),
        };
        assert(r@ =~~= update_periodic_note_request(self@, period@, year, month, day, content@));
        r
    }

    /// `POST` to a periodic note: appends to it.
    pub fn append_periodic_note(
        &self,
        period: &str,
        year: Option<u32>,
        month: Option<u32>,
        day: Option<u32>,
        content: &str,
    ) -> (r: HttpRequest)
        ensures
            r@ == append_periodic_note_request(self@, period@, year, month, day, content@),
    {
        let r = HttpRequest {
            method: Method::Post,
            url: self.periodic_url(period, year, month, day),
            query: no_pairs(),
            headers: self.auth_headers_with("Content-Type", "text/markdown"),
            body: Some(owned(content)),
        };
        assert(r@ =~~= append_periodic_note_request(self@, period@, year, month, day, content@));
        r
    }

    /// `PATCH` of a periodic note, with the patch parameters as headers.
    pub fn patch_periodic_note(
        &self,
        period: &str,
        year: Option<u32>,
        month: Option<u32>,
        day: Option<u32>,
        params: &PatchParams,
        content: &str,
    ) -> (r: HttpRequest)
        ensures
            r@ == patch_periodic_note_request(
                self@,
                period@,
                year,
                month,
                day,
                params@,
                content@,
            ),
    {
        let r = HttpRequest {
            method: Method::Patch,
            url: self.periodic_url(period, year, month, day),
            query: no_pairs(),
            headers: self.patch_header_list(params),
            body: Some(owned(content)),
        };
        assert(r@ =~~= patch_periodic_note_request(
            self@,
            period@,
            year,
            month,
            day,
            params@,
            content@,
        ));
        r
    }

    /// Passes a success reply through; turns any other status into an API
    /// error that carries the status and the body text (empty when unreadable).
    pub fn check_response(&self, resp: HttpResponse) -> (r: Result<HttpResponse, AppError>)
        ensures
            is_success(resp@.status) ==> (r matches Ok(x) && x@ == resp@),
            !is_success(resp@.status) ==> (r matches Err(e) && e@ == AppErrorView::Api {
                status: resp@.status,
                body: match resp@.body {
                    Ok(b) => b,
                    Err(_) => Seq::empty(),
                },
            }),
    {
        if status_is_success(resp.status) {
            Ok(resp)
        } else {
            let body = match resp.body {
                Ok(b) => b,
                Err(_) => String::new(),
            };
            Err(AppError::Api { status: resp.status, body })
        }
    }

    /// The body text of a reply, or the error it gives.
    pub fn text_reply(&self, reply: Result<HttpResponse, String>) -> (r: Result<String, AppError>)
        ensures
            text_outcome(r) == checked_body(reply_view(reply)),
    {
        match reply {
            Err(m) => Err(AppError::Http(m)),
            Ok(resp) => match self.check_response(resp) {
                Err(e) => Err(e),
                Ok(resp) => match resp.body {
                    Ok(b) => Ok(b),
                    Err(m) => Err(AppError::Http(m)),
                },
            },
        }
    }

    /// The compact JSON text of a reply body, or the error it gives.
    pub fn json_reply(&self, reply: Result<HttpResponse, String>) -> (r: Result<String, AppError>)
        ensures
            text_outcome(r) == checked_json(reply_view(reply)),
    {
        match self.text_reply(reply) {
            Err(e) => Err(e),
            Ok(body) => match reformat_json(body.as_str()) {
                Ok(j) => Ok(j),
                Err(_) => Err(AppError::Http(owned("error decoding response body"))),
            },
        }
    }

    /// The server information of a reply, given what decoding its body as a
    /// [`ServerInfo`] gave (`None` when the body is not such a JSON object).
    pub fn server_info_reply(
        &self,
        reply: Result<HttpResponse, String>,
        decoded: Option<ServerInfo>,
    ) -> (r: Result<ServerInfo, AppError>)
        ensures
            match checked_body(reply_view(reply)) {
                Err(e) => r matches Err(x) && x@ == e,
                Ok(_) => match decoded {
                    Some(info) => r == Ok::<ServerInfo, AppError>(info),
                    None => r matches Err(x) && x@ == AppErrorView::Http(decode_error_message()),
                },
            },
    {
        match self.text_reply(reply) {
            Err(e) => Err(e),
            Ok(_) => match decoded {
                Some(info) => Ok(info),
                None => Err(AppError::Http(owned("error decoding response body"))),
            },
        }
    }

    /// The outcome of a reply whose body is not needed.
    pub fn empty_reply(&self, reply: Result<HttpResponse, String>) -> (r: Result<(), AppError>)
        ensures
            unit_outcome(r) == checked_status(reply_view(reply)),
    {
        match reply {
            Err(m) => Err(AppError::Http(m)),
            Ok(resp) => match self.check_response(resp) {
                Err(e) => Err(e),
                Ok(_) => Ok(()),
            },
        }
    }
}

} // verus!

verus! {

/// A periodic note is addressed by date only when year, month and day are all
/// given; any partial date addresses the current period.
pub proof fn lemma_partial_date_falls_back(
    period: Seq<char>,
    year: Option<u32>,
    month: Option<u32>,
    day: Option<u32>,
)
    ensures
        !(year is Some && month is Some && day is Some) ==> periodic_path(period, year, month, day)
            == "/periodic/"@ + period + "/"@,
        (year is Some && month is Some && day is Some) ==> periodic_path(period, year, month, day)
            != "/periodic/"@ + period + "/"@,
{
    if year is Some && month is Some && day is Some {
        let base = "/periodic/"@ + period + "/"@;
        crate::text::lemma_decimal_is_digits(year->0 as nat);
        assert(periodic_path(period, year, month, day).len() > base.len());
    }
}

/// The four periodic-note operations address the same URL and differ only in
/// method: GET reads, PUT replaces, POST appends, PATCH patches.
pub proof fn lemma_periodic_operations_share_url(
    c: ClientView,
    period: Seq<char>,
    year: Option<u32>,
    month: Option<u32>,
    day: Option<u32>,
    p: PatchParamsView,
    content: Seq<char>,
)
    ensures
        ({
            let url = endpoint(c, periodic_path(period, year, month, day));
            &&& get_periodic_note_request(c, period, year, month, day).url == url
            &&& get_periodic_note_request(c, period, year, month, day).method == Method::Get
            &&& update_periodic_note_request(c, period, year, month, day, content).url == url
            &&& update_periodic_note_request(c, period, year, month, day, content).method
                == Method::Put
            &&& append_periodic_note_request(c, period, year, month, day, content).url == url
            &&& append_periodic_note_request(c, period, year, month, day, content).method
                == Method::Post
            &&& patch_periodic_note_request(c, period, year, month, day, p, content).url == url
            &&& patch_periodic_note_request(c, period, year, month, day, p, content).method
                == Method::Patch
        }),
{
}

/// The note operations all address `/vault/{path}` and differ only in method.
pub proof fn lemma_note_operations_share_url(
    c: ClientView,
    path: Seq<char>,
    p: PatchParamsView,
    content: Seq<char>,
)
    ensures
        ({
            let url = endpoint(c, vault_path(path));
            &&& read_note_request(c, path).url == url
            &&& read_note_request(c, path).method == Method::Get
            &&& create_note_request(c, path, content).url == url
            &&& create_note_request(c, path, content).method == Method::Put
            &&& append_note_request(c, path, content).url == url
            &&& append_note_request(c, path, content).method == Method::Post
            &&& patch_note_request(c, path, p, content).url == url
            &&& patch_note_request(c, path, p, content).method == Method::Patch
            &&& delete_note_request(c, path).url == url
            &&& delete_note_request(c, path).method == Method::Delete
        }),
{
}

/// Whether some pair of `pairs` at or after index `from` is named `name`.
pub open spec fn has_pair_named(pairs: Pairs, from: int, name: Seq<char>) -> bool {
    exists|i: int| from <= i < pairs.len() && #[trigger] pairs[i].0 == name
}

/// A PATCH request carries its parameters as headers: the five fixed headers
/// first, then each optional header exactly when its parameter is present,
/// with the parameter's text as value.
pub proof fn lemma_patch_headers_follow_params(c: ClientView, p: PatchParamsView)
    ensures
        patch_headers(c, p).len() >= 5,
        patch_headers(c, p)[0] == auth_pair(c),
        patch_headers(c, p)[1] == ("Content-Type"@, patch_content_type(p)),
        patch_headers(c, p)[2] == ("Operation"@, p.operation.name()),
        patch_headers(c, p)[3] == ("Target-Type"@, p.target_type.name()),
        patch_headers(c, p)[4] == ("Target"@, p.target),
        has_pair_named(patch_headers(c, p), 5, "Target-Delimiter"@) <==> p.target_delimiter is Some,
        has_pair_named(patch_headers(c, p), 5, "Trim-Target-Whitespace"@)
            <==> p.trim_target_whitespace is Some,
        has_pair_named(patch_headers(c, p), 5, "Create-Target-If-Missing"@)
            <==> p.create_target_if_missing is Some,
        forall|i: int|
            5 <= i < patch_headers(c, p).len() ==> {
                let h = #[trigger] patch_headers(c, p)[i];
                ||| (h.0 == "Target-Delimiter"@ && p.target_delimiter == Some(h.1))
                ||| (h.0 == "Trim-Target-Whitespace"@ && optional_bool(p.trim_target_whitespace)
                    == Some(h.1))
                ||| (h.0 == "Create-Target-If-Missing"@ && optional_bool(
                    p.create_target_if_missing,
                ) == Some(h.1))
            },
{
    reveal_strlit("Target-Delimiter");
    reveal_strlit("Trim-Target-Whitespace");
    reveal_strlit("Create-Target-If-Missing");
    let d = "Target-Delimiter"@;
    let t = "Trim-Target-Whitespace"@;
    let k = "Create-Target-If-Missing"@;
    assert(d.len() == 16 && t.len() == 22 && k.len() == 24);
    let h = patch_headers(c, p);
    let od = optional_pair(d, p.target_delimiter);
    let ot = optional_pair(t, optional_bool(p.trim_target_whitespace));
    let ok = optional_pair(k, optional_bool(p.create_target_if_missing));
    let tail = od + ot + ok;
    assert(h =~= seq![
        auth_pair(c),
        ("Content-Type"@, patch_content_type(p)),
        ("Operation"@, p.operation.name()),
        ("Target-Type"@, p.target_type.name()),
        ("Target"@, p.target),
    ] + tail);
    assert forall|i: int| 5 <= i < h.len() implies h[i] == tail[i - 5] by {}
    assert forall|i: int|
        0 <= i < tail.len() implies {
            let x = #[trigger] tail[i];
            ||| (x.0 == d && p.target_delimiter == Some(x.1))
            ||| (x.0 == t && optional_bool(p.trim_target_whitespace) == Some(x.1))
            ||| (x.0 == k && optional_bool(p.create_target_if_missing) == Some(x.1))
        } by {
        if i < od.len() {
            assert(tail[i] == od[i]);
        } else if i < od.len() + ot.len() {
            assert(tail[i] == ot[i - od.len()]);
        } else {
            assert(tail[i] == ok[i - od.len() - ot.len()]);
        }
    }
    if p.target_delimiter is Some {
        assert(h[5] == tail[0]);
        assert(h[5].0 == d);
    }
    if p.trim_target_whitespace is Some {
        let j: int = 5 + od.len() as int;
        assert(tail[j - 5] == ot[0]);
        assert(h[j].0 == t);
    }
    if p.create_target_if_missing is Some {
        let j: int = 5 + od.len() as int + ot.len() as int;
        assert(tail[j - 5] == ok[0]);
        assert(h[j].0 == k);
    }
}

} // verus!
