//! The MCP tools of the server. A tool call is served in two steps: `prepare`
//! decides the one request to send to the Obsidian API (or rejects the call),
//! and `complete` turns the reply into the tool's text result or error.
use std::sync::Arc;

use vstd::prelude::*;

use crate::client::{
    append_note_request, append_periodic_note_request, checked_body, checked_json, checked_status,
    create_note_request, decode_error_message, delete_note_request, execute_command_request,
    get_periodic_note_request, list_commands_request, list_files_request, open_file_request,
    patch_note_request, patch_periodic_note_request, read_note_request, reply_view,
    search_query_request, search_simple_request, server_info_request, update_periodic_note_request,
    ClientView, ObsidianClient, ServerInfo,
};
use crate::error::{api_error_message, http_error_message, AppError, AppErrorView};
use crate::http::{HttpRequest, HttpResponse, RequestView, ResponseView};
use crate::text::{ends_with_newline, starts_with, trim_start, trim_start_spec};
use crate::types::{opt_view, Operation, PatchParams, PatchParamsView, TargetType};

verus! {

/// Kind of a tool error, as MCP reports it.
#[derive(Debug, Clone, Copy, PartialEq, Eq, Structural)]
pub enum ErrorCode {
    InvalidParams,
    InternalError,
}

/// The error a tool answers with.
#[derive(Debug)]
pub struct McpError {
    pub code: ErrorCode,
    pub message: String,
}

/// The mathematical value of an [`McpError`].
pub struct McpErrorView {
    pub code: ErrorCode,
    pub message: Seq<char>,
}

impl View for McpError {
    type V = McpErrorView;

    open spec fn view(&self) -> McpErrorView {
        McpErrorView { code: self.code, message: self.message@ }
    }
}

/// The server's MCP tools, backed by one Obsidian client.
pub struct ObsidianServer {
    client: Arc<ObsidianClient>,
}

impl View for ObsidianServer {
    type V = ClientView;

    closed spec fn view(&self) -> ClientView {
        self.client@
    }
}

/// Arguments of `read_note`.
#[derive(Debug)]
pub struct ReadNoteArgs {
    /// Path to the note, e.g. "folder/note.md"
    pub path: String,
}

/// Arguments of `create_note`.
#[derive(Debug)]
pub struct CreateNoteArgs {
    /// Path for the new note, e.g. "folder/note.md"
    pub path: String,
    /// Markdown content for the note
    pub content: String,
}

/// Arguments of `append_note`.
#[derive(Debug)]
pub struct AppendNoteArgs {
    /// Path to the note to append to
    pub path: String,
    /// Content to append
    pub content: String,
}

/// Arguments of `patch_note`.
#[derive(Debug)]
pub struct PatchNoteArgs {
    /// Path to the note to patch
    pub path: String,
    /// Patch operation: "append", "prepend", or "replace"
    pub operation: Operation,
    /// Target type: "heading", "block", or "frontmatter"
    pub target_type: TargetType,
    /// Target identifier. For headings: the heading text without the # prefix;
    /// sub-headings take the full path from the top-level heading with :: as
    /// delimiter (e.g. "Heading 1::Subheading 1"). For block references: the
    /// block ID. For frontmatter: the field name.
    pub target: String,
    /// Delimiter for nested heading paths (default: "::")
    pub target_delimiter: Option<String>,
    /// Trim whitespace from target before applying patch
    pub trim_target_whitespace: Option<bool>,
    /// Create the target if it doesn't exist (useful for frontmatter)
    pub create_target_if_missing: Option<bool>,
    /// Content-Type of the body; "text/markdown" when absent
    pub content_type: Option<String>,
    /// Content to insert at the target location
    pub content: String,
}

/// Arguments of `delete_note`.
#[derive(Debug)]
pub struct DeleteNoteArgs {
    /// Path to the note to delete
    pub path: String,
}

/// Arguments of `list_files`.
#[derive(Debug)]
pub struct ListFilesArgs {
    /// Directory path to list (omit for vault root)
    pub path: Option<String>,
}

/// Arguments of `search` and `search_query`.
#[derive(Debug)]
pub struct SearchArgs {
    /// Search query string
    pub query: String,
}

/// Arguments of `execute_command`.
#[derive(Debug)]
pub struct ExecuteCommandArgs {
    /// The command ID to execute
    pub command_id: String,
}

/// Arguments of `open_file`.
#[derive(Debug)]
pub struct OpenFileArgs {
    /// Path to the file to open in Obsidian UI
    pub path: String,
}

/// Arguments of `get_periodic_note`.
#[derive(Debug)]
pub struct GetPeriodicNoteArgs {
    /// Period type: "daily", "weekly", "monthly", "quarterly", "yearly"
    pub period: String,
    pub year: Option<u32>,
    pub month: Option<u32>,
    pub day: Option<u32>,
}

/// Arguments of `update_periodic_note`.
#[derive(Debug)]
pub struct UpdatePeriodicNoteArgs {
    /// Period type: "daily", "weekly", "monthly", "quarterly", "yearly"
    pub period: String,
    pub year: Option<u32>,
    pub month: Option<u32>,
    pub day: Option<u32>,
    /// New content to replace the entire note
    pub content: String,
}

/// Arguments of `append_periodic_note`.
#[derive(Debug)]
pub struct AppendPeriodicNoteArgs {
    /// Period type: "daily", "weekly", "monthly", "quarterly", "yearly"
    pub period: String,
    pub year: Option<u32>,
    pub month: Option<u32>,
    pub day: Option<u32>,
    /// Content to append
    pub content: String,
}

/// Arguments of `patch_periodic_note`.
#[derive(Debug)]
pub struct PatchPeriodicNoteArgs {
    /// Period type: "daily", "weekly", "monthly", "quarterly", "yearly"
    pub period: String,
    pub year: Option<u32>,
    pub month: Option<u32>,
    pub day: Option<u32>,
    /// Patch operation: "append", "prepend", or "replace"
    pub operation: Operation,
    /// Target type: "heading", "block", or "frontmatter"
    pub target_type: TargetType,
    /// Target identifier (see `PatchNoteArgs::target`)
    pub target: String,
    /// Delimiter for nested heading paths (default: "::")
    pub target_delimiter: Option<String>,
    /// Trim whitespace from target before applying patch
    pub trim_target_whitespace: Option<bool>,
    /// Create the target if it doesn't exist (useful for frontmatter)
    pub create_target_if_missing: Option<bool>,
    /// Content-Type of the body; "text/markdown" when absent
    pub content_type: Option<String>,
    /// Content to insert at the target location
    pub content: String,
}

/// A call of one of the tools that answer with text (all but `server_info`).
#[derive(Debug)]
pub enum ToolCall {
    ReadNote(ReadNoteArgs),
    CreateNote(CreateNoteArgs),
    AppendNote(AppendNoteArgs),
    PatchNote(PatchNoteArgs),
    DeleteNote(DeleteNoteArgs),
    ListFiles(ListFilesArgs),
    Search(SearchArgs),
    SearchQuery(SearchArgs),
    ListCommands,
    ExecuteCommand(ExecuteCommandArgs),
    OpenFile(OpenFileArgs),
    GetPeriodicNote(GetPeriodicNoteArgs),
    UpdatePeriodicNote(UpdatePeriodicNoteArgs),
    AppendPeriodicNote(AppendPeriodicNoteArgs),
    PatchPeriodicNote(PatchPeriodicNoteArgs),
}

/// Identity of the MCP server.
#[derive(Debug)]
pub struct Implementation {
    pub name: String,
    pub version: String,
}

/// What the server tells a client about itself when a session starts.
#[derive(Debug)]
pub struct ServerDescription {
    pub server_info: Implementation,
    pub instructions: Option<String>,
}

/// The message of an error from the Obsidian client (what its `Display` prints).
pub open spec fn app_error_message(e: AppErrorView) -> Seq<char> {
    match e {
        AppErrorView::Http(m) => http_error_message(m),
        AppErrorView::Api { status, body } => api_error_message(status, body),
        AppErrorView::Json => "JSON error: "@,
    }
}

/// The internal error a tool answers with when the Obsidian client fails.
pub open spec fn internal_error(e: AppErrorView) -> McpErrorView {
    McpErrorView { code: ErrorCode::InternalError, message: app_error_message(e) }
}

/// The message with which `search_query` rejects a query.
pub open spec fn table_only_message() -> Seq<char> {
    "Only TABLE queries are supported. LIST and TASK query types are not supported by the Obsidian Local REST API."@
}

/// A Dataview query that `search_query` accepts: after leading white space it
/// begins with `TABLE` (upper case).
pub open spec fn is_table_query(query: Seq<char>) -> bool {
    "TABLE"@.is_prefix_of(trim_start_spec(query))
}

/// The body sent by the patch tools: for an `append`, a line feed is added
/// when the content does not already end with one.
pub open spec fn patch_body(op: Operation, content: Seq<char>) -> Seq<char> {
    if op == Operation::Append && !(content.len() > 0 && content.last() == '\n') {
        content.push('\n')
    } else {
        content
    }
}

/// The patch parameters that a patch tool hands the client.
pub open spec fn tool_patch_params(
    operation: Operation,
    target_type: TargetType,
    target: String,
    target_delimiter: Option<String>,
    trim_target_whitespace: Option<bool>,
    create_target_if_missing: Option<bool>,
    content_type: Option<String>,
) -> PatchParamsView {
    PatchParamsView {
        operation,
        target_type,
        target: target@,
        target_delimiter: opt_view(target_delimiter),
        trim_target_whitespace,
        create_target_if_missing,
        content_type: opt_view(content_type),
    }
}

/// The request a tool call sends, or the error with which it is refused before any request.
pub open spec fn tool_request(c: ClientView, call: ToolCall) -> Result<RequestView, McpErrorView> {
    match call {
        ToolCall::ReadNote(a) => Ok(read_note_request(c, a.path@)),
        ToolCall::CreateNote(a) => Ok(create_note_request(c, a.path@, a.content@)),
        ToolCall::AppendNote(a) => Ok(append_note_request(c, a.path@, a.content@)),
        ToolCall::PatchNote(a) => Ok(
            patch_note_request(
                c,
                a.path@,
                tool_patch_params(
                    a.operation,
                    a.target_type,
                    a.target,
                    a.target_delimiter,
                    a.trim_target_whitespace,
                    a.create_target_if_missing,
                    a.content_type,
                ),
                patch_body(a.operation, a.content@),
            ),
        ),
        ToolCall::DeleteNote(a) => Ok(delete_note_request(c, a.path@)),
        ToolCall::ListFiles(a) => Ok(list_files_request(c, opt_view(a.path))),
        ToolCall::Search(a) => Ok(search_simple_request(c, a.query@)),
        ToolCall::SearchQuery(a) => if is_table_query(a.query@) {
            Ok(search_query_request(c, a.query@))
        } else {
            Err(McpErrorView { code: ErrorCode::InvalidParams, message: table_only_message() })
        },
        ToolCall::ListCommands => Ok(list_commands_request(c)),
        ToolCall::ExecuteCommand(a) => Ok(execute_command_request(c, a.command_id@)),
        ToolCall::OpenFile(a) => Ok(open_file_request(c, a.path@)),
        ToolCall::GetPeriodicNote(a) => Ok(
            get_periodic_note_request(c, a.period@, a.year, a.month, a.day),
        ),
        ToolCall::UpdatePeriodicNote(a) => Ok(
            update_periodic_note_request(c, a.period@, a.year, a.month, a.day, a.content@),
        ),
        ToolCall::AppendPeriodicNote(a) => Ok(
            append_periodic_note_request(c, a.period@, a.year, a.month, a.day, a.content@),
        ),
        ToolCall::PatchPeriodicNote(a) => Ok(
            patch_periodic_note_request(
                c,
                a.period@,
                a.year,
                a.month,
                a.day,
                tool_patch_params(
                    a.operation,
                    a.target_type,
                    a.target,
                    a.target_delimiter,
                    a.trim_target_whitespace,
                    a.create_target_if_missing,
                    a.content_type,
                ),
                patch_body(a.operation, a.content@),
            ),
        ),
    }
}

/// A client outcome carrying text, as a tool outcome.
pub open spec fn text_result(r: Result<Seq<char>, AppErrorView>) -> Result<Seq<char>, McpErrorView> {
    match r {
        Ok(t) => Ok(t),
        Err(e) => Err(internal_error(e)),
    }
}

/// A client outcome carrying nothing, answered on success with a confirmation.
pub open spec fn confirmation(r: Result<(), AppErrorView>, message: Seq<char>) -> Result<
    Seq<char>,
    McpErrorView,
> {
    match r {
        Ok(_) => Ok(message),
        Err(e) => Err(internal_error(e)),
    }
}

/// What a tool call answers, given the reply to its request: the note text,
/// the patched text, compact JSON, or a confirmation naming what was done.
pub open spec fn tool_result(call: ToolCall, reply: Result<ResponseView, Seq<char>>) -> Result<
    Seq<char>,
    McpErrorView,
> {
    match call {
        ToolCall::ReadNote(_) => text_result(checked_body(reply)),
        ToolCall::CreateNote(a) => confirmation(
            checked_status(reply),
            "Created note at "@ + a.path@,
        ),
        ToolCall::AppendNote(a) => confirmation(checked_status(reply), "Appended to "@ + a.path@),
        ToolCall::PatchNote(_) => text_result(checked_body(reply)),
        ToolCall::DeleteNote(a) => confirmation(checked_status(reply), "Deleted "@ + a.path@),
        ToolCall::ListFiles(_) => text_result(checked_json(reply)),
        ToolCall::Search(_) => text_result(checked_json(reply)),
        ToolCall::SearchQuery(_) => text_result(checked_json(reply)),
        ToolCall::ListCommands => text_result(checked_json(reply)),
        ToolCall::ExecuteCommand(a) => confirmation(
            checked_status(reply),
            "Executed command: "@ + a.command_id@,
        ),
        ToolCall::OpenFile(a) => confirmation(checked_status(reply), "Opened "@ + a.path@),
        ToolCall::GetPeriodicNote(_) => text_result(checked_body(reply)),
        ToolCall::UpdatePeriodicNote(a) => confirmation(
            checked_status(reply),
            "Updated "@ + a.period@ + " periodic note"@,
        ),
        ToolCall::AppendPeriodicNote(a) => confirmation(
            checked_status(reply),
            "Appended to "@ + a.period@ + " periodic note"@,
        ),
        ToolCall::PatchPeriodicNote(_) => text_result(checked_body(reply)),
    }
}

/// The view of a prepared request.
pub open spec fn prepared_view(r: Result<HttpRequest, McpError>) -> Result<RequestView, McpErrorView> {
    match r {
        Ok(q) => Ok(q@),
        Err(e) => Err(e@),
    }
}

/// The view of a tool outcome.
pub open spec fn outcome_view(r: Result<String, McpError>) -> Result<Seq<char>, McpErrorView> {
    match r {
        Ok(t) => Ok(t@),
        Err(e) => Err(e@),
    }
}

/// Turns an error of the Obsidian client into the tool's internal error.
pub fn to_mcp_error(e: &AppError) -> (r: McpError)
    ensures
        r.code == ErrorCode::InternalError,
        !(e@ is Json) ==> r@ == internal_error(e@),
        e@ is Json ==> "JSON error: "@.is_prefix_of(r@.message),
{
    McpError { code: ErrorCode::InternalError, message: e.to_string() }
}

fn text_outcome(r: Result<String, AppError>) -> (t: Result<String, McpError>)
    requires
        !(r matches Err(e) && e@ is Json),
    ensures
        outcome_view(t) == text_result(
            match r {
                Ok(s) => Ok(s@),
                Err(e) => Err(e@),
            },
        ),
{
    match r {
        Ok(s) => Ok(s),
        Err(e) => Err(to_mcp_error(&e)),
    }
}

fn confirm(r: Result<(), AppError>, message: String) -> (t: Result<String, McpError>)
    requires
        !(r matches Err(e) && e@ is Json),
    ensures
        outcome_view(t) == confirmation(
            match r {
                Ok(_) => Ok(()),
                Err(e) => Err(e@),
            },
            message@,
        ),
{
    match r {
        Ok(_) => Ok(message),
        Err(e) => Err(to_mcp_error(&e)),
    }
}

fn concat(a: &str, b: &str) -> (s: String)
    ensures
        s@ == a@ + b@,
{
    let mut s = String::from_str(a);
    s.append(b);
    s
}

fn clone_opt(o: &Option<String>) -> (r: Option<String>)
    ensures
        opt_view(r) == opt_view(*o),
{
    match o {
        Some(s) => Some(s.clone()),
        None => None,
    }
}

/// The body a patch tool sends.
pub fn patch_content(op: Operation, content: &str) -> (s: String)
    ensures
        s@ == patch_body(op, content@),
{
    let mut s = String::from_str(content);
    if op == Operation::Append && !ends_with_newline(content) {
        s.append("\n");
        proof {
            reveal_strlit("\n");
        }
        assert(s@ =~= content@.push('\n'));
    }
    s
}

/// Whether `search_query` accepts a Dataview query.
pub fn table_query(query: &str) -> (r: bool)
    ensures
        r == is_table_query(query@),
{
    starts_with(trim_start(query), "TABLE")
}

/// The patch parameters of a patch tool's arguments.
fn patch_params(
    operation: Operation,
    target_type: TargetType,
    target: &String,
    target_delimiter: &Option<String>,
    trim_target_whitespace: Option<bool>,
    create_target_if_missing: Option<bool>,
    content_type: &Option<String>,
) -> (p: PatchParams)
    ensures
        p@ == tool_patch_params(
            operation,
            target_type,
            *target,
            *target_delimiter,
            trim_target_whitespace,
            create_target_if_missing,
            *content_type,
        ),
{
    PatchParams {
        operation,
        target_type,
        target: target.clone(),
        target_delimiter: clone_opt(target_delimiter),
        trim_target_whitespace,
        create_target_if_missing,
        content_type: clone_opt(content_type),
    }
}

impl ObsidianServer {
    /// A server whose tools go through `client`.
    pub fn new(client: Arc<ObsidianClient>) -> (s: Self)
        ensures
            s@ == client@,
    {
        ObsidianServer { client }
    }

    /// The Obsidian client behind the tools.
    pub fn client(&self) -> (c: &ObsidianClient)
        ensures
            c@ == self@,
    {
        &self.client
    }

    /// The request that serves a tool call, or the error that refuses it
    /// before anything is sent (only a `search_query` that is not a TABLE query).
    pub fn prepare(&self, call: &ToolCall) -> (r: Result<HttpRequest, McpError>)
        ensures
            prepared_view(r) == tool_request(self@, *call),
    {
        let c: &ObsidianClient = &self.client;
        match call {
            ToolCall::ReadNote(a) => Ok(c.read_note(a.path.as_str())),
            ToolCall::CreateNote(a) => Ok(c.create_note(a.path.as_str(), a.content.as_str())),
            ToolCall::AppendNote(a) => Ok(c.append_note(a.path.as_str(), a.content.as_str())),
            ToolCall::PatchNote(a) => {
                let params = patch_params(
                    a.operation,
                    a.target_type,
                    &a.target,
                    &a.target_delimiter,
                    a.trim_target_whitespace,
                    a.create_target_if_missing,
                    &a.content_type,
                );
                let content = patch_content(a.operation, a.content.as_str());
                Ok(c.patch_note(a.path.as_str(), &params, content.as_str()))
            },
            ToolCall::DeleteNote(a) => Ok(c.delete_note(a.path.as_str())),
            ToolCall::ListFiles(a) => match &a.path {
                Some(p) => Ok(c.list_files(Some(p.as_str()))),
                None => Ok(c.list_files(None)),
            },
            ToolCall::Search(a) => Ok(c.search_simple(a.query.as_str())),
            ToolCall::SearchQuery(a) => {
                if !table_query(a.query.as_str()) {
                    return Err(
                        McpError {
                            code: ErrorCode::InvalidParams,
                            message: String::from_str(
                                "Only TABLE queries are supported. LIST and TASK query types are not supported by the Obsidian Local REST API.",
                            ),
                        },
                    );
                }
                Ok(c.search_query(a.query.as_str()))
            },
            ToolCall::ListCommands => Ok(c.list_commands()),
            ToolCall::ExecuteCommand(a) => Ok(c.execute_command(a.command_id.as_str())),
            ToolCall::OpenFile(a) => Ok(c.open_file(a.path.as_str())),
            ToolCall::GetPeriodicNote(a) => Ok(
                c.get_periodic_note(a.period.as_str(), a.year, a.month, a.day),
            ),
            ToolCall::UpdatePeriodicNote(a) => Ok(
                c.update_periodic_note(
                    a.period.as_str(),
                    a.year,
                    a.month,
                    a.day,
                    a.content.as_str(),
                ),
            ),
            ToolCall::AppendPeriodicNote(a) => Ok(
                c.append_periodic_note(
                    a.period.as_str(),
                    a.year,
                    a.month,
                    a.day,
                    a.content.as_str(),
                ),
            ),
            ToolCall::PatchPeriodicNote(a) => {
                let params = patch_params(
                    a.operation,
                    a.target_type,
                    &a.target,
                    &a.target_delimiter,
                    a.trim_target_whitespace,
                    a.create_target_if_missing,
                    &a.content_type,
                );
                let content = patch_content(a.operation, a.content.as_str());
                Ok(
                    c.patch_periodic_note(
                        a.period.as_str(),
                        a.year,
                        a.month,
                        a.day,
                        &params,
                        content.as_str(),
                    ),
                )
            },
        }
    }

    /// The tool's answer, given the reply to the request that `prepare` gave
    /// (or the message of the transport failure that stopped it).
    pub fn complete(&self, call: &ToolCall, reply: Result<HttpResponse, String>) -> (r: Result<
        String,
        McpError,
    >)
        ensures
            outcome_view(r) == tool_result(*call, reply_view(reply)),
    {
        let c: &ObsidianClient = &self.client;
        match call {
            ToolCall::ReadNote(_) => text_outcome(c.text_reply(reply)),
            ToolCall::CreateNote(a) => confirm(
                c.empty_reply(reply),
                concat("Created note at ", a.path.as_str()),
            ),
            ToolCall::AppendNote(a) => confirm(
                c.empty_reply(reply),
                concat("Appended to ", a.path.as_str()),
            ),
            ToolCall::PatchNote(_) => text_outcome(c.text_reply(reply)),
            ToolCall::DeleteNote(a) => confirm(
                c.empty_reply(reply),
                concat("Deleted ", a.path.as_str()),
            ),
            ToolCall::ListFiles(_) => text_outcome(c.json_reply(reply)),
            ToolCall::Search(_) => text_outcome(c.json_reply(reply)),
            ToolCall::SearchQuery(_) => text_outcome(c.json_reply(reply)),
            ToolCall::ListCommands => text_outcome(c.json_reply(reply)),
            ToolCall::ExecuteCommand(a) => confirm(
                c.empty_reply(reply),
                concat("Executed command: ", a.command_id.as_str()),
            ),
            ToolCall::OpenFile(a) => confirm(
                c.empty_reply(reply),
                concat("Opened ", a.path.as_str()),
            ),
            ToolCall::GetPeriodicNote(_) => text_outcome(c.text_reply(reply)),
            ToolCall::UpdatePeriodicNote(a) => {
                let mut m = concat("Updated ", a.period.as_str());
                m.append(" periodic note");
                confirm(c.empty_reply(reply), m)
            },
            ToolCall::AppendPeriodicNote(a) => {
                let mut m = concat("Appended to ", a.period.as_str());
                m.append(" periodic note");
                confirm(c.empty_reply(reply), m)
            },
            ToolCall::PatchPeriodicNote(_) => text_outcome(c.text_reply(reply)),
        }
    }

    /// The request of the `server_info` tool.
    pub fn server_info(&self) -> (r: HttpRequest)
        ensures
            r@ == server_info_request(self@),
    {
        self.client.server_info()
    }

    /// The `server_info` tool's answer, given the reply and what decoding its
    /// body as a [`ServerInfo`] gave.
    pub fn complete_server_info(
        &self,
        reply: Result<HttpResponse, String>,
        decoded: Option<ServerInfo>,
    ) -> (r: Result<ServerInfo, McpError>)
        ensures
            match checked_body(reply_view(reply)) {
                Err(e) => r matches Err(x) && x@ == internal_error(e),
                Ok(_) => match decoded {
                    Some(info) => r == Ok::<ServerInfo, McpError>(info),
                    None => r matches Err(x) && x@ == internal_error(
                        AppErrorView::Http(decode_error_message()),
                    ),
                },
            },
    {
        match self.client.server_info_reply(reply, decoded) {
            Ok(info) => Ok(info),
            Err(e) => Err(to_mcp_error(&e)),
        }
    }

    /// The server's name, version and usage instructions.
    pub fn get_info(&self) -> (d: ServerDescription)
        ensures
            d.server_info.name@ == "obsidian-mcp"@,
            d.server_info.version@ == "0.1.0"@,
            d.instructions matches Some(i) && i@
                == "MCP server for Obsidian vault operations via Local REST API"@,
    {
        ServerDescription {
            server_info: Implementation {
                name: String::from_str("obsidian-mcp"),
                version: String::from_str("0.1.0"),
            },
            instructions: Some(
                String::from_str("MCP server for Obsidian vault operations via Local REST API"),
            ),
        }
    }
}

} // verus!

verus! {

/// Every request a tool sends carries the client's `Authorization` header first.
pub proof fn lemma_every_request_is_authorized(c: ClientView, call: ToolCall)
    ensures
        tool_request(c, call) matches Ok(r) ==> r.headers.len() >= 1 && r.headers[0]
            == crate::client::auth_pair(c),
        server_info_request(c).headers.len() >= 1 && server_info_request(c).headers[0]
            == crate::client::auth_pair(c),
{
}

/// `search_query` sends its query exactly when it is a TABLE query; any other
/// query is refused as invalid parameters and nothing is sent.
pub proof fn lemma_only_table_queries_are_sent(c: ClientView, args: SearchArgs)
    ensures
        tool_request(c, ToolCall::SearchQuery(args)) is Ok <==> is_table_query(args.query@),
        !is_table_query(args.query@) ==> tool_request(c, ToolCall::SearchQuery(args)) == Err::<
            RequestView,
            McpErrorView,
        >(McpErrorView { code: ErrorCode::InvalidParams, message: table_only_message() }),
{
}

/// A reply with a non-success status makes every tool fail with an internal
/// error whose message is `Obsidian API error ({status}): {body}`; the decimal
/// status stands right after the opening parenthesis.
pub proof fn lemma_api_failure_reports_status(call: ToolCall, status: u16, body: Seq<char>)
    requires
        !crate::http::is_success(status),
    ensures
        tool_result(call, Ok(ResponseView { status, body: Ok(body) })) == Err::<
            Seq<char>,
            McpErrorView,
        >(McpErrorView { code: ErrorCode::InternalError, message: api_error_message(status, body) }),
        api_error_message(status, body).subrange(
            20,
            20 + crate::text::decimal(status as nat).len() as int,
        ) == crate::text::decimal(status as nat),
{
    reveal_strlit("Obsidian API error (");
    let prefix = "Obsidian API error ("@;
    assert(prefix.len() == 20);
    let d: Seq<char> = crate::text::decimal(status as nat);
    assert(api_error_message(status, body).subrange(20, 20 + d.len() as int) =~= d);
}

/// When the exchange itself fails, every tool fails with an internal error
/// whose message is `HTTP request failed: {message}`.
pub proof fn lemma_transport_failure_reported(call: ToolCall, message: Seq<char>)
    ensures
        tool_result(call, Err(message)) == Err::<Seq<char>, McpErrorView>(
            McpErrorView { code: ErrorCode::InternalError, message: http_error_message(message) },
        ),
{
}

/// An `append` patch always sends a body that ends with a line feed and
/// starts with the given content; adding the line feed twice changes nothing;
/// `prepend` and `replace` send the content unchanged.
pub proof fn lemma_append_patch_ends_with_newline(op: Operation, content: Seq<char>)
    ensures
        op == Operation::Append ==> patch_body(op, content).len() > 0 && patch_body(
            op,
            content,
        ).last() == '\n',
        content.is_prefix_of(patch_body(op, content)),
        patch_body(op, patch_body(op, content)) == patch_body(op, content),
        op != Operation::Append ==> patch_body(op, content) == content,
{
    assert(content =~= patch_body(op, content).subrange(0, content.len() as int));
}

} // verus!

verus! {

/// Every request a tool sends goes to the client's API: its URL begins with the base URL.
pub proof fn lemma_every_request_targets_the_api(c: ClientView, call: ToolCall)
    ensures
        tool_request(c, call) matches Ok(r) ==> c.base_url.is_prefix_of(r.url),
        c.base_url.is_prefix_of(server_info_request(c).url),
{
    assert forall|p: Seq<char>| #[trigger] crate::client::endpoint(c, p).subrange(
        0,
        c.base_url.len() as int,
    ) =~= c.base_url by {}
}

} // verus!

verus! {

/// `list_files` lists the directory it is given: a `GET` of
/// `{base}/vault/{dir}/` when a directory is given and of `{base}/vault/` only
/// when none is, asking for JSON, with no body.
pub proof fn lemma_list_files_lists_the_given_directory(c: ClientView, a: ListFilesArgs)
    ensures
        tool_request(c, ToolCall::ListFiles(a)) matches Ok(r) && r.method
            == crate::http::Method::Get && r.body is None && r.url == match a.path {
            Some(d) => c.base_url + ("/vault/"@ + d@ + "/"@),
            None => c.base_url + "/vault/"@,
        } && r.headers == seq![
            ("Authorization"@, c.bearer_token),
            ("Accept"@, "application/json"@),
        ],
        // Two listings of different directories go to different URLs.
        forall|b: ListFilesArgs|
            #![trigger tool_request(c, ToolCall::ListFiles(b))]
            a.path matches Some(d) && b.path matches Some(e) && d@ != e@ ==> tool_request(
                c,
                ToolCall::ListFiles(a),
            )->Ok_0.url != tool_request(c, ToolCall::ListFiles(b))->Ok_0.url,
{
    assert forall|b: ListFilesArgs|
        #![trigger tool_request(c, ToolCall::ListFiles(b))]
        a.path matches Some(d) && b.path matches Some(e) && d@ != e@ implies tool_request(
            c,
            ToolCall::ListFiles(a),
        )->Ok_0.url != tool_request(c, ToolCall::ListFiles(b))->Ok_0.url by {
        let d = a.path->0@;
        let e = b.path->0@;
        let ua = c.base_url + ("/vault/"@ + d + "/"@);
        let ub = c.base_url + ("/vault/"@ + e + "/"@);
        let n: int = c.base_url.len() as int + "/vault/"@.len() as int;
        if ua == ub {
            assert(ua.len() == ub.len());
            assert(d.len() == e.len());
            assert(d =~= ua.subrange(n, n + d.len() as int));
            assert(e =~= ub.subrange(n, n + e.len() as int));
        }
    }
}

/// The path of a periodic note, spelled out from the period and date:
/// `/periodic/{period}/{y}/{m}/{d}/` when year, month and day are all given,
/// `/periodic/{period}/` (the current period) otherwise.
pub open spec fn dated_periodic_path(
    period: Seq<char>,
    year: Option<u32>,
    month: Option<u32>,
    day: Option<u32>,
) -> Seq<char> {
    if year is Some && month is Some && day is Some {
        "/periodic/"@ + period + "/"@ + crate::text::decimal(year->0 as nat) + "/"@
            + crate::text::decimal(month->0 as nat) + "/"@ + crate::text::decimal(
            day->0 as nat,
        ) + "/"@
    } else {
        "/periodic/"@ + period + "/"@
    }
}

/// The periodic-note tools address the note of the date they are given: each
/// sends to `{base}` + the dated path of its own period, year, month and day,
/// so the four tools given one period and date all address one URL. Reading
/// is a `GET` without body, replacing a `PUT` and appending a `POST` whose body
/// is the given content, patching a `PATCH`.
pub proof fn lemma_periodic_tools_address_the_given_date(
    c: ClientView,
    g: GetPeriodicNoteArgs,
    u: UpdatePeriodicNoteArgs,
    ap: AppendPeriodicNoteArgs,
    p: PatchPeriodicNoteArgs,
)
    ensures
        tool_request(c, ToolCall::GetPeriodicNote(g)) matches Ok(r) && r.url == c.base_url
            + dated_periodic_path(g.period@, g.year, g.month, g.day) && r.method
            == crate::http::Method::Get && r.body is None,
        tool_request(c, ToolCall::UpdatePeriodicNote(u)) matches Ok(r) && r.url == c.base_url
            + dated_periodic_path(u.period@, u.year, u.month, u.day) && r.method
            == crate::http::Method::Put && r.body == Some(u.content@),
        tool_request(c, ToolCall::AppendPeriodicNote(ap)) matches Ok(r) && r.url == c.base_url
            + dated_periodic_path(ap.period@, ap.year, ap.month, ap.day) && r.method
            == crate::http::Method::Post && r.body == Some(ap.content@),
        tool_request(c, ToolCall::PatchPeriodicNote(p)) matches Ok(r) && r.url == c.base_url
            + dated_periodic_path(p.period@, p.year, p.month, p.day) && r.method
            == crate::http::Method::Patch,
        // Given one period and date, all four tools address one note.
        (g.period@ == ap.period@ && g.year == ap.year && g.month == ap.month && g.day == ap.day)
            ==> tool_request(c, ToolCall::GetPeriodicNote(g))->Ok_0.url == tool_request(
            c,
            ToolCall::AppendPeriodicNote(ap),
        )->Ok_0.url,
        (g.period@ == u.period@ && g.year == u.year && g.month == u.month && g.day == u.day)
            ==> tool_request(c, ToolCall::GetPeriodicNote(g))->Ok_0.url == tool_request(
            c,
            ToolCall::UpdatePeriodicNote(u),
        )->Ok_0.url,
        (g.period@ == p.period@ && g.year == p.year && g.month == p.month && g.day == p.day)
            ==> tool_request(c, ToolCall::GetPeriodicNote(g))->Ok_0.url == tool_request(
            c,
            ToolCall::PatchPeriodicNote(p),
        )->Ok_0.url,
        // A full date never addresses the current period's note.
        (ap.year is Some && ap.month is Some && ap.day is Some) ==> tool_request(
            c,
            ToolCall::AppendPeriodicNote(ap),
        )->Ok_0.url != c.base_url + ("/periodic/"@ + ap.period@ + "/"@),
        (p.year is Some && p.month is Some && p.day is Some) ==> tool_request(
            c,
            ToolCall::PatchPeriodicNote(p),
        )->Ok_0.url != c.base_url + ("/periodic/"@ + p.period@ + "/"@),
{
    if ap.year is Some && ap.month is Some && ap.day is Some {
        crate::text::lemma_decimal_is_digits(ap.year->0 as nat);
        assert(dated_periodic_path(ap.period@, ap.year, ap.month, ap.day).len() > (
        "/periodic/"@ + ap.period@ + "/"@).len());
        let url = tool_request(c, ToolCall::AppendPeriodicNote(ap))->Ok_0.url;
        assert(url == c.base_url + dated_periodic_path(ap.period@, ap.year, ap.month, ap.day));
        assert(url.len() > (c.base_url + ("/periodic/"@ + ap.period@ + "/"@)).len());
    }
    if p.year is Some && p.month is Some && p.day is Some {
        crate::text::lemma_decimal_is_digits(p.year->0 as nat);
        assert(dated_periodic_path(p.period@, p.year, p.month, p.day).len() > (
        "/periodic/"@ + p.period@ + "/"@).len());
        let url = tool_request(c, ToolCall::PatchPeriodicNote(p))->Ok_0.url;
        assert(url == c.base_url + dated_periodic_path(p.period@, p.year, p.month, p.day));
        assert(url.len() > (c.base_url + ("/periodic/"@ + p.period@ + "/"@)).len());
    }
}

/// The body a patch tool sends, spelled out: the content, with a line feed
/// added only for an `append` whose content does not end with one.
pub open spec fn expected_patch_body(op: Operation, content: Seq<char>) -> Seq<char> {
    if op == Operation::Append && (content.len() == 0 || content[content.len() - 1] != '\n') {
        content + seq!['\n']
    } else {
        content
    }
}

/// The headers a patch tool sends are taken from its own arguments: the
/// operation, target type and target at fixed places, the content type asked
/// for (else `text/markdown`), and each optional header exactly when its
/// argument is given, with that argument's text.
pub open spec fn patch_headers_from_args(
    c: ClientView,
    headers: Seq<(Seq<char>, Seq<char>)>,
    operation: Operation,
    target_type: TargetType,
    target: Seq<char>,
    target_delimiter: Option<Seq<char>>,
    trim_target_whitespace: Option<bool>,
    create_target_if_missing: Option<bool>,
    content_type: Option<Seq<char>>,
) -> bool {
    &&& headers.len() >= 5
    &&& headers[0] == ("Authorization"@, c.bearer_token)
    &&& headers[1] == ("Content-Type"@, match content_type {
        Some(t) => t,
        None => "text/markdown"@,
    })
    &&& headers[2] == ("Operation"@, operation.name())
    &&& headers[3] == ("Target-Type"@, target_type.name())
    &&& headers[4] == ("Target"@, target)
    &&& (crate::client::has_pair_named(headers, 5, "Target-Delimiter"@)
        <==> target_delimiter is Some)
    &&& (crate::client::has_pair_named(headers, 5, "Trim-Target-Whitespace"@)
        <==> trim_target_whitespace is Some)
    &&& (crate::client::has_pair_named(headers, 5, "Create-Target-If-Missing"@)
        <==> create_target_if_missing is Some)
    &&& forall|i: int|
        5 <= i < headers.len() ==> {
            let h = #[trigger] headers[i];
            ||| (h.0 == "Target-Delimiter"@ && target_delimiter == Some(h.1))
            ||| (h.0 == "Trim-Target-Whitespace"@ && trim_target_whitespace == Some(
                h.1 == "true"@,
            ) && (h.1 == "true"@ || h.1 == "false"@))
            ||| (h.0 == "Create-Target-If-Missing"@ && create_target_if_missing == Some(
                h.1 == "true"@,
            ) && (h.1 == "true"@ || h.1 == "false"@))
        }
}

proof fn lemma_bool_text(b: bool)
    ensures
        (crate::client::bool_text(b) == "true"@) == b,
        crate::client::bool_text(b) == "true"@ || crate::client::bool_text(b) == "false"@,
{
    reveal_strlit("true");
    reveal_strlit("false");
    assert("true"@.len() != "false"@.len());
}

proof fn lemma_patch_headers_from(c: ClientView, p: PatchParamsView)
    ensures
        patch_headers_from_args(
            c,
            crate::client::patch_headers(c, p),
            p.operation,
            p.target_type,
            p.target,
            p.target_delimiter,
            p.trim_target_whitespace,
            p.create_target_if_missing,
            p.content_type,
        ),
{
    crate::client::lemma_patch_headers_follow_params(c, p);
    let h = crate::client::patch_headers(c, p);
    if p.trim_target_whitespace is Some {
        lemma_bool_text(p.trim_target_whitespace->0);
    }
    if p.create_target_if_missing is Some {
        lemma_bool_text(p.create_target_if_missing->0);
    }
    assert forall|i: int|
        5 <= i < h.len() implies {
            let x = #[trigger] h[i];
            ||| (x.0 == "Target-Delimiter"@ && p.target_delimiter == Some(x.1))
            ||| (x.0 == "Trim-Target-Whitespace"@ && p.trim_target_whitespace == Some(
                x.1 == "true"@,
            ) && (x.1 == "true"@ || x.1 == "false"@))
            ||| (x.0 == "Create-Target-If-Missing"@ && p.create_target_if_missing == Some(
                x.1 == "true"@,
            ) && (x.1 == "true"@ || x.1 == "false"@))
        } by {
        let x = h[i];
        if x.0 == "Trim-Target-Whitespace"@ && crate::client::optional_bool(
            p.trim_target_whitespace,
        ) == Some(x.1) {
            lemma_bool_text(p.trim_target_whitespace->0);
        } else if x.0 == "Create-Target-If-Missing"@ && crate::client::optional_bool(
            p.create_target_if_missing,
        ) == Some(x.1) {
            lemma_bool_text(p.create_target_if_missing->0);
        }
    }
}

/// `patch_note` patches the note it names with the operation, target and
/// options it is given: a `PATCH` of `{base}/vault/{path}` whose headers come
/// from its own arguments and whose body is its content (with a line feed
/// added to an `append` that lacks one). `patch_periodic_note` does the same
/// for the periodic note of its period and date.
pub proof fn lemma_patch_tools_send_their_arguments(
    c: ClientView,
    a: PatchNoteArgs,
    p: PatchPeriodicNoteArgs,
)
    ensures
        tool_request(c, ToolCall::PatchNote(a)) matches Ok(r) && r.method
            == crate::http::Method::Patch && r.url == c.base_url + ("/vault/"@ + a.path@)
            && r.body == Some(expected_patch_body(a.operation, a.content@))
            && patch_headers_from_args(
            c,
            r.headers,
            a.operation,
            a.target_type,
            a.target@,
            opt_view(a.target_delimiter),
            a.trim_target_whitespace,
            a.create_target_if_missing,
            opt_view(a.content_type),
        ),
        tool_request(c, ToolCall::PatchPeriodicNote(p)) matches Ok(r) && r.method
            == crate::http::Method::Patch && r.url == c.base_url + dated_periodic_path(
            p.period@,
            p.year,
            p.month,
            p.day,
        ) && r.body == Some(expected_patch_body(p.operation, p.content@))
            && patch_headers_from_args(
            c,
            r.headers,
            p.operation,
            p.target_type,
            p.target@,
            opt_view(p.target_delimiter),
            p.trim_target_whitespace,
            p.create_target_if_missing,
            opt_view(p.content_type),
        ),
{
    lemma_patch_headers_from(
        c,
        tool_patch_params(
            a.operation,
            a.target_type,
            a.target,
            a.target_delimiter,
            a.trim_target_whitespace,
            a.create_target_if_missing,
            a.content_type,
        ),
    );
    lemma_patch_headers_from(
        c,
        tool_patch_params(
            p.operation,
            p.target_type,
            p.target,
            p.target_delimiter,
            p.trim_target_whitespace,
            p.create_target_if_missing,
            p.content_type,
        ),
    );
    assert(expected_patch_body(a.operation, a.content@) =~= patch_body(a.operation, a.content@));
    assert(expected_patch_body(p.operation, p.content@) =~= patch_body(p.operation, p.content@));
}

/// The writing note tools send the content they are given, unchanged, to
/// the note they name: `create_note` a `PUT` and `append_note` a `POST` of
/// `{base}/vault/{path}` with body `content`; the read and delete tools send
/// no body.
pub proof fn lemma_note_tools_send_their_content(
    c: ClientView,
    cr: CreateNoteArgs,
    ap: AppendNoteArgs,
    rd: ReadNoteArgs,
    dl: DeleteNoteArgs,
)
    ensures
        tool_request(c, ToolCall::CreateNote(cr)) matches Ok(r) && r.method
            == crate::http::Method::Put && r.url == c.base_url + ("/vault/"@ + cr.path@) && r.body
            == Some(cr.content@),
        tool_request(c, ToolCall::AppendNote(ap)) matches Ok(r) && r.method
            == crate::http::Method::Post && r.url == c.base_url + ("/vault/"@ + ap.path@) && r.body
            == Some(ap.content@),
        tool_request(c, ToolCall::ReadNote(rd)) matches Ok(r) && r.method
            == crate::http::Method::Get && r.url == c.base_url + ("/vault/"@ + rd.path@)
            && r.body is None,
        tool_request(c, ToolCall::DeleteNote(dl)) matches Ok(r) && r.method
            == crate::http::Method::Delete && r.url == c.base_url + ("/vault/"@ + dl.path@)
            && r.body is None,
{
}

} // verus!

verus! {

/// The search, command and open tools send their own arguments: `search`
/// POSTs to `{base}/search/simple/` with the query as the `query` URL
/// parameter and as the body; `search_query` POSTs a TABLE query unchanged as
/// the body to `{base}/search/`; `execute_command` POSTs to
/// `{base}/commands/{id}/`; `open_file` POSTs to `{base}/open/{path}`;
/// `list_commands` GETs `{base}/commands/`; `server_info` GETs `{base}/`.
pub proof fn lemma_other_tools_send_their_arguments(
    c: ClientView,
    s: SearchArgs,
    q: SearchArgs,
    e: ExecuteCommandArgs,
    o: OpenFileArgs,
)
    ensures
        tool_request(c, ToolCall::Search(s)) matches Ok(r) && r.method
            == crate::http::Method::Post && r.url == c.base_url + "/search/simple/"@ && r.query
            == seq![("query"@, s.query@)] && r.body == Some(s.query@),
        is_table_query(q.query@) ==> (tool_request(c, ToolCall::SearchQuery(q)) matches Ok(r)
            && r.method == crate::http::Method::Post && r.url == c.base_url + "/search/"@
            && r.body == Some(q.query@)),
        tool_request(c, ToolCall::ExecuteCommand(e)) matches Ok(r) && r.method
            == crate::http::Method::Post && r.url == c.base_url + ("/commands/"@ + e.command_id@
            + "/"@) && r.body is None,
        tool_request(c, ToolCall::OpenFile(o)) matches Ok(r) && r.method
            == crate::http::Method::Post && r.url == c.base_url + ("/open/"@ + o.path@)
            && r.body is None,
        tool_request(c, ToolCall::ListCommands) matches Ok(r) && r.method
            == crate::http::Method::Get && r.url == c.base_url + "/commands/"@ && r.body is None,
        server_info_request(c).method == crate::http::Method::Get && server_info_request(c).url
            == c.base_url + "/"@ && server_info_request(c).body is None,
{
}

/// On a successful reply with body `b`, each tool answers what it is for:
/// the reading and patching tools the body itself, the listing and search
/// tools the body as compact JSON (when it is JSON), and the writing tools a
/// confirmation that names the note, command or period they acted on.
pub proof fn lemma_tools_answer_the_reply(call: ToolCall, status: u16, b: Seq<char>)
    requires
        crate::http::is_success(status),
    ensures
        ({
            let answer = tool_result(call, Ok(ResponseView { status, body: Ok(b) }));
            match call {
                ToolCall::ReadNote(_) => answer == Ok::<Seq<char>, McpErrorView>(b),
                ToolCall::PatchNote(_) => answer == Ok::<Seq<char>, McpErrorView>(b),
                ToolCall::GetPeriodicNote(_) => answer == Ok::<Seq<char>, McpErrorView>(b),
                ToolCall::PatchPeriodicNote(_) => answer == Ok::<Seq<char>, McpErrorView>(b),
                ToolCall::ListFiles(_) | ToolCall::Search(_) | ToolCall::SearchQuery(_)
                | ToolCall::ListCommands => match crate::json::compact_json(b) {
                    Some(j) => answer == Ok::<Seq<char>, McpErrorView>(j),
                    None => answer matches Err(x) && x.code == ErrorCode::InternalError,
                },
                ToolCall::CreateNote(a) => answer == Ok::<Seq<char>, McpErrorView>(
                    "Created note at "@ + a.path@,
                ),
                ToolCall::AppendNote(a) => answer == Ok::<Seq<char>, McpErrorView>(
                    "Appended to "@ + a.path@,
                ),
                ToolCall::DeleteNote(a) => answer == Ok::<Seq<char>, McpErrorView>(
                    "Deleted "@ + a.path@,
                ),
                ToolCall::ExecuteCommand(a) => answer == Ok::<Seq<char>, McpErrorView>(
                    "Executed command: "@ + a.command_id@,
                ),
                ToolCall::OpenFile(a) => answer == Ok::<Seq<char>, McpErrorView>(
                    "Opened "@ + a.path@,
                ),
                ToolCall::UpdatePeriodicNote(a) => answer == Ok::<Seq<char>, McpErrorView>(
                    "Updated "@ + a.period@ + " periodic note"@,
                ),
                ToolCall::AppendPeriodicNote(a) => answer == Ok::<Seq<char>, McpErrorView>(
                    "Appended to "@ + a.period@ + " periodic note"@,
                ),
            }
        }),
{
}

} // verus!
