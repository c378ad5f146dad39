//! The pages of the browser's own window.
use super::parts::{chrome_source_text, TERMINAL_COMMAND, TERMINAL_PAGE, TERMINAL_REST};
use crate::json::json_string;
use crate::text::{replaced, text2, text3, text5};
use vstd::prelude::*;

verus! {

/// Where the page of the chrome wants the address of assistants.
pub const CODEX_URL_MARK: &'static str = "__TELESCOPE_DEFAULT_CODEX_URL_JSON__";

/// Where the page of the chrome wants the command of assistants.
pub const CLI_COMMAND_MARK: &'static str = "__TELESCOPE_DEFAULT_CLI_COMMAND_JSON__";

/// The page of an assistant. The values are JavaScript literals.
pub open spec fn terminal_page(pane_id: Seq<char>, command: Seq<char>) -> Seq<char> {
    TERMINAL_PAGE@ + "const paneId = "@ + pane_id + TERMINAL_COMMAND@ + command + TERMINAL_REST@
}

/// The page of an assistant. The values are JavaScript literals.
pub fn terminal_page_text(pane_id: &str, command: &str) -> (page: String)
    ensures
        page@ == terminal_page(pane_id@, command@),
{
    let head = text2(TERMINAL_PAGE, "const paneId = ");
    text5(head.as_str(), pane_id, TERMINAL_COMMAND, command, TERMINAL_REST)
}

/// The page of an assistant.
pub fn assistant_cli_pane_html(pane_id: &str, command: &str) -> (page: String)
    ensures
        page@ == terminal_page(
            crate::json::json_text(pane_id@),
            crate::json::json_text(command@),
        ),
{
    let pane_id = json_string(pane_id);
    let command = json_string(command);
    terminal_page_text(pane_id.as_str(), command.as_str())
}

/// The page of the chrome. The values are JavaScript literals.
pub open spec fn chrome_page(codex_url: Seq<char>, cli_command: Seq<char>) -> Seq<char> {
    crate::text::replace(
        crate::text::replace(super::parts::chrome_source(), CODEX_URL_MARK@, codex_url),
        CLI_COMMAND_MARK@,
        cli_command,
    )
}

/// The page of the chrome. The values are JavaScript literals.
pub fn chrome_page_text(codex_url: &str, cli_command: &str) -> (page: String)
    ensures
        page@ == chrome_page(codex_url@, cli_command@),
{
    proof {
        reveal_strlit("__TELESCOPE_DEFAULT_CODEX_URL_JSON__");
        reveal_strlit("__TELESCOPE_DEFAULT_CLI_COMMAND_JSON__");
    }
    let source = chrome_source_text();
    let page = replaced(source.as_str(), CODEX_URL_MARK, codex_url);
    replaced(page.as_str(), CLI_COMMAND_MARK, cli_command)
}

/// The page of the chrome, with the address and the command of assistants.
pub fn browser_chrome_html(codex_url: Option<&str>, cli_command: &str) -> (page: String)
    ensures
        page@ == chrome_page(
            match codex_url {
                Some(url) => crate::json::json_text(url@),
                None => "null"@,
            },
            crate::json::json_text(cli_command@),
        ),
{
    let url = match codex_url {
        Some(url) => json_string(url),
        None => "null".to_owned(),
    };
    let command = json_string(cli_command);
    chrome_page_text(url.as_str(), command.as_str())
}

/// The script that sends a page elsewhere. The address is a JavaScript literal.
pub open spec fn location_script(url: Seq<char>) -> Seq<char> {
    "window.location.href = "@ + url + ";"@
}

/// The script that sends a page elsewhere.
pub fn navigation_script(url: &str) -> (script: String)
    ensures
        script@ == location_script(crate::json::json_text(url@)),
{
    text3("window.location.href = ", json_string(url).as_str(), ";")
}

/// The script that shows more output in the page of an assistant. The output is a JavaScript
/// literal.
pub open spec fn append_script(output: Seq<char>) -> Seq<char> {
    "window.__TELESCOPE_TERMINAL_APPEND && window.__TELESCOPE_TERMINAL_APPEND("@ + output + ");"@
}

/// The script that shows more output in the page of an assistant.
pub fn terminal_append_script(output: &str) -> (script: String)
    ensures
        script@ == append_script(crate::json::json_text(output@)),
{
    text3(
        "window.__TELESCOPE_TERMINAL_APPEND && window.__TELESCOPE_TERMINAL_APPEND(",
        json_string(output).as_str(),
        ");",
    )
}

} // verus!
