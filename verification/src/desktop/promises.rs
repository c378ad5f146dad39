//! What is promised of the window: of what is typed, clicked and pressed in it, and of what it hands
//! to assistants.
use super::chrome::{AskedPermissions, ChromeAskView, ChromeMessageView};
use super::shortcuts::{DesktopShortcut, DesktopShortcutKey, DesktopShortcutModifiers};
use super::window::CliAskView;
use crate::bookmark::CreateBookmarkRequestView;
use crate::control::plane::ControlPlaneView;
use crate::control::tabs::TabMove;
use crate::control::InnerStateView;
use crate::draw::DrawView;
use crate::error::ControlErrorView;
use crate::json::JsonMemberView;
use crate::pane::{AgentPaneConnectionView, AgentPaneStateView, PanePosition};
use crate::server::path::{HttpMethod, RouteView};
use crate::server::route_laws::{slash_free, written};
use crate::tab::{CreateTabRequestView, NavigateRequestView, TabStateView};
use vstd::prelude::*;

verus! {

broadcast use {crate::model::group_views, crate::draw::group_draw};

/// The kinds of messages are told apart.
proof fn kinds_are_apart()
    ensures
        "telescope.chrome.new_tab"@ != "telescope.chrome.open_cli_pane"@,
        "telescope.chrome.new_tab"@ != "telescope.chrome.stop_agent_pane"@,
        "telescope.chrome.new_tab"@ != "telescope.chrome.activate_tab"@,
        "telescope.chrome.new_tab"@ != "telescope.chrome.close_tab"@,
        "telescope.chrome.new_tab"@ != "telescope.chrome.navigate_tab"@,
        "telescope.chrome.new_tab"@ != "telescope.chrome.go_back"@,
        "telescope.chrome.new_tab"@ != "telescope.chrome.go_forward"@,
        "telescope.chrome.new_tab"@ != "telescope.chrome.reload_tab"@,
        "telescope.chrome.new_tab"@ != "telescope.chrome.bookmark_tab"@,
        "telescope.chrome.new_tab"@ != "telescope.chrome.save_credential"@,
        "telescope.chrome.new_tab"@ != "telescope.chrome.fill_credential"@,
        "telescope.chrome.new_tab"@ != "telescope.chrome.delete_credential"@,
        "telescope.chrome.new_tab"@ != "telescope.chrome.open_agent_pane"@,
        "telescope.chrome.open_cli_pane"@ != "telescope.chrome.stop_agent_pane"@,
        "telescope.chrome.open_cli_pane"@ != "telescope.chrome.activate_tab"@,
        "telescope.chrome.open_cli_pane"@ != "telescope.chrome.close_tab"@,
        "telescope.chrome.open_cli_pane"@ != "telescope.chrome.navigate_tab"@,
        "telescope.chrome.open_cli_pane"@ != "telescope.chrome.go_back"@,
        "telescope.chrome.open_cli_pane"@ != "telescope.chrome.go_forward"@,
        "telescope.chrome.open_cli_pane"@ != "telescope.chrome.reload_tab"@,
        "telescope.chrome.open_cli_pane"@ != "telescope.chrome.bookmark_tab"@,
        "telescope.chrome.open_cli_pane"@ != "telescope.chrome.save_credential"@,
        "telescope.chrome.open_cli_pane"@ != "telescope.chrome.fill_credential"@,
        "telescope.chrome.open_cli_pane"@ != "telescope.chrome.delete_credential"@,
        "telescope.chrome.open_cli_pane"@ != "telescope.chrome.open_agent_pane"@,
        "telescope.chrome.stop_agent_pane"@ != "telescope.chrome.activate_tab"@,
        "telescope.chrome.stop_agent_pane"@ != "telescope.chrome.close_tab"@,
        "telescope.chrome.stop_agent_pane"@ != "telescope.chrome.navigate_tab"@,
        "telescope.chrome.stop_agent_pane"@ != "telescope.chrome.go_back"@,
        "telescope.chrome.stop_agent_pane"@ != "telescope.chrome.go_forward"@,
        "telescope.chrome.stop_agent_pane"@ != "telescope.chrome.reload_tab"@,
        "telescope.chrome.stop_agent_pane"@ != "telescope.chrome.bookmark_tab"@,
        "telescope.chrome.stop_agent_pane"@ != "telescope.chrome.save_credential"@,
        "telescope.chrome.stop_agent_pane"@ != "telescope.chrome.fill_credential"@,
        "telescope.chrome.stop_agent_pane"@ != "telescope.chrome.delete_credential"@,
        "telescope.chrome.stop_agent_pane"@ != "telescope.chrome.open_agent_pane"@,
        "telescope.chrome.activate_tab"@ != "telescope.chrome.close_tab"@,
        "telescope.chrome.activate_tab"@ != "telescope.chrome.navigate_tab"@,
        "telescope.chrome.activate_tab"@ != "telescope.chrome.go_back"@,
        "telescope.chrome.activate_tab"@ != "telescope.chrome.go_forward"@,
        "telescope.chrome.activate_tab"@ != "telescope.chrome.reload_tab"@,
        "telescope.chrome.activate_tab"@ != "telescope.chrome.bookmark_tab"@,
        "telescope.chrome.activate_tab"@ != "telescope.chrome.save_credential"@,
        "telescope.chrome.activate_tab"@ != "telescope.chrome.fill_credential"@,
        "telescope.chrome.activate_tab"@ != "telescope.chrome.delete_credential"@,
        "telescope.chrome.activate_tab"@ != "telescope.chrome.open_agent_pane"@,
        "telescope.chrome.close_tab"@ != "telescope.chrome.navigate_tab"@,
        "telescope.chrome.close_tab"@ != "telescope.chrome.go_back"@,
        "telescope.chrome.close_tab"@ != "telescope.chrome.go_forward"@,
        "telescope.chrome.close_tab"@ != "telescope.chrome.reload_tab"@,
        "telescope.chrome.close_tab"@ != "telescope.chrome.bookmark_tab"@,
        "telescope.chrome.close_tab"@ != "telescope.chrome.save_credential"@,
        "telescope.chrome.close_tab"@ != "telescope.chrome.fill_credential"@,
        "telescope.chrome.close_tab"@ != "telescope.chrome.delete_credential"@,
        "telescope.chrome.close_tab"@ != "telescope.chrome.open_agent_pane"@,
        "telescope.chrome.navigate_tab"@ != "telescope.chrome.go_back"@,
        "telescope.chrome.navigate_tab"@ != "telescope.chrome.go_forward"@,
        "telescope.chrome.navigate_tab"@ != "telescope.chrome.reload_tab"@,
        "telescope.chrome.navigate_tab"@ != "telescope.chrome.bookmark_tab"@,
        "telescope.chrome.navigate_tab"@ != "telescope.chrome.save_credential"@,
        "telescope.chrome.navigate_tab"@ != "telescope.chrome.fill_credential"@,
        "telescope.chrome.navigate_tab"@ != "telescope.chrome.delete_credential"@,
        "telescope.chrome.navigate_tab"@ != "telescope.chrome.open_agent_pane"@,
        "telescope.chrome.go_back"@ != "telescope.chrome.go_forward"@,
        "telescope.chrome.go_back"@ != "telescope.chrome.reload_tab"@,
        "telescope.chrome.go_back"@ != "telescope.chrome.bookmark_tab"@,
        "telescope.chrome.go_back"@ != "telescope.chrome.save_credential"@,
        "telescope.chrome.go_back"@ != "telescope.chrome.fill_credential"@,
        "telescope.chrome.go_back"@ != "telescope.chrome.delete_credential"@,
        "telescope.chrome.go_back"@ != "telescope.chrome.open_agent_pane"@,
        "telescope.chrome.go_forward"@ != "telescope.chrome.reload_tab"@,
        "telescope.chrome.go_forward"@ != "telescope.chrome.bookmark_tab"@,
        "telescope.chrome.go_forward"@ != "telescope.chrome.save_credential"@,
        "telescope.chrome.go_forward"@ != "telescope.chrome.fill_credential"@,
        "telescope.chrome.go_forward"@ != "telescope.chrome.delete_credential"@,
        "telescope.chrome.go_forward"@ != "telescope.chrome.open_agent_pane"@,
        "telescope.chrome.reload_tab"@ != "telescope.chrome.bookmark_tab"@,
        "telescope.chrome.reload_tab"@ != "telescope.chrome.save_credential"@,
        "telescope.chrome.reload_tab"@ != "telescope.chrome.fill_credential"@,
        "telescope.chrome.reload_tab"@ != "telescope.chrome.delete_credential"@,
        "telescope.chrome.reload_tab"@ != "telescope.chrome.open_agent_pane"@,
        "telescope.chrome.bookmark_tab"@ != "telescope.chrome.save_credential"@,
        "telescope.chrome.bookmark_tab"@ != "telescope.chrome.fill_credential"@,
        "telescope.chrome.bookmark_tab"@ != "telescope.chrome.delete_credential"@,
        "telescope.chrome.bookmark_tab"@ != "telescope.chrome.open_agent_pane"@,
        "telescope.chrome.save_credential"@ != "telescope.chrome.fill_credential"@,
        "telescope.chrome.save_credential"@ != "telescope.chrome.delete_credential"@,
        "telescope.chrome.save_credential"@ != "telescope.chrome.open_agent_pane"@,
        "telescope.chrome.fill_credential"@ != "telescope.chrome.delete_credential"@,
        "telescope.chrome.fill_credential"@ != "telescope.chrome.open_agent_pane"@,
        "telescope.chrome.delete_credential"@ != "telescope.chrome.open_agent_pane"@,
        "telescope.chrome.new_tab"@ != ""@,
        "telescope.chrome.open_cli_pane"@ != ""@,
        "telescope.chrome.stop_agent_pane"@ != ""@,
        "telescope.chrome.activate_tab"@ != ""@,
        "telescope.chrome.close_tab"@ != ""@,
        "telescope.chrome.navigate_tab"@ != ""@,
        "telescope.chrome.go_back"@ != ""@,
        "telescope.chrome.go_forward"@ != ""@,
        "telescope.chrome.reload_tab"@ != ""@,
        "telescope.chrome.bookmark_tab"@ != ""@,
        "telescope.chrome.save_credential"@ != ""@,
        "telescope.chrome.fill_credential"@ != ""@,
        "telescope.chrome.delete_credential"@ != ""@,
        "telescope.chrome.open_agent_pane"@ != ""@,
{
    reveal_strlit("");
    reveal_strlit("telescope.chrome.new_tab");
    reveal_strlit("telescope.chrome.open_cli_pane");
    reveal_strlit("telescope.chrome.stop_agent_pane");
    reveal_strlit("telescope.chrome.activate_tab");
    reveal_strlit("telescope.chrome.close_tab");
    reveal_strlit("telescope.chrome.navigate_tab");
    reveal_strlit("telescope.chrome.go_back");
    reveal_strlit("telescope.chrome.go_forward");
    reveal_strlit("telescope.chrome.reload_tab");
    reveal_strlit("telescope.chrome.bookmark_tab");
    reveal_strlit("telescope.chrome.save_credential");
    reveal_strlit("telescope.chrome.fill_credential");
    reveal_strlit("telescope.chrome.delete_credential");
    reveal_strlit("telescope.chrome.open_agent_pane");
    assert("telescope.chrome.new_tab"@.len() != "telescope.chrome.open_cli_pane"@.len());
    assert("telescope.chrome.new_tab"@.len() != "telescope.chrome.stop_agent_pane"@.len());
    assert("telescope.chrome.new_tab"@.len() != "telescope.chrome.activate_tab"@.len());
    assert("telescope.chrome.new_tab"@.len() != "telescope.chrome.close_tab"@.len());
    assert("telescope.chrome.new_tab"@.len() != "telescope.chrome.navigate_tab"@.len());
    assert("telescope.chrome.new_tab"@[17] != "telescope.chrome.go_back"@[17]);
    assert("telescope.chrome.new_tab"@.len() != "telescope.chrome.go_forward"@.len());
    assert("telescope.chrome.new_tab"@.len() != "telescope.chrome.reload_tab"@.len());
    assert("telescope.chrome.new_tab"@.len() != "telescope.chrome.bookmark_tab"@.len());
    assert("telescope.chrome.new_tab"@.len() != "telescope.chrome.save_credential"@.len());
    assert("telescope.chrome.new_tab"@.len() != "telescope.chrome.fill_credential"@.len());
    assert("telescope.chrome.new_tab"@.len() != "telescope.chrome.delete_credential"@.len());
    assert("telescope.chrome.new_tab"@.len() != "telescope.chrome.open_agent_pane"@.len());
    assert("telescope.chrome.open_cli_pane"@.len() != "telescope.chrome.stop_agent_pane"@.len());
    assert("telescope.chrome.open_cli_pane"@.len() != "telescope.chrome.activate_tab"@.len());
    assert("telescope.chrome.open_cli_pane"@.len() != "telescope.chrome.close_tab"@.len());
    assert("telescope.chrome.open_cli_pane"@.len() != "telescope.chrome.navigate_tab"@.len());
    assert("telescope.chrome.open_cli_pane"@.len() != "telescope.chrome.go_back"@.len());
    assert("telescope.chrome.open_cli_pane"@.len() != "telescope.chrome.go_forward"@.len());
    assert("telescope.chrome.open_cli_pane"@.len() != "telescope.chrome.reload_tab"@.len());
    assert("telescope.chrome.open_cli_pane"@.len() != "telescope.chrome.bookmark_tab"@.len());
    assert("telescope.chrome.open_cli_pane"@.len() != "telescope.chrome.save_credential"@.len());
    assert("telescope.chrome.open_cli_pane"@.len() != "telescope.chrome.fill_credential"@.len());
    assert("telescope.chrome.open_cli_pane"@.len() != "telescope.chrome.delete_credential"@.len());
    assert("telescope.chrome.open_cli_pane"@.len() != "telescope.chrome.open_agent_pane"@.len());
    assert("telescope.chrome.stop_agent_pane"@.len() != "telescope.chrome.activate_tab"@.len());
    assert("telescope.chrome.stop_agent_pane"@.len() != "telescope.chrome.close_tab"@.len());
    assert("telescope.chrome.stop_agent_pane"@.len() != "telescope.chrome.navigate_tab"@.len());
    assert("telescope.chrome.stop_agent_pane"@.len() != "telescope.chrome.go_back"@.len());
    assert("telescope.chrome.stop_agent_pane"@.len() != "telescope.chrome.go_forward"@.len());
    assert("telescope.chrome.stop_agent_pane"@.len() != "telescope.chrome.reload_tab"@.len());
    assert("telescope.chrome.stop_agent_pane"@.len() != "telescope.chrome.bookmark_tab"@.len());
    assert("telescope.chrome.stop_agent_pane"@[18] != "telescope.chrome.save_credential"@[18]);
    assert("telescope.chrome.stop_agent_pane"@[17] != "telescope.chrome.fill_credential"@[17]);
    assert("telescope.chrome.stop_agent_pane"@.len() != "telescope.chrome.delete_credential"@.len());
    assert("telescope.chrome.stop_agent_pane"@[17] != "telescope.chrome.open_agent_pane"@[17]);
    assert("telescope.chrome.activate_tab"@.len() != "telescope.chrome.close_tab"@.len());
    assert("telescope.chrome.activate_tab"@[17] != "telescope.chrome.navigate_tab"@[17]);
    assert("telescope.chrome.activate_tab"@.len() != "telescope.chrome.go_back"@.len());
    assert("telescope.chrome.activate_tab"@.len() != "telescope.chrome.go_forward"@.len());
    assert("telescope.chrome.activate_tab"@.len() != "telescope.chrome.reload_tab"@.len());
    assert("telescope.chrome.activate_tab"@[17] != "telescope.chrome.bookmark_tab"@[17]);
    assert("telescope.chrome.activate_tab"@.len() != "telescope.chrome.save_credential"@.len());
    assert("telescope.chrome.activate_tab"@.len() != "telescope.chrome.fill_credential"@.len());
    assert("telescope.chrome.activate_tab"@.len() != "telescope.chrome.delete_credential"@.len());
    assert("telescope.chrome.activate_tab"@.len() != "telescope.chrome.open_agent_pane"@.len());
    assert("telescope.chrome.close_tab"@.len() != "telescope.chrome.navigate_tab"@.len());
    assert("telescope.chrome.close_tab"@.len() != "telescope.chrome.go_back"@.len());
    assert("telescope.chrome.close_tab"@.len() != "telescope.chrome.go_forward"@.len());
    assert("telescope.chrome.close_tab"@.len() != "telescope.chrome.reload_tab"@.len());
    assert("telescope.chrome.close_tab"@.len() != "telescope.chrome.bookmark_tab"@.len());
    assert("telescope.chrome.close_tab"@.len() != "telescope.chrome.save_credential"@.len());
    assert("telescope.chrome.close_tab"@.len() != "telescope.chrome.fill_credential"@.len());
    assert("telescope.chrome.close_tab"@.len() != "telescope.chrome.delete_credential"@.len());
    assert("telescope.chrome.close_tab"@.len() != "telescope.chrome.open_agent_pane"@.len());
    assert("telescope.chrome.navigate_tab"@.len() != "telescope.chrome.go_back"@.len());
    assert("telescope.chrome.navigate_tab"@.len() != "telescope.chrome.go_forward"@.len());
    assert("telescope.chrome.navigate_tab"@.len() != "telescope.chrome.reload_tab"@.len());
    assert("telescope.chrome.navigate_tab"@[17] != "telescope.chrome.bookmark_tab"@[17]);
    assert("telescope.chrome.navigate_tab"@.len() != "telescope.chrome.save_credential"@.len());
    assert("telescope.chrome.navigate_tab"@.len() != "telescope.chrome.fill_credential"@.len());
    assert("telescope.chrome.navigate_tab"@.len() != "telescope.chrome.delete_credential"@.len());
    assert("telescope.chrome.navigate_tab"@.len() != "telescope.chrome.open_agent_pane"@.len());
    assert("telescope.chrome.go_back"@.len() != "telescope.chrome.go_forward"@.len());
    assert("telescope.chrome.go_back"@.len() != "telescope.chrome.reload_tab"@.len());
    assert("telescope.chrome.go_back"@.len() != "telescope.chrome.bookmark_tab"@.len());
    assert("telescope.chrome.go_back"@.len() != "telescope.chrome.save_credential"@.len());
    assert("telescope.chrome.go_back"@.len() != "telescope.chrome.fill_credential"@.len());
    assert("telescope.chrome.go_back"@.len() != "telescope.chrome.delete_credential"@.len());
    assert("telescope.chrome.go_back"@.len() != "telescope.chrome.open_agent_pane"@.len());
    assert("telescope.chrome.go_forward"@[17] != "telescope.chrome.reload_tab"@[17]);
    assert("telescope.chrome.go_forward"@.len() != "telescope.chrome.bookmark_tab"@.len());
    assert("telescope.chrome.go_forward"@.len() != "telescope.chrome.save_credential"@.len());
    assert("telescope.chrome.go_forward"@.len() != "telescope.chrome.fill_credential"@.len());
    assert("telescope.chrome.go_forward"@.len() != "telescope.chrome.delete_credential"@.len());
    assert("telescope.chrome.go_forward"@.len() != "telescope.chrome.open_agent_pane"@.len());
    assert("telescope.chrome.reload_tab"@.len() != "telescope.chrome.bookmark_tab"@.len());
    assert("telescope.chrome.reload_tab"@.len() != "telescope.chrome.save_credential"@.len());
    assert("telescope.chrome.reload_tab"@.len() != "telescope.chrome.fill_credential"@.len());
    assert("telescope.chrome.reload_tab"@.len() != "telescope.chrome.delete_credential"@.len());
    assert("telescope.chrome.reload_tab"@.len() != "telescope.chrome.open_agent_pane"@.len());
    assert("telescope.chrome.bookmark_tab"@.len() != "telescope.chrome.save_credential"@.len());
    assert("telescope.chrome.bookmark_tab"@.len() != "telescope.chrome.fill_credential"@.len());
    assert("telescope.chrome.bookmark_tab"@.len() != "telescope.chrome.delete_credential"@.len());
    assert("telescope.chrome.bookmark_tab"@.len() != "telescope.chrome.open_agent_pane"@.len());
    assert("telescope.chrome.save_credential"@[17] != "telescope.chrome.fill_credential"@[17]);
    assert("telescope.chrome.save_credential"@.len() != "telescope.chrome.delete_credential"@.len());
    assert("telescope.chrome.save_credential"@[17] != "telescope.chrome.open_agent_pane"@[17]);
    assert("telescope.chrome.fill_credential"@.len() != "telescope.chrome.delete_credential"@.len());
    assert("telescope.chrome.fill_credential"@[17] != "telescope.chrome.open_agent_pane"@[17]);
    assert("telescope.chrome.delete_credential"@.len() != "telescope.chrome.open_agent_pane"@.len());
}

/// What a message of the window asks for is what its kind names, on the tab and with the values that
/// it gives. A page is opened only by a message that gives its address, a login is saved under the
/// user it gives, and an assistant is opened beside the tab it gives.
pub proof fn messages_ask_for_what_they_say(message: ChromeMessageView, template: Seq<char>)
    ensures
        match super::chrome::chrome_ask(message, template) {
            ChromeAskView::Nothing => true,
            ChromeAskView::ActivateTab { tab_id } => message.kind == Some(
                "telescope.chrome.activate_tab"@,
            ) && message.tab_id == Some(tab_id),
            ChromeAskView::CloseTab { tab_id } => message.kind == Some(
                "telescope.chrome.close_tab"@,
            ) && message.tab_id == Some(tab_id),
            ChromeAskView::NewTab { url } => message.kind == Some("telescope.chrome.new_tab"@)
                && url == match message.url {
                Some(typed) => super::address::chrome_address(typed, template),
                None => None,
            },
            ChromeAskView::NavigateTab { tab_id, url } => message.kind == Some(
                "telescope.chrome.navigate_tab"@,
            ) && message.tab_id == Some(tab_id) && message.url is Some
                && super::address::chrome_address(message.url->0, template) == Some(url),
            ChromeAskView::GoBack { tab_id } => message.kind == Some("telescope.chrome.go_back"@)
                && message.tab_id == Some(tab_id),
            ChromeAskView::GoForward { tab_id } => message.kind == Some(
                "telescope.chrome.go_forward"@,
            ) && message.tab_id == Some(tab_id),
            ChromeAskView::ReloadTab { tab_id } => message.kind == Some(
                "telescope.chrome.reload_tab"@,
            ) && message.tab_id == Some(tab_id),
            ChromeAskView::BookmarkTab { tab_id } => message.kind == Some(
                "telescope.chrome.bookmark_tab"@,
            ) && message.tab_id == Some(tab_id),
            ChromeAskView::SaveCredential { tab_id, request } => {
                &&& message.kind == Some("telescope.chrome.save_credential"@)
                &&& message.tab_id == Some(tab_id)
                &&& message.username is Some && request.username == crate::text::trim(
                    message.username->0,
                ) && request.username.len() > 0
                &&& message.password == Some(request.password) && request.password.len() > 0
                &&& request.login_url is None
                &&& match message.label {
                    Some(label) => if crate::text::trim(label).len() > 0 {
                        request.label == Some(crate::text::trim(label))
                    } else {
                        request.label is None
                    },
                    None => request.label is None,
                }
            },
            ChromeAskView::FillCredential { tab_id, credential_id } => message.kind == Some(
                "telescope.chrome.fill_credential"@,
            ) && message.tab_id == Some(tab_id) && message.credential_id == Some(credential_id),
            ChromeAskView::DeleteCredential { tab_id, credential_id } => message.kind == Some(
                "telescope.chrome.delete_credential"@,
            ) && message.tab_id == Some(tab_id) && message.credential_id == Some(credential_id),
            ChromeAskView::OpenAgentPane { request } => {
                &&& message.kind == Some("telescope.chrome.open_agent_pane"@)
                &&& message.tab_id is Some && request.tab_id == message.tab_id
                &&& message.url is Some && super::address::codex_url(message.url->0) == Some(
                    request.url,
                )
                &&& message.position is Some && names(message.position->0, request.position)
                &&& request.ttl_seconds == Some(3600u64)
                &&& allowed_as_asked(
                    message.permissions,
                    request.allow_credentials,
                    request.allow_interactions,
                    request.allow_scripts,
                )
            },
            ChromeAskView::OpenCliPane { command, position } => {
                &&& message.kind == Some("telescope.chrome.open_cli_pane"@)
                &&& message.command is Some && super::address::cli_command(message.command->0)
                    == Some(command)
                &&& message.position is Some && names(message.position->0, position)
            },
            ChromeAskView::StopAgentPane { pane_id } => message.kind == Some(
                "telescope.chrome.stop_agent_pane"@,
            ) && message.pane_id == Some(pane_id),
        },
{
    kinds_are_apart();
}

/// Whether a word names a position.
pub open spec fn names(word: Seq<char>, position: PanePosition) -> bool {
    match position {
        PanePosition::Left => word == "left"@,
        PanePosition::Right => word == "right"@,
        PanePosition::Bottom => word == "bottom"@,
    }
}

/// Whether what an assistant is allowed is what was asked: nothing where it is only to read; else
/// credentials and interactions unless refused, and scripts only if asked for.
pub open spec fn allowed_as_asked(
    asked: AskedPermissions,
    credentials: bool,
    interactions: bool,
    scripts: bool,
) -> bool {
    let reads = asked.read_only == Some(true);
    &&& credentials <==> !reads && asked.allow_credentials != Some(false)
    &&& interactions <==> !reads && asked.allow_interactions != Some(false)
    &&& scripts <==> !reads && asked.allow_scripts == Some(true)
}

/// A message whose kind is known, and which gives what that kind needs, asks for something.
pub proof fn known_messages_are_heeded(
    message: ChromeMessageView,
    kind: Seq<char>,
    tab_id: Seq<char>,
    template: Seq<char>,
)
    requires
        message.kind == Some(kind),
        message.tab_id == Some(tab_id),
    ensures
        ({
            let ask = super::chrome::chrome_ask(message, template);
            &&& kind == "telescope.chrome.activate_tab"@ ==> ask is ActivateTab
            &&& kind == "telescope.chrome.close_tab"@ ==> ask is CloseTab
            &&& kind == "telescope.chrome.new_tab"@ ==> ask is NewTab
            &&& kind == "telescope.chrome.go_back"@ ==> ask is GoBack
            &&& kind == "telescope.chrome.go_forward"@ ==> ask is GoForward
            &&& kind == "telescope.chrome.reload_tab"@ ==> ask is ReloadTab
            &&& kind == "telescope.chrome.bookmark_tab"@ ==> ask is BookmarkTab
            &&& kind == "telescope.chrome.navigate_tab"@ && message.url is Some
                && super::address::chrome_address(message.url->0, template) is Some
                ==> ask is NavigateTab
            &&& kind == "telescope.chrome.save_credential"@ && message.username is Some
                && crate::text::trim(message.username->0).len() > 0 && message.password is Some
                && message.password->0.len() > 0 ==> ask is SaveCredential
            &&& kind == "telescope.chrome.fill_credential"@ && message.credential_id is Some
                ==> ask is FillCredential
            &&& kind == "telescope.chrome.delete_credential"@ && message.credential_id is Some
                ==> ask is DeleteCredential
            &&& kind == "telescope.chrome.stop_agent_pane"@ && message.pane_id is Some
                ==> ask is StopAgentPane
            &&& kind == "telescope.chrome.open_agent_pane"@ && message.url is Some
                && super::address::codex_url(message.url->0) is Some && message.position is Some
                && (message.position->0 == "left"@ || message.position->0 == "right"@
                || message.position->0 == "bottom"@) ==> ask is OpenAgentPane
            &&& kind == "telescope.chrome.open_cli_pane"@ && message.command is Some
                && super::address::cli_command(message.command->0) is Some && message.position
                is Some && (message.position->0 == "left"@ || message.position->0 == "right"@
                || message.position->0 == "bottom"@) ==> ask is OpenCliPane
        }),
{
    kinds_are_apart();
}

/// A key combination asks for what it stands for, on the active tab: with the command key and no
/// other, L reaches for the address, R reloads, T opens and W closes a tab; with Alt alone the
/// arrows go through the history; F5 reloads without any of them. Nothing else is asked for.
pub proof fn keys_ask_for_what_they_stand_for(
    modifiers: DesktopShortcutModifiers,
    key: DesktopShortcutKey,
    tab_id: Seq<char>,
)
    ensures
        ({
            let command = (modifiers.ctrl || modifiers.meta) && !modifiers.alt && !modifiers.shift;
            let alt = modifiers.alt && !modifiers.ctrl && !modifiers.meta && !modifiers.shift;
            let plain = !modifiers.ctrl && !modifiers.meta && !modifiers.alt;
            let pressed = super::shortcuts::shortcut(modifiers, key);
            &&& pressed == Some(DesktopShortcut::FocusAddress) <==> command
                && key is L
            &&& pressed == Some(DesktopShortcut::Reload) <==> (command && key is R) || (plain
                && key is F5)
            &&& pressed == Some(DesktopShortcut::NewTab) <==> command && key is T
            &&& pressed == Some(DesktopShortcut::CloseTab) <==> command && key is W
            &&& pressed == Some(DesktopShortcut::Back) <==> alt && key is ArrowLeft
            &&& pressed == Some(DesktopShortcut::Forward) <==> alt && key is ArrowRight
        }),
        super::chrome::shortcut_ask(DesktopShortcut::NewTab, tab_id) == (ChromeAskView::NewTab {
            url: None,
        }),
        super::chrome::shortcut_ask(DesktopShortcut::CloseTab, tab_id) == (
        ChromeAskView::CloseTab { tab_id }),
        super::chrome::shortcut_ask(DesktopShortcut::Back, tab_id) == (ChromeAskView::GoBack {
            tab_id,
        }),
        super::chrome::shortcut_ask(DesktopShortcut::Forward, tab_id) == (
        ChromeAskView::GoForward { tab_id }),
        super::chrome::shortcut_ask(DesktopShortcut::Reload, tab_id) == (
        ChromeAskView::ReloadTab { tab_id }),
        super::chrome::shortcut_ask(DesktopShortcut::FocusAddress, tab_id)
            == ChromeAskView::Nothing,
{
}

/// Whether a step was taken and told, and saved logins stay as they are.
pub open spec fn taken<T>(
    before: ControlPlaneView,
    outcome: (ControlPlaneView, Result<(), ControlErrorView>),
    step: (InnerStateView, Result<T, ControlErrorView>),
) -> bool {
    &&& outcome.0.inner == step.0
    &&& outcome.0.vault == before.vault
    &&& outcome.1 is Ok <==> step.1 is Ok
    &&& outcome.1 is Err ==> outcome.1->Err_0 == step.1->Err_0
}

/// What is asked for is done, on the tab, pane or login that is named and in the owner's name.
pub proof fn asks_are_carried_out(
    plane: ControlPlaneView,
    ask: ChromeAskView,
    fault: Option<ControlErrorView>,
    draw: DrawView,
)
    ensures
        ({
            let outcome = super::chrome::carried_out(plane, ask, fault, draw);
            let state = plane.inner;
            match ask {
                ChromeAskView::Nothing => outcome.0 == plane && outcome.1 is Ok,
                ChromeAskView::OpenCliPane { .. } => outcome.0 == plane && outcome.1 is Ok,
                ChromeAskView::ActivateTab { tab_id } => taken(
                    plane,
                    outcome,
                    crate::control::tabs::activate_tab(state, tab_id, draw),
                ),
                ChromeAskView::CloseTab { tab_id } => taken(
                    plane,
                    outcome,
                    crate::control::tabs::close_tab(state, tab_id, draw),
                ),
                ChromeAskView::NewTab { url } => taken(
                    plane,
                    outcome,
                    crate::control::tabs::create_tab(
                        state,
                        CreateTabRequestView { url, session_id: None },
                        true,
                        draw,
                    ),
                ),
                ChromeAskView::NavigateTab { tab_id, url } => taken(
                    plane,
                    outcome,
                    crate::control::tabs::navigate_tab(
                        state,
                        tab_id,
                        NavigateRequestView { url, session_id: None },
                        None,
                        draw,
                    ),
                ),
                ChromeAskView::GoBack { tab_id } => taken(
                    plane,
                    outcome,
                    crate::control::tabs::move_tab(state, tab_id, TabMove::Back, draw),
                ),
                ChromeAskView::GoForward { tab_id } => taken(
                    plane,
                    outcome,
                    crate::control::tabs::move_tab(state, tab_id, TabMove::Forward, draw),
                ),
                ChromeAskView::ReloadTab { tab_id } => taken(
                    plane,
                    outcome,
                    crate::control::tabs::move_tab(state, tab_id, TabMove::Reload, draw),
                ),
                ChromeAskView::BookmarkTab { tab_id } => outcome.0.vault == plane.vault,
                ChromeAskView::SaveCredential { tab_id, request } => {
                    let saved = crate::server::serve::logins_served(
                        plane,
                        crate::server::auth::AuthScopeView::Owner,
                        crate::server::call::LoginCallView::StoreTabCredential {
                            tab_id,
                            body: Ok(request),
                        },
                        fault,
                        draw,
                    );
                    outcome.0 == saved.0 && (outcome.1 is Ok <==> saved.1 is Answer)
                },
                ChromeAskView::DeleteCredential { tab_id, credential_id } => {
                    let gone = crate::server::serve::logins_served(
                        plane,
                        crate::server::auth::AuthScopeView::Owner,
                        crate::server::call::LoginCallView::DeleteTabCredential {
                            tab_id,
                            credential_id,
                        },
                        fault,
                        draw,
                    );
                    outcome.0 == gone.0 && (outcome.1 is Ok <==> gone.1 is Answer)
                },
                ChromeAskView::FillCredential { tab_id, credential_id } => taken(
                    plane,
                    outcome,
                    crate::control::credentials::fill_credential_for_tab(
                        plane,
                        tab_id,
                        credential_id,
                        draw,
                    ),
                ),
                ChromeAskView::OpenAgentPane { request } => taken(
                    plane,
                    outcome,
                    crate::control::scoped::open_scoped_agent_pane(state, request, draw),
                ),
                ChromeAskView::StopAgentPane {
                    pane_id,
                } => if state.agent_pane_connections.contains_key(pane_id) {
                    taken(
                        plane,
                        outcome,
                        crate::control::revoking::revoke_agent_grant(
                            state,
                            state.agent_pane_connections[pane_id].grant_token,
                            draw,
                        ),
                    )
                } else {
                    taken(
                        plane,
                        outcome,
                        crate::control::panes::close_agent_pane(state, pane_id, draw),
                    )
                },
            }
        }),
{
}

/// A tab is found by its identifier, where each has its own.
proof fn tabs_are_found_by_id(tabs: Seq<TabStateView>, at: int)
    requires
        0 <= at < tabs.len(),
        forall|i: int, j: int|
            0 <= i < j < tabs.len() ==> (#[trigger] tabs[i]).id != (#[trigger] tabs[j]).id,
    ensures
        super::chrome::tab_with_id(tabs, tabs[at].id) == Some(tabs[at]),
    decreases tabs.len(),
{
    let rest = tabs.drop_last();
    if at < rest.len() {
        tabs_are_found_by_id(rest, at);
    } else {
        other_tabs_are_not_found(rest, tabs[at].id);
    }
}

proof fn other_tabs_are_not_found(tabs: Seq<TabStateView>, id: Seq<char>)
    requires
        forall|i: int| 0 <= i < tabs.len() ==> (#[trigger] tabs[i]).id != id,
    ensures
        super::chrome::tab_with_id(tabs, id) is None,
    decreases tabs.len(),
{
    if tabs.len() > 0 {
        other_tabs_are_not_found(tabs.drop_last(), id);
        assert(tabs[tabs.len() - 1] == tabs.last());
    }
}

/// To keep the page of a tab is to save its address under its title.
pub proof fn tabs_are_saved_as_shown(state: InnerStateView, tab_id: Seq<char>, draw: DrawView)
    requires
        state.tabs.dom().finite(),
        state.tabs.contains_key(tab_id),
        forall|id: Seq<char>| #[trigger]
            state.tabs.contains_key(id) ==> state.tabs[id].id == id,
    ensures
        state.tabs[tab_id].current_url matches Some(url) ==> super::chrome::bookmark_tab(
            state,
            tab_id,
            draw,
        ) == crate::control::bookmarks::create_bookmark(
            state,
            CreateBookmarkRequestView { url, title: state.tabs[tab_id].title },
            draw,
        ),
        state.tabs[tab_id].current_url is None ==> super::chrome::bookmark_tab(
            state,
            tab_id,
            draw,
        ).1 is Err && super::chrome::bookmark_tab(state, tab_id, draw).0 == state,
{
    let tabs = crate::keyed::ordered_values(state.tabs);
    let keys = crate::keyed::ordered_keys(state.tabs);
    crate::keyed::values_are_listed_once(state.tabs);
    crate::keyed::finite_maps_can_be_ordered(state.tabs);
    assert forall|i: int, j: int| 0 <= i < j < tabs.len() implies (#[trigger] tabs[i]).id != (
    #[trigger] tabs[j]).id by {
        crate::text::text_before_is_irreflexive(keys[i]);
        assert(crate::text::text_before(keys[i], keys[j]));
    }
    assert(keys.to_set().contains(tab_id));
    let at = choose|at: int| 0 <= at < keys.len() && keys[at] == tab_id;
    assert(tabs[at] == state.tabs[tab_id]);
    tabs_are_found_by_id(tabs, at);
}

/// Once a tab is closed the one that was shown stays, unless it was the one closed: then the first
/// that remains is shown, or the main one.
pub proof fn closing_shows_what_remains(
    shown: Seq<char>,
    closed: Seq<char>,
    remaining: Seq<Seq<char>>,
    main: Seq<char>,
)
    ensures
        shown != closed ==> super::window::next_shown(shown, closed, remaining, main) == shown,
        shown == closed && remaining.len() > 0 ==> super::window::next_shown(
            shown,
            closed,
            remaining,
            main,
        ) == remaining[0],
        shown == closed && remaining.len() == 0 ==> super::window::next_shown(
            shown,
            closed,
            remaining,
            main,
        ) == main,
{
}

/// What the page of an assistant or of a tab says is taken for what its kind names.
pub proof fn pages_are_understood(kind: Seq<char>, text: Option<Seq<char>>)
    ensures
        match super::window::cli_ask(kind, text) {
            CliAskView::Input(input) => kind == "telescope.cli.input"@ && text == Some(input),
            CliAskView::PickElement => kind == "telescope.cli.pick_element"@,
            CliAskView::AddSelection => kind == "telescope.cli.add_selection"@,
            CliAskView::AddPageContext => kind == "telescope.cli.add_page_context"@,
            CliAskView::Close => kind == "telescope.cli.close"@,
            CliAskView::Nothing => text is None || kind != "telescope.cli.input"@,
        },
        super::window::page_report(kind) is ElementReference <==> kind
            == "telescope.element_reference"@,
        super::window::page_report(kind) is PageContext ==> kind == "telescope.page_context"@,
        super::window::page_report(kind) is CommandResult ==> kind == "telescope.command_result"@,
        super::window::page_report(kind) is Other ==> kind != "telescope.page_context"@ && kind
            != "telescope.command_result"@,
{
}

/// A path of three parts is written as the text of them.
proof fn deed_paths_are_written(kind: Seq<char>, id: Seq<char>, deed: Seq<char>)
    requires
        slash_free(kind),
        slash_free(id),
        slash_free(deed),
    ensures
        crate::server::path::parts_of("/v1/"@ + kind + "/"@ + id + "/"@ + deed) == seq![
            "v1"@,
            kind,
            id,
            deed,
        ],
        crate::server::path::parts_of("/v1/"@ + kind + "/"@ + id) == seq!["v1"@, kind, id],
        crate::server::path::parts_of("/v1/"@ + kind) == seq!["v1"@, kind],
{
    reveal_strlit("/v1/");
    reveal_strlit("v1");
    reveal_strlit("/");
    reveal_with_fuel(written, 5);
    let four = seq!["v1"@, kind, id, deed];
    let three = seq!["v1"@, kind, id];
    let two = seq!["v1"@, kind];
    assert(slash_free("v1"@));
    crate::server::route_laws::paths_read_back(four);
    crate::server::route_laws::paths_read_back(three);
    crate::server::route_laws::paths_read_back(two);
    assert(four.drop_first().drop_first().drop_first().drop_first() =~= Seq::empty());
    assert(three.drop_first().drop_first().drop_first() =~= Seq::empty());
    assert(two.drop_first().drop_first() =~= Seq::empty());
    assert(written(four) =~= "/v1/"@ + kind + "/"@ + id + "/"@ + deed);
    assert(written(three) =~= "/v1/"@ + kind + "/"@ + id);
    assert(written(two) =~= "/v1/"@ + kind);
}

/// What an assistant is handed are the pane's own identifier and address, and the session, tab,
/// token, leave and end of its connection. The paths that it is handed name, when asked for, what
/// they are handed out as: on its own tab and its own pane.
pub proof fn connections_are_handed_over(
    endpoint: Seq<char>,
    pane: AgentPaneStateView,
    connection: AgentPaneConnectionView,
)
    requires
        slash_free(pane.id),
        slash_free(connection.tab_id),
    ensures
        ({
            let handed = super::connection::connection_payload(endpoint, pane, connection);
            let api = handed.api;
            let tab_id = connection.tab_id;
            &&& handed.control_url == endpoint
            &&& handed.pane_id == pane.id
            &&& handed.pane_url == pane.url
            &&& handed.session_id == connection.session_id
            &&& handed.tab_id == connection.tab_id
            &&& handed.grant_token == connection.grant_token
            &&& handed.session_policy == connection.session_policy
            &&& handed.expires_at_unix == connection.expires_at_unix
            &&& crate::server::path::route_of(HttpMethod::Get, api.page_contexts)
                == RouteView::ListPageContexts
            &&& crate::server::path::route_of(HttpMethod::Get, api.element_refs)
                == RouteView::ListElementReferences
            &&& crate::server::path::route_of(HttpMethod::Get, api.command_results)
                == RouteView::ListCommandResults
            &&& crate::server::path::route_of(HttpMethod::Post, api.navigate) == (
            RouteView::NavigateTab { tab_id })
            &&& crate::server::path::route_of(HttpMethod::Post, api.tab_actions) == (
            RouteView::QueueAction { tab_id })
            &&& crate::server::path::route_of(HttpMethod::Post, api.login_options) == (
            RouteView::ListLoginOptions { tab_id })
            &&& crate::server::path::route_of(HttpMethod::Post, api.fill_login) == (
            RouteView::FillLogin { tab_id })
            &&& crate::server::path::route_of(HttpMethod::Delete, api.close_pane) == (
            RouteView::CloseAgentPane { pane_id: pane.id })
        }),
{
    reveal_strlit("/v1/");
    reveal_strlit("/");
    reveal_strlit("tabs");
    reveal_strlit("/v1/tabs/");
    reveal_strlit("agent-panes");
    reveal_strlit("/v1/agent-panes/");
    reveal_strlit("page-contexts");
    reveal_strlit("/v1/page-contexts");
    reveal_strlit("element-refs");
    reveal_strlit("/v1/element-refs");
    reveal_strlit("command-results");
    reveal_strlit("/v1/command-results");
    reveal_strlit("navigate");
    reveal_strlit("/navigate");
    reveal_strlit("actions");
    reveal_strlit("/actions");
    reveal_strlit("login-options");
    reveal_strlit("/login-options");
    reveal_strlit("fill-login");
    reveal_strlit("/fill-login");
    let tab_id = connection.tab_id;
    let api = super::connection::connection_payload(endpoint, pane, connection).api;
    assert(api.navigate =~= "/v1/"@ + "tabs"@ + "/"@ + tab_id + "/"@ + "navigate"@);
    assert(api.tab_actions =~= "/v1/"@ + "tabs"@ + "/"@ + tab_id + "/"@ + "actions"@);
    assert(api.login_options =~= "/v1/"@ + "tabs"@ + "/"@ + tab_id + "/"@ + "login-options"@);
    assert(api.fill_login =~= "/v1/"@ + "tabs"@ + "/"@ + tab_id + "/"@ + "fill-login"@);
    assert(api.close_pane =~= "/v1/"@ + "agent-panes"@ + "/"@ + pane.id);
    assert(api.page_contexts =~= "/v1/"@ + "page-contexts"@);
    assert(api.element_refs =~= "/v1/"@ + "element-refs"@);
    assert(api.command_results =~= "/v1/"@ + "command-results"@);
    deed_paths_are_written("tabs"@, tab_id, "navigate"@);
    deed_paths_are_written("tabs"@, tab_id, "actions"@);
    deed_paths_are_written("tabs"@, tab_id, "login-options"@);
    deed_paths_are_written("tabs"@, tab_id, "fill-login"@);
    deed_paths_are_written("agent-panes"@, pane.id, "navigate"@);
    deed_paths_are_written("page-contexts"@, tab_id, "navigate"@);
    deed_paths_are_written("element-refs"@, tab_id, "navigate"@);
    deed_paths_are_written("command-results"@, tab_id, "navigate"@);
    let post = HttpMethod::Post;
    let get = HttpMethod::Get;
    let delete = HttpMethod::Delete;
    crate::server::route_laws::deeds_are_named_by_their_path(
        post,
        api.navigate,
        "tabs"@,
        tab_id,
        "navigate"@,
    );
    crate::server::route_laws::deeds_are_named_by_their_path(
        post,
        api.tab_actions,
        "tabs"@,
        tab_id,
        "actions"@,
    );
    crate::server::route_laws::deeds_are_named_by_their_path(
        post,
        api.login_options,
        "tabs"@,
        tab_id,
        "login-options"@,
    );
    crate::server::route_laws::deeds_are_named_by_their_path(
        post,
        api.fill_login,
        "tabs"@,
        tab_id,
        "fill-login"@,
    );
    crate::server::route_laws::things_are_named_by_their_path(
        delete,
        api.close_pane,
        "agent-panes"@,
        pane.id,
    );
    crate::server::route_laws::kinds_are_named_by_their_path(
        get,
        api.page_contexts,
        "page-contexts"@,
    );
    crate::server::route_laws::kinds_are_named_by_their_path(
        get,
        api.element_refs,
        "element-refs"@,
    );
    crate::server::route_laws::kinds_are_named_by_their_path(
        get,
        api.command_results,
        "command-results"@,
    );
}

/// A script that sends a page elsewhere, or adds to a terminal, holds the literal of what it is
/// given where the page reads it.
pub proof fn scripts_hold_what_they_are_given(text: Seq<char>)
    ensures
        super::html::location_script(text) == "window.location.href = "@ + text + ";"@,
        super::html::append_script(text)
            == "window.__TELESCOPE_TERMINAL_APPEND && window.__TELESCOPE_TERMINAL_APPEND("@ + text
            + ");"@,
{
}

/// The tab that is shown first is the one that was opened for the first active one.
pub proof fn the_first_active_tab_is_shown(
    tabs: Seq<crate::desktop::startup::DesktopStartupTabView>,
    opened: Seq<TabStateView>,
    at: int,
)
    requires
        0 <= at < tabs.len(),
        opened.len() == tabs.len(),
        tabs[at].active,
        forall|i: int| 0 <= i < at ==> !(#[trigger] tabs[i]).active,
    ensures
        super::window::first_shown(tabs, opened) == Some(opened[at].id),
{
    first_active_is_shown(tabs, opened, at);
}

proof fn first_active_is_shown(
    tabs: Seq<crate::desktop::startup::DesktopStartupTabView>,
    opened: Seq<TabStateView>,
    at: int,
)
    requires
        opened.len() >= tabs.len(),
        0 <= at,
        at < tabs.len() ==> tabs[at].active,
        forall|i: int| 0 <= i < at && i < tabs.len() ==> !(#[trigger] tabs[i]).active,
    ensures
        super::window::first_shown(tabs, opened) == if at < tabs.len() {
            Some(opened[at].id)
        } else {
            None
        },
    decreases tabs.len(),
{
    if tabs.len() > 0 {
        let rest = tabs.drop_last();
        assert forall|i: int| 0 <= i < at && i < rest.len() implies !(#[trigger] rest[i]).active by {
            assert(rest[i] == tabs[i]);
        }
        first_active_is_shown(rest, opened, at);
        assert(tabs[tabs.len() - 1] == tabs.last());
    }
}

/// The page of a terminal reads its pane and its command by their own names, and the chrome is made
/// with the address and the command that it is to offer.
pub proof fn pages_are_made_for_their_pane(pane_id: Seq<char>, command: Seq<char>)
    ensures
        crate::text::holds_text(
            super::html::terminal_page(pane_id, command),
            "const paneId = "@ + pane_id + ";\nconst command = "@ + command,
        ),
        super::html::chrome_page(pane_id, command) == crate::text::replace(
            crate::text::replace(
                super::parts::chrome_source(),
                "__TELESCOPE_DEFAULT_CODEX_URL_JSON__"@,
                pane_id,
            ),
            "__TELESCOPE_DEFAULT_CLI_COMMAND_JSON__"@,
            command,
        ),
{
    let head = super::parts::TERMINAL_PAGE@;
    let tail = super::parts::TERMINAL_REST@;
    let middle = "const paneId = "@ + pane_id + ";\nconst command = "@ + command;
    super::assistant_laws::the_middle_is_held(head, middle, tail);
    assert(super::html::terminal_page(pane_id, command) =~= head + middle + tail);
}

/// A failure is told with what was asked for.
pub proof fn failures_name_what_was_asked_for(ask: ChromeAskView)
    ensures
        ({
            let label = super::chrome::failure_label(ask);
            &&& ask is Nothing || ask is OpenCliPane ==> label.len() == 0
            &&& ask is ActivateTab ==> label == "activate tab"@
            &&& ask is CloseTab ==> label == "close tab"@
            &&& ask is NewTab ==> label == "new tab"@
            &&& ask is NavigateTab ==> label == "navigate tab"@
            &&& ask is GoBack ==> label == "back"@
            &&& ask is GoForward ==> label == "forward"@
            &&& ask is ReloadTab ==> label == "reload"@
            &&& ask is BookmarkTab ==> label == "bookmark"@
            &&& ask is SaveCredential ==> label == "save credential"@
            &&& ask is FillCredential ==> label == "fill credential"@
            &&& ask is DeleteCredential ==> label == "delete credential"@
            &&& ask is OpenAgentPane ==> label == "open agent pane"@
            &&& ask is StopAgentPane ==> label == "stop agent pane"@
        }),
{
    reveal_strlit("");
}

/// A pane that serves an agent is stopped by ending the grant it serves it under; any other is
/// closed.
pub proof fn panes_are_stopped_with_their_grant(
    state: InnerStateView,
    pane_id: Seq<char>,
    draw: DrawView,
)
    ensures
        ({
            let serves = state.agent_pane_connections.contains_key(pane_id);
            let token = state.agent_pane_connections[pane_id].grant_token;
            let ended = crate::control::revoking::revoke_agent_grant(state, token, draw);
            let closed = crate::control::panes::close_agent_pane(state, pane_id, draw);
            let (after, outcome) = super::chrome::stop_pane(state, pane_id, draw);
            &&& serves ==> after == ended.0 && (outcome is Ok <==> ended.1 is Ok)
            &&& !serves ==> after == closed.0 && (outcome is Ok <==> closed.1 is Ok)
        }),
{
}

/// Whether what was read under a name is the text that stands under it, and nothing where no text
/// does.
pub open spec fn read_under(read: Option<Seq<char>>, body: Seq<char>, name: Seq<char>) -> bool {
    match crate::json::member_of(body, name) {
        Ok(Some(JsonMemberView::Text(text))) => read == Some(text),
        _ => read is None,
    }
}

/// Whether a truth value was read under a name where one stands under it.
pub open spec fn flag_under(read: Option<bool>, body: Seq<char>, name: Seq<char>) -> bool {
    let member = crate::json::member_of(body, name);
    &&& read == Some(true) <==> member == Ok::<Option<JsonMemberView>, Seq<char>>(
        Some(JsonMemberView::Flag(true)),
    )
    &&& read == Some(false) <==> member == Ok::<Option<JsonMemberView>, Seq<char>>(
        Some(JsonMemberView::Flag(false)),
    )
}

/// Each part of a message is read from the member of its own name.
pub proof fn messages_are_read_by_name(body: Seq<char>)
    ensures
        ({
            let message = super::chrome::said_message(body);
            &&& read_under(message.kind, body, "type"@)
            &&& read_under(message.tab_id, body, "tab_id"@)
            &&& read_under(message.url, body, "url"@)
            &&& read_under(message.username, body, "username"@)
            &&& read_under(message.password, body, "password"@)
            &&& read_under(message.label, body, "label"@)
            &&& read_under(message.credential_id, body, "credential_id"@)
            &&& read_under(message.position, body, "position"@)
            &&& read_under(message.command, body, "command"@)
            &&& read_under(message.pane_id, body, "pane_id"@)
            &&& flag_under(message.permissions.read_only, body, "read_only"@)
            &&& flag_under(message.permissions.allow_credentials, body, "allow_credentials"@)
            &&& flag_under(message.permissions.allow_interactions, body, "allow_interactions"@)
            &&& flag_under(message.permissions.allow_scripts, body, "allow_scripts"@)
        }),
{
}

/// A message of an assistant's page is about the pane that it names, asks for what its kind says,
/// with the text that it holds, and is passed over just if it names no pane.
pub proof fn assistants_messages_are_read_by_name(
    body: Seq<char>,
    pane_id: Seq<char>,
    kind: Seq<char>,
    text: Option<Seq<char>>,
)
    ensures
        read_under(Some(pane_id), body, "pane_id"@) && read_under(Some(kind), body, "type"@)
            && read_under(text, body, "text"@) ==> super::window::cli_message(body) == Some(
            (pane_id, super::window::cli_ask(kind, text)),
        ),
        read_under(None, body, "pane_id"@) ==> super::window::cli_message(body) is None,
{
}

} // verus!
