//! What the paths of requests name.
use super::path::{HttpMethod, RouteView};
use vstd::prelude::*;

verus! {

/// Whether a text can stand between slashes.
pub open spec fn slash_free(part: Seq<char>) -> bool {
    part.len() > 0 && !part.contains('/')
}

/// The path made of parts, each after a slash.
pub open spec fn written(parts: Seq<Seq<char>>) -> Seq<char>
    decreases parts.len(),
{
    if parts.len() == 0 {
        Seq::empty()
    } else {
        seq!['/'] + parts[0] + written(parts.drop_first())
    }
}

/// A path written from parts is read as these parts.
pub proof fn paths_read_back(parts: Seq<Seq<char>>)
    requires
        forall|i: int| 0 <= i < parts.len() ==> slash_free(#[trigger] parts[i]),
    ensures
        super::path::parts_of(written(parts)) == parts,
    decreases parts.len(),
{
    if parts.len() > 0 {
        let rest = parts.drop_first();
        assert forall|i: int| 0 <= i < rest.len() implies slash_free(#[trigger] rest[i]) by {
            assert(rest[i] == parts[i + 1]);
        }
        paths_read_back(rest);
        let path = written(parts);
        let head = parts[0];
        let tail = head + written(rest);
        assert(slash_free(head));
        crate::text::first_at_found(path, '/', 0);
        assert(path.take(0) =~= Seq::empty());
        assert(path.skip(1) =~= tail);
        assert(super::path::parts_of(path) == super::path::parts_of(tail));
        let n = head.len() as int;
        assert forall|i: int| 0 <= i < n implies tail[i] != '/' by {
            assert(head.contains(head[i]));
        }
        if rest.len() > 0 {
            assert(tail[n] == '/');
        }
        crate::text::first_at_found(tail, '/', n);
        assert(tail.take(n) =~= head);
        if rest.len() > 0 {
            let after = tail.skip(n + 1);
            assert(written(rest).skip(1) =~= after);
            crate::text::first_at_found(written(rest), '/', 0);
            assert(written(rest).take(0) =~= Seq::empty());
            assert(super::path::parts_of(written(rest)) == super::path::parts_of(after));
        }
        assert(seq![head] + rest =~= parts);
    }
}

/// A query names nothing: what follows the first question mark is not part of the path.
pub proof fn queries_are_left_out(path: Seq<char>, query: Seq<char>)
    requires
        !path.contains('?'),
    ensures
        super::path::path_of(path) == path,
        super::path::path_of(path + seq!['?'] + query) == path,
{
    let whole = path + seq!['?'] + query;
    assert forall|i: int| 0 <= i < path.len() implies path[i] != '?' by {
        assert(path.contains(path[i]));
    }
    crate::text::first_at_found(path, '?', path.len() as int);
    crate::text::first_at_found(whole, '?', path.len() as int);
    assert(path.take(path.len() as int) =~= path);
    assert(whole.take(path.len() as int) =~= path);
}

/// The words that paths are made of.
proof fn words_are_apart()
    ensures
        "actions"@ != "activate"@,
        "actions"@ != "back"@,
        "actions"@ != "connection"@,
        "actions"@ != "credentials"@,
        "actions"@ != "fill-login"@,
        "actions"@ != "forward"@,
        "actions"@ != "login-options"@,
        "actions"@ != "navigate"@,
        "actions"@ != "reload"@,
        "actions"@ != "result"@,
        "activate"@ != "back"@,
        "activate"@ != "connection"@,
        "activate"@ != "credentials"@,
        "activate"@ != "fill-login"@,
        "activate"@ != "forward"@,
        "activate"@ != "login-options"@,
        "activate"@ != "navigate"@,
        "activate"@ != "reload"@,
        "activate"@ != "result"@,
        "agent-grants"@ != "agent-panes"@,
        "agent-grants"@ != "audit-events"@,
        "agent-grants"@ != "bookmarks"@,
        "agent-grants"@ != "command-results"@,
        "agent-grants"@ != "commands"@,
        "agent-grants"@ != "credentials"@,
        "agent-grants"@ != "element-refs"@,
        "agent-grants"@ != "handoff"@,
        "agent-grants"@ != "page-contexts"@,
        "agent-grants"@ != "scoped-agent-panes"@,
        "agent-grants"@ != "sessions"@,
        "agent-grants"@ != "tabs"@,
        "agent-panes"@ != "audit-events"@,
        "agent-panes"@ != "bookmarks"@,
        "agent-panes"@ != "command-results"@,
        "agent-panes"@ != "commands"@,
        "agent-panes"@ != "credentials"@,
        "agent-panes"@ != "element-refs"@,
        "agent-panes"@ != "handoff"@,
        "agent-panes"@ != "page-contexts"@,
        "agent-panes"@ != "scoped-agent-panes"@,
        "agent-panes"@ != "sessions"@,
        "agent-panes"@ != "tabs"@,
        "audit-events"@ != "bookmarks"@,
        "audit-events"@ != "command-results"@,
        "audit-events"@ != "commands"@,
        "audit-events"@ != "credentials"@,
        "audit-events"@ != "element-refs"@,
        "audit-events"@ != "handoff"@,
        "audit-events"@ != "page-contexts"@,
        "audit-events"@ != "scoped-agent-panes"@,
        "audit-events"@ != "sessions"@,
        "audit-events"@ != "tabs"@,
        "back"@ != "connection"@,
        "back"@ != "credentials"@,
        "back"@ != "fill-login"@,
        "back"@ != "forward"@,
        "back"@ != "login-options"@,
        "back"@ != "navigate"@,
        "back"@ != "reload"@,
        "back"@ != "result"@,
        "bookmarks"@ != "command-results"@,
        "bookmarks"@ != "commands"@,
        "bookmarks"@ != "credentials"@,
        "bookmarks"@ != "element-refs"@,
        "bookmarks"@ != "handoff"@,
        "bookmarks"@ != "page-contexts"@,
        "bookmarks"@ != "scoped-agent-panes"@,
        "bookmarks"@ != "sessions"@,
        "bookmarks"@ != "tabs"@,
        "command-results"@ != "commands"@,
        "command-results"@ != "credentials"@,
        "command-results"@ != "element-refs"@,
        "command-results"@ != "handoff"@,
        "command-results"@ != "page-contexts"@,
        "command-results"@ != "scoped-agent-panes"@,
        "command-results"@ != "sessions"@,
        "command-results"@ != "tabs"@,
        "commands"@ != "credentials"@,
        "commands"@ != "element-refs"@,
        "commands"@ != "handoff"@,
        "commands"@ != "page-contexts"@,
        "commands"@ != "scoped-agent-panes"@,
        "commands"@ != "sessions"@,
        "commands"@ != "tabs"@,
        "connection"@ != "credentials"@,
        "connection"@ != "fill-login"@,
        "connection"@ != "forward"@,
        "connection"@ != "login-options"@,
        "connection"@ != "navigate"@,
        "connection"@ != "reload"@,
        "connection"@ != "result"@,
        "credentials"@ != "element-refs"@,
        "credentials"@ != "fill-login"@,
        "credentials"@ != "forward"@,
        "credentials"@ != "handoff"@,
        "credentials"@ != "login-options"@,
        "credentials"@ != "navigate"@,
        "credentials"@ != "page-contexts"@,
        "credentials"@ != "reload"@,
        "credentials"@ != "result"@,
        "credentials"@ != "scoped-agent-panes"@,
        "credentials"@ != "sessions"@,
        "credentials"@ != "tabs"@,
        "element-refs"@ != "handoff"@,
        "element-refs"@ != "page-contexts"@,
        "element-refs"@ != "scoped-agent-panes"@,
        "element-refs"@ != "sessions"@,
        "element-refs"@ != "tabs"@,
        "fill-login"@ != "forward"@,
        "fill-login"@ != "login-options"@,
        "fill-login"@ != "navigate"@,
        "fill-login"@ != "reload"@,
        "fill-login"@ != "result"@,
        "forward"@ != "login-options"@,
        "forward"@ != "navigate"@,
        "forward"@ != "reload"@,
        "forward"@ != "result"@,
        "handoff"@ != "page-contexts"@,
        "handoff"@ != "scoped-agent-panes"@,
        "handoff"@ != "sessions"@,
        "handoff"@ != "tabs"@,
        "login-options"@ != "navigate"@,
        "login-options"@ != "reload"@,
        "login-options"@ != "result"@,
        "navigate"@ != "reload"@,
        "navigate"@ != "result"@,
        "page-contexts"@ != "scoped-agent-panes"@,
        "page-contexts"@ != "sessions"@,
        "page-contexts"@ != "tabs"@,
        "reload"@ != "result"@,
        "scoped-agent-panes"@ != "sessions"@,
        "scoped-agent-panes"@ != "tabs"@,
        "sessions"@ != "tabs"@,
{
    reveal_strlit("actions");
    reveal_strlit("activate");
    reveal_strlit("agent-grants");
    reveal_strlit("agent-panes");
    reveal_strlit("audit-events");
    reveal_strlit("back");
    reveal_strlit("bookmarks");
    reveal_strlit("command-results");
    reveal_strlit("commands");
    reveal_strlit("connection");
    reveal_strlit("credentials");
    reveal_strlit("element-refs");
    reveal_strlit("fill-login");
    reveal_strlit("forward");
    reveal_strlit("handoff");
    reveal_strlit("login-options");
    reveal_strlit("navigate");
    reveal_strlit("page-contexts");
    reveal_strlit("reload");
    reveal_strlit("result");
    reveal_strlit("scoped-agent-panes");
    reveal_strlit("sessions");
    reveal_strlit("tabs");
    assert("actions"@.len() != "activate"@.len());
    assert("actions"@.len() != "back"@.len());
    assert("actions"@.len() != "connection"@.len());
    assert("actions"@.len() != "credentials"@.len());
    assert("actions"@.len() != "fill-login"@.len());
    assert("actions"@[0] != "forward"@[0]);
    assert("actions"@.len() != "login-options"@.len());
    assert("actions"@.len() != "navigate"@.len());
    assert("actions"@.len() != "reload"@.len());
    assert("actions"@.len() != "result"@.len());
    assert("activate"@.len() != "back"@.len());
    assert("activate"@.len() != "connection"@.len());
    assert("activate"@.len() != "credentials"@.len());
    assert("activate"@.len() != "fill-login"@.len());
    assert("activate"@.len() != "forward"@.len());
    assert("activate"@.len() != "login-options"@.len());
    assert("activate"@[0] != "navigate"@[0]);
    assert("activate"@.len() != "reload"@.len());
    assert("activate"@.len() != "result"@.len());
    assert("agent-grants"@.len() != "agent-panes"@.len());
    assert("agent-grants"@[1] != "audit-events"@[1]);
    assert("agent-grants"@.len() != "bookmarks"@.len());
    assert("agent-grants"@.len() != "command-results"@.len());
    assert("agent-grants"@.len() != "commands"@.len());
    assert("agent-grants"@.len() != "credentials"@.len());
    assert("agent-grants"@[0] != "element-refs"@[0]);
    assert("agent-grants"@.len() != "handoff"@.len());
    assert("agent-grants"@.len() != "page-contexts"@.len());
    assert("agent-grants"@.len() != "scoped-agent-panes"@.len());
    assert("agent-grants"@.len() != "sessions"@.len());
    assert("agent-grants"@.len() != "tabs"@.len());
    assert("agent-panes"@.len() != "audit-events"@.len());
    assert("agent-panes"@.len() != "bookmarks"@.len());
    assert("agent-panes"@.len() != "command-results"@.len());
    assert("agent-panes"@.len() != "commands"@.len());
    assert("agent-panes"@[0] != "credentials"@[0]);
    assert("agent-panes"@.len() != "element-refs"@.len());
    assert("agent-panes"@.len() != "handoff"@.len());
    assert("agent-panes"@.len() != "page-contexts"@.len());
    assert("agent-panes"@.len() != "scoped-agent-panes"@.len());
    assert("agent-panes"@.len() != "sessions"@.len());
    assert("agent-panes"@.len() != "tabs"@.len());
    assert("audit-events"@.len() != "bookmarks"@.len());
    assert("audit-events"@.len() != "command-results"@.len());
    assert("audit-events"@.len() != "commands"@.len());
    assert("audit-events"@.len() != "credentials"@.len());
    assert("audit-events"@[0] != "element-refs"@[0]);
    assert("audit-events"@.len() != "handoff"@.len());
    assert("audit-events"@.len() != "page-contexts"@.len());
    assert("audit-events"@.len() != "scoped-agent-panes"@.len());
    assert("audit-events"@.len() != "sessions"@.len());
    assert("audit-events"@.len() != "tabs"@.len());
    assert("back"@.len() != "connection"@.len());
    assert("back"@.len() != "credentials"@.len());
    assert("back"@.len() != "fill-login"@.len());
    assert("back"@.len() != "forward"@.len());
    assert("back"@.len() != "login-options"@.len());
    assert("back"@.len() != "navigate"@.len());
    assert("back"@.len() != "reload"@.len());
    assert("back"@.len() != "result"@.len());
    assert("bookmarks"@.len() != "command-results"@.len());
    assert("bookmarks"@.len() != "commands"@.len());
    assert("bookmarks"@.len() != "credentials"@.len());
    assert("bookmarks"@.len() != "element-refs"@.len());
    assert("bookmarks"@.len() != "handoff"@.len());
    assert("bookmarks"@.len() != "page-contexts"@.len());
    assert("bookmarks"@.len() != "scoped-agent-panes"@.len());
    assert("bookmarks"@.len() != "sessions"@.len());
    assert("bookmarks"@.len() != "tabs"@.len());
    assert("command-results"@.len() != "commands"@.len());
    assert("command-results"@.len() != "credentials"@.len());
    assert("command-results"@.len() != "element-refs"@.len());
    assert("command-results"@.len() != "handoff"@.len());
    assert("command-results"@.len() != "page-contexts"@.len());
    assert("command-results"@.len() != "scoped-agent-panes"@.len());
    assert("command-results"@.len() != "sessions"@.len());
    assert("command-results"@.len() != "tabs"@.len());
    assert("commands"@.len() != "credentials"@.len());
    assert("commands"@.len() != "element-refs"@.len());
    assert("commands"@.len() != "handoff"@.len());
    assert("commands"@.len() != "page-contexts"@.len());
    assert("commands"@.len() != "scoped-agent-panes"@.len());
    assert("commands"@[0] != "sessions"@[0]);
    assert("commands"@.len() != "tabs"@.len());
    assert("connection"@.len() != "credentials"@.len());
    assert("connection"@[0] != "fill-login"@[0]);
    assert("connection"@.len() != "forward"@.len());
    assert("connection"@.len() != "login-options"@.len());
    assert("connection"@.len() != "navigate"@.len());
    assert("connection"@.len() != "reload"@.len());
    assert("connection"@.len() != "result"@.len());
    assert("credentials"@.len() != "element-refs"@.len());
    assert("credentials"@.len() != "fill-login"@.len());
    assert("credentials"@.len() != "forward"@.len());
    assert("credentials"@.len() != "handoff"@.len());
    assert("credentials"@.len() != "login-options"@.len());
    assert("credentials"@.len() != "navigate"@.len());
    assert("credentials"@.len() != "page-contexts"@.len());
    assert("credentials"@.len() != "reload"@.len());
    assert("credentials"@.len() != "result"@.len());
    assert("credentials"@.len() != "scoped-agent-panes"@.len());
    assert("credentials"@.len() != "sessions"@.len());
    assert("credentials"@.len() != "tabs"@.len());
    assert("element-refs"@.len() != "handoff"@.len());
    assert("element-refs"@.len() != "page-contexts"@.len());
    assert("element-refs"@.len() != "scoped-agent-panes"@.len());
    assert("element-refs"@.len() != "sessions"@.len());
    assert("element-refs"@.len() != "tabs"@.len());
    assert("fill-login"@.len() != "forward"@.len());
    assert("fill-login"@.len() != "login-options"@.len());
    assert("fill-login"@.len() != "navigate"@.len());
    assert("fill-login"@.len() != "reload"@.len());
    assert("fill-login"@.len() != "result"@.len());
    assert("forward"@.len() != "login-options"@.len());
    assert("forward"@.len() != "navigate"@.len());
    assert("forward"@.len() != "reload"@.len());
    assert("forward"@.len() != "result"@.len());
    assert("handoff"@.len() != "page-contexts"@.len());
    assert("handoff"@.len() != "scoped-agent-panes"@.len());
    assert("handoff"@.len() != "sessions"@.len());
    assert("handoff"@.len() != "tabs"@.len());
    assert("login-options"@.len() != "navigate"@.len());
    assert("login-options"@.len() != "reload"@.len());
    assert("login-options"@.len() != "result"@.len());
    assert("navigate"@.len() != "reload"@.len());
    assert("navigate"@.len() != "result"@.len());
    assert("page-contexts"@.len() != "scoped-agent-panes"@.len());
    assert("page-contexts"@.len() != "sessions"@.len());
    assert("page-contexts"@.len() != "tabs"@.len());
    assert("reload"@[2] != "result"@[2]);
    assert("scoped-agent-panes"@.len() != "sessions"@.len());
    assert("scoped-agent-panes"@.len() != "tabs"@.len());
    assert("sessions"@.len() != "tabs"@.len());
}

/// The things of a kind are listed and added to by the path that names the kind.
pub proof fn kinds_are_named_by_their_path(method: HttpMethod, path: Seq<char>, kind: Seq<char>)
    requires
        super::path::parts_of(path) == seq!["v1"@, kind],
    ensures
        method is Post && kind == "sessions"@ ==> super::path::route_of(method, path) == RouteView::CreateSession,
        method is Get && kind == "sessions"@ ==> super::path::route_of(method, path) == RouteView::ListSessions,
        method is Post && kind == "agent-grants"@ ==> super::path::route_of(method, path) == RouteView::CreateAgentGrant,
        method is Get && kind == "agent-grants"@ ==> super::path::route_of(method, path) == RouteView::ListAgentGrants,
        method is Post && kind == "tabs"@ ==> super::path::route_of(method, path) == RouteView::CreateTab,
        method is Get && kind == "tabs"@ ==> super::path::route_of(method, path) == RouteView::ListTabs,
        method is Post && kind == "agent-panes"@ ==> super::path::route_of(method, path) == RouteView::OpenAgentPane,
        method is Post && kind == "scoped-agent-panes"@ ==> super::path::route_of(method, path) == RouteView::OpenScopedAgentPane,
        method is Get && kind == "agent-panes"@ ==> super::path::route_of(method, path) == RouteView::ListAgentPanes,
        method is Post && kind == "page-contexts"@ ==> super::path::route_of(method, path) == RouteView::PublishPageContext,
        method is Get && kind == "page-contexts"@ ==> super::path::route_of(method, path) == RouteView::ListPageContexts,
        method is Post && kind == "element-refs"@ ==> super::path::route_of(method, path) == RouteView::RecordElementReference,
        method is Get && kind == "element-refs"@ ==> super::path::route_of(method, path) == RouteView::ListElementReferences,
        method is Get && kind == "commands"@ ==> super::path::route_of(method, path) == RouteView::PollCommands,
        method is Get && kind == "command-results"@ ==> super::path::route_of(method, path) == RouteView::ListCommandResults,
        method is Get && kind == "audit-events"@ ==> super::path::route_of(method, path) == RouteView::ListAuditEvents,
        method is Get && kind == "handoff"@ ==> super::path::route_of(method, path) == RouteView::Handoff,
        method is Post && kind == "bookmarks"@ ==> super::path::route_of(method, path) == RouteView::CreateBookmark,
        method is Get && kind == "bookmarks"@ ==> super::path::route_of(method, path) == RouteView::ListBookmarks,
        method is Post && kind == "credentials"@ ==> super::path::route_of(method, path) == RouteView::StoreCredential,
        method is Get && kind == "credentials"@ ==> super::path::route_of(method, path) == RouteView::ListCredentials,
        super::path::route_of(method, path) is Unknown <==> !({
        ||| method is Post && kind == "sessions"@
        ||| method is Get && kind == "sessions"@
        ||| method is Post && kind == "agent-grants"@
        ||| method is Get && kind == "agent-grants"@
        ||| method is Post && kind == "tabs"@
        ||| method is Get && kind == "tabs"@
        ||| method is Post && kind == "agent-panes"@
        ||| method is Post && kind == "scoped-agent-panes"@
        ||| method is Get && kind == "agent-panes"@
        ||| method is Post && kind == "page-contexts"@
        ||| method is Get && kind == "page-contexts"@
        ||| method is Post && kind == "element-refs"@
        ||| method is Get && kind == "element-refs"@
        ||| method is Get && kind == "commands"@
        ||| method is Get && kind == "command-results"@
        ||| method is Get && kind == "audit-events"@
        ||| method is Get && kind == "handoff"@
        ||| method is Post && kind == "bookmarks"@
        ||| method is Get && kind == "bookmarks"@
        ||| method is Post && kind == "credentials"@
        ||| method is Get && kind == "credentials"@
        }),
{
    words_are_apart();
}

/// One thing of a kind is taken away by the path that names it; the active tab is looked up by its
/// own path.
pub proof fn things_are_named_by_their_path(
    method: HttpMethod,
    path: Seq<char>,
    kind: Seq<char>,
    id: Seq<char>,
)
    requires
        super::path::parts_of(path) == seq!["v1"@, kind, id],
    ensures
        method is Get && kind == "tabs"@ && id == "active"@ ==> super::path::route_of(method, path) == RouteView::ActiveTab,
        method is Delete && kind == "sessions"@ ==> super::path::route_of(method, path) == (RouteView::RevokeSession { session_id: id }),
        method is Delete && kind == "agent-grants"@ ==> super::path::route_of(method, path) == (RouteView::RevokeAgentGrant { token: id }),
        method is Delete && kind == "tabs"@ ==> super::path::route_of(method, path) == (RouteView::CloseTab { tab_id: id }),
        method is Delete && kind == "agent-panes"@ ==> super::path::route_of(method, path) == (RouteView::CloseAgentPane { pane_id: id }),
        method is Delete && kind == "bookmarks"@ ==> super::path::route_of(method, path) == (RouteView::DeleteBookmark { bookmark_id: id }),
        method is Delete && kind == "credentials"@ ==> super::path::route_of(method, path) == (RouteView::DeleteCredential { credential_id: id }),
        super::path::route_of(method, path) is Unknown <==> !({
        ||| method is Get && kind == "tabs"@ && id == "active"@
        ||| method is Delete && kind == "sessions"@
        ||| method is Delete && kind == "agent-grants"@
        ||| method is Delete && kind == "tabs"@
        ||| method is Delete && kind == "agent-panes"@
        ||| method is Delete && kind == "bookmarks"@
        ||| method is Delete && kind == "credentials"@
        }),
{
    words_are_apart();
}

/// What is done with one thing is asked for by the path that names the thing and the deed.
pub proof fn deeds_are_named_by_their_path(
    method: HttpMethod,
    path: Seq<char>,
    kind: Seq<char>,
    id: Seq<char>,
    deed: Seq<char>,
)
    requires
        super::path::parts_of(path) == seq!["v1"@, kind, id, deed],
    ensures
        method is Post && kind == "tabs"@ && deed == "activate"@ ==> super::path::route_of(method, path) == (RouteView::ActivateTab { tab_id: id }),
        method is Post && kind == "tabs"@ && deed == "navigate"@ ==> super::path::route_of(method, path) == (RouteView::NavigateTab { tab_id: id }),
        method is Post && kind == "tabs"@ && deed == "back"@ ==> super::path::route_of(method, path) == (RouteView::GoBack { tab_id: id }),
        method is Post && kind == "tabs"@ && deed == "forward"@ ==> super::path::route_of(method, path) == (RouteView::GoForward { tab_id: id }),
        method is Post && kind == "tabs"@ && deed == "reload"@ ==> super::path::route_of(method, path) == (RouteView::ReloadTab { tab_id: id }),
        method is Post && kind == "tabs"@ && deed == "fill-login"@ ==> super::path::route_of(method, path) == (RouteView::FillLogin { tab_id: id }),
        method is Post && kind == "tabs"@ && deed == "login-options"@ ==> super::path::route_of(method, path) == (RouteView::ListLoginOptions { tab_id: id }),
        method is Get && kind == "tabs"@ && deed == "credentials"@ ==> super::path::route_of(method, path) == (RouteView::ListTabCredentials { tab_id: id }),
        method is Post && kind == "tabs"@ && deed == "credentials"@ ==> super::path::route_of(method, path) == (RouteView::StoreTabCredential { tab_id: id }),
        method is Post && kind == "tabs"@ && deed == "actions"@ ==> super::path::route_of(method, path) == (RouteView::QueueAction { tab_id: id }),
        method is Get && kind == "agent-panes"@ && deed == "connection"@ ==> super::path::route_of(method, path) == (RouteView::PaneConnection { pane_id: id }),
        method is Post && kind == "commands"@ && deed == "result"@ ==> super::path::route_of(method, path) == (RouteView::RecordCommandResult { command_id: id }),
        super::path::route_of(method, path) is Unknown <==> !({
        ||| method is Post && kind == "tabs"@ && deed == "activate"@
        ||| method is Post && kind == "tabs"@ && deed == "navigate"@
        ||| method is Post && kind == "tabs"@ && deed == "back"@
        ||| method is Post && kind == "tabs"@ && deed == "forward"@
        ||| method is Post && kind == "tabs"@ && deed == "reload"@
        ||| method is Post && kind == "tabs"@ && deed == "fill-login"@
        ||| method is Post && kind == "tabs"@ && deed == "login-options"@
        ||| method is Get && kind == "tabs"@ && deed == "credentials"@
        ||| method is Post && kind == "tabs"@ && deed == "credentials"@
        ||| method is Post && kind == "tabs"@ && deed == "actions"@
        ||| method is Get && kind == "agent-panes"@ && deed == "connection"@
        ||| method is Post && kind == "commands"@ && deed == "result"@
        }),
{
    words_are_apart();
}

/// A login of a tab is forgotten, and filled in, by the path that names the tab and the login, in
/// this order.
pub proof fn logins_of_tabs_are_named_by_their_path(
    method: HttpMethod,
    path: Seq<char>,
    tab_id: Seq<char>,
    credential_id: Seq<char>,
)
    ensures
        super::path::parts_of(path) == seq!["v1"@, "tabs"@, tab_id, "credentials"@, credential_id]
            && method is Delete ==> super::path::route_of(method, path) == (
        RouteView::DeleteTabCredential { tab_id, credential_id }),
        super::path::parts_of(path) == seq![
            "v1"@,
            "tabs"@,
            tab_id,
            "credentials"@,
            credential_id,
            "fill"@,
        ] && method is Post ==> super::path::route_of(method, path) == (
        RouteView::FillTabCredential { tab_id, credential_id }),
{
}

/// A path that does not begin with the version, or is shorter or longer than any other, names
/// nothing.
pub proof fn other_paths_name_nothing(method: HttpMethod, path: Seq<char>)
    requires
        super::path::parts_of(path).len() < 2 || super::path::parts_of(path).len() > 6
            || super::path::parts_of(path)[0] != "v1"@,
    ensures
        super::path::route_of(method, path) == (RouteView::Unknown { path }),
{
}

} // verus!
