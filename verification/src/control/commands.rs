//! The queue of commands: handing out, taking back, results, and the actions of agents.
use super::{
    denial, denied, no_session, session_missing, InnerState, InnerStateView, MAX_COMMAND_RESULTS,
};
use crate::action::{resolve_action_targets, AgentActionRequest, AgentActionRequestView};
use crate::audit::{AuditEvent, AuditEventKind, AuditEventKindView};
use crate::command::{
    BrowserCommand, BrowserCommandKind, BrowserCommandKindView, BrowserCommandView,
    CommandExecutionReport, CommandExecutionReportView, CommandExecutionStatus, CommandScope,
    CommandScopeView,
};
use crate::draw::{Draw, DrawView};
use crate::error::{ControlError, ControlErrorView};
use crate::lists::{keep_last, parted};
use crate::model::clone_list;
use crate::text::{is_text, same_text, text3};
use vstd::prelude::*;

verus! {

broadcast use {crate::model::group_views, crate::draw::group_draw};

/// Commands taken back from the queue: what stays, the scopes that stay, and what was taken.
#[verifier::ext_equal]
pub struct PurgeView {
    pub commands: Seq<BrowserCommandView>,
    pub scopes: Map<Seq<char>, CommandScopeView>,
    pub purged: Seq<Seq<char>>,
}

/// Taking back the commands whose scope satisfies `gone`, from the front of the queue on.
pub open spec fn purge(
    commands: Seq<BrowserCommandView>,
    scopes: Map<Seq<char>, CommandScopeView>,
    gone: spec_fn(CommandScopeView) -> bool,
) -> PurgeView
    decreases commands.len(),
{
    if commands.len() == 0 {
        PurgeView { commands, scopes, purged: Seq::empty() }
    } else {
        let head = purge(commands.drop_last(), scopes, gone);
        let command = commands.last();
        let hit = match head.scopes.get(command.id) {
            Some(scope) => gone(scope),
            None => false,
        };
        if hit {
            PurgeView {
                scopes: head.scopes.remove(command.id),
                purged: head.purged.push(command.id),
                ..head
            }
        } else {
            PurgeView { commands: head.commands.push(command), ..head }
        }
    }
}

/// Whether a scope is that of the session.
pub open spec fn scope_of_session(session_id: Seq<char>) -> spec_fn(CommandScopeView) -> bool {
    |scope: CommandScopeView| scope.session_id == Some(session_id)
}

/// Whether a scope is that of the grant.
pub open spec fn scope_of_grant(token: Seq<char>) -> spec_fn(CommandScopeView) -> bool {
    |scope: CommandScopeView| scope.grant_token == Some(token)
}

/// The state once the commands whose scope satisfies `gone` were taken back.
pub open spec fn purged_state(state: InnerStateView, gone: spec_fn(CommandScopeView) -> bool) -> InnerStateView {
    let result = purge(state.commands, state.command_scopes, gone);
    InnerStateView { commands: result.commands, command_scopes: result.scopes, ..state }
}

/// The commands taken back if their scope satisfies `gone`.
pub open spec fn purged_ids(state: InnerStateView, gone: spec_fn(CommandScopeView) -> bool) -> Seq<
    Seq<char>,
> {
    purge(state.commands, state.command_scopes, gone).purged
}

/// No command that stays in the queue has a scope that satisfies `gone`.
pub proof fn purge_leaves_none(
    commands: Seq<BrowserCommandView>,
    scopes: Map<Seq<char>, CommandScopeView>,
    gone: spec_fn(CommandScopeView) -> bool,
)
    ensures
        ({
            let after = purge(commands, scopes, gone);
            &&& forall|i: int|
                0 <= i < after.commands.len() && after.scopes.contains_key(
                    (#[trigger] after.commands[i]).id,
                ) ==> !gone(after.scopes[after.commands[i].id])
            &&& forall|id: Seq<char>| #[trigger]
                after.scopes.contains_key(id) ==> scopes.contains_key(id) && after.scopes[id]
                    == scopes[id]
        }),
    decreases commands.len(),
{
    if commands.len() > 0 {
        purge_leaves_none(commands.drop_last(), scopes, gone);
    }
}

/// Whether a command is meant for the tab; without a tab, any command is meant.
pub open spec fn for_tab(tab_id: Option<Seq<char>>) -> spec_fn(BrowserCommandView) -> bool {
    |command: BrowserCommandView| tab_id is None || tab_id == Some(command.tab_id)
}

/// Handing out the waiting commands of a tab, or all: they leave the queue.
pub open spec fn poll_commands(state: InnerStateView, tab_id: Option<Seq<char>>) -> (
    InnerStateView,
    Seq<BrowserCommandView>,
) {
    (
        InnerStateView {
            commands: state.commands.filter(|c: BrowserCommandView| !for_tab(tab_id)(c)),
            ..state
        },
        state.commands.filter(for_tab(tab_id)),
    )
}

/// The report on a command that ended, with the scope that it was queued under.
pub open spec fn report_on(
    state: InnerStateView,
    command_id: Seq<char>,
    tab_id: Seq<char>,
    status: CommandExecutionStatus,
    message: Option<Seq<char>>,
    now: u64,
) -> CommandExecutionReportView {
    let scope = match state.command_scopes.get(command_id) {
        Some(scope) => scope,
        None => CommandScopeView::owner(),
    };
    CommandExecutionReportView {
        command_id,
        tab_id,
        session_id: scope.session_id,
        target_origin: scope.target_origin,
        grant_token: scope.grant_token,
        status,
        message,
        completed_at_unix: now,
    }
}

/// Recording how a command ended.
pub open spec fn record_command_result(
    state: InnerStateView,
    command_id: Seq<char>,
    tab_id: Seq<char>,
    status: CommandExecutionStatus,
    message: Option<Seq<char>>,
    draw: DrawView,
) -> (InnerStateView, CommandExecutionReportView) {
    let report = report_on(state, command_id, tab_id, status, message, draw.now);
    (
        (InnerStateView {
            command_scopes: state.command_scopes.remove(command_id),
            command_results: crate::lists::last_items(
                state.command_results.push(report),
                MAX_COMMAND_RESULTS as nat,
            ),
            ..state
        }).recorded(
            AuditEventKindView::CommandResultRecorded {
                command_id,
                tab_id,
                session_id: report.session_id,
                target_origin: report.target_origin,
                status,
            },
            draw,
        ),
        report,
    )
}

/// Queueing an action of an agent: the tab must show a page that the session may see, the
/// session must have the leave that the action needs, and its targets must be found.
pub open spec fn queue_agent_action(
    state: InnerStateView,
    tab_id: Seq<char>,
    request: AgentActionRequestView,
    grant_token: Option<Seq<char>>,
    draw: DrawView,
) -> (InnerStateView, Result<BrowserCommandView, ControlErrorView>) {
    match super::current_url(state, tab_id) {
        Err(error) => (state, Err(error)),
        Ok(url) => match state.sessions.get(request.session_id) {
            None => (state, Err(no_session(request.session_id))),
            Some(session) => match crate::session::session_allows_url(session, url, draw.now) {
                Err(error) => (state, Err(ControlErrorView::Core(error))),
                Ok(origin) => if request.action.interacts() && crate::session::session_can_interact(
                    session,
                    draw.now,
                ) is Err {
                    (
                        state,
                        Err(
                            ControlErrorView::Core(
                                crate::session::session_can_interact(session, draw.now)->Err_0,
                            ),
                        ),
                    )
                } else if request.action.runs_script() && !session.policy.allow_scripts {
                    (
                        state,
                        Err(
                            denied(
                                "session `"@ + session.id + "` cannot execute custom scripts"@,
                            ),
                        ),
                    )
                } else {
                    match crate::action::resolved_action(
                        tab_id,
                        origin,
                        state.element_refs,
                        request.action,
                    ) {
                        Err(error) => (state, Err(error)),
                        Ok(action) => {
                            let command = crate::command::issued(
                                draw,
                                tab_id,
                                BrowserCommandKindView::AgentAction {
                                    action,
                                    target_origin: origin,
                                },
                            );
                            (
                                state.queued(
                                    command,
                                    CommandScopeView::session(
                                        session.id,
                                        Some(origin),
                                        grant_token,
                                    ),
                                ).recorded(
                                    AuditEventKindView::AgentActionQueued {
                                        command_id: command.id,
                                        tab_id,
                                        session_id: session.id,
                                        target_origin: origin,
                                        action: action.summary(),
                                    },
                                    draw.after(1),
                                ),
                                Ok(command),
                            )
                        },
                    }
                },
            },
        },
    }
}

impl InnerState {
    /// Takes back the commands whose scope satisfies `gone`.
    fn purge_where<F: Fn(&CommandScope) -> bool>(
        &mut self,
        test: F,
        Ghost(gone): Ghost<spec_fn(CommandScopeView) -> bool>,
    ) -> (purged: Vec<String>)
        requires
            forall|v: &CommandScope| #[trigger] test.requires((v,)),
            forall|v: &CommandScope, b: bool| #[trigger] test.ensures((v,), b) ==> b == gone(v@),
        ensures
            final(self)@ == purged_state(old(self)@, gone),
            crate::model::views(purged@) == purged_ids(old(self)@, gone),
            final(self).agent_panes == old(self).agent_panes,
            final(self).agent_grants == old(self).agent_grants,
            final(self).sessions == old(self).sessions,
    {
        let mut commands: Vec<BrowserCommand> = Vec::new();
        std::mem::swap(&mut commands, &mut self.commands);
        let ghost all = crate::model::views(commands@);
        let ghost scopes = self.command_scopes@;
        let mut kept: Vec<BrowserCommand> = Vec::new();
        let mut purged: Vec<String> = Vec::new();
        assert(all.take(0) =~= Seq::empty());
        for command in it: commands.into_iter()
            invariant
                all == crate::model::views(it.seq()),
                forall|v: &CommandScope| #[trigger] test.requires((v,)),
                forall|v: &CommandScope, b: bool| #[trigger]
                    test.ensures((v,), b) ==> b == gone(v@),
                purge(all.take(it.index() as int), scopes, gone) == (PurgeView {
                    commands: crate::model::views(kept@),
                    scopes: self.command_scopes@,
                    purged: crate::model::views(purged@),
                }),
                self@ == (InnerStateView {
                    commands: Seq::empty(),
                    command_scopes: self.command_scopes@,
                    ..old(self)@
                }),
                self.agent_panes == old(self).agent_panes,
                self.agent_grants == old(self).agent_grants,
                self.sessions == old(self).sessions,
        {
            proof {
                let head = all.take(it.index() as int + 1);
                assert(head.drop_last() =~= all.take(it.index() as int));
                assert(head.last() == command@);
            }
            let hit = match self.command_scopes.get(command.id.as_str()) {
                Some(scope) => test(scope),
                None => false,
            };
            if hit {
                let _ = self.command_scopes.remove(command.id.as_str());
                purged.push(command.id);
            } else {
                kept.push(command);
            }
        }
        assert(all.take(all.len() as int) =~= all);
        self.commands = kept;
        purged
    }

    /// Takes back the waiting commands of a session.
    pub fn purge_pending_session_commands(&mut self, session_id: &str) -> (purged: Vec<String>)
        ensures
            final(self)@ == purged_state(old(self)@, scope_of_session(session_id@)),
            crate::model::views(purged@) == purged_ids(old(self)@, scope_of_session(session_id@)),
            final(self).agent_panes == old(self).agent_panes,
            final(self).agent_grants == old(self).agent_grants,
            final(self).sessions == old(self).sessions,
    {
        let test = |scope: &CommandScope| -> (yes: bool)
            ensures
                yes == (scope@.session_id == Some(session_id@)),
        {
            is_text(&scope.session_id, session_id)
        };
        self.purge_where(test, Ghost(scope_of_session(session_id@)))
    }

    /// Takes back the waiting commands of a grant.
    pub fn purge_pending_grant_commands(&mut self, token: &str) -> (purged: Vec<String>)
        ensures
            final(self)@ == purged_state(old(self)@, scope_of_grant(token@)),
            crate::model::views(purged@) == purged_ids(old(self)@, scope_of_grant(token@)),
            final(self).agent_panes == old(self).agent_panes,
            final(self).agent_grants == old(self).agent_grants,
            final(self).sessions == old(self).sessions,
    {
        let test = |scope: &CommandScope| -> (yes: bool)
            ensures
                yes == (scope@.grant_token == Some(token@)),
        {
            is_text(&scope.grant_token, token)
        };
        self.purge_where(test, Ghost(scope_of_grant(token@)))
    }

    /// Hands out the waiting commands of a tab, or all.
    pub fn poll_commands(&mut self, tab_id: Option<&str>) -> (commands: Vec<BrowserCommand>)
        ensures
            (final(self)@, crate::model::views(commands@)) == poll_commands(
                old(self)@,
                crate::model::opt_view(tab_id),
            ),
    {
        let mut commands: Vec<BrowserCommand> = Vec::new();
        std::mem::swap(&mut commands, &mut self.commands);
        let test = |command: &BrowserCommand| -> (yes: bool)
            ensures
                yes == (tab_id is None || crate::model::opt_view(tab_id) == Some(command@.tab_id)),
        {
            match tab_id {
                None => true,
                Some(id) => same_text(id, command.tab_id.as_str()),
            }
        };
        let (drained, retained) = parted(
            commands,
            test,
            Ghost(for_tab(crate::model::opt_view(tab_id))),
        );
        self.commands = retained;
        drained
    }

    /// Records how a command ended.
    pub fn record_command_result(
        &mut self,
        command_id: &str,
        tab_id: &str,
        status: CommandExecutionStatus,
        message: Option<String>,
        draw: &mut Draw,
    ) -> (report: CommandExecutionReport)
        requires
            old(draw)@.ids.len() >= 1,
        ensures
            (final(self)@, report@) == record_command_result(
                old(self)@,
                command_id@,
                tab_id@,
                status,
                crate::model::opt_view(message),
                old(draw)@,
            ),
            final(draw)@ == old(draw)@.after(1),
    {
        let scope = match self.command_scopes.remove(command_id) {
            Some(scope) => scope,
            None => CommandScope::owner(),
        };
        let report = CommandExecutionReport {
            command_id: command_id.to_owned(),
            tab_id: tab_id.to_owned(),
            session_id: scope.session_id,
            target_origin: scope.target_origin,
            grant_token: scope.grant_token,
            status,
            message,
            completed_at_unix: draw.now(),
        };
        self.command_results.push(report.clone());
        keep_last(&mut self.command_results, MAX_COMMAND_RESULTS);
        let entry = AuditEventKind::CommandResultRecorded {
            command_id: report.command_id.clone(),
            tab_id: report.tab_id.clone(),
            session_id: report.session_id.clone(),
            target_origin: report.target_origin.clone(),
            status,
        };
        self.record_audit(entry, draw);
        report
    }

    /// The results of commands, oldest first.
    pub fn list_command_results(&self) -> (results: Vec<CommandExecutionReport>)
        ensures
            crate::model::views(results@) == self@.command_results,
    {
        clone_list(&self.command_results)
    }

    /// The audit log, oldest first.
    pub fn list_audit_events(&self) -> (events: Vec<AuditEvent>)
        ensures
            crate::model::views(events@) == self@.audit_events,
    {
        clone_list(&self.audit_events)
    }

    /// Queues an action of an agent.
    pub fn queue_agent_action(
        &mut self,
        tab_id: &str,
        request: AgentActionRequest,
        grant_token: Option<String>,
        draw: &mut Draw,
    ) -> (outcome: Result<BrowserCommand, ControlError>)
        requires
            old(draw)@.ids.len() >= 2,
        ensures
            (final(self)@, crate::error::control_result(outcome)) == queue_agent_action(
                old(self)@,
                tab_id@,
                request@,
                crate::model::opt_view(grant_token),
                old(draw)@,
            ),
    {
        let now = draw.now();
        let url = match self.current_url_for_tab(tab_id) {
            Ok(url) => url,
            Err(error) => {
                return Err(error);
            },
        };
        let session = match self.sessions.get(request.session_id.as_str()) {
            None => {
                return Err(session_missing(request.session_id.as_str()));
            },
            Some(session) => session.clone(),
        };
        let origin = match session.assert_allows_url_at(url.as_str(), now) {
            Ok(origin) => origin,
            Err(error) => {
                return Err(ControlError::Core(error));
            },
        };
        if request.action.requires_interaction_permission() {
            match session.assert_can_interact_at(now) {
                Ok(_) => {},
                Err(error) => {
                    return Err(ControlError::Core(error));
                },
            }
        }
        if request.action.requires_script_permission() && !session.policy.allow_scripts {
            return Err(
                denial(
                    text3("session `", session.id.as_str(), "` cannot execute custom scripts"),
                ),
            );
        }
        let action = match resolve_action_targets(
            tab_id,
            &origin,
            &self.element_refs,
            request.action,
        ) {
            Ok(action) => action,
            Err(error) => {
                return Err(error);
            },
        };
        let summary = action.audit_summary();
        let command = BrowserCommand::issue(
            draw,
            tab_id,
            BrowserCommandKind::AgentAction { action, target_origin: origin.clone() },
        );
        self.queue_command(
            command.clone(),
            CommandScope::session(session.id.clone(), Some(origin.clone()), grant_token),
        );
        let entry = AuditEventKind::AgentActionQueued {
            command_id: command.id.clone(),
            tab_id: tab_id.to_owned(),
            session_id: session.id,
            target_origin: origin,
            action: summary,
        };
        self.record_audit(entry, draw);
        Ok(command)
    }
}

/// A command is handed out once: what was polled is no longer in the queue, and what is left is
/// what was not asked for.
pub proof fn commands_are_handed_out_once(state: InnerStateView, tab_id: Option<Seq<char>>)
    ensures
        poll_commands(poll_commands(state, tab_id).0, tab_id).1.len() == 0,
        tab_id is None ==> poll_commands(state, tab_id).1 == state.commands && poll_commands(
            state,
            tab_id,
        ).0.commands.len() == 0,
{
    let left = poll_commands(state, tab_id).0.commands;
    let wanted = for_tab(tab_id);
    let unwanted = |c: BrowserCommandView| !for_tab(tab_id)(c);
    let again = left.filter(wanted);
    if again.len() > 0 {
        assert(again.contains(again[0]));
        crate::keyed::filter_members(left, wanted, again[0]);
        crate::keyed::filter_members(state.commands, unwanted, again[0]);
    }
    if tab_id is None {
        all_pass(state.commands, wanted);
        if left.len() > 0 {
            assert(left.contains(left[0]));
            crate::keyed::filter_members(state.commands, unwanted, left[0]);
        }
    }
}

proof fn all_pass<A>(items: Seq<A>, wanted: spec_fn(A) -> bool)
    requires
        forall|i: int| 0 <= i < items.len() ==> wanted(#[trigger] items[i]),
    ensures
        items.filter(wanted) == items,
    decreases items.len(),
{
    reveal(Seq::filter);
    if items.len() > 0 {
        all_pass(items.drop_last(), wanted);
        assert(items =~= items.drop_last().push(items.last()));
    }
}

/// The log and the results stay within their bounds.
pub proof fn results_are_bounded(
    state: InnerStateView,
    command_id: Seq<char>,
    tab_id: Seq<char>,
    status: CommandExecutionStatus,
    message: Option<Seq<char>>,
    draw: DrawView,
)
    ensures
        ({
            let after = record_command_result(
                state,
                command_id,
                tab_id,
                status,
                message,
                draw,
            ).0;
            &&& after.command_results.len() <= MAX_COMMAND_RESULTS
            &&& after.command_results.len() > 0
            &&& after.command_results.last() == report_on(
                state,
                command_id,
                tab_id,
                status,
                message,
                draw.now,
            )
            &&& after.audit_events.len() <= super::MAX_AUDIT_EVENTS
            &&& !after.command_scopes.contains_key(command_id)
        }),
{
}

/// An action is queued only for a session that may see the page and has the leave it needs; what
/// the log keeps of it is its summary.
pub proof fn queued_actions_have_leave(
    state: InnerStateView,
    tab_id: Seq<char>,
    request: AgentActionRequestView,
    grant_token: Option<Seq<char>>,
    draw: DrawView,
)
    requires
        queue_agent_action(state, tab_id, request, grant_token, draw).1 is Ok,
    ensures
        state.sessions.contains_key(request.session_id),
        ({
            let session = state.sessions[request.session_id];
            &&& crate::session::session_active(session, draw.now) is Ok
            &&& crate::session::session_allows_url(
                session,
                super::current_url(state, tab_id)->Ok_0,
                draw.now,
            ) is Ok
            &&& request.action.interacts() ==> session.policy.allow_interactions
            &&& request.action.runs_script() ==> session.policy.allow_scripts
        }),
{
}

} // verus!
