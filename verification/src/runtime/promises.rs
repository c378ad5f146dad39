//! What the browser is told to do for each command.
use super::actions::BrowserActionView;
use super::sink::DeedView;
use crate::command::{BrowserCommandKindView, BrowserCommandView};
use crate::credential::BrowserCredentialMaterialView;
use crate::error::{ControlErrorView, RuntimeErrorView};
use crate::control::InnerStateView;
use crate::draw::DrawView;
use vstd::prelude::*;

verus! {

/// What the browser is asked to do for a command is what the command is for, on the tab that it is
/// for, and in its name. A login is filled in only where it was handed out, on its own origin; and
/// of what a script does, the page reports.
pub proof fn commands_become_what_they_ask(
    command: BrowserCommandView,
    material: Result<BrowserCredentialMaterialView, ControlErrorView>,
)
    ensures
        super::action_of(command, material) matches Ok(action) ==> {
            &&& action.command_id() == command.id
            &&& action.tab_id() == command.tab_id
            &&& action.reports() <==> command.kind is FillLogin || command.kind is AgentAction
            &&& match command.kind {
                BrowserCommandKindView::OpenTab { tab } => action.deed() == DeedView::OpenTab(tab),
                BrowserCommandKindView::CloseTab => action.deed() == DeedView::CloseTab(
                    command.tab_id,
                ),
                BrowserCommandKindView::ActivateTab => action.deed() == DeedView::ActivateTab(
                    command.tab_id,
                ),
                BrowserCommandKindView::Navigate { url } => action.deed() == DeedView::Navigate(
                    command.tab_id,
                    url,
                ),
                BrowserCommandKindView::GoBack => action.deed() == DeedView::GoBack(
                    command.tab_id,
                ),
                BrowserCommandKindView::GoForward => action.deed() == DeedView::GoForward(
                    command.tab_id,
                ),
                BrowserCommandKindView::Reload => action.deed() == DeedView::Reload(
                    command.tab_id,
                ),
                BrowserCommandKindView::FillLogin { target_origin, .. } => {
                    &&& material matches Ok(login) && login.origin == target_origin
                    &&& action.deed() == DeedView::EvaluateScript(
                        command.tab_id,
                        super::scripts::fill_login(
                            command.id,
                            command.tab_id,
                            target_origin,
                            material->Ok_0,
                        ),
                    )
                },
                BrowserCommandKindView::AgentAction { action: asked, target_origin } => {
                    let script = super::scripts::action_script(
                        command.id,
                        command.tab_id,
                        target_origin,
                        asked,
                    );
                    &&& script is Ok
                    &&& action.deed() == DeedView::EvaluateScript(command.tab_id, script->Ok_0)
                },
                BrowserCommandKindView::OpenAgentPane { pane, connection } => action.deed()
                    == DeedView::OpenAgentPane(pane, connection),
                BrowserCommandKindView::CloseAgentPane { pane_id } => action.deed()
                    == DeedView::CloseAgentPane(pane_id),
            }
        },
        super::action_of(command, material) is Err ==> match command.kind {
            BrowserCommandKindView::FillLogin { target_origin, .. } => match material {
                Ok(login) => login.origin != target_origin,
                Err(_) => true,
            },
            BrowserCommandKindView::AgentAction { action, .. } =>
                !super::script_laws::targets_known(action),
            _ => false,
        },
{
    if let BrowserCommandKindView::AgentAction { action, target_origin } = command.kind {
        super::script_laws::action_scripts_do_what_is_asked(
            command.id,
            command.tab_id,
            target_origin,
            action,
        );
    }
}

/// The browser is asked for each command in turn: the first is the first, and none is left out.
pub proof fn commands_are_taken_in_turn(
    commands: Seq<BrowserCommandView>,
    materials: Seq<Result<BrowserCredentialMaterialView, ControlErrorView>>,
)
    requires
        materials.len() == commands.len(),
    ensures
        super::actions_of(commands, materials) matches Ok(actions) ==> actions.len()
            == commands.len() && forall|i: int|
            0 <= i < commands.len() ==> super::action_of(#[trigger] commands[i], materials[i])
                == Ok::<BrowserActionView, RuntimeErrorView>(actions[i]),
    decreases commands.len(),
{
    if commands.len() > 0 {
        let rest = commands.drop_last();
        commands_are_taken_in_turn(rest, materials.drop_last());
        if let Ok(actions) = super::actions_of(commands, materials) {
            assert forall|i: int| 0 <= i < commands.len() implies super::action_of(
                #[trigger] commands[i],
                materials[i],
            ) == Ok::<BrowserActionView, RuntimeErrorView>(actions[i]) by {
                if i < rest.len() {
                    assert(rest[i] == commands[i]);
                    assert(materials.drop_last()[i] == materials[i]);
                }
            }
        }
    }
}

/// What the browser answered is taken down for the command and its tab: a failure with its text, and
/// a success unless the page is to report of it, which then changes nothing yet.
pub proof fn answers_are_taken_down(
    state: InnerStateView,
    command_id: Seq<char>,
    tab_id: Seq<char>,
    reports: bool,
    answer: Result<(), RuntimeErrorView>,
    draw: DrawView,
)
    ensures
        ({
            let after = super::finished(state, command_id, tab_id, reports, answer, draw);
            let report = after.command_results.last();
            &&& answer is Ok && reports ==> after == state
            &&& !(answer is Ok && reports) ==> {
                &&& after.command_results.len() > 0
                &&& report.command_id == command_id
                &&& report.tab_id == tab_id
                &&& report.completed_at_unix == draw.now
                &&& answer is Ok ==> report.status is Succeeded && report.message is None
                &&& answer matches Err(error) ==> report.status is Failed && report.message == Some(
                    error.text(),
                )
            }
        }),
{
}

/// The browser is asked for one action after the other until it fails one: all before that count as
/// applied, the one that failed and those behind it do not, and nothing behind it is asked for.
pub proof fn work_stops_at_the_first_failure(
    state: InnerStateView,
    actions: Seq<BrowserActionView>,
    answers: Seq<Result<(), RuntimeErrorView>>,
    draw: DrawView,
    n: int,
)
    requires
        answers.len() == actions.len(),
        0 <= n <= actions.len(),
        forall|i: int| 0 <= i < n ==> (#[trigger] answers[i]) is Ok,
        n < actions.len() ==> answers[n] is Err,
    ensures
        ({
            let ran = super::run(state, actions, answers, draw);
            &&& ran.applied.len() == n
            &&& forall|i: int|
                0 <= i < n ==> #[trigger] ran.applied[i] == actions[i].command_id()
            &&& ran.asked.len() == if n < actions.len() {
                n + 1
            } else {
                n
            }
            &&& forall|i: int|
                0 <= i < ran.asked.len() ==> #[trigger] ran.asked[i] == actions[i].deed()
            &&& n == actions.len() ==> ran.fault is None
            &&& n < actions.len() ==> ran.fault == Some(answers[n]->Err_0)
            &&& ran.state.commands == state.commands
        }),
    decreases actions.len(),
{
    if actions.len() > 0 {
        let fewer = actions.drop_last();
        let heard = answers.drop_last();
        assert(forall|i: int| 0 <= i < heard.len() ==> #[trigger] heard[i] == answers[i]);
        if n == actions.len() {
            work_stops_at_the_first_failure(state, fewer, heard, draw, n - 1);
            assert(answers[n - 1] is Ok);
        } else {
            work_stops_at_the_first_failure(state, fewer, heard, draw, n);
        }
        assert(forall|i: int| 0 <= i < fewer.len() ==> #[trigger] fewer[i] == actions[i]);
    }
}

proof fn running_leaves_the_queue(
    state: InnerStateView,
    actions: Seq<BrowserActionView>,
    answers: Seq<Result<(), RuntimeErrorView>>,
    draw: DrawView,
)
    ensures
        super::run(state, actions, answers, draw).state.commands == state.commands,
    decreases actions.len(),
{
    if actions.len() > 0 {
        running_leaves_the_queue(state, actions.drop_last(), answers.drop_last(), draw);
    }
}

/// The work of a tab is the commands that wait for it, in their order, and those of other tabs wait
/// on; without a tab it is all that wait. Where one of them cannot be done, the browser is asked for
/// none.
pub proof fn work_is_taken_from_the_tab_asked_for(
    state: InnerStateView,
    tab_id: Seq<char>,
    materials: Seq<Result<BrowserCredentialMaterialView, ControlErrorView>>,
    answers: Seq<Result<(), RuntimeErrorView>>,
    draw: DrawView,
)
    ensures
        ({
            let ran = super::pending_run(state, Some(tab_id), materials, answers, draw);
            let work = state.commands.filter(|c: BrowserCommandView| c.tab_id == tab_id);
            &&& ran.state.commands == state.commands.filter(
                |c: BrowserCommandView| c.tab_id != tab_id,
            )
            &&& super::actions_of(work, materials) matches Err(error) ==> ran.fault == Some(error)
                && ran.asked.len() == 0 && ran.applied.len() == 0
            &&& super::actions_of(work, materials) is Ok && (forall|i: int|
                0 <= i < answers.len() ==> (#[trigger] answers[i]) is Ok) && answers.len()
                == super::actions_of(work, materials)->Ok_0.len() ==> ran.fault is None
                && ran.asked.len() == answers.len() && forall|i: int|
                0 <= i < answers.len() ==> #[trigger] ran.asked[i] == super::actions_of(
                    work,
                    materials,
                )->Ok_0[i].deed()
        }),
        ({
            let ran = super::pending_run(state, None, materials, answers, draw);
            &&& ran.state.commands.len() == 0
            &&& super::actions_of(state.commands, materials) matches Err(error) ==> ran.fault
                == Some(error) && ran.asked.len() == 0
            &&& super::actions_of(state.commands, materials) is Ok && (forall|i: int|
                0 <= i < answers.len() ==> (#[trigger] answers[i]) is Ok) && answers.len()
                == super::actions_of(state.commands, materials)->Ok_0.len() ==> ran.fault is None
                && ran.asked.len() == answers.len()
        }),
{
    let polled = crate::control::commands::poll_commands(state, Some(tab_id));
    let work = state.commands.filter(|c: BrowserCommandView| c.tab_id == tab_id);
    assert(crate::control::commands::for_tab(Some(tab_id)) =~= |c: BrowserCommandView|
        c.tab_id == tab_id);
    assert((|c: BrowserCommandView| !crate::control::commands::for_tab(Some(tab_id))(c)) =~= |
        c: BrowserCommandView,
    | c.tab_id != tab_id);
    if let Ok(actions) = super::actions_of(work, materials) {
        let heard = answers.take(actions.len() as int);
        running_leaves_the_queue(polled.0, actions, heard, draw);
        if answers.len() == actions.len() && forall|i: int|
            0 <= i < answers.len() ==> (#[trigger] answers[i]) is Ok {
            assert(heard =~= answers);
            work_stops_at_the_first_failure(polled.0, actions, heard, draw, actions.len() as int);
        }
    }
    let all = crate::control::commands::poll_commands(state, None);
    let every = crate::control::commands::for_tab(None);
    all_are_kept(state.commands, every);
    none_is_kept(state.commands, |c: BrowserCommandView| !every(c));
    if let Ok(actions) = super::actions_of(state.commands, materials) {
        let heard = answers.take(actions.len() as int);
        running_leaves_the_queue(all.0, actions, heard, draw);
        if answers.len() == actions.len() && forall|i: int|
            0 <= i < answers.len() ==> (#[trigger] answers[i]) is Ok {
            assert(heard =~= answers);
            work_stops_at_the_first_failure(all.0, actions, heard, draw, actions.len() as int);
        }
    }
}

proof fn all_are_kept(
    commands: Seq<BrowserCommandView>,
    wanted: spec_fn(BrowserCommandView) -> bool,
)
    requires
        forall|i: int| 0 <= i < commands.len() ==> wanted(#[trigger] commands[i]),
    ensures
        commands.filter(wanted) == commands,
    decreases commands.len(),
{
    reveal(Seq::filter);
    if commands.len() > 0 {
        assert(forall|i: int|
            0 <= i < commands.len() - 1 ==> #[trigger] commands.drop_last()[i] == commands[i]);
        all_are_kept(commands.drop_last(), wanted);
        assert(wanted(commands[commands.len() - 1]));
        assert(commands.drop_last().push(commands.last()) =~= commands);
    }
}

proof fn none_is_kept(
    commands: Seq<BrowserCommandView>,
    wanted: spec_fn(BrowserCommandView) -> bool,
)
    requires
        forall|i: int| 0 <= i < commands.len() ==> !wanted(#[trigger] commands[i]),
    ensures
        commands.filter(wanted).len() == 0,
    decreases commands.len(),
{
    reveal(Seq::filter);
    if commands.len() > 0 {
        assert(forall|i: int|
            0 <= i < commands.len() - 1 ==> #[trigger] commands.drop_last()[i] == commands[i]);
        none_is_kept(commands.drop_last(), wanted);
        assert(!wanted(commands[commands.len() - 1]));
    }
}

/// Whether a text begins as an action of a kind is shown: with the kind, the command and the tab.
pub open spec fn shown_as(
    form: Seq<char>,
    kind: Seq<char>,
    command_id: Seq<char>,
    tab_id: Seq<char>,
) -> bool {
    crate::text::has_prefix(
        form,
        kind + " { command_id: "@ + super::actions::debug_form(command_id) + ", tab_id: "@
            + super::actions::debug_form(tab_id),
    )
}

/// An action is shown by what it is, in whose name it is done and on which tab.
pub proof fn actions_are_shown_as_what_they_are(action: BrowserActionView)
    ensures
        shown_as(
            action.form(),
            match action {
                BrowserActionView::OpenTab { .. } => "OpenTab"@,
                BrowserActionView::CloseTab { .. } => "CloseTab"@,
                BrowserActionView::ActivateTab { .. } => "ActivateTab"@,
                BrowserActionView::Navigate { .. } => "Navigate"@,
                BrowserActionView::GoBack { .. } => "GoBack"@,
                BrowserActionView::GoForward { .. } => "GoForward"@,
                BrowserActionView::Reload { .. } => "Reload"@,
                BrowserActionView::EvaluateScript { .. } => "EvaluateScript"@,
                BrowserActionView::OpenAgentPane { .. } => "OpenAgentPane"@,
                BrowserActionView::CloseAgentPane { .. } => "CloseAgentPane"@,
            },
            action.command_id(),
            action.tab_id(),
        ),
{
    let kind = match action {
        BrowserActionView::OpenTab { .. } => "OpenTab"@,
        BrowserActionView::CloseTab { .. } => "CloseTab"@,
        BrowserActionView::ActivateTab { .. } => "ActivateTab"@,
        BrowserActionView::Navigate { .. } => "Navigate"@,
        BrowserActionView::GoBack { .. } => "GoBack"@,
        BrowserActionView::GoForward { .. } => "GoForward"@,
        BrowserActionView::Reload { .. } => "Reload"@,
        BrowserActionView::EvaluateScript { .. } => "EvaluateScript"@,
        BrowserActionView::OpenAgentPane { .. } => "OpenAgentPane"@,
        BrowserActionView::CloseAgentPane { .. } => "CloseAgentPane"@,
    };
    let head = kind + " { command_id: "@ + super::actions::debug_form(action.command_id())
        + ", tab_id: "@ + super::actions::debug_form(action.tab_id());
    assert(action.form().take(head.len() as int) =~= head);
}

} // verus!
