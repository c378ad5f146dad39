//! How the browser is told what to do.
pub mod actions;
pub mod parts;
pub mod promises;
pub mod script_laws;
pub mod scripts;
pub mod sink;

use self::actions::{BrowserAction, BrowserActionView};
use self::scripts::{agent_action_script, fill_login_script};
use self::sink::{apply_action, BrowserActionSink, DeedView, LogView};
use crate::action::AgentActionView;
use crate::command::{
    BrowserCommand, BrowserCommandKind, BrowserCommandKindView, BrowserCommandView,
    CommandExecutionStatus,
};
use crate::control::plane::ControlPlane;
use crate::control::InnerStateView;
use crate::credential::{BrowserCredentialMaterial, BrowserCredentialMaterialView};
use crate::draw::{Draw, DrawView};
use crate::error::{
    ControlError, ControlErrorView, RuntimeError, RuntimeErrorView, TelescopeError,
    TelescopeErrorView,
};
use crate::origin::{WebOrigin, WebOriginView};
use crate::page::ElementReferenceView;
use crate::text::text7;
use crate::vault::SecretStore;
use vstd::prelude::*;

verus! {

broadcast use {crate::model::group_views, crate::draw::group_draw};

/// The part of the browser that carries out what the control plane decided.
pub struct BrowserRuntime<S: SecretStore> {
    pub plane: ControlPlane<S>,
}

/// The view of a runtime outcome.
pub open spec fn runtime_result<T: View>(result: Result<T, RuntimeError>) -> Result<
    T::V,
    RuntimeErrorView,
> {
    match result {
        Ok(value) => Ok(value@),
        Err(error) => Err(error@),
    }
}

/// A login that is not for the origin that it is to be filled in on.
pub open spec fn material_elsewhere(
    material: BrowserCredentialMaterialView,
    target_origin: WebOriginView,
) -> RuntimeErrorView {
    RuntimeErrorView::Core(
        TelescopeErrorView::PolicyDenied(
            "credential `"@ + material.credential_id + "` belongs to `"@
                + material.origin.display() + "`, not `"@ + target_origin.display() + "`"@,
        ),
    )
}

/// What filling in a login takes: the login, with the password that was handed out or the
/// failure to hand it out, must be for the origin of the command.
pub open spec fn fill_action(
    command_id: Seq<char>,
    tab_id: Seq<char>,
    target_origin: WebOriginView,
    material: Result<BrowserCredentialMaterialView, ControlErrorView>,
) -> Result<BrowserActionView, RuntimeErrorView> {
    match material {
        Err(error) => Err(RuntimeErrorView::Control(error)),
        Ok(material) => if material.origin != target_origin {
            Err(material_elsewhere(material, target_origin))
        } else {
            Ok(
                BrowserActionView::EvaluateScript {
                    command_id,
                    tab_id,
                    script: self::scripts::fill_login(command_id, tab_id, target_origin, material),
                    reports_browser_result: true,
                },
            )
        },
    }
}

/// What the browser is told to do for a command; `material` is the login with its password that
/// was handed out for it, or the failure to hand it out.
pub open spec fn action_of(
    command: BrowserCommandView,
    material: Result<BrowserCredentialMaterialView, ControlErrorView>,
) -> Result<BrowserActionView, RuntimeErrorView> {
    let command_id = command.id;
    let tab_id = command.tab_id;
    match command.kind {
        BrowserCommandKindView::OpenTab { tab } => Ok(
            BrowserActionView::OpenTab { command_id, tab_id, tab },
        ),
        BrowserCommandKindView::CloseTab => Ok(BrowserActionView::CloseTab { command_id, tab_id }),
        BrowserCommandKindView::ActivateTab => Ok(
            BrowserActionView::ActivateTab { command_id, tab_id },
        ),
        BrowserCommandKindView::Navigate { url } => Ok(
            BrowserActionView::Navigate { command_id, tab_id, url },
        ),
        BrowserCommandKindView::GoBack => Ok(BrowserActionView::GoBack { command_id, tab_id }),
        BrowserCommandKindView::GoForward => Ok(
            BrowserActionView::GoForward { command_id, tab_id },
        ),
        BrowserCommandKindView::Reload => Ok(BrowserActionView::Reload { command_id, tab_id }),
        BrowserCommandKindView::FillLogin { target_origin, .. } => fill_action(
            command_id,
            tab_id,
            target_origin,
            material,
        ),
        BrowserCommandKindView::AgentAction { action, target_origin } => {
            match self::scripts::action_script(command_id, tab_id, target_origin, action) {
                Err(error) => Err(error),
                Ok(script) => Ok(
                    BrowserActionView::EvaluateScript {
                        command_id,
                        tab_id,
                        script,
                        reports_browser_result: true,
                    },
                ),
            }
        },
        BrowserCommandKindView::OpenAgentPane { pane, connection } => Ok(
            BrowserActionView::OpenAgentPane { command_id, tab_id, pane, connection },
        ),
        BrowserCommandKindView::CloseAgentPane { pane_id } => Ok(
            BrowserActionView::CloseAgentPane { command_id, tab_id, pane_id },
        ),
    }
}

/// What the browser is told to do to fill in a login.
pub fn fill_login_action(
    command_id: String,
    tab_id: String,
    target_origin: WebOrigin,
    material: Result<BrowserCredentialMaterial, ControlError>,
) -> (outcome: Result<BrowserAction, RuntimeError>)
    ensures
        runtime_result(outcome) == fill_action(
            command_id@,
            tab_id@,
            target_origin@,
            crate::error::control_result(material),
        ),
{
    let material = match material {
        Ok(material) => material,
        Err(error) => {
            return Err(RuntimeError::Control(error));
        },
    };
    if !material.origin.same(&target_origin) {
        let owner = material.origin.display_url();
        let target = target_origin.display_url();
        return Err(
            RuntimeError::Core(
                TelescopeError::PolicyDenied(
                    text7(
                        "credential `",
                        material.credential_id.as_str(),
                        "` belongs to `",
                        owner.as_str(),
                        "`, not `",
                        target.as_str(),
                        "`",
                    ),
                ),
            ),
        );
    }
    match fill_login_script(command_id.as_str(), tab_id.as_str(), &target_origin, material) {
        Err(error) => Err(error),
        Ok(script) => Ok(
            BrowserAction::EvaluateScript {
                command_id,
                tab_id,
                script,
                reports_browser_result: true,
            },
        ),
    }
}

/// What the browser is told to do for each command, or the first failure to tell.
pub open spec fn actions_of(
    commands: Seq<BrowserCommandView>,
    materials: Seq<Result<BrowserCredentialMaterialView, ControlErrorView>>,
) -> Result<Seq<BrowserActionView>, RuntimeErrorView>
    decreases commands.len(),
{
    if commands.len() == 0 {
        Ok(Seq::empty())
    } else {
        match actions_of(commands.drop_last(), materials.drop_last()) {
            Err(error) => Err(error),
            Ok(actions) => match action_of(commands.last(), materials.last()) {
                Err(error) => Err(error),
                Ok(action) => Ok(actions.push(action)),
            },
        }
    }
}

proof fn first_failure_stays(
    commands: Seq<BrowserCommandView>,
    materials: Seq<Result<BrowserCredentialMaterialView, ControlErrorView>>,
    n: int,
)
    requires
        0 <= n <= commands.len(),
        materials.len() == commands.len(),
        actions_of(commands.take(n), materials.take(n)) is Err,
    ensures
        actions_of(commands, materials) == actions_of(commands.take(n), materials.take(n)),
    decreases commands.len() - n,
{
    if n == commands.len() {
        assert(commands.take(n) =~= commands);
        assert(materials.take(n) =~= materials);
    } else {
        assert(commands.take(n + 1).drop_last() =~= commands.take(n));
        assert(materials.take(n + 1).drop_last() =~= materials.take(n));
        first_failure_stays(commands, materials, n + 1);
    }
}

/// How far actions were carried out.
#[verifier::ext_equal]
pub struct RunView {
    pub state: InnerStateView,
    pub used: nat,
    pub applied: Seq<Seq<char>>,
    pub asked: Seq<DeedView>,
    pub fault: Option<RuntimeErrorView>,
}

/// How many identifiers it takes to finish an action.
pub open spec fn finishing_takes(reports: bool, answer: Result<(), RuntimeErrorView>) -> nat {
    if answer is Ok && reports {
        0
    } else {
        1
    }
}

/// The state once the browser has answered: a failure is recorded with its text, and so is a
/// success, unless the page is to report of it.
pub open spec fn finished(
    state: InnerStateView,
    command_id: Seq<char>,
    tab_id: Seq<char>,
    reports: bool,
    answer: Result<(), RuntimeErrorView>,
    draw: DrawView,
) -> InnerStateView {
    match answer {
        Ok(_) => if reports {
            state
        } else {
            crate::control::commands::record_command_result(
                state,
                command_id,
                tab_id,
                CommandExecutionStatus::Succeeded,
                None,
                draw,
            ).0
        },
        Err(error) => crate::control::commands::record_command_result(
            state,
            command_id,
            tab_id,
            CommandExecutionStatus::Failed,
            Some(error.text()),
            draw,
        ).0,
    }
}

/// Takes down what the browser answered, and passes it on.
pub fn finish_action<S: SecretStore>(
    plane: &mut ControlPlane<S>,
    command_id: &str,
    tab_id: &str,
    reports: bool,
    answer: Result<(), RuntimeError>,
    draw: &mut Draw,
) -> (outcome: Result<(), RuntimeError>)
    requires
        old(draw)@.ids.len() >= 1,
    ensures
        final(plane)@.inner == finished(
            old(plane)@.inner,
            command_id@,
            tab_id@,
            reports,
            runtime_result(answer),
            old(draw)@,
        ),
        final(plane).vault == old(plane).vault,
        final(draw)@ == old(draw)@.after(finishing_takes(reports, runtime_result(answer))),
        runtime_result(outcome) == runtime_result(answer),
{
    match answer {
        Ok(_) => {
            if !reports {
                let _report = plane.inner.record_command_result(
                    command_id,
                    tab_id,
                    CommandExecutionStatus::Succeeded,
                    None,
                    draw,
                );
            }
            Ok(())
        },
        Err(error) => {
            let message = error.message();
            let _report = plane.inner.record_command_result(
                command_id,
                tab_id,
                CommandExecutionStatus::Failed,
                Some(message),
                draw,
            );
            Err(error)
        },
    }
}

/// Carrying out actions in turn until the browser fails one; `answers` is what the browser
/// answers. What ends without a report of the page is recorded, and so is a failure.
pub open spec fn run(
    state: InnerStateView,
    actions: Seq<BrowserActionView>,
    answers: Seq<Result<(), RuntimeErrorView>>,
    draw: DrawView,
) -> RunView
    decreases actions.len(),
{
    if actions.len() == 0 {
        RunView { state, used: 0, applied: Seq::empty(), asked: Seq::empty(), fault: None }
    } else {
        let head = run(state, actions.drop_last(), answers.drop_last(), draw);
        if head.fault is Some {
            head
        } else {
            let action = actions.last();
            let asked = head.asked.push(action.deed());
            let answer = answers.last();
            RunView {
                state: finished(
                    head.state,
                    action.command_id(),
                    action.tab_id(),
                    action.reports(),
                    answer,
                    draw.after(head.used),
                ),
                used: head.used + finishing_takes(action.reports(), answer),
                applied: if answer is Ok {
                    head.applied.push(action.command_id())
                } else {
                    head.applied
                },
                asked,
                fault: match answer {
                    Ok(_) => None,
                    Err(error) => Some(error),
                },
            }
        }
    }
}

proof fn run_stops(
    state: InnerStateView,
    actions: Seq<BrowserActionView>,
    answers: Seq<Result<(), RuntimeErrorView>>,
    draw: DrawView,
    n: int,
)
    requires
        0 <= n <= actions.len(),
        answers.len() == actions.len(),
        run(state, actions.take(n), answers.take(n), draw).fault is Some,
    ensures
        run(state, actions, answers, draw) == run(state, actions.take(n), answers.take(n), draw),
    decreases actions.len() - n,
{
    if n == actions.len() {
        assert(actions.take(n) =~= actions);
        assert(answers.take(n) =~= answers);
    } else {
        assert(actions.take(n + 1).drop_last() =~= actions.take(n));
        assert(answers.take(n + 1).drop_last() =~= answers.take(n));
        run_stops(state, actions, answers, draw, n + 1);
    }
}

/// Whether carrying out actions has ended so: in the state, with what the browser was asked before
/// and after, and with the outcome.
pub open spec fn ended_as(
    ran: RunView,
    state: InnerStateView,
    before: LogView<DeedView>,
    after: LogView<DeedView>,
    outcome: Result<Vec<String>, RuntimeError>,
) -> bool {
    &&& state == ran.state
    &&& after == before.extended(ran.asked)
    &&& match ran.fault {
        None => outcome matches Ok(applied) && crate::model::views(applied@) == ran.applied,
        Some(error) => outcome matches Err(e) && e@ == error,
    }
}

/// Taking the pending commands, of all tabs or of one, and carrying them out. Where one cannot be
/// turned into an action, none is carried out.
pub open spec fn pending_run(
    state: InnerStateView,
    tab_id: Option<Seq<char>>,
    materials: Seq<Result<BrowserCredentialMaterialView, ControlErrorView>>,
    answers: Seq<Result<(), RuntimeErrorView>>,
    draw: DrawView,
) -> RunView {
    let polled = crate::control::commands::poll_commands(state, tab_id);
    match actions_of(polled.1, materials) {
        Err(error) => RunView {
            state: polled.0,
            used: 0,
            applied: Seq::empty(),
            asked: Seq::empty(),
            fault: Some(error),
        },
        Ok(actions) => run(polled.0, actions, answers.take(actions.len() as int), draw),
    }
}

/// A text that may be missing.
pub open spec fn text_asked(text: Option<&str>) -> Option<Seq<char>> {
    match text {
        Some(text) => Some(text@),
        None => None,
    }
}

/// Carries out actions in turn until the browser fails one.
pub fn run_actions<S: SecretStore, B: BrowserActionSink>(
    plane: &mut ControlPlane<S>,
    actions: Vec<BrowserAction>,
    sink: &mut B,
    draw: &mut Draw,
) -> (outcome: Result<Vec<String>, RuntimeError>)
    requires
        old(draw)@.ids.len() >= actions.len(),
    ensures
        exists|answers: Seq<Result<(), RuntimeErrorView>>|
            {
                let ran = #[trigger] run(
                    old(plane)@.inner,
                    crate::model::views(actions@),
                    answers,
                    old(draw)@,
                );
                &&& answers.len() == actions.len()
                &&& final(sink).answered() == old(sink).answered().extended(
                    answers.take(ran.asked.len() as int),
                )
                &&& ended_as(
                    ran,
                    final(plane)@.inner,
                    old(sink).asked(),
                    final(sink).asked(),
                    outcome,
                )
            },
        final(plane).vault == old(plane).vault,
{
    let ghost all = crate::model::views(actions@);
    let ghost start = plane@.inner;
    let ghost vault = plane.vault;
    let ghost before = sink.asked();
    let ghost answered = sink.answered();
    let ghost drawn = draw@;
    let ghost mut answers: Seq<Result<(), RuntimeErrorView>> = Seq::empty();
    let mut applied: Vec<String> = Vec::new();
    proof {
        assert(all.take(0) =~= Seq::empty());
        assert(before.extended(Seq::empty()) =~= before);
        assert(answered.extended(answers) =~= answered);
    }
    for action in it: actions.into_iter()
        invariant
            all == crate::model::views(it.seq()),
            all == crate::model::views(actions@),
            start == old(plane)@.inner,
            vault == old(plane).vault,
            before == old(sink).asked(),
            answered == old(sink).answered(),
            sink.answered() == answered.extended(answers),
            run(start, all.take(it.index() as int), answers, drawn).asked.len() == it.index(),
            drawn == old(draw)@,
            answers.len() == it.index(),
            drawn.ids.len() >= all.len(),
            run(start, all.take(it.index() as int), answers, drawn).used <= it.index(),
            draw@ == drawn.after(run(start, all.take(it.index() as int), answers, drawn).used),
            run(start, all.take(it.index() as int), answers, drawn).fault is None,
            run(start, all.take(it.index() as int), answers, drawn).state == plane@.inner,
            sink.asked() == before.extended(
                run(start, all.take(it.index() as int), answers, drawn).asked,
            ),
            run(start, all.take(it.index() as int), answers, drawn).applied
                == crate::model::views(applied@),
            plane.vault == vault,
    {
        let ghost n = it.index() as int;
        let ghost head = run(start, all.take(n), answers, drawn);
        proof {
            assert(all.take(n + 1).drop_last() =~= all.take(n));
            assert(all.take(n + 1).last() == action@);
        }
        let command_id = action.command_id().to_owned();
        let tab_id = action.tab_id().to_owned();
        let reports = action.reports_browser_result();
        let result = apply_action(sink, &action);
        proof {
            assert(before.extended(head.asked.push(action@.deed())) =~= before.extended(
                head.asked,
            ).push(action@.deed()));
        }
        let ghost answer = runtime_result(result);
        proof {
            assert(answers.push(answer).drop_last() =~= answers);
            assert(answered.extended(answers.push(answer)) =~= answered.extended(answers).push(
                answer,
            ));
            answers = answers.push(answer);
        }
        action.discard();
        let outcome = finish_action(
            plane,
            command_id.as_str(),
            tab_id.as_str(),
            reports,
            result,
            draw,
        );
        match outcome {
            Ok(_) => {
                applied.push(command_id);
            },
            Err(error) => {
                proof {
                    let rest: Seq<Result<(), RuntimeErrorView>> = Seq::new(
                        (all.len() - answers.len()) as nat,
                        |i: int| Ok(()),
                    );
                    let full = answers + rest;
                    assert(full.take(n + 1) =~= answers);
                    run_stops(start, all, full, drawn, n + 1);
                }
                return Err(error);
            },
        }
    }
    assert(answers.take(answers.len() as int) =~= answers);
    assert(all.take(all.len() as int) =~= all);
    Ok(applied)
}

impl<S: SecretStore> BrowserRuntime<S> {
    /// A runtime for a control plane.
    pub fn new(plane: ControlPlane<S>) -> (runtime: BrowserRuntime<S>)
        ensures
            runtime.plane == plane,
    {
        BrowserRuntime { plane }
    }

    /// Whether a login can be handed out so: one that is not kept is not found; one that is kept
    /// comes with the password that was saved, and does if the store of secrets can be relied on.
    pub open spec fn handed_out(
        plane: ControlPlane<S>,
        credential_id: Seq<char>,
        material: Result<BrowserCredentialMaterialView, ControlErrorView>,
    ) -> bool {
        match crate::vault::record_with(plane@.vault.records, credential_id) {
            Err(error) => material == Err::<BrowserCredentialMaterialView, ControlErrorView>(
                ControlErrorView::Core(error),
            ),
            Ok(record) => {
                let key = crate::vault::secret_key_of(plane@.vault.profile_id, credential_id);
                &&& material matches Ok(material) ==> plane.vault.secrets().may_hold(
                    key,
                    material.password,
                ) && material == crate::vault::material_of(
                    credential_id,
                    record,
                    material.password,
                )
                &&& plane.vault.reliable() && plane.vault.secrets().contains_key(key)
                    ==> material is Ok
            },
        }
    }

    /// Whether a login can be handed out so for a command.
    pub open spec fn handed_out_for(
        plane: ControlPlane<S>,
        command: BrowserCommandView,
        material: Result<BrowserCredentialMaterialView, ControlErrorView>,
    ) -> bool {
        command.kind matches BrowserCommandKindView::FillLogin { credential_id, .. }
            ==> Self::handed_out(plane, credential_id, material)
    }

    /// What the browser is told to do for a command.
    pub fn action_for_command(&self, command: BrowserCommand) -> (outcome: Result<
        BrowserAction,
        RuntimeError,
    >)
        ensures
            exists|material: Result<BrowserCredentialMaterialView, ControlErrorView>| #[trigger]
                Self::handed_out_for(self.plane, command@, material) && runtime_result(outcome)
                    == action_of(command@, material),
    {
        let ghost asked = command@;
        let ghost nothing: Result<BrowserCredentialMaterialView, ControlErrorView> = Err(
            ControlErrorView::Unauthorized,
        );
        assert(!(asked.kind is FillLogin) ==> Self::handed_out_for(self.plane, asked, nothing));
        let command_id = command.id;
        let tab_id = command.tab_id;
        match command.kind {
            BrowserCommandKind::OpenTab { tab } => Ok(
                BrowserAction::OpenTab { command_id, tab_id, tab },
            ),
            BrowserCommandKind::CloseTab => Ok(BrowserAction::CloseTab { command_id, tab_id }),
            BrowserCommandKind::ActivateTab => Ok(
                BrowserAction::ActivateTab { command_id, tab_id },
            ),
            BrowserCommandKind::Navigate { url } => Ok(
                BrowserAction::Navigate { command_id, tab_id, url },
            ),
            BrowserCommandKind::GoBack => Ok(BrowserAction::GoBack { command_id, tab_id }),
            BrowserCommandKind::GoForward => Ok(BrowserAction::GoForward { command_id, tab_id }),
            BrowserCommandKind::Reload => Ok(BrowserAction::Reload { command_id, tab_id }),
            BrowserCommandKind::FillLogin { credential_id, target_origin, .. } => {
                let material = self.plane.credential_material_for_browser(credential_id.as_str());
                let ghost handed = crate::error::control_result(material);
                assert(Self::handed_out_for(self.plane, asked, handed));
                fill_login_action(command_id, tab_id, target_origin, material)
            },
            BrowserCommandKind::AgentAction { action, target_origin } => {
                match agent_action_script(
                    command_id.as_str(),
                    tab_id.as_str(),
                    &target_origin,
                    action,
                ) {
                    Err(error) => Err(error),
                    Ok(script) => Ok(
                        BrowserAction::EvaluateScript {
                            command_id,
                            tab_id,
                            script,
                            reports_browser_result: true,
                        },
                    ),
                }
            },
            BrowserCommandKind::OpenAgentPane { pane, connection } => Ok(
                BrowserAction::OpenAgentPane { command_id, tab_id, pane, connection },
            ),
            BrowserCommandKind::CloseAgentPane { pane_id } => Ok(
                BrowserAction::CloseAgentPane { command_id, tab_id, pane_id },
            ),
        }
    }

    /// Whether logins can be handed out so for commands.
    pub open spec fn all_handed_out(
        plane: ControlPlane<S>,
        commands: Seq<BrowserCommandView>,
        materials: Seq<Result<BrowserCredentialMaterialView, ControlErrorView>>,
    ) -> bool {
        &&& materials.len() == commands.len()
        &&& forall|i: int|
            0 <= i < commands.len() ==> Self::handed_out_for(
                plane,
                commands[i],
                #[trigger] materials[i],
            )
    }

    /// Takes the pending commands and tells what the browser is to do for them.
    pub fn drain_actions(&mut self, tab_id: Option<&str>) -> (outcome: Result<
        Vec<BrowserAction>,
        RuntimeError,
    >)
        ensures
            ({
                let polled = crate::control::commands::poll_commands(
                    old(self).plane@.inner,
                    text_asked(tab_id),
                );
                &&& final(self).plane@.inner == polled.0
                &&& exists|
                    materials: Seq<Result<BrowserCredentialMaterialView, ControlErrorView>>,
                | #[trigger]
                    Self::all_handed_out(old(self).plane, polled.1, materials) && (match outcome {
                        Ok(actions) => Ok(crate::model::views(actions@)),
                        Err(error) => Err(error@),
                    }) == actions_of(polled.1, materials)
            }),
            final(self).plane.vault == old(self).plane.vault,
    {
        let ghost begun = self.plane;
        let commands = self.plane.inner.poll_commands(tab_id);
        let ghost all = crate::model::views(commands@);
        let ghost mut materials: Seq<Result<BrowserCredentialMaterialView, ControlErrorView>> =
            Seq::empty();
        let mut actions: Vec<BrowserAction> = Vec::new();
        assert(all.take(0) =~= Seq::empty());
        for command in it: commands.into_iter()
            invariant
                all == crate::model::views(it.seq()),
                begun == old(self).plane,
                all == crate::control::commands::poll_commands(
                    begun@.inner,
                    text_asked(tab_id),
                ).1,
                self.plane.vault == begun.vault,
                materials.len() == it.index(),
                forall|i: int|
                    0 <= i < materials.len() ==> Self::handed_out_for(
                        begun,
                        all[i],
                        #[trigger] materials[i],
                    ),
                actions_of(all.take(it.index() as int), materials) == Ok::<
                    Seq<BrowserActionView>,
                    RuntimeErrorView,
                >(crate::model::views(actions@)),
                self.plane@.inner == crate::control::commands::poll_commands(
                    begun@.inner,
                    text_asked(tab_id),
                ).0,
        {
            let ghost n = it.index() as int;
            proof {
                assert(all.take(n + 1).drop_last() =~= all.take(n));
                assert(all.take(n + 1).last() == command@);
                assert(all[n] == command@);
            }
            let outcome = self.action_for_command(command);
            proof {
                let material = choose|
                    material: Result<BrowserCredentialMaterialView, ControlErrorView>,
                | #[trigger]
                    Self::handed_out_for(self.plane, command@, material) && runtime_result(outcome)
                        == action_of(command@, material);
                assert(Self::handed_out_for(begun, command@, material));
                assert(materials.push(material).drop_last() =~= materials);
                materials = materials.push(material);
            }
            match outcome {
                Ok(action) => actions.push(action),
                Err(error) => {
                    proof {
                        let rest = Seq::new(
                            (all.len() - materials.len()) as nat,
                            |i: int|
                                {
                                    choose|
                                        material: Result<
                                            BrowserCredentialMaterialView,
                                            ControlErrorView,
                                        >,
                                    | #[trigger]
                                        Self::handed_out_for(begun, all[materials.len() + i], material)
                                },
                        );
                        let full = materials + rest;
                        assert(full.take(n + 1) =~= materials);
                        assert forall|i: int| 0 <= i < all.len() implies Self::handed_out_for(
                            begun,
                            all[i],
                            #[trigger] full[i],
                        ) by {
                            if i >= materials.len() {
                                Self::something_is_handed_out(begun, all[i]);
                                assert(full[i] == rest[i - materials.len()]);
                            }
                        }
                        first_failure_stays(all, full, n + 1);
                        assert(Self::all_handed_out(begun, all, full));
                    }
                    return Err(error);
                },
            }
        }
        proof {
            assert(all.take(all.len() as int) =~= all);
            assert(Self::all_handed_out(begun, all, materials));
        }
        Ok(actions)
    }

    proof fn something_is_handed_out(plane: ControlPlane<S>, command: BrowserCommandView)
        ensures
            exists|material: Result<BrowserCredentialMaterialView, ControlErrorView>| #[trigger]
                Self::handed_out_for(plane, command, material),
    {
        if let BrowserCommandKindView::FillLogin { credential_id, .. } = command.kind {
            match crate::vault::record_with(plane@.vault.records, credential_id) {
                Err(error) => {
                    let material: Result<BrowserCredentialMaterialView, ControlErrorView> = Err(
                        ControlErrorView::Core(error),
                    );
                    assert(Self::handed_out_for(plane, command, material));
                },
                Ok(record) => {
                    let key = crate::vault::secret_key_of(plane@.vault.profile_id, credential_id);
                    if plane.vault.secrets().contains_key(key) {
                        let material: Result<BrowserCredentialMaterialView, ControlErrorView> = Ok(
                            crate::vault::material_of(
                                credential_id,
                                record,
                                plane.vault.secrets()->Told_0[key],
                            ),
                        );
                        assert(Self::handed_out_for(plane, command, material));
                    } else {
                        let material: Result<BrowserCredentialMaterialView, ControlErrorView> = Err(
                            ControlErrorView::Unauthorized,
                        );
                        assert(Self::handed_out_for(plane, command, material));
                    }
                },
            }
        } else {
            let material: Result<BrowserCredentialMaterialView, ControlErrorView> = Err(
                ControlErrorView::Unauthorized,
            );
            assert(Self::handed_out_for(plane, command, material));
        }
    }

    /// Takes the pending commands and has the browser carry them out.
    pub fn apply_pending<B: BrowserActionSink>(&mut self, tab_id: Option<&str>, sink: &mut B) -> (
        outcome: Result<Vec<String>, RuntimeError>)
        ensures
            exists|
                materials: Seq<Result<BrowserCredentialMaterialView, ControlErrorView>>,
                answers: Seq<Result<(), RuntimeErrorView>>,
                draw: DrawView,
            |
                {
                    let ran = #[trigger] pending_run(
                        old(self).plane@.inner,
                        text_asked(tab_id),
                        materials,
                        answers,
                        draw,
                    );
                    &&& Self::all_handed_out(
                        old(self).plane,
                        crate::control::commands::poll_commands(
                            old(self).plane@.inner,
                            text_asked(tab_id),
                        ).1,
                        materials,
                    )
                    &&& crate::control::plane::drawn(draw, answers.len())
                    &&& final(sink).answered() == old(sink).answered().extended(
                        answers.take(ran.asked.len() as int),
                    )
                    &&& ended_as(
                        ran,
                        final(self).plane@.inner,
                        old(sink).asked(),
                        final(sink).asked(),
                        outcome,
                    )
                },
            final(self).plane.vault == old(self).plane.vault,
    {
        let ghost start = self.plane@.inner;
        let ghost asked = text_asked(tab_id);
        let ghost begun = self.plane;
        let ghost before = sink.asked();
        let ghost answered = sink.answered();
        let ghost commands = crate::control::commands::poll_commands(start, asked).1;
        let drained = self.drain_actions(tab_id);
        let ghost materials = choose|
            materials: Seq<Result<BrowserCredentialMaterialView, ControlErrorView>>,
        | #[trigger]
            Self::all_handed_out(begun, commands, materials) && (match drained {
                Ok(actions) => Ok(crate::model::views(actions@)),
                Err(error) => Err(error@),
            }) == actions_of(commands, materials);
        match drained {
            Err(error) => {
                let draw = Draw::take(0);
                proof {
                    let none: Seq<Result<(), RuntimeErrorView>> = Seq::empty();
                    assert(crate::control::plane::drawn(draw@, none.len()));
                    assert(before.extended(Seq::empty()) =~= before);
                    assert(answered.extended(none.take(0)) =~= answered);
                    assert(pending_run(start, asked, materials, none, draw@).fault is Some);
                }
                Err(error)
            },
            Ok(actions) => {
                let mut draw = Draw::take(actions.len());
                let ghost drawn = draw@;
                let ghost all = crate::model::views(actions@);
                let ghost polled = self.plane@.inner;
                assert(crate::control::plane::drawn(drawn, actions.len() as nat));
                let outcome = run_actions(&mut self.plane, actions, sink, &mut draw);
                proof {
                    let answers = choose|answers: Seq<Result<(), RuntimeErrorView>>|
                        {
                            let ran = #[trigger] run(polled, all, answers, drawn);
                            &&& answers.len() == all.len()
                            &&& sink.answered() == answered.extended(
                                answers.take(ran.asked.len() as int),
                            )
                            &&& ended_as(
                                ran,
                                self.plane@.inner,
                                before,
                                sink.asked(),
                                outcome,
                            )
                        };
                    assert(answers.take(all.len() as int) =~= answers);
                    assert(pending_run(start, asked, materials, answers, drawn) == run(
                        polled,
                        all,
                        answers,
                        drawn,
                    ));
                }
                outcome
            },
        }
    }
}

/// A password goes into a script only for the origin that it was saved for, and the script stops on
/// any other.
pub proof fn passwords_stay_on_their_origin(
    command: BrowserCommandView,
    material: Result<BrowserCredentialMaterialView, ControlErrorView>,
)
    requires
        command.kind is FillLogin,
        action_of(command, material) is Ok,
    ensures
        material is Ok,
        material->Ok_0.origin == command.kind->FillLogin_target_origin,
        action_of(command, material)->Ok_0.deed() == DeedView::EvaluateScript(
            command.tab_id,
            self::scripts::guarded(
                command.id,
                command.tab_id,
                material->Ok_0.origin,
                "fill_login"@,
                self::scripts::fill_login_body(
                    crate::json::json_text(material->Ok_0.username),
                    crate::json::json_text(material->Ok_0.password),
                ),
            ),
        ),
{
}

/// The browser is asked for the actions in their order, for all of them unless it fails one, and
/// for none after that. The first failure comes back, and is recorded last of all with its text.
pub proof fn browsers_are_asked_in_order(
    state: InnerStateView,
    actions: Seq<BrowserActionView>,
    answers: Seq<Result<(), RuntimeErrorView>>,
    draw: DrawView,
)
    requires
        answers.len() == actions.len(),
    ensures
        ({
            let ran = run(state, actions, answers, draw);
            let count = ran.asked.len();
            &&& count <= actions.len()
            &&& forall|i: int| 0 <= i < count ==> #[trigger] ran.asked[i] == actions[i].deed()
            &&& ran.fault is None ==> count == actions.len()
            &&& ran.fault matches Some(error) ==> count > 0 && answers[count - 1] == Err::<
                (),
                RuntimeErrorView,
            >(error)
            &&& ran.fault matches Some(error) ==> {
                let report = ran.state.command_results.last();
                &&& report.command_id == actions[count - 1].command_id()
                &&& report.status == CommandExecutionStatus::Failed
                &&& report.message == Some(error.text())
            }
            &&& forall|i: int|
                0 <= i < ran.applied.len() ==> #[trigger] ran.applied[i] == actions[i].command_id()
            &&& forall|i: int| 0 <= i < ran.applied.len() ==> #[trigger] answers[i] is Ok
            &&& ran.applied.len() == if ran.fault is None {
                count as int
            } else {
                count - 1
            }
        }),
    decreases actions.len(),
{
    if actions.len() > 0 {
        browsers_are_asked_in_order(state, actions.drop_last(), answers.drop_last(), draw);
        let head = run(state, actions.drop_last(), answers.drop_last(), draw);
        assert forall|i: int| 0 <= i < head.applied.len() implies #[trigger] answers[i] is Ok by {
            assert(answers.drop_last()[i] == answers[i]);
        }
    }
}

/// An action whose targets were resolved has a script.
pub proof fn resolved_actions_have_scripts(
    tab_id: Seq<char>,
    origin: WebOriginView,
    refs: Map<Seq<char>, ElementReferenceView>,
    action: AgentActionView,
    command_id: Seq<char>,
)
    ensures
        crate::action::resolved_action(tab_id, origin, refs, action) matches Ok(resolved)
            ==> self::scripts::action_script(command_id, tab_id, origin, resolved) is Ok,
{
}

} // verus!
