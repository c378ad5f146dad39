//! Ending what has run out.
use super::{InnerState, InnerStateView};
use crate::draw::{Draw, DrawView};
use crate::session::{
    has_ended, AgentGrant, AgentGrantView, AgentSession, AgentSessionView, ExpiredAccessCleanup,
    ExpiredAccessCleanupView,
};
use vstd::prelude::*;

verus! {

broadcast use {crate::model::group_views, crate::draw::group_draw};

/// Sessions and grants ended one by one: the state, how many identifiers that took, and what
/// ended.
#[verifier::ext_equal]
pub struct SweepView {
    pub state: InnerStateView,
    pub used: nat,
    pub cleanups: Seq<ExpiredAccessCleanupView>,
}

/// Whether a session has run out.
pub open spec fn session_over(now: u64) -> spec_fn(AgentSessionView) -> bool {
    |session: AgentSessionView| crate::session::ended(session.policy.expires_at_unix, now)
}

/// Whether a grant has run out.
pub open spec fn grant_over(now: u64) -> spec_fn(AgentGrantView) -> bool {
    |grant: AgentGrantView| crate::session::ended(grant.expires_at_unix, now)
}

/// Ending sessions one by one.
pub open spec fn sweep_sessions(state: InnerStateView, ids: Seq<Seq<char>>, draw: DrawView) -> SweepView
    decreases ids.len(),
{
    if ids.len() == 0 {
        SweepView { state, used: 0, cleanups: Seq::empty() }
    } else {
        let head = sweep_sessions(state, ids.drop_last(), draw);
        let step = super::revoking::revoke_session(head.state, ids.last(), draw.after(head.used));
        match step.1 {
            Ok(revoked) => SweepView {
                state: step.0,
                used: head.used + revoked.closed_pane_ids.len() + 1,
                cleanups: head.cleanups.push(ExpiredAccessCleanupView::Session(revoked)),
            },
            Err(_) => head,
        }
    }
}

/// Ending grants one by one, after what `start` tells.
pub open spec fn sweep_grants(start: SweepView, tokens: Seq<Seq<char>>, draw: DrawView) -> SweepView
    decreases tokens.len(),
{
    if tokens.len() == 0 {
        start
    } else {
        let head = sweep_grants(start, tokens.drop_last(), draw);
        let step = super::revoking::revoke_agent_grant(
            head.state,
            tokens.last(),
            draw.after(head.used),
        );
        match step.1 {
            Ok(revoked) => SweepView {
                state: step.0,
                used: head.used + revoked.closed_pane_ids.len() + 1,
                cleanups: head.cleanups.push(ExpiredAccessCleanupView::Grant(revoked)),
            },
            Err(_) => head,
        }
    }
}

/// Ending every session that has run out, then every grant that has.
pub open spec fn cleanup(state: InnerStateView, draw: DrawView) -> SweepView {
    let first = sweep_sessions(
        state,
        crate::keyed::keys_with(state.sessions, session_over(draw.now)),
        draw,
    );
    sweep_grants(
        first,
        crate::keyed::keys_with(first.state.agent_grants, grant_over(draw.now)),
        draw,
    )
}

/// The grants of other sessions than these.
pub open spec fn grants_left(state: InnerStateView, ids: Seq<Seq<char>>) -> Map<
    Seq<char>,
    AgentGrantView,
> {
    crate::keyed::kept(
        state.agent_grants,
        |grant: AgentGrantView| !ids.contains(grant.session_id),
    )
}

/// What ended: a session by its identifier, or a grant by its token.
#[verifier::ext_equal]
pub enum EndedView {
    Session(Seq<char>),
    Grant(Seq<char>),
}

/// What ended, one after the other.
pub open spec fn ended(cleanups: Seq<ExpiredAccessCleanupView>) -> Seq<EndedView> {
    Seq::new(
        cleanups.len(),
        |i: int|
            match cleanups[i] {
                ExpiredAccessCleanupView::Session(revoked) => EndedView::Session(
                    revoked.session_id,
                ),
                ExpiredAccessCleanupView::Grant(revoked) => EndedView::Grant(revoked.token),
            },
    )
}

/// These sessions, one after the other.
pub open spec fn as_sessions(ids: Seq<Seq<char>>) -> Seq<EndedView> {
    Seq::new(ids.len(), |i: int| EndedView::Session(ids[i]))
}

/// These grants, one after the other.
pub open spec fn as_grants(tokens: Seq<Seq<char>>) -> Seq<EndedView> {
    Seq::new(tokens.len(), |i: int| EndedView::Grant(tokens[i]))
}

impl InnerState {
    /// Ends every session and grant that has run out.
    pub fn cleanup_expired_access(&mut self, draw: &mut Draw) -> (cleanups: Vec<
        ExpiredAccessCleanup,
    >)
        requires
            old(draw)@.ids.len() >= old(self).sessions.count() + old(self).agent_grants.count()
                + old(self).agent_panes.count(),
        ensures
            final(self)@ == cleanup(old(self)@, old(draw)@).state,
            crate::model::views(cleanups@) == cleanup(old(self)@, old(draw)@).cleanups,
            final(draw)@ == old(draw)@.after(cleanup(old(self)@, old(draw)@).used),
            final(self).agent_panes.count() <= old(self).agent_panes.count(),
            cleanup(old(self)@, old(draw)@).used <= old(self).sessions.count() + old(
                self,
            ).agent_grants.count() + old(self).agent_panes.count(),
    {
        let now = draw.now();
        let ghost before = self@;
        let ghost drawn = draw@;
        let ghost most = self.sessions.count() + self.agent_grants.count()
            + self.agent_panes.count();
        let session_ended = |session: &AgentSession| -> (yes: bool)
            ensures
                yes == crate::session::ended(session@.policy.expires_at_unix, now),
        {
            has_ended(session.policy.expires_at_unix, now)
        };
        let ids = self.sessions.keys_where(session_ended, Ghost(session_over(now)));
        let ghost all = crate::model::views(ids@);
        let mut cleanups: Vec<ExpiredAccessCleanup> = Vec::new();
        let ghost mut used: nat = 0;
        assert(all.take(0) =~= Seq::empty());
        for i in 0..ids.len()
            invariant
                all == crate::model::views(ids@),
                sweep_sessions(before, all.take(i as int), drawn) == (SweepView {
                    state: self@,
                    used,
                    cleanups: crate::model::views(cleanups@),
                }),
                draw@ == drawn.after(used),
                drawn.ids.len() >= most,
                used + (ids@.len() - i) + self.agent_grants.count() + self.agent_panes.count()
                    <= most,
                self.agent_panes.count() <= old(self).agent_panes.count(),
        {
            proof {
                let head = all.take(i + 1);
                assert(head.drop_last() =~= all.take(i as int));
                assert(head.last() == ids@[i as int]@);
            }
            match self.revoke_session(ids[i].as_str(), draw) {
                Ok(revoked) => {
                    proof {
                        used = used + revoked@.closed_pane_ids.len() + 1;
                    }
                    cleanups.push(ExpiredAccessCleanup::Session(revoked));
                },
                Err(_) => {},
            }
        }
        assert(all.take(all.len() as int) =~= all);
        let ghost first = SweepView {
            state: self@,
            used,
            cleanups: crate::model::views(cleanups@),
        };
        let grant_ended = |grant: &AgentGrant| -> (yes: bool)
            ensures
                yes == crate::session::ended(grant@.expires_at_unix, now),
        {
            has_ended(grant.expires_at_unix, now)
        };
        let tokens = self.agent_grants.keys_where(grant_ended, Ghost(grant_over(now)));
        let ghost rest = crate::model::views(tokens@);
        assert(rest.take(0) =~= Seq::empty());
        for i in 0..tokens.len()
            invariant
                rest == crate::model::views(tokens@),
                sweep_grants(first, rest.take(i as int), drawn) == (SweepView {
                    state: self@,
                    used,
                    cleanups: crate::model::views(cleanups@),
                }),
                draw@ == drawn.after(used),
                drawn.ids.len() >= most,
                used + (tokens@.len() - i) + self.agent_panes.count() <= most,
                self.agent_panes.count() <= old(self).agent_panes.count(),
        {
            proof {
                let head = rest.take(i + 1);
                assert(head.drop_last() =~= rest.take(i as int));
                assert(head.last() == tokens@[i as int]@);
            }
            match self.revoke_agent_grant(tokens[i].as_str(), draw) {
                Ok(revoked) => {
                    proof {
                        used = used + revoked@.closed_pane_ids.len() + 1;
                    }
                    cleanups.push(ExpiredAccessCleanup::Grant(revoked));
                },
                Err(_) => {},
            }
        }
        assert(rest.take(rest.len() as int) =~= rest);
        cleanups
    }
}

} // verus!
