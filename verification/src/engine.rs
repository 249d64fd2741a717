//! The resolution engine: the three query policies as verified machines.
//!
//! A query is a state machine. `next_action` says which upstream exchange
//! the query needs next; the driver performs it (that is the only part
//! that touches the network) and hands the outcome back through
//! `on_event`. Every transition is pinned down by a spec function, and a
//! whole run against a script of outcomes is the spec-level `*_drive`
//! function, so the policies — fallback priority, fail-fast, per-channel
//! independence, channel isolation of downloads — are proved, not assumed.

use vstd::prelude::*;
use vstd::pervasive::unreached;

use crate::channel::Channel;
use crate::channel::fallback_order;
use crate::channel::spec_all_channels;
use crate::channel::spec_fallback_order;
use crate::channel::all_channels;
use crate::errors::ChannelError;
use crate::errors::CoreError;
use crate::model::DetailsDocument;
use crate::model::DownloadBundle;
use crate::session::AuthStep;
use crate::session::AuthTransition;
use crate::session::ChannelOutcome;
use crate::session::DeliveryOutcome;
use crate::session::DeliveryStep;
use crate::session::DeliveryTransition;
use crate::session::DetailsStep;
use crate::session::DetailsTransition;
use crate::session::PhaseView;
use crate::session::RegistryView;
use crate::session::SessionPhase;
use crate::session::SessionRegistry;
use crate::session::UpstreamEvent;
use crate::session::UpstreamEventView;
use crate::session::auth_transition;
use crate::session::delivery_transition;
use crate::session::details_transition;
use crate::session::events_view;
use crate::session::spec_auth_step;
use crate::session::spec_delivery_step;
use crate::session::spec_details_step;
use crate::session::spec_start_phase;
use crate::session::start_phase;

verus! {

/// What a query asks its driver to do next.
pub enum QueryAction {
    /// Exchange the process credentials for a token scoped to the channel.
    Authenticate(Channel),
    /// Fetch the package's details on the channel with the token.
    FetchDetails { channel: Channel, token: String, package: String },
    /// Fetch the delivery data of the version on the channel with the token.
    FetchDelivery { channel: Channel, token: String, package: String, version_code: i32 },
    /// The query is finished; its result can be taken.
    Settled,
}

/// A fallback query's result: the first (channel, document) found in
/// fallback order, or nothing.
pub type FallbackResult = Result<Option<(Channel, DetailsDocument)>, CoreError>;

/// View of where a fallback query stands.
pub enum FqStateView {
    Running(PhaseView),
    Finished(FallbackResult),
}

/// View of a fallback query.
pub struct FallbackQueryView {
    pub package: Seq<char>,
    pub requested: Channel,
    pub pos: int,
    pub state: FqStateView,
}

impl FallbackQueryView {
    /// The channel the query is currently trying.
    pub open spec fn current_channel(self) -> Channel {
        spec_fallback_order(self.requested)[self.pos]
    }

    /// The position index stays within the three-channel order.
    pub open spec fn wf(self) -> bool {
        0 <= self.pos < 3
    }
}

/// The state a fallback query starts in: trying the requested channel.
pub open spec fn fq_start(package: Seq<char>, requested: Channel, reg: RegistryView) -> FallbackQueryView {
    FallbackQueryView {
        package,
        requested,
        pos: 0,
        state: FqStateView::Running(spec_start_phase(reg, spec_fallback_order(requested)[0])),
    }
}

/// Whether an event answers the exchange the query is waiting on.
pub open spec fn fq_expects(m: FallbackQueryView, ev: UpstreamEventView) -> bool {
    match m.state {
        FqStateView::Running(ph) => match ph {
            PhaseView::Authenticating { .. } => ev is Auth,
            PhaseView::Fetching { .. } => ev is Details,
        },
        FqStateView::Finished(_) => false,
    }
}

/// How a fallback query resolves one channel's outcome: a document found
/// on the current channel finishes the query with it; a hard error
/// aborts the whole chain at once; an absence moves on to the next
/// channel in fallback order, or finishes with "not found" after the
/// last.
pub open spec fn fq_resolve(
    m: FallbackQueryView,
    reg: RegistryView,
    outcome: ChannelOutcome,
) -> FallbackQueryView {
    match outcome {
        ChannelOutcome::Present(doc) => FallbackQueryView {
            state: FqStateView::Finished(Ok(Some((m.current_channel(), doc)))),
            ..m
        },
        ChannelOutcome::Failed(e) => FallbackQueryView {
            state: FqStateView::Finished(Err(CoreError::Session(e))),
            ..m
        },
        ChannelOutcome::Absent => {
            if m.pos + 1 < 3 {
                FallbackQueryView {
                    pos: m.pos + 1,
                    state: FqStateView::Running(
                        spec_start_phase(reg, spec_fallback_order(m.requested)[m.pos + 1]),
                    ),
                    ..m
                }
            } else {
                FallbackQueryView { state: FqStateView::Finished(Ok(None)), ..m }
            }
        },
    }
}

/// One transition of a fallback query on one upstream outcome.
pub open spec fn fq_step(
    m: FallbackQueryView,
    reg: RegistryView,
    ev: UpstreamEventView,
) -> (FallbackQueryView, RegistryView) {
    match m.state {
        FqStateView::Running(ph) => {
            let c = m.current_channel();
            match ev {
                UpstreamEventView::Auth(ae) => {
                    let s = spec_auth_step(ph, reg, c, ae);
                    match s.0 {
                        AuthStep::Continue(ph2) => (
                            FallbackQueryView { state: FqStateView::Running(ph2), ..m },
                            s.1,
                        ),
                        AuthStep::Fail(e) => (
                            FallbackQueryView {
                                state: FqStateView::Finished(Err(CoreError::Session(e))),
                                ..m
                            },
                            s.1,
                        ),
                    }
                },
                UpstreamEventView::Details(de) => {
                    let s = spec_details_step(ph, reg, c, de);
                    match s.0 {
                        DetailsStep::Continue(ph2) => (
                            FallbackQueryView { state: FqStateView::Running(ph2), ..m },
                            s.1,
                        ),
                        DetailsStep::Complete(outcome) => (fq_resolve(m, s.1, outcome), s.1),
                    }
                },
                UpstreamEventView::Delivery(_) => (m, reg),
            }
        },
        FqStateView::Finished(_) => (m, reg),
    }
}

/// A whole fallback run against a script of upstream outcomes: the
/// query's result once it finishes, or nothing if the script ends or
/// answers out of turn, together with the registry it leaves behind.
pub open spec fn fq_drive(
    m: FallbackQueryView,
    reg: RegistryView,
    evs: Seq<UpstreamEventView>,
) -> (Option<FallbackResult>, RegistryView)
    decreases evs.len(),
{
    match m.state {
        FqStateView::Finished(res) => (Some(res), reg),
        FqStateView::Running(_) => {
            if evs.len() == 0 || !fq_expects(m, evs[0]) {
                (None, reg)
            } else {
                let s = fq_step(m, reg, evs[0]);
                fq_drive(s.0, s.1, evs.drop_first())
            }
        },
    }
}

/// A fallback query in flight: tries the requested channel first, then
/// the remaining channels in priority order, returns the first match,
/// aborts at once on a hard error, and reports "not found" only after
/// every channel answered with an absence.
pub struct FallbackQuery {
    package: String,
    requested: Channel,
    pos: usize,
    state: FqState,
}

enum FqState {
    Running(SessionPhase),
    Finished(FallbackResult),
}

impl View for FallbackQuery {
    type V = FallbackQueryView;

    closed spec fn view(&self) -> FallbackQueryView {
        FallbackQueryView {
            package: self.package@,
            requested: self.requested,
            pos: self.pos as int,
            state: match &self.state {
                FqState::Running(ph) => FqStateView::Running(ph@),
                FqState::Finished(res) => FqStateView::Finished(*res),
            },
        }
    }
}

impl FallbackQuery {
    /// Starts a fallback query for a package, trying the requested
    /// channel first.
    pub fn start(package: String, requested: Channel, reg: &SessionRegistry) -> (r: FallbackQuery)
        ensures
            r@ == fq_start(package@, requested, reg@),
            r@.wf(),
    {
        let order = fallback_order(requested);
        let ph = start_phase(reg, order[0]);
        FallbackQuery { package, requested, pos: 0, state: FqState::Running(ph) }
    }

    /// Whether the query has settled on its result.
    pub fn finished(&self) -> (b: bool)
        ensures
            b == (self@.state is Finished),
    {
        match &self.state {
            FqState::Running(_) => false,
            FqState::Finished(_) => true,
        }
    }

    /// Whether an event answers the exchange the query is waiting on.
    pub fn expects(&self, ev: &UpstreamEvent) -> (b: bool)
        ensures
            b == fq_expects(self@, ev@),
    {
        match &self.state {
            FqState::Running(ph) => match ph {
                SessionPhase::Authenticating { .. } => matches!(ev, UpstreamEvent::Auth(_)),
                SessionPhase::Fetching { .. } => matches!(ev, UpstreamEvent::Details(_)),
            },
            FqState::Finished(_) => false,
        }
    }

    /// The upstream exchange the query needs next.
    pub fn next_action(&self) -> (a: QueryAction)
        requires
            self@.wf(),
        ensures
            match self@.state {
                FqStateView::Running(ph) => match ph {
                    PhaseView::Authenticating { .. } => a matches QueryAction::Authenticate(c)
                        && c == self@.current_channel(),
                    PhaseView::Fetching { token, .. } => a matches QueryAction::FetchDetails {
                        channel,
                        token: t,
                        package,
                    } && channel == self@.current_channel() && t@ == token && package@
                        == self@.package,
                },
                FqStateView::Finished(_) => a is Settled,
            },
    {
        match &self.state {
            FqState::Running(ph) => {
                let order = fallback_order(self.requested);
                let c = order[self.pos];
                match ph {
                    SessionPhase::Authenticating { .. } => QueryAction::Authenticate(c),
                    SessionPhase::Fetching { token, .. } => QueryAction::FetchDetails {
                        channel: c,
                        token: token.clone(),
                        package: self.package.clone(),
                    },
                }
            },
            FqState::Finished(_) => QueryAction::Settled,
        }
    }

    /// Feeds the query the outcome of the exchange it was waiting on.
    pub fn on_event(self, reg: &mut SessionRegistry, ev: UpstreamEvent) -> (r: FallbackQuery)
        requires
            self@.wf(),
            old(reg).wf(),
            fq_expects(self@, ev@),
        ensures
            r@.wf(),
            final(reg).wf(),
            r@ == fq_step(self@, old(reg)@, ev@).0,
            final(reg)@ == fq_step(self@, old(reg)@, ev@).1,
    {
        let FallbackQuery { package, requested, pos, state } = self;
        match state {
            FqState::Running(ph) => {
                let order = fallback_order(requested);
                let c = order[pos];
                match ev {
                    UpstreamEvent::Auth(ae) => match auth_transition(ph, reg, c, ae) {
                        AuthTransition::Continue(ph2) => FallbackQuery {
                            package,
                            requested,
                            pos,
                            state: FqState::Running(ph2),
                        },
                        AuthTransition::Fail(e) => FallbackQuery {
                            package,
                            requested,
                            pos,
                            state: FqState::Finished(Err(CoreError::Session(e))),
                        },
                    },
                    UpstreamEvent::Details(de) => match details_transition(ph, reg, c, de) {
                        DetailsTransition::Continue(ph2) => FallbackQuery {
                            package,
                            requested,
                            pos,
                            state: FqState::Running(ph2),
                        },
                        DetailsTransition::Complete(outcome) => match outcome {
                            ChannelOutcome::Present(doc) => FallbackQuery {
                                package,
                                requested,
                                pos,
                                state: FqState::Finished(Ok(Some((c, doc)))),
                            },
                            ChannelOutcome::Failed(e) => FallbackQuery {
                                package,
                                requested,
                                pos,
                                state: FqState::Finished(Err(CoreError::Session(e))),
                            },
                            ChannelOutcome::Absent => {
                                if pos + 1 < 3 {
                                    let ph2 = start_phase(reg, order[pos + 1]);
                                    FallbackQuery {
                                        package,
                                        requested,
                                        pos: pos + 1,
                                        state: FqState::Running(ph2),
                                    }
                                } else {
                                    FallbackQuery {
                                        package,
                                        requested,
                                        pos,
                                        state: FqState::Finished(Ok(None)),
                                    }
                                }
                            },
                        },
                    },
                    UpstreamEvent::Delivery(_) => unreached(),
                }
            },
            FqState::Finished(_) => unreached(),
        }
    }

    /// The settled result of the query.
    pub fn into_result(self) -> (r: FallbackResult)
        requires
            self@.state is Finished,
        ensures
            self@.state == FqStateView::Finished(r),
    {
        match self.state {
            FqState::Finished(res) => res,
            FqState::Running(_) => unreached(),
        }
    }
}

/// Runs a whole fallback query against a script of upstream outcomes:
/// the driver of tests and of any in-process caller that already holds
/// the outcomes. Returns the query's result, or nothing if the script
/// ends early or answers out of turn.
#[verifier::loop_isolation(false)]
pub fn fallback_query(
    package: String,
    requested: Channel,
    reg: &mut SessionRegistry,
    script: Vec<UpstreamEvent>,
) -> (r: Option<FallbackResult>)
    requires
        old(reg).wf(),
    ensures
        final(reg).wf(),
        r == fq_drive(fq_start(package@, requested, old(reg)@), old(reg)@, events_view(script@)).0,
        final(reg)@ == fq_drive(
            fq_start(package@, requested, old(reg)@),
            old(reg)@,
            events_view(script@),
        ).1,
{
    let ghost m0 = fq_start(package@, requested, reg@);
    let ghost reg0 = reg@;
    let ghost evs0 = events_view(script@);
    let mut m = FallbackQuery::start(package, requested, reg);
    let mut rest = script;
    loop
        invariant
            reg.wf(),
            m@.wf(),
            fq_drive(m@, reg@, events_view(rest@)) == fq_drive(m0, reg0, evs0),
        decreases rest@.len(),
    {
        if m.finished() {
            return Some(m.into_result());
        }
        if rest.len() == 0 {
            proof {
                assert(events_view(rest@).len() == 0);
            }
            return None;
        }
        let ghost evs = events_view(rest@);
        let ev = rest.remove(0);
        proof {
            assert(events_view(rest@) =~= evs.drop_first());
            assert(evs[0] == ev@);
        }
        if !m.expects(&ev) {
            return None;
        }
        m = m.on_event(reg, ev);
    }
}

/// A multi-channel query's result: the (channel, document) pairs of the
/// channels where the package was found, in priority order, or — only
/// when every channel hit a hard error — one representative error.
pub type MultiResult = Result<Vec<(Channel, DetailsDocument)>, CoreError>;

/// View of a multi-channel result: the found pairs as a sequence.
pub type MultiResultView = Result<Seq<(Channel, DetailsDocument)>, CoreError>;

/// View of where a multi-channel query stands.
pub enum MqStateView {
    Running(PhaseView),
    Finished(MultiResultView),
}

/// View of a multi-channel query.
pub struct MultiChannelQueryView {
    pub package: Seq<char>,
    pub pos: int,
    pub found: Seq<(Channel, DetailsDocument)>,
    pub errors: int,
    pub last_error: Option<ChannelError>,
    pub state: MqStateView,
}

impl MultiChannelQueryView {
    /// The channel the query is currently trying.
    pub open spec fn current_channel(self) -> Channel {
        spec_all_channels()[self.pos]
    }

    /// The position stays within the three channels; hard errors are
    /// counted at most once per completed channel, and once one was
    /// counted a representative error is at hand.
    pub open spec fn wf(self) -> bool {
        &&& 0 <= self.pos < 3
        &&& 0 <= self.errors
        &&& (self.state is Running ==> self.errors <= self.pos)
        &&& (self.errors > 0 ==> self.last_error is Some)
    }
}

/// The state a multi-channel query starts in: querying the first channel
/// in priority order, with nothing found yet.
pub open spec fn mq_start(package: Seq<char>, reg: RegistryView) -> MultiChannelQueryView {
    MultiChannelQueryView {
        package,
        pos: 0,
        found: Seq::empty(),
        errors: 0,
        last_error: None,
        state: MqStateView::Running(spec_start_phase(reg, spec_all_channels()[0])),
    }
}

/// Whether an event answers the exchange the query is waiting on.
pub open spec fn mq_expects(m: MultiChannelQueryView, ev: UpstreamEventView) -> bool {
    match m.state {
        MqStateView::Running(ph) => match ph {
            PhaseView::Authenticating { .. } => ev is Auth,
            PhaseView::Fetching { .. } => ev is Details,
        },
        MqStateView::Finished(_) => false,
    }
}

/// How a multi-channel query absorbs one channel's outcome: a found
/// document joins the aggregate, an absence leaves no trace, and a hard
/// error is only counted — no channel's failure blocks the others. After
/// the last channel the query finishes: with the aggregate, unless every
/// channel hit a hard error, in which case the last error stands for the
/// whole failure.
pub open spec fn mq_resolve(
    m: MultiChannelQueryView,
    reg: RegistryView,
    outcome: ChannelOutcome,
) -> MultiChannelQueryView {
    let found2 = match outcome {
        ChannelOutcome::Present(doc) => m.found.push((m.current_channel(), doc)),
        _ => m.found,
    };
    let errors2 = match outcome {
        ChannelOutcome::Failed(_) => m.errors + 1,
        _ => m.errors,
    };
    let last2 = match outcome {
        ChannelOutcome::Failed(e) => Some(e),
        _ => m.last_error,
    };
    if m.pos + 1 < 3 {
        MultiChannelQueryView {
            pos: m.pos + 1,
            found: found2,
            errors: errors2,
            last_error: last2,
            state: MqStateView::Running(
                spec_start_phase(reg, spec_all_channels()[m.pos + 1]),
            ),
            ..m
        }
    } else {
        let fin = if errors2 == 3 {
            match last2 {
                Some(e) => Err(CoreError::AllChannelsFailed(e)),
                None => Ok(found2),
            }
        } else {
            Ok(found2)
        };
        MultiChannelQueryView {
            found: Seq::empty(),
            errors: errors2,
            last_error: last2,
            state: MqStateView::Finished(fin),
            ..m
        }
    }
}

/// One transition of a multi-channel query on one upstream outcome.
pub open spec fn mq_step(
    m: MultiChannelQueryView,
    reg: RegistryView,
    ev: UpstreamEventView,
) -> (MultiChannelQueryView, RegistryView) {
    match m.state {
        MqStateView::Running(ph) => {
            let c = m.current_channel();
            match ev {
                UpstreamEventView::Auth(ae) => {
                    let s = spec_auth_step(ph, reg, c, ae);
                    match s.0 {
                        AuthStep::Continue(ph2) => (
                            MultiChannelQueryView { state: MqStateView::Running(ph2), ..m },
                            s.1,
                        ),
                        // the channel failed authentication for good:
                        // that is this channel's hard outcome, not the
                        // query's
                        AuthStep::Fail(e) => (
                            mq_resolve(m, s.1, ChannelOutcome::Failed(e)),
                            s.1,
                        ),
                    }
                },
                UpstreamEventView::Details(de) => {
                    let s = spec_details_step(ph, reg, c, de);
                    match s.0 {
                        DetailsStep::Continue(ph2) => (
                            MultiChannelQueryView { state: MqStateView::Running(ph2), ..m },
                            s.1,
                        ),
                        DetailsStep::Complete(outcome) => (mq_resolve(m, s.1, outcome), s.1),
                    }
                },
                UpstreamEventView::Delivery(_) => (m, reg),
            }
        },
        MqStateView::Finished(_) => (m, reg),
    }
}

/// A whole multi-channel run against a script of upstream outcomes.
pub open spec fn mq_drive(
    m: MultiChannelQueryView,
    reg: RegistryView,
    evs: Seq<UpstreamEventView>,
) -> (Option<MultiResultView>, RegistryView)
    decreases evs.len(),
{
    match m.state {
        MqStateView::Finished(res) => (Some(res), reg),
        MqStateView::Running(_) => {
            if evs.len() == 0 || !mq_expects(m, evs[0]) {
                (None, reg)
            } else {
                let s = mq_step(m, reg, evs[0]);
                mq_drive(s.0, s.1, evs.drop_first())
            }
        },
    }
}

/// A multi-channel query in flight: queries every channel independently
/// and aggregates whatever succeeded. One channel's absence or failure
/// never blocks the others; only when all three hit a hard error does
/// the query as a whole fail.
pub struct MultiChannelQuery {
    package: String,
    pos: usize,
    found: Vec<(Channel, DetailsDocument)>,
    errors: usize,
    last_error: Option<ChannelError>,
    state: MqState,
}

enum MqState {
    Running(SessionPhase),
    Finished(MultiResult),
}

impl View for MultiChannelQuery {
    type V = MultiChannelQueryView;

    closed spec fn view(&self) -> MultiChannelQueryView {
        MultiChannelQueryView {
            package: self.package@,
            pos: self.pos as int,
            found: self.found@,
            errors: self.errors as int,
            last_error: self.last_error,
            state: match &self.state {
                MqState::Running(ph) => MqStateView::Running(ph@),
                MqState::Finished(res) => MqStateView::Finished(
                    match res {
                        Ok(v) => Ok(v@),
                        Err(e) => Err(*e),
                    },
                ),
            },
        }
    }
}

impl MultiChannelQuery {
    /// Starts a multi-channel query for a package.
    pub fn start(package: String, reg: &SessionRegistry) -> (r: MultiChannelQuery)
        ensures
            r@ == mq_start(package@, reg@),
            r@.wf(),
    {
        let order = all_channels();
        let ph = start_phase(reg, order[0]);
        let r = MultiChannelQuery {
            package,
            pos: 0,
            found: Vec::new(),
            errors: 0,
            last_error: None,
            state: MqState::Running(ph),
        };
        proof {
            assert(r@.found =~= mq_start(r@.package, reg@).found);
        }
        r
    }

    /// Whether the query has settled on its result.
    pub fn finished(&self) -> (b: bool)
        ensures
            b == (self@.state is Finished),
    {
        match &self.state {
            MqState::Running(_) => false,
            MqState::Finished(_) => true,
        }
    }

    /// Whether an event answers the exchange the query is waiting on.
    pub fn expects(&self, ev: &UpstreamEvent) -> (b: bool)
        ensures
            b == mq_expects(self@, ev@),
    {
        match &self.state {
            MqState::Running(ph) => match ph {
                SessionPhase::Authenticating { .. } => matches!(ev, UpstreamEvent::Auth(_)),
                SessionPhase::Fetching { .. } => matches!(ev, UpstreamEvent::Details(_)),
            },
            MqState::Finished(_) => false,
        }
    }

    /// The upstream exchange the query needs next.
    pub fn next_action(&self) -> (a: QueryAction)
        requires
            self@.wf(),
        ensures
            match self@.state {
                MqStateView::Running(ph) => match ph {
                    PhaseView::Authenticating { .. } => a matches QueryAction::Authenticate(c)
                        && c == self@.current_channel(),
                    PhaseView::Fetching { token, .. } => a matches QueryAction::FetchDetails {
                        channel,
                        token: t,
                        package,
                    } && channel == self@.current_channel() && t@ == token && package@
                        == self@.package,
                },
                MqStateView::Finished(_) => a is Settled,
            },
    {
        match &self.state {
            MqState::Running(ph) => {
                let order = all_channels();
                let c = order[self.pos];
                match ph {
                    SessionPhase::Authenticating { .. } => QueryAction::Authenticate(c),
                    SessionPhase::Fetching { token, .. } => QueryAction::FetchDetails {
                        channel: c,
                        token: token.clone(),
                        package: self.package.clone(),
                    },
                }
            },
            MqState::Finished(_) => QueryAction::Settled,
        }
    }

    /// Feeds the query the outcome of the exchange it was waiting on.
    pub fn on_event(self, reg: &mut SessionRegistry, ev: UpstreamEvent) -> (r: MultiChannelQuery)
        requires
            self@.wf(),
            old(reg).wf(),
            mq_expects(self@, ev@),
        ensures
            r@.wf(),
            final(reg).wf(),
            r@ == mq_step(self@, old(reg)@, ev@).0,
            final(reg)@ == mq_step(self@, old(reg)@, ev@).1,
    {
        let MultiChannelQuery { package, pos, found, errors, last_error, state } = self;
        match state {
            MqState::Running(ph) => {
                let order = all_channels();
                let c = order[pos];
                match ev {
                    UpstreamEvent::Auth(ae) => match auth_transition(ph, reg, c, ae) {
                        AuthTransition::Continue(ph2) => MultiChannelQuery {
                            package,
                            pos,
                            found,
                            errors,
                            last_error,
                            state: MqState::Running(ph2),
                        },
                        AuthTransition::Fail(e) => Self::resolve(
                            package,
                            pos,
                            found,
                            errors,
                            last_error,
                            ChannelOutcome::Failed(e),
                            reg,
                        ),
                    },
                    UpstreamEvent::Details(de) => match details_transition(ph, reg, c, de) {
                        DetailsTransition::Continue(ph2) => MultiChannelQuery {
                            package,
                            pos,
                            found,
                            errors,
                            last_error,
                            state: MqState::Running(ph2),
                        },
                        DetailsTransition::Complete(outcome) => Self::resolve(
                            package,
                            pos,
                            found,
                            errors,
                            last_error,
                            outcome,
                            reg,
                        ),
                    },
                    UpstreamEvent::Delivery(_) => unreached(),
                }
            },
            MqState::Finished(_) => unreached(),
        }
    }

    /// Absorbs one channel's outcome and moves to the next channel or to
    /// the aggregate result, exactly as `mq_resolve` says.
    fn resolve(
        package: String,
        pos: usize,
        found: Vec<(Channel, DetailsDocument)>,
        errors: usize,
        last_error: Option<ChannelError>,
        outcome: ChannelOutcome,
        reg: &SessionRegistry,
    ) -> (r: MultiChannelQuery)
        requires
            0 <= pos < 3,
            errors <= pos,
            errors > 0 ==> last_error is Some,
        ensures
            r@ == mq_resolve(
                MultiChannelQueryView {
                    package: package@,
                    pos: pos as int,
                    found: found@,
                    errors: errors as int,
                    last_error,
                    state: MqStateView::Running(PhaseView::Authenticating { rejected_once: false }),
                },
                reg@,
                outcome,
            ),
            r@.wf(),
    {
        let mut found = found;
        let mut errors = errors;
        let mut last_error = last_error;
        let ghost c = spec_all_channels()[pos as int];
        let order = all_channels();
        match outcome {
            ChannelOutcome::Present(doc) => {
                found.push((order[pos], doc));
            },
            ChannelOutcome::Absent => {},
            ChannelOutcome::Failed(e) => {
                errors = errors + 1;
                last_error = Some(e);
            },
        }
        if pos + 1 < 3 {
            let ph2 = start_phase(reg, order[pos + 1]);
            MultiChannelQuery {
                package,
                pos: pos + 1,
                found,
                errors,
                last_error,
                state: MqState::Running(ph2),
            }
        } else {
            let fin: MultiResult = if errors == 3 {
                match last_error {
                    Some(e) => Err(CoreError::AllChannelsFailed(e)),
                    None => Ok(Vec::new()),
                }
            } else {
                Ok(found)
            };
            proof {
                assert(errors == 3 ==> last_error is Some);
            }
            MultiChannelQuery {
                package,
                pos,
                found: Vec::new(),
                errors,
                last_error,
                state: MqState::Finished(fin),
            }
        }
    }

    /// The settled result of the query.
    pub fn into_result(self) -> (r: MultiResult)
        requires
            self@.state is Finished,
        ensures
            match r {
                Ok(v) => self@.state == MqStateView::Finished(Ok::<_, CoreError>(v@)),
                Err(e) => self@.state == MqStateView::Finished(Err::<Seq<(Channel, DetailsDocument)>, _>(e)),
            },
    {
        match self.state {
            MqState::Finished(res) => res,
            MqState::Running(_) => unreached(),
        }
    }
}

/// Runs a whole multi-channel query against a script of upstream
/// outcomes. Returns the query's result, or nothing if the script ends
/// early or answers out of turn.
#[verifier::loop_isolation(false)]
pub fn multi_channel_query(
    package: String,
    reg: &mut SessionRegistry,
    script: Vec<UpstreamEvent>,
) -> (r: Option<MultiResult>)
    requires
        old(reg).wf(),
    ensures
        final(reg).wf(),
        match r {
            Some(res) => {
                let d = mq_drive(mq_start(package@, old(reg)@), old(reg)@, events_view(script@));
                &&& match res {
                    Ok(v) => d.0 == Some(Ok::<_, CoreError>(v@)),
                    Err(e) => d.0 == Some(Err::<Seq<(Channel, DetailsDocument)>, _>(e)),
                }
                &&& final(reg)@ == d.1
            },
            None => {
                let d = mq_drive(mq_start(package@, old(reg)@), old(reg)@, events_view(script@));
                &&& d.0 is None
                &&& final(reg)@ == d.1
            },
        },
{
    let ghost m0 = mq_start(package@, reg@);
    let ghost reg0 = reg@;
    let ghost evs0 = events_view(script@);
    let mut m = MultiChannelQuery::start(package, reg);
    let mut rest = script;
    loop
        invariant
            reg.wf(),
            m@.wf(),
            mq_drive(m@, reg@, events_view(rest@)) == mq_drive(m0, reg0, evs0),
        decreases rest@.len(),
    {
        if m.finished() {
            return Some(m.into_result());
        }
        if rest.len() == 0 {
            proof {
                assert(events_view(rest@).len() == 0);
            }
            return None;
        }
        let ghost evs = events_view(rest@);
        let ev = rest.remove(0);
        proof {
            assert(events_view(rest@) =~= evs.drop_first());
            assert(evs[0] == ev@);
        }
        if !m.expects(&ev) {
            return None;
        }
        m = m.on_event(reg, ev);
    }
}

/// A download query's result: the bundle granted for the requested
/// channel, tagged with that very channel, or nothing.
pub type DownloadResult = Result<Option<(Channel, DownloadBundle)>, CoreError>;

/// View of where a download query stands: resolving details on the
/// requested channel, fetching delivery data for the resolved version,
/// or settled.
pub enum DqStateView {
    DetailsStage(PhaseView),
    DeliveryStage { version_code: i32, phase: PhaseView },
    Finished(DownloadResult),
}

/// View of a download query.
pub struct DownloadQueryView {
    pub package: Seq<char>,
    pub channel: Channel,
    pub requested_version: Option<i32>,
    pub state: DqStateView,
}

/// The state a download query starts in: resolving details on the
/// requested channel alone — a download never falls back across
/// channels, since a version code is only meaningful within the channel
/// it was fetched from.
pub open spec fn dq_start(
    package: Seq<char>,
    channel: Channel,
    requested_version: Option<i32>,
    reg: RegistryView,
) -> DownloadQueryView {
    DownloadQueryView {
        package,
        channel,
        requested_version,
        state: DqStateView::DetailsStage(spec_start_phase(reg, channel)),
    }
}

/// Whether an event answers the exchange the query is waiting on.
pub open spec fn dq_expects(m: DownloadQueryView, ev: UpstreamEventView) -> bool {
    match m.state {
        DqStateView::DetailsStage(ph) => match ph {
            PhaseView::Authenticating { .. } => ev is Auth,
            PhaseView::Fetching { .. } => ev is Details,
        },
        DqStateView::DeliveryStage { phase, .. } => match phase {
            PhaseView::Authenticating { .. } => ev is Auth,
            PhaseView::Fetching { .. } => ev is Delivery,
        },
        DqStateView::Finished(_) => false,
    }
}

/// How a download query resolves the details outcome of its channel: an
/// absence is final (no fallback); a document yields the version to
/// fetch — the caller's, or else the latest one the document carries,
/// or, if it carries none, the query fails with `NoVersionAvailable`.
pub open spec fn dq_resolve_details(
    m: DownloadQueryView,
    reg: RegistryView,
    outcome: ChannelOutcome,
) -> DownloadQueryView {
    match outcome {
        ChannelOutcome::Present(doc) => {
            let v = match m.requested_version {
                Some(v) => Some(v),
                None => doc.spec_version_code(),
            };
            match v {
                Some(v) => DownloadQueryView {
                    state: DqStateView::DeliveryStage {
                        version_code: v,
                        phase: spec_start_phase(reg, m.channel),
                    },
                    ..m
                },
                None => DownloadQueryView {
                    state: DqStateView::Finished(Err(CoreError::NoVersionAvailable)),
                    ..m
                },
            }
        },
        ChannelOutcome::Absent => DownloadQueryView {
            state: DqStateView::Finished(Ok(None)),
            ..m
        },
        ChannelOutcome::Failed(e) => DownloadQueryView {
            state: DqStateView::Finished(Err(CoreError::Session(e))),
            ..m
        },
    }
}

/// How a download query resolves the delivery outcome: a granted bundle
/// is returned under the requested channel; an entitlement denial is an
/// absence, not an error.
pub open spec fn dq_resolve_delivery(
    m: DownloadQueryView,
    outcome: DeliveryOutcome,
) -> DownloadQueryView {
    match outcome {
        DeliveryOutcome::Granted(bundle) => DownloadQueryView {
            state: DqStateView::Finished(Ok(Some((m.channel, bundle)))),
            ..m
        },
        DeliveryOutcome::Unavailable => DownloadQueryView {
            state: DqStateView::Finished(Ok(None)),
            ..m
        },
        DeliveryOutcome::Failed(e) => DownloadQueryView {
            state: DqStateView::Finished(Err(CoreError::Session(e))),
            ..m
        },
    }
}

/// One transition of a download query on one upstream outcome.
pub open spec fn dq_step(
    m: DownloadQueryView,
    reg: RegistryView,
    ev: UpstreamEventView,
) -> (DownloadQueryView, RegistryView) {
    match m.state {
        DqStateView::DetailsStage(ph) => match ev {
            UpstreamEventView::Auth(ae) => {
                let s = spec_auth_step(ph, reg, m.channel, ae);
                match s.0 {
                    AuthStep::Continue(ph2) => (
                        DownloadQueryView { state: DqStateView::DetailsStage(ph2), ..m },
                        s.1,
                    ),
                    AuthStep::Fail(e) => (
                        DownloadQueryView {
                            state: DqStateView::Finished(Err(CoreError::Session(e))),
                            ..m
                        },
                        s.1,
                    ),
                }
            },
            UpstreamEventView::Details(de) => {
                let s = spec_details_step(ph, reg, m.channel, de);
                match s.0 {
                    DetailsStep::Continue(ph2) => (
                        DownloadQueryView { state: DqStateView::DetailsStage(ph2), ..m },
                        s.1,
                    ),
                    DetailsStep::Complete(outcome) => (dq_resolve_details(m, s.1, outcome), s.1),
                }
            },
            UpstreamEventView::Delivery(_) => (m, reg),
        },
        DqStateView::DeliveryStage { version_code, phase } => match ev {
            UpstreamEventView::Auth(ae) => {
                let s = spec_auth_step(phase, reg, m.channel, ae);
                match s.0 {
                    AuthStep::Continue(ph2) => (
                        DownloadQueryView {
                            state: DqStateView::DeliveryStage { version_code, phase: ph2 },
                            ..m
                        },
                        s.1,
                    ),
                    AuthStep::Fail(e) => (
                        DownloadQueryView {
                            state: DqStateView::Finished(Err(CoreError::Session(e))),
                            ..m
                        },
                        s.1,
                    ),
                }
            },
            UpstreamEventView::Delivery(de) => {
                let s = spec_delivery_step(phase, reg, m.channel, de);
                match s.0 {
                    DeliveryStep::Continue(ph2) => (
                        DownloadQueryView {
                            state: DqStateView::DeliveryStage { version_code, phase: ph2 },
                            ..m
                        },
                        s.1,
                    ),
                    DeliveryStep::Complete(outcome) => (dq_resolve_delivery(m, outcome), s.1),
                }
            },
            UpstreamEventView::Details(_) => (m, reg),
        },
        DqStateView::Finished(_) => (m, reg),
    }
}

/// A whole download run against a script of upstream outcomes.
pub open spec fn dq_drive(
    m: DownloadQueryView,
    reg: RegistryView,
    evs: Seq<UpstreamEventView>,
) -> (Option<DownloadResult>, RegistryView)
    decreases evs.len(),
{
    match m.state {
        DqStateView::Finished(res) => (Some(res), reg),
        _ => {
            if evs.len() == 0 || !dq_expects(m, evs[0]) {
                (None, reg)
            } else {
                let s = dq_step(m, reg, evs[0]);
                dq_drive(s.0, s.1, evs.drop_first())
            }
        },
    }
}

/// A download query in flight: resolves details on the requested
/// channel alone, resolves the version to fetch, and fetches the
/// delivery data for it on that same channel's session.
pub struct DownloadQuery {
    package: String,
    channel: Channel,
    requested_version: Option<i32>,
    state: DqState,
}

enum DqState {
    DetailsStage(SessionPhase),
    DeliveryStage { version_code: i32, phase: SessionPhase },
    Finished(DownloadResult),
}

impl View for DownloadQuery {
    type V = DownloadQueryView;

    closed spec fn view(&self) -> DownloadQueryView {
        DownloadQueryView {
            package: self.package@,
            channel: self.channel,
            requested_version: self.requested_version,
            state: match &self.state {
                DqState::DetailsStage(ph) => DqStateView::DetailsStage(ph@),
                DqState::DeliveryStage { version_code, phase } => DqStateView::DeliveryStage {
                    version_code: *version_code,
                    phase: phase@,
                },
                DqState::Finished(res) => DqStateView::Finished(*res),
            },
        }
    }
}

impl DownloadQuery {
    /// Starts a download query for a package under one channel, with the
    /// caller's version code or none.
    pub fn start(
        package: String,
        channel: Channel,
        requested_version: Option<i32>,
        reg: &SessionRegistry,
    ) -> (r: DownloadQuery)
        ensures
            r@ == dq_start(package@, channel, requested_version, reg@),
    {
        let ph = start_phase(reg, channel);
        DownloadQuery { package, channel, requested_version, state: DqState::DetailsStage(ph) }
    }

    /// Whether the query has settled on its result.
    pub fn finished(&self) -> (b: bool)
        ensures
            b == (self@.state is Finished),
    {
        match &self.state {
            DqState::Finished(_) => true,
            _ => false,
        }
    }

    /// Whether an event answers the exchange the query is waiting on.
    pub fn expects(&self, ev: &UpstreamEvent) -> (b: bool)
        ensures
            b == dq_expects(self@, ev@),
    {
        match &self.state {
            DqState::DetailsStage(ph) => match ph {
                SessionPhase::Authenticating { .. } => matches!(ev, UpstreamEvent::Auth(_)),
                SessionPhase::Fetching { .. } => matches!(ev, UpstreamEvent::Details(_)),
            },
            DqState::DeliveryStage { phase, .. } => match phase {
                SessionPhase::Authenticating { .. } => matches!(ev, UpstreamEvent::Auth(_)),
                SessionPhase::Fetching { .. } => matches!(ev, UpstreamEvent::Delivery(_)),
            },
            DqState::Finished(_) => false,
        }
    }

    /// The upstream exchange the query needs next.
    pub fn next_action(&self) -> (a: QueryAction)
        ensures
            match self@.state {
                DqStateView::DetailsStage(ph) => match ph {
                    PhaseView::Authenticating { .. } => a matches QueryAction::Authenticate(c)
                        && c == self@.channel,
                    PhaseView::Fetching { token, .. } => a matches QueryAction::FetchDetails {
                        channel,
                        token: t,
                        package,
                    } && channel == self@.channel && t@ == token && package@ == self@.package,
                },
                DqStateView::DeliveryStage { version_code, phase } => match phase {
                    PhaseView::Authenticating { .. } => a matches QueryAction::Authenticate(c)
                        && c == self@.channel,
                    PhaseView::Fetching { token, .. } => a matches QueryAction::FetchDelivery {
                        channel,
                        token: t,
                        package,
                        version_code: v,
                    } && channel == self@.channel && t@ == token && package@ == self@.package
                        && v == version_code,
                },
                DqStateView::Finished(_) => a is Settled,
            },
    {
        match &self.state {
            DqState::DetailsStage(ph) => match ph {
                SessionPhase::Authenticating { .. } => QueryAction::Authenticate(self.channel),
                SessionPhase::Fetching { token, .. } => QueryAction::FetchDetails {
                    channel: self.channel,
                    token: token.clone(),
                    package: self.package.clone(),
                },
            },
            DqState::DeliveryStage { version_code, phase } => match phase {
                SessionPhase::Authenticating { .. } => QueryAction::Authenticate(self.channel),
                SessionPhase::Fetching { token, .. } => QueryAction::FetchDelivery {
                    channel: self.channel,
                    token: token.clone(),
                    package: self.package.clone(),
                    version_code: *version_code,
                },
            },
            DqState::Finished(_) => QueryAction::Settled,
        }
    }

    /// Feeds the query the outcome of the exchange it was waiting on.
    pub fn on_event(self, reg: &mut SessionRegistry, ev: UpstreamEvent) -> (r: DownloadQuery)
        requires
            old(reg).wf(),
            dq_expects(self@, ev@),
        ensures
            final(reg).wf(),
            r@ == dq_step(self@, old(reg)@, ev@).0,
            final(reg)@ == dq_step(self@, old(reg)@, ev@).1,
    {
        let DownloadQuery { package, channel, requested_version, state } = self;
        match state {
            DqState::DetailsStage(ph) => match ev {
                UpstreamEvent::Auth(ae) => match auth_transition(ph, reg, channel, ae) {
                    AuthTransition::Continue(ph2) => DownloadQuery {
                        package,
                        channel,
                        requested_version,
                        state: DqState::DetailsStage(ph2),
                    },
                    AuthTransition::Fail(e) => DownloadQuery {
                        package,
                        channel,
                        requested_version,
                        state: DqState::Finished(Err(CoreError::Session(e))),
                    },
                },
                UpstreamEvent::Details(de) => match details_transition(ph, reg, channel, de) {
                    DetailsTransition::Continue(ph2) => DownloadQuery {
                        package,
                        channel,
                        requested_version,
                        state: DqState::DetailsStage(ph2),
                    },
                    DetailsTransition::Complete(outcome) => match outcome {
                        ChannelOutcome::Present(doc) => {
                            let v = match requested_version {
                                Some(v) => Some(v),
                                None => doc.version_code(),
                            };
                            match v {
                                Some(v) => {
                                    let ph2 = start_phase(reg, channel);
                                    DownloadQuery {
                                        package,
                                        channel,
                                        requested_version,
                                        state: DqState::DeliveryStage {
                                            version_code: v,
                                            phase: ph2,
                                        },
                                    }
                                },
                                None => DownloadQuery {
                                    package,
                                    channel,
                                    requested_version,
                                    state: DqState::Finished(Err(CoreError::NoVersionAvailable)),
                                },
                            }
                        },
                        ChannelOutcome::Absent => DownloadQuery {
                            package,
                            channel,
                            requested_version,
                            state: DqState::Finished(Ok(None)),
                        },
                        ChannelOutcome::Failed(e) => DownloadQuery {
                            package,
                            channel,
                            requested_version,
                            state: DqState::Finished(Err(CoreError::Session(e))),
                        },
                    },
                },
                UpstreamEvent::Delivery(_) => unreached(),
            },
            DqState::DeliveryStage { version_code, phase } => match ev {
                UpstreamEvent::Auth(ae) => match auth_transition(phase, reg, channel, ae) {
                    AuthTransition::Continue(ph2) => DownloadQuery {
                        package,
                        channel,
                        requested_version,
                        state: DqState::DeliveryStage { version_code, phase: ph2 },
                    },
                    AuthTransition::Fail(e) => DownloadQuery {
                        package,
                        channel,
                        requested_version,
                        state: DqState::Finished(Err(CoreError::Session(e))),
                    },
                },
                UpstreamEvent::Delivery(de) => match delivery_transition(phase, reg, channel, de) {
                    DeliveryTransition::Continue(ph2) => DownloadQuery {
                        package,
                        channel,
                        requested_version,
                        state: DqState::DeliveryStage { version_code, phase: ph2 },
                    },
                    DeliveryTransition::Complete(outcome) => match outcome {
                        DeliveryOutcome::Granted(bundle) => DownloadQuery {
                            package,
                            channel,
                            requested_version,
                            state: DqState::Finished(Ok(Some((channel, bundle)))),
                        },
                        DeliveryOutcome::Unavailable => DownloadQuery {
                            package,
                            channel,
                            requested_version,
                            state: DqState::Finished(Ok(None)),
                        },
                        DeliveryOutcome::Failed(e) => DownloadQuery {
                            package,
                            channel,
                            requested_version,
                            state: DqState::Finished(Err(CoreError::Session(e))),
                        },
                    },
                },
                UpstreamEvent::Details(_) => unreached(),
            },
            DqState::Finished(_) => unreached(),
        }
    }

    /// The settled result of the query.
    pub fn into_result(self) -> (r: DownloadResult)
        requires
            self@.state is Finished,
        ensures
            self@.state == DqStateView::Finished(r),
    {
        match self.state {
            DqState::Finished(res) => res,
            _ => unreached(),
        }
    }
}

/// Runs a whole download query against a script of upstream outcomes.
/// Returns the query's result, or nothing if the script ends early or
/// answers out of turn.
#[verifier::loop_isolation(false)]
pub fn download_query(
    package: String,
    channel: Channel,
    version_code: Option<i32>,
    reg: &mut SessionRegistry,
    script: Vec<UpstreamEvent>,
) -> (r: Option<DownloadResult>)
    requires
        old(reg).wf(),
    ensures
        final(reg).wf(),
        r == dq_drive(
            dq_start(package@, channel, version_code, old(reg)@),
            old(reg)@,
            events_view(script@),
        ).0,
        final(reg)@ == dq_drive(
            dq_start(package@, channel, version_code, old(reg)@),
            old(reg)@,
            events_view(script@),
        ).1,
{
    let ghost m0 = dq_start(package@, channel, version_code, reg@);
    let ghost reg0 = reg@;
    let ghost evs0 = events_view(script@);
    let mut m = DownloadQuery::start(package, channel, version_code, reg);
    let mut rest = script;
    loop
        invariant
            reg.wf(),
            dq_drive(m@, reg@, events_view(rest@)) == dq_drive(m0, reg0, evs0),
        decreases rest@.len(),
    {
        if m.finished() {
            return Some(m.into_result());
        }
        if rest.len() == 0 {
            proof {
                assert(events_view(rest@).len() == 0);
            }
            return None;
        }
        let ghost evs = events_view(rest@);
        let ev = rest.remove(0);
        proof {
            assert(events_view(rest@) =~= evs.drop_first());
            assert(evs[0] == ev@);
        }
        if !m.expects(&ev) {
            return None;
        }
        m = m.on_event(reg, ev);
    }
}

} // verus!
