//! Per-channel authenticated sessions and the registry that caches them.
//!
//! A session owns the short-lived bearer token one authentication
//! exchange yielded for one channel. The registry caches at most one
//! session per channel; it is the only shared mutable state of the
//! engine. Every upstream exchange is represented by an event handed to
//! the engine by its driver, so the credential lifecycle (acquire, reuse,
//! retry once on rejection, evict) is a pure, verified transition system.

use vstd::prelude::*;

use crate::channel::Channel;
use crate::errors::ChannelError;
use crate::model::DetailsDocument;
use crate::model::DownloadBundle;

verus! {

/// One authenticated per-channel client: the channel it is scoped to and
/// the bearer token its authentication exchange yielded.
pub struct Session {
    pub channel: Channel,
    pub token: String,
}

/// What the registry caches, channel by channel: the token of the cached
/// session, if one exists.
pub struct RegistryView {
    pub stable: Option<Seq<char>>,
    pub beta: Option<Seq<char>>,
    pub alpha: Option<Seq<char>>,
}

impl RegistryView {
    /// The cached token for a channel, if any.
    pub open spec fn token_of(self, c: Channel) -> Option<Seq<char>> {
        match c {
            Channel::Stable => self.stable,
            Channel::Beta => self.beta,
            Channel::Alpha => self.alpha,
        }
    }

    /// The registry with no session cached for any channel.
    pub open spec fn empty() -> RegistryView {
        RegistryView { stable: None, beta: None, alpha: None }
    }

    /// The registry after caching a token for one channel.
    pub open spec fn with_token(self, c: Channel, t: Seq<char>) -> RegistryView {
        match c {
            Channel::Stable => RegistryView { stable: Some(t), beta: self.beta, alpha: self.alpha },
            Channel::Beta => RegistryView { stable: self.stable, beta: Some(t), alpha: self.alpha },
            Channel::Alpha => RegistryView { stable: self.stable, beta: self.beta, alpha: Some(t) },
        }
    }

    /// The registry after dropping the session of one channel.
    pub open spec fn without(self, c: Channel) -> RegistryView {
        match c {
            Channel::Stable => RegistryView { stable: None, beta: self.beta, alpha: self.alpha },
            Channel::Beta => RegistryView { stable: self.stable, beta: None, alpha: self.alpha },
            Channel::Alpha => RegistryView { stable: self.stable, beta: self.beta, alpha: None },
        }
    }
}

/// The process-wide cache of at most one session per channel.
pub struct SessionRegistry {
    stable: Option<Session>,
    beta: Option<Session>,
    alpha: Option<Session>,
}

impl View for SessionRegistry {
    type V = RegistryView;

    closed spec fn view(&self) -> RegistryView {
        RegistryView {
            stable: match self.stable {
                Some(s) => Some(s.token@),
                None => None,
            },
            beta: match self.beta {
                Some(s) => Some(s.token@),
                None => None,
            },
            alpha: match self.alpha {
                Some(s) => Some(s.token@),
                None => None,
            },
        }
    }
}

impl SessionRegistry {
    /// Every cached session is tagged with the channel of its slot.
    pub closed spec fn wf(&self) -> bool {
        &&& (self.stable matches Some(s) ==> s.channel == Channel::Stable)
        &&& (self.beta matches Some(s) ==> s.channel == Channel::Beta)
        &&& (self.alpha matches Some(s) ==> s.channel == Channel::Alpha)
    }

    /// A registry with no session cached yet: a fresh process instance
    /// authenticates on first use.
    pub fn new() -> (r: SessionRegistry)
        ensures
            r.wf(),
            r@ == RegistryView::empty(),
    {
        SessionRegistry { stable: None, beta: None, alpha: None }
    }

    /// The cached token for a channel, if a session exists for it.
    pub fn token_for(&self, c: Channel) -> (r: Option<String>)
        ensures
            match r {
                Some(t) => self@.token_of(c) == Some(t@),
                None => self@.token_of(c) is None,
            },
    {
        let slot = match c {
            Channel::Stable => &self.stable,
            Channel::Beta => &self.beta,
            Channel::Alpha => &self.alpha,
        };
        match slot {
            Some(s) => Some(s.token.clone()),
            None => None,
        }
    }

    /// Caches the session a fresh authentication exchange yielded,
    /// replacing any previous session of that channel.
    pub fn store_token(&mut self, c: Channel, token: String)
        requires
            old(self).wf(),
        ensures
            final(self).wf(),
            final(self)@ == old(self)@.with_token(c, token@),
    {
        let s = Session { channel: c, token };
        match c {
            Channel::Stable => {
                self.stable = Some(s);
            },
            Channel::Beta => {
                self.beta = Some(s);
            },
            Channel::Alpha => {
                self.alpha = Some(s);
            },
        }
    }

    /// Drops the cached session of a channel, so the next request on it
    /// authenticates afresh instead of reusing a poisoned session.
    pub fn evict(&mut self, c: Channel)
        requires
            old(self).wf(),
        ensures
            final(self).wf(),
            final(self)@ == old(self)@.without(c),
    {
        match c {
            Channel::Stable => {
                self.stable = None;
            },
            Channel::Beta => {
                self.beta = None;
            },
            Channel::Alpha => {
                self.alpha = None;
            },
        }
    }
}

/// Outcome of one authentication exchange, as the driver observed it.
pub enum AuthEvent {
    /// The exchange yielded a channel-scoped bearer token.
    Granted(String),
    /// The exchange was rejected (bad or expired base credential).
    Rejected,
    /// The exchange failed on the network or timed out.
    TransportFailure,
}

/// Outcome of one details fetch, as the driver observed it.
pub enum DetailsEvent {
    /// The package exists on the channel; its parsed document.
    Found(DetailsDocument),
    /// The package legitimately does not exist under this identity.
    NotFound,
    /// The attached token was rejected as expired or invalid.
    AuthRejected,
    /// A network or timeout failure.
    TransportFailure,
    /// The response envelope was not minimally well-formed.
    Malformed,
}

/// Outcome of one delivery fetch, as the driver observed it.
pub enum DeliveryEvent {
    /// Upstream granted the download; the parsed bundle of URLs.
    Granted(DownloadBundle),
    /// No entitlement for this identity: a legitimate absence, not an
    /// error.
    NotAvailable,
    /// The attached token was rejected as expired or invalid.
    AuthRejected,
    /// A network or timeout failure.
    TransportFailure,
    /// The response envelope was not minimally well-formed.
    Malformed,
}

/// Any upstream outcome a driver can hand back to a query.
pub enum UpstreamEvent {
    Auth(AuthEvent),
    Details(DetailsEvent),
    Delivery(DeliveryEvent),
}

/// View of an authentication outcome: the token as a character sequence.
pub enum AuthEventView {
    Granted(Seq<char>),
    Rejected,
    TransportFailure,
}

impl View for AuthEvent {
    type V = AuthEventView;

    open spec fn view(&self) -> AuthEventView {
        match self {
            AuthEvent::Granted(t) => AuthEventView::Granted(t@),
            AuthEvent::Rejected => AuthEventView::Rejected,
            AuthEvent::TransportFailure => AuthEventView::TransportFailure,
        }
    }
}

/// View of any upstream outcome. Only tokens need abstraction; parsed
/// documents and bundles pass through unchanged.
pub enum UpstreamEventView {
    Auth(AuthEventView),
    Details(DetailsEvent),
    Delivery(DeliveryEvent),
}

impl View for UpstreamEvent {
    type V = UpstreamEventView;

    open spec fn view(&self) -> UpstreamEventView {
        match self {
            UpstreamEvent::Auth(a) => UpstreamEventView::Auth(a@),
            UpstreamEvent::Details(d) => UpstreamEventView::Details(*d),
            UpstreamEvent::Delivery(d) => UpstreamEventView::Delivery(*d),
        }
    }
}

/// The views of a sequence of events.
pub open spec fn events_view(s: Seq<UpstreamEvent>) -> Seq<UpstreamEventView> {
    s.map_values(|e: UpstreamEvent| e@)
}

/// Where one channel's exchange stands: waiting for an authentication
/// exchange, or holding a token and waiting for the fetch made with it.
/// `rejected_once` records whether this operation already absorbed the
/// one authentication rejection it is allowed to retry.
pub enum SessionPhase {
    Authenticating { rejected_once: bool },
    Fetching { token: String, rejected_once: bool },
}

/// View of a phase: the token as a character sequence.
pub enum PhaseView {
    Authenticating { rejected_once: bool },
    Fetching { token: Seq<char>, rejected_once: bool },
}

impl View for SessionPhase {
    type V = PhaseView;

    open spec fn view(&self) -> PhaseView {
        match self {
            SessionPhase::Authenticating { rejected_once } => PhaseView::Authenticating {
                rejected_once: *rejected_once,
            },
            SessionPhase::Fetching { token, rejected_once } => PhaseView::Fetching {
                token: token@,
                rejected_once: *rejected_once,
            },
        }
    }
}

/// Result of one channel's details query.
pub enum ChannelOutcome {
    /// The package exists on the channel, with its document.
    Present(DetailsDocument),
    /// The package legitimately does not exist on the channel.
    Absent,
    /// The channel hit a hard error.
    Failed(ChannelError),
}

/// Result of one channel's delivery query.
pub enum DeliveryOutcome {
    /// Upstream granted the download.
    Granted(DownloadBundle),
    /// No entitlement under this identity: an absence, not an error.
    Unavailable,
    /// The channel hit a hard error.
    Failed(ChannelError),
}

/// What one event does to a phase that waits on an authentication
/// exchange: either the operation goes on in a new phase, or it has
/// failed for good with a hard error.
pub enum AuthStep {
    Continue(PhaseView),
    Fail(ChannelError),
}

/// What one event does to a phase that waits on a details fetch.
pub enum DetailsStep {
    Continue(PhaseView),
    Complete(ChannelOutcome),
}

/// What one event does to a phase that waits on a delivery fetch.
pub enum DeliveryStep {
    Continue(PhaseView),
    Complete(DeliveryOutcome),
}

/// The phase a channel operation starts in: a cached session is reused
/// for the fetch directly; otherwise the operation authenticates first.
pub open spec fn spec_start_phase(reg: RegistryView, c: Channel) -> PhaseView {
    match reg.token_of(c) {
        Some(t) => PhaseView::Fetching { token: t, rejected_once: false },
        None => PhaseView::Authenticating { rejected_once: false },
    }
}

/// Transition of an `Authenticating` phase on the outcome of the
/// exchange. A granted token is cached and the fetch proceeds with it. A
/// rejection is absorbed once per operation (the exchange is retried); a
/// second rejection fails the operation and evicts the channel's
/// session. A transport failure is a hard error.
pub open spec fn spec_auth_step(
    ph: PhaseView,
    reg: RegistryView,
    c: Channel,
    ev: AuthEventView,
) -> (AuthStep, RegistryView) {
    match ph {
        PhaseView::Authenticating { rejected_once } => match ev {
            AuthEventView::Granted(t) => (
                AuthStep::Continue(PhaseView::Fetching { token: t, rejected_once }),
                reg.with_token(c, t),
            ),
            AuthEventView::Rejected => {
                if !rejected_once {
                    (AuthStep::Continue(PhaseView::Authenticating { rejected_once: true }), reg)
                } else {
                    (AuthStep::Fail(ChannelError::AuthenticationFailed), reg.without(c))
                }
            },
            AuthEventView::TransportFailure => (
                AuthStep::Fail(ChannelError::TransportError),
                reg,
            ),
        },
        PhaseView::Fetching { .. } => (AuthStep::Continue(ph), reg),
    }
}

/// Transition of a `Fetching` phase on the outcome of a details fetch.
/// Found and not-found complete the operation; a token rejection is
/// absorbed once per operation (the session re-authenticates and the
/// fetch is retried), and a second rejection fails the operation and
/// evicts the session; transport and envelope failures are hard errors.
pub open spec fn spec_details_step(
    ph: PhaseView,
    reg: RegistryView,
    c: Channel,
    ev: DetailsEvent,
) -> (DetailsStep, RegistryView) {
    match ph {
        PhaseView::Fetching { token: _, rejected_once } => match ev {
            DetailsEvent::Found(doc) => (DetailsStep::Complete(ChannelOutcome::Present(doc)), reg),
            DetailsEvent::NotFound => (DetailsStep::Complete(ChannelOutcome::Absent), reg),
            DetailsEvent::AuthRejected => {
                if !rejected_once {
                    (
                        DetailsStep::Continue(PhaseView::Authenticating { rejected_once: true }),
                        reg,
                    )
                } else {
                    (
                        DetailsStep::Complete(
                            ChannelOutcome::Failed(ChannelError::AuthenticationFailed),
                        ),
                        reg.without(c),
                    )
                }
            },
            DetailsEvent::TransportFailure => (
                DetailsStep::Complete(ChannelOutcome::Failed(ChannelError::TransportError)),
                reg,
            ),
            DetailsEvent::Malformed => (
                DetailsStep::Complete(ChannelOutcome::Failed(ChannelError::MalformedResponse)),
                reg,
            ),
        },
        PhaseView::Authenticating { .. } => (DetailsStep::Continue(ph), reg),
    }
}

/// Transition of a `Fetching` phase on the outcome of a delivery fetch;
/// the same discipline as a details fetch, with an entitlement denial
/// reported as an absence.
pub open spec fn spec_delivery_step(
    ph: PhaseView,
    reg: RegistryView,
    c: Channel,
    ev: DeliveryEvent,
) -> (DeliveryStep, RegistryView) {
    match ph {
        PhaseView::Fetching { token: _, rejected_once } => match ev {
            DeliveryEvent::Granted(bundle) => (
                DeliveryStep::Complete(DeliveryOutcome::Granted(bundle)),
                reg,
            ),
            DeliveryEvent::NotAvailable => (
                DeliveryStep::Complete(DeliveryOutcome::Unavailable),
                reg,
            ),
            DeliveryEvent::AuthRejected => {
                if !rejected_once {
                    (
                        DeliveryStep::Continue(PhaseView::Authenticating { rejected_once: true }),
                        reg,
                    )
                } else {
                    (
                        DeliveryStep::Complete(
                            DeliveryOutcome::Failed(ChannelError::AuthenticationFailed),
                        ),
                        reg.without(c),
                    )
                }
            },
            DeliveryEvent::TransportFailure => (
                DeliveryStep::Complete(DeliveryOutcome::Failed(ChannelError::TransportError)),
                reg,
            ),
            DeliveryEvent::Malformed => (
                DeliveryStep::Complete(DeliveryOutcome::Failed(ChannelError::MalformedResponse)),
                reg,
            ),
        },
        PhaseView::Authenticating { .. } => (DeliveryStep::Continue(ph), reg),
    }
}

/// Executable counterpart of `AuthStep`.
pub enum AuthTransition {
    Continue(SessionPhase),
    Fail(ChannelError),
}

impl View for AuthTransition {
    type V = AuthStep;

    open spec fn view(&self) -> AuthStep {
        match self {
            AuthTransition::Continue(ph) => AuthStep::Continue(ph@),
            AuthTransition::Fail(e) => AuthStep::Fail(*e),
        }
    }
}

/// Executable counterpart of `DetailsStep`.
pub enum DetailsTransition {
    Continue(SessionPhase),
    Complete(ChannelOutcome),
}

impl View for DetailsTransition {
    type V = DetailsStep;

    open spec fn view(&self) -> DetailsStep {
        match self {
            DetailsTransition::Continue(ph) => DetailsStep::Continue(ph@),
            DetailsTransition::Complete(o) => DetailsStep::Complete(*o),
        }
    }
}

/// Executable counterpart of `DeliveryStep`.
pub enum DeliveryTransition {
    Continue(SessionPhase),
    Complete(DeliveryOutcome),
}

impl View for DeliveryTransition {
    type V = DeliveryStep;

    open spec fn view(&self) -> DeliveryStep {
        match self {
            DeliveryTransition::Continue(ph) => DeliveryStep::Continue(ph@),
            DeliveryTransition::Complete(o) => DeliveryStep::Complete(*o),
        }
    }
}

/// The phase a channel operation starts in: the cached session's token
/// is reused for the fetch directly, otherwise the operation begins with
/// an authentication exchange.
pub fn start_phase(reg: &SessionRegistry, c: Channel) -> (r: SessionPhase)
    ensures
        r@ == spec_start_phase(reg@, c),
{
    match reg.token_for(c) {
        Some(t) => SessionPhase::Fetching { token: t, rejected_once: false },
        None => SessionPhase::Authenticating { rejected_once: false },
    }
}

/// Applies the outcome of an authentication exchange to a phase,
/// caching a granted token and evicting the session on the final
/// rejection, exactly as `spec_auth_step` says.
pub fn auth_transition(
    ph: SessionPhase,
    reg: &mut SessionRegistry,
    c: Channel,
    ev: AuthEvent,
) -> (r: AuthTransition)
    requires
        old(reg).wf(),
    ensures
        final(reg).wf(),
        r@ == spec_auth_step(ph@, old(reg)@, c, ev@).0,
        final(reg)@ == spec_auth_step(ph@, old(reg)@, c, ev@).1,
{
    match ph {
        SessionPhase::Authenticating { rejected_once } => match ev {
            AuthEvent::Granted(t) => {
                reg.store_token(c, t.clone());
                AuthTransition::Continue(SessionPhase::Fetching { token: t, rejected_once })
            },
            AuthEvent::Rejected => {
                if !rejected_once {
                    AuthTransition::Continue(SessionPhase::Authenticating { rejected_once: true })
                } else {
                    reg.evict(c);
                    AuthTransition::Fail(ChannelError::AuthenticationFailed)
                }
            },
            AuthEvent::TransportFailure => AuthTransition::Fail(ChannelError::TransportError),
        },
        SessionPhase::Fetching { .. } => AuthTransition::Continue(ph),
    }
}

/// Applies the outcome of a details fetch to a phase, exactly as
/// `spec_details_step` says.
pub fn details_transition(
    ph: SessionPhase,
    reg: &mut SessionRegistry,
    c: Channel,
    ev: DetailsEvent,
) -> (r: DetailsTransition)
    requires
        old(reg).wf(),
    ensures
        final(reg).wf(),
        r@ == spec_details_step(ph@, old(reg)@, c, ev).0,
        final(reg)@ == spec_details_step(ph@, old(reg)@, c, ev).1,
{
    match ph {
        SessionPhase::Fetching { token: _, rejected_once } => match ev {
            DetailsEvent::Found(doc) => DetailsTransition::Complete(ChannelOutcome::Present(doc)),
            DetailsEvent::NotFound => DetailsTransition::Complete(ChannelOutcome::Absent),
            DetailsEvent::AuthRejected => {
                if !rejected_once {
                    DetailsTransition::Continue(
                        SessionPhase::Authenticating { rejected_once: true },
                    )
                } else {
                    reg.evict(c);
                    DetailsTransition::Complete(
                        ChannelOutcome::Failed(ChannelError::AuthenticationFailed),
                    )
                }
            },
            DetailsEvent::TransportFailure => DetailsTransition::Complete(
                ChannelOutcome::Failed(ChannelError::TransportError),
            ),
            DetailsEvent::Malformed => DetailsTransition::Complete(
                ChannelOutcome::Failed(ChannelError::MalformedResponse),
            ),
        },
        SessionPhase::Authenticating { .. } => DetailsTransition::Continue(ph),
    }
}

/// Applies the outcome of a delivery fetch to a phase, exactly as
/// `spec_delivery_step` says.
pub fn delivery_transition(
    ph: SessionPhase,
    reg: &mut SessionRegistry,
    c: Channel,
    ev: DeliveryEvent,
) -> (r: DeliveryTransition)
    requires
        old(reg).wf(),
    ensures
        final(reg).wf(),
        r@ == spec_delivery_step(ph@, old(reg)@, c, ev).0,
        final(reg)@ == spec_delivery_step(ph@, old(reg)@, c, ev).1,
{
    match ph {
        SessionPhase::Fetching { token: _, rejected_once } => match ev {
            DeliveryEvent::Granted(bundle) => DeliveryTransition::Complete(
                DeliveryOutcome::Granted(bundle),
            ),
            DeliveryEvent::NotAvailable => DeliveryTransition::Complete(
                DeliveryOutcome::Unavailable,
            ),
            DeliveryEvent::AuthRejected => {
                if !rejected_once {
                    DeliveryTransition::Continue(
                        SessionPhase::Authenticating { rejected_once: true },
                    )
                } else {
                    reg.evict(c);
                    DeliveryTransition::Complete(
                        DeliveryOutcome::Failed(ChannelError::AuthenticationFailed),
                    )
                }
            },
            DeliveryEvent::TransportFailure => DeliveryTransition::Complete(
                DeliveryOutcome::Failed(ChannelError::TransportError),
            ),
            DeliveryEvent::Malformed => DeliveryTransition::Complete(
                DeliveryOutcome::Failed(ChannelError::MalformedResponse),
            ),
        },
        SessionPhase::Authenticating { .. } => DeliveryTransition::Continue(ph),
    }
}

} // verus!
