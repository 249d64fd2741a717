//! The engine's policies, proved as laws over whole runs.
//!
//! Each law quantifies over the payloads (documents, bundles, tokens,
//! package names) and fixes only the shape of the upstream outcomes, so
//! it speaks for every concrete exchange of that shape.

use vstd::prelude::*;

use crate::channel::Channel;
use crate::channel::spec_fallback_order;
use crate::errors::ChannelError;
use crate::errors::CoreError;
use crate::model::DetailsDocument;
use crate::model::DownloadBundle;
use crate::session::AuthEventView;
use crate::session::DeliveryEvent;
use crate::session::DetailsEvent;
use crate::session::PhaseView;
use crate::session::RegistryView;
use crate::session::UpstreamEventView;
use crate::engine::DqStateView;
use crate::engine::FqStateView;
use crate::engine::MqStateView;
use crate::engine::dq_drive;
use crate::engine::dq_expects;
use crate::engine::dq_start;
use crate::engine::dq_step;
use crate::engine::fq_drive;
use crate::engine::fq_expects;
use crate::engine::fq_start;
use crate::engine::fq_step;
use crate::engine::mq_drive;
use crate::engine::mq_expects;
use crate::engine::mq_start;
use crate::engine::mq_step;

verus! {

/// A registry view with a session cached for every channel.
pub open spec fn reg_with_all(
    ts: Seq<char>,
    tb: Seq<char>,
    ta: Seq<char>,
) -> RegistryView {
    RegistryView { stable: Some(ts), beta: Some(tb), alpha: Some(ta) }
}

/// Law (fallback priority): for a package absent on Stable and present
/// on Beta, a fallback query requesting Stable returns the Beta
/// document — whatever other channels hold, since the run settles
/// before ever asking Alpha — and leaves every cached session in place.
pub proof fn lemma_fallback_priority(
    package: Seq<char>,
    ts: Seq<char>,
    tb: Seq<char>,
    ta: Seq<char>,
    doc_beta: DetailsDocument,
)
    ensures
        ({
            let reg = reg_with_all(ts, tb, ta);
            let evs = seq![
                UpstreamEventView::Details(DetailsEvent::NotFound),
                UpstreamEventView::Details(DetailsEvent::Found(doc_beta)),
            ];
            fq_drive(fq_start(package, Channel::Stable, reg), reg, evs) == (
                Some(Ok::<_, CoreError>(Some((Channel::Beta, doc_beta)))),
                reg,
            )
        }),
{
    let reg = reg_with_all(ts, tb, ta);
    let e0 = UpstreamEventView::Details(DetailsEvent::NotFound);
    let e1 = UpstreamEventView::Details(DetailsEvent::Found(doc_beta));
    let evs = seq![e0, e1];
    let m0 = fq_start(package, Channel::Stable, reg);
    assert(m0.state == FqStateView::Running(
        PhaseView::Fetching { token: ts, rejected_once: false },
    ));
    assert(evs[0] == e0 && fq_expects(m0, e0));
    let s1 = fq_step(m0, reg, e0);
    assert(s1.0.state == FqStateView::Running(
        PhaseView::Fetching { token: tb, rejected_once: false },
    ));
    assert(s1.0.pos == 1 && s1.1 == reg);
    assert(fq_drive(m0, reg, evs) == fq_drive(s1.0, s1.1, evs.drop_first()));
    assert(evs.drop_first() =~= seq![e1]);
    let s2 = fq_step(s1.0, s1.1, e1);
    assert(s2.0.state == FqStateView::Finished(
        Ok(Some((Channel::Beta, doc_beta))),
    ));
    assert(fq_drive(s1.0, s1.1, seq![e1]) == fq_drive(s2.0, s2.1, seq![e1].drop_first()));
    assert(fq_drive(s2.0, s2.1, seq![e1].drop_first()) == (
        Some(Ok::<_, CoreError>(Some((Channel::Beta, doc_beta)))),
        reg,
    ));
}

/// Law (fallback fail-fast): a hard error on the first channel aborts
/// the whole fallback chain with that error, even though the next
/// channel's success sits unread in the script — a backend outage is
/// never masked as "not found".
pub proof fn lemma_fallback_fail_fast(
    package: Seq<char>,
    ts: Seq<char>,
    tb: Seq<char>,
    ta: Seq<char>,
    doc_beta: DetailsDocument,
)
    ensures
        ({
            let reg = reg_with_all(ts, tb, ta);
            let evs = seq![
                UpstreamEventView::Details(DetailsEvent::TransportFailure),
                UpstreamEventView::Details(DetailsEvent::Found(doc_beta)),
            ];
            fq_drive(fq_start(package, Channel::Stable, reg), reg, evs) == (
                Some(Err::<Option<(Channel, DetailsDocument)>, _>(
                    CoreError::Session(ChannelError::TransportError),
                )),
                reg,
            )
        }),
{
    let reg = reg_with_all(ts, tb, ta);
    let e0 = UpstreamEventView::Details(DetailsEvent::TransportFailure);
    let e1 = UpstreamEventView::Details(DetailsEvent::Found(doc_beta));
    let evs = seq![e0, e1];
    let m0 = fq_start(package, Channel::Stable, reg);
    assert(m0.state == FqStateView::Running(
        PhaseView::Fetching { token: ts, rejected_once: false },
    ));
    assert(evs[0] == e0 && fq_expects(m0, e0));
    let s1 = fq_step(m0, reg, e0);
    assert(s1.0.state == FqStateView::Finished(
        Err(CoreError::Session(ChannelError::TransportError)),
    ));
    assert(fq_drive(m0, reg, evs) == fq_drive(s1.0, s1.1, evs.drop_first()));
}

/// Law (multi-channel partial success): with Stable present, Beta absent
/// and Alpha hit by a hard error, the aggregate query succeeds with the
/// Stable document alone — one channel's failure never blocks the
/// others' successes.
pub proof fn lemma_multi_partial_success(
    package: Seq<char>,
    ts: Seq<char>,
    tb: Seq<char>,
    ta: Seq<char>,
    doc: DetailsDocument,
)
    ensures
        ({
            let reg = reg_with_all(ts, tb, ta);
            let evs = seq![
                UpstreamEventView::Details(DetailsEvent::Found(doc)),
                UpstreamEventView::Details(DetailsEvent::NotFound),
                UpstreamEventView::Details(DetailsEvent::TransportFailure),
            ];
            mq_drive(mq_start(package, reg), reg, evs).0 == Some(Ok::<_, CoreError>(
                seq![(Channel::Stable, doc)],
            ))
        }),
{
    let reg = reg_with_all(ts, tb, ta);
    let e0 = UpstreamEventView::Details(DetailsEvent::Found(doc));
    let e1 = UpstreamEventView::Details(DetailsEvent::NotFound);
    let e2 = UpstreamEventView::Details(DetailsEvent::TransportFailure);
    let evs = seq![e0, e1, e2];
    let m0 = mq_start(package, reg);
    assert(evs[0] == e0 && mq_expects(m0, e0));
    let s1 = mq_step(m0, reg, e0);
    assert(s1.0.found =~= seq![(Channel::Stable, doc)]);
    assert(mq_drive(m0, reg, evs) == mq_drive(s1.0, s1.1, evs.drop_first()));
    assert(evs.drop_first() =~= seq![e1, e2]);
    let s2 = mq_step(s1.0, s1.1, e1);
    assert(mq_drive(s1.0, s1.1, seq![e1, e2]) == mq_drive(s2.0, s2.1, seq![e1, e2].drop_first()));
    assert(seq![e1, e2].drop_first() =~= seq![e2]);
    let s3 = mq_step(s2.0, s2.1, e2);
    assert(s3.0.state == MqStateView::Finished(Ok(seq![(Channel::Stable, doc)])));
    assert(mq_drive(s2.0, s2.1, seq![e2]) == mq_drive(s3.0, s3.1, seq![e2].drop_first()));
}

/// Law (multi-channel total failure): only when every channel hits a
/// hard error does the aggregate query fail, and it reports the last
/// error observed as the representative one.
pub proof fn lemma_multi_all_channels_failed(
    package: Seq<char>,
    ts: Seq<char>,
    tb: Seq<char>,
    ta: Seq<char>,
)
    ensures
        ({
            let reg = reg_with_all(ts, tb, ta);
            let evs = seq![
                UpstreamEventView::Details(DetailsEvent::TransportFailure),
                UpstreamEventView::Details(DetailsEvent::TransportFailure),
                UpstreamEventView::Details(DetailsEvent::Malformed),
            ];
            mq_drive(mq_start(package, reg), reg, evs).0 == Some(Err::<
                Seq<(Channel, DetailsDocument)>,
                _,
            >(CoreError::AllChannelsFailed(ChannelError::MalformedResponse)))
        }),
{
    let reg = reg_with_all(ts, tb, ta);
    let e0 = UpstreamEventView::Details(DetailsEvent::TransportFailure);
    let e2 = UpstreamEventView::Details(DetailsEvent::Malformed);
    let evs = seq![e0, e0, e2];
    let m0 = mq_start(package, reg);
    assert(evs[0] == e0 && mq_expects(m0, e0));
    let s1 = mq_step(m0, reg, e0);
    assert(mq_drive(m0, reg, evs) == mq_drive(s1.0, s1.1, evs.drop_first()));
    assert(evs.drop_first() =~= seq![e0, e2]);
    let s2 = mq_step(s1.0, s1.1, e0);
    assert(mq_drive(s1.0, s1.1, seq![e0, e2]) == mq_drive(s2.0, s2.1, seq![e0, e2].drop_first()));
    assert(seq![e0, e2].drop_first() =~= seq![e2]);
    let s3 = mq_step(s2.0, s2.1, e2);
    assert(s3.0.state == MqStateView::Finished(
        Err(CoreError::AllChannelsFailed(ChannelError::MalformedResponse)),
    ));
    assert(mq_drive(s2.0, s2.1, seq![e2]) == mq_drive(s3.0, s3.1, seq![e2].drop_first()));
}

/// A download query only ever settles on a bundle tagged with its own
/// channel; one step preserves the channel and the tag.
proof fn lemma_download_step_keeps_channel(
    m: crate::engine::DownloadQueryView,
    reg: RegistryView,
    evs: Seq<UpstreamEventView>,
)
    requires
        match m.state {
            DqStateView::Finished(res) => match res {
                Ok(op) => match op {
                    Some(p) => p.0 == m.channel,
                    None => true,
                },
                Err(_) => true,
            },
            _ => true,
        },
    ensures
        ({
            let d = dq_drive(m, reg, evs);
            match d.0 {
                Some(res) => match res {
                    Ok(op) => match op {
                        Some(p) => p.0 == m.channel,
                        None => true,
                    },
                    Err(_) => true,
                },
                None => true,
            }
        }),
    decreases evs.len(),
{
    match m.state {
        DqStateView::Finished(_) => {},
        _ => {
            if evs.len() == 0 || !dq_expects(m, evs[0]) {
            } else {
                let s = dq_step(m, reg, evs[0]);
                assert(s.0.channel == m.channel);
                lemma_download_step_keeps_channel(s.0, s.1, evs.drop_first());
            }
        },
    }
}

/// Law (download channel isolation): whatever the upstream answers, a
/// download query requested under one channel never returns a bundle
/// resolved under another channel's session — the pair it settles on is
/// tagged with the requested channel itself.
pub proof fn lemma_download_channel_isolation(
    package: Seq<char>,
    channel: Channel,
    version_code: Option<i32>,
    reg: RegistryView,
    evs: Seq<UpstreamEventView>,
)
    ensures
        ({
            let d = dq_drive(dq_start(package, channel, version_code, reg), reg, evs);
            match d.0 {
                Some(res) => match res {
                    Ok(op) => match op {
                        Some(p) => p.0 == channel,
                        None => true,
                    },
                    Err(_) => true,
                },
                None => true,
            }
        }),
{
    lemma_download_step_keeps_channel(dq_start(package, channel, version_code, reg), reg, evs);
}

/// Whether a channel stands somewhere in the fallback order of a
/// requested channel.
pub open spec fn in_fallback_order(c: Channel, requested: Channel) -> bool {
    exists|i: int| 0 <= i < 3 && spec_fallback_order(requested)[i] == c
}

/// A fallback query only ever settles on a document tagged with the
/// channel it was querying when the document arrived; one step keeps
/// that channel within the fallback order.
proof fn lemma_fallback_step_keeps_order(
    m: crate::engine::FallbackQueryView,
    reg: RegistryView,
    evs: Seq<UpstreamEventView>,
)
    requires
        m.wf(),
        match m.state {
            FqStateView::Finished(res) => match res {
                Ok(op) => match op {
                    Some(p) => in_fallback_order(p.0, m.requested),
                    None => true,
                },
                Err(_) => true,
            },
            _ => true,
        },
    ensures
        ({
            let d = fq_drive(m, reg, evs);
            match d.0 {
                Some(res) => match res {
                    Ok(op) => match op {
                        Some(p) => in_fallback_order(p.0, m.requested),
                        None => true,
                    },
                    Err(_) => true,
                },
                None => true,
            }
        }),
    decreases evs.len(),
{
    match m.state {
        FqStateView::Finished(_) => {},
        FqStateView::Running(_) => {
            if evs.len() == 0 || !fq_expects(m, evs[0]) {
            } else {
                let s = fq_step(m, reg, evs[0]);
                assert(s.0.requested == m.requested && s.0.wf());
                assert(match s.0.state {
                    FqStateView::Finished(res) => match res {
                        Ok(op) => match op {
                            Some(p) => in_fallback_order(p.0, m.requested),
                            None => true,
                        },
                        Err(_) => true,
                    },
                    _ => true,
                }) by {
                    match s.0.state {
                        FqStateView::Finished(res) => match res {
                            Ok(op) => match op {
                                Some(p) => {
                                    assert(spec_fallback_order(m.requested)[m.pos] == p.0);
                                },
                                None => {},
                            },
                            Err(_) => {},
                        },
                        _ => {},
                    }
                }
                lemma_fallback_step_keeps_order(s.0, s.1, evs.drop_first());
            }
        },
    }
}

/// Law (result channel provenance): whatever the upstream answers, the
/// channel a fallback query tags its document with is one of the three
/// channels of the requested channel's fallback order — the channel the
/// document was actually retrieved from.
pub proof fn lemma_fallback_channel_provenance(
    package: Seq<char>,
    requested: Channel,
    reg: RegistryView,
    evs: Seq<UpstreamEventView>,
)
    ensures
        ({
            let d = fq_drive(fq_start(package, requested, reg), reg, evs);
            match d.0 {
                Some(res) => match res {
                    Ok(op) => match op {
                        Some(p) => in_fallback_order(p.0, requested),
                        None => true,
                    },
                    Err(_) => true,
                },
                None => true,
            }
        }),
{
    lemma_fallback_step_keeps_order(fq_start(package, requested, reg), reg, evs);
}

/// Law (idempotence): a query against an unchanged upstream returns an
/// unchanged result. A fallback query that finds its document on the
/// requested channel leaves the registry exactly as it was, so repeating
/// it against the same upstream outcome settles on the identical result.
pub proof fn lemma_repeated_query_identical(
    package: Seq<char>,
    requested: Channel,
    reg: RegistryView,
    t: Seq<char>,
    doc: DetailsDocument,
)
    requires
        reg.token_of(requested) == Some(t),
    ensures
        ({
            let evs = seq![UpstreamEventView::Details(DetailsEvent::Found(doc))];
            let d1 = fq_drive(fq_start(package, requested, reg), reg, evs);
            &&& d1 == (Some(Ok::<_, CoreError>(Some((requested, doc)))), reg)
            &&& fq_drive(fq_start(package, requested, d1.1), d1.1, evs) == d1
        }),
{
    let e0 = UpstreamEventView::Details(DetailsEvent::Found(doc));
    let evs = seq![e0];
    assert(spec_fallback_order(requested)[0] == requested);
    let m0 = fq_start(package, requested, reg);
    assert(m0.state == FqStateView::Running(
        PhaseView::Fetching { token: t, rejected_once: false },
    ));
    assert(evs[0] == e0 && fq_expects(m0, e0));
    let s1 = fq_step(m0, reg, e0);
    assert(s1.0.state == FqStateView::Finished(Ok(Some((requested, doc)))));
    assert(fq_drive(m0, reg, evs) == fq_drive(s1.0, s1.1, evs.drop_first()));
}

/// Law (session reuse): with a session cached for the requested channel,
/// a fallback query starts with the fetch itself, made with the cached
/// token — it would not even accept an authentication outcome — and two
/// sequential calls on the channel both complete on fetch outcomes
/// alone, the second reusing the token the first left in place.
pub proof fn lemma_session_reuse(
    package: Seq<char>,
    requested: Channel,
    reg: RegistryView,
    t: Seq<char>,
    doc1: DetailsDocument,
    doc2: DetailsDocument,
)
    requires
        reg.token_of(requested) == Some(t),
    ensures
        ({
            let m1 = fq_start(package, requested, reg);
            let d1 = fq_drive(m1, reg, seq![UpstreamEventView::Details(DetailsEvent::Found(doc1))]);
            let m2 = fq_start(package, requested, d1.1);
            let d2 = fq_drive(
                m2,
                d1.1,
                seq![UpstreamEventView::Details(DetailsEvent::Found(doc2))],
            );
            // neither call performs an authentication exchange
            &&& m1.state == FqStateView::Running(
                PhaseView::Fetching { token: t, rejected_once: false },
            )
            &&& forall|a: AuthEventView| !fq_expects(m1, UpstreamEventView::Auth(a))
            &&& d1 == (Some(Ok::<_, CoreError>(Some((requested, doc1)))), reg)
            // the second call finds the same token still cached and reuses it
            &&& m2.state == FqStateView::Running(
                PhaseView::Fetching { token: t, rejected_once: false },
            )
            &&& forall|a: AuthEventView| !fq_expects(m2, UpstreamEventView::Auth(a))
            &&& d2 == (Some(Ok::<_, CoreError>(Some((requested, doc2)))), reg)
        }),
{
    assert(spec_fallback_order(requested)[0] == requested);
    lemma_repeated_query_identical(package, requested, reg, t, doc1);
    lemma_repeated_query_identical(package, requested, reg, t, doc2);
}

/// Law (re-authentication, success): a fetch rejected for authentication
/// is transparently retried once: the session re-authenticates, the new
/// token replaces the cached one, and the retried fetch's document is
/// returned as if nothing had happened.
pub proof fn lemma_reauthentication_succeeds(
    package: Seq<char>,
    requested: Channel,
    reg: RegistryView,
    t0: Seq<char>,
    t1: Seq<char>,
    doc: DetailsDocument,
)
    requires
        reg.token_of(requested) == Some(t0),
    ensures
        ({
            let evs = seq![
                UpstreamEventView::Details(DetailsEvent::AuthRejected),
                UpstreamEventView::Auth(AuthEventView::Granted(t1)),
                UpstreamEventView::Details(DetailsEvent::Found(doc)),
            ];
            let d = fq_drive(fq_start(package, requested, reg), reg, evs);
            &&& d.0 == Some(Ok::<_, CoreError>(Some((requested, doc))))
            &&& d.1 == reg.with_token(requested, t1)
        }),
{
    let e0 = UpstreamEventView::Details(DetailsEvent::AuthRejected);
    let e1 = UpstreamEventView::Auth(AuthEventView::Granted(t1));
    let e2 = UpstreamEventView::Details(DetailsEvent::Found(doc));
    let evs = seq![e0, e1, e2];
    assert(spec_fallback_order(requested)[0] == requested);
    let m0 = fq_start(package, requested, reg);
    assert(m0.state == FqStateView::Running(
        PhaseView::Fetching { token: t0, rejected_once: false },
    ));
    assert(evs[0] == e0 && fq_expects(m0, e0));
    let s1 = fq_step(m0, reg, e0);
    assert(s1.0.state == FqStateView::Running(
        PhaseView::Authenticating { rejected_once: true },
    ));
    assert(fq_drive(m0, reg, evs) == fq_drive(s1.0, s1.1, evs.drop_first()));
    assert(evs.drop_first() =~= seq![e1, e2]);
    let s2 = fq_step(s1.0, s1.1, e1);
    assert(s2.0.state == FqStateView::Running(
        PhaseView::Fetching { token: t1, rejected_once: true },
    ));
    assert(s2.1 == reg.with_token(requested, t1));
    assert(fq_drive(s1.0, s1.1, seq![e1, e2]) == fq_drive(s2.0, s2.1, seq![e1, e2].drop_first()));
    assert(seq![e1, e2].drop_first() =~= seq![e2]);
    let s3 = fq_step(s2.0, s2.1, e2);
    assert(s3.0.state == FqStateView::Finished(Ok(Some((requested, doc)))));
    assert(fq_drive(s2.0, s2.1, seq![e2]) == fq_drive(s3.0, s3.1, seq![e2].drop_first()));
}

/// Law (re-authentication, second rejection): when the re-authentication
/// itself is rejected too, the query surfaces `AuthenticationFailed` and
/// the channel's session is evicted, so the next request authenticates
/// afresh instead of repeating a poisoned session.
pub proof fn lemma_reauthentication_fails(
    package: Seq<char>,
    requested: Channel,
    reg: RegistryView,
    t0: Seq<char>,
)
    requires
        reg.token_of(requested) == Some(t0),
    ensures
        ({
            let evs = seq![
                UpstreamEventView::Details(DetailsEvent::AuthRejected),
                UpstreamEventView::Auth(AuthEventView::Rejected),
            ];
            let d = fq_drive(fq_start(package, requested, reg), reg, evs);
            &&& d.0 == Some(Err::<Option<(Channel, DetailsDocument)>, _>(
                CoreError::Session(ChannelError::AuthenticationFailed),
            ))
            &&& d.1.token_of(requested) is None
        }),
{
    let e0 = UpstreamEventView::Details(DetailsEvent::AuthRejected);
    let e1 = UpstreamEventView::Auth(AuthEventView::Rejected);
    let evs = seq![e0, e1];
    assert(spec_fallback_order(requested)[0] == requested);
    let m0 = fq_start(package, requested, reg);
    assert(m0.state == FqStateView::Running(
        PhaseView::Fetching { token: t0, rejected_once: false },
    ));
    assert(evs[0] == e0 && fq_expects(m0, e0));
    let s1 = fq_step(m0, reg, e0);
    assert(s1.0.state == FqStateView::Running(
        PhaseView::Authenticating { rejected_once: true },
    ));
    assert(fq_drive(m0, reg, evs) == fq_drive(s1.0, s1.1, evs.drop_first()));
    assert(evs.drop_first() =~= seq![e1]);
    let s2 = fq_step(s1.0, s1.1, e1);
    assert(s2.0.state == FqStateView::Finished(
        Err(CoreError::Session(ChannelError::AuthenticationFailed)),
    ));
    assert(s2.1 == reg.without(requested));
    assert(fq_drive(s1.0, s1.1, seq![e1]) == fq_drive(s2.0, s2.1, seq![e1].drop_first()));
}

/// Law (missing version code, resolution): a download query without a
/// version code resolves the latest one out of the channel's details
/// before issuing the delivery fetch, and returns the granted bundle
/// under the requested channel.
pub proof fn lemma_download_resolves_latest_version(
    package: Seq<char>,
    channel: Channel,
    reg: RegistryView,
    t: Seq<char>,
    doc: DetailsDocument,
    bundle: DownloadBundle,
)
    requires
        reg.token_of(channel) == Some(t),
        doc.spec_version_code() is Some,
    ensures
        ({
            let evs = seq![
                UpstreamEventView::Details(DetailsEvent::Found(doc)),
                UpstreamEventView::Delivery(DeliveryEvent::Granted(bundle)),
            ];
            let m0 = dq_start(package, channel, None, reg);
            let s1 = dq_step(m0, reg, evs[0]);
            // the delivery stage fetches exactly the version the details carry
            &&& s1.0.state == DqStateView::DeliveryStage {
                version_code: doc.spec_version_code()->0,
                phase: PhaseView::Fetching { token: t, rejected_once: false },
            }
            &&& dq_drive(m0, reg, evs) == (
                Some(Ok::<_, CoreError>(Some((channel, bundle)))),
                reg,
            )
        }),
{
    let e0 = UpstreamEventView::Details(DetailsEvent::Found(doc));
    let e1 = UpstreamEventView::Delivery(DeliveryEvent::Granted(bundle));
    let evs = seq![e0, e1];
    let m0 = dq_start(package, channel, None, reg);
    assert(m0.state == DqStateView::DetailsStage(
        PhaseView::Fetching { token: t, rejected_once: false },
    ));
    assert(evs[0] == e0 && dq_expects(m0, e0));
    let s1 = dq_step(m0, reg, e0);
    assert(dq_drive(m0, reg, evs) == dq_drive(s1.0, s1.1, evs.drop_first()));
    assert(evs.drop_first() =~= seq![e1]);
    let s2 = dq_step(s1.0, s1.1, e1);
    assert(s2.0.state == DqStateView::Finished(Ok(Some((channel, bundle)))));
    assert(dq_drive(s1.0, s1.1, seq![e1]) == dq_drive(s2.0, s2.1, seq![e1].drop_first()));
}

/// Law (missing version code, failure): a download query without a
/// version code, on a channel whose details carry none either, fails
/// with `NoVersionAvailable` before any delivery fetch is issued — the
/// query settles after the details outcome alone.
pub proof fn lemma_download_no_version_available(
    package: Seq<char>,
    channel: Channel,
    reg: RegistryView,
    t: Seq<char>,
    doc: DetailsDocument,
)
    requires
        reg.token_of(channel) == Some(t),
        doc.spec_version_code() is None,
    ensures
        ({
            let evs = seq![UpstreamEventView::Details(DetailsEvent::Found(doc))];
            dq_drive(dq_start(package, channel, None, reg), reg, evs) == (
                Some(Err::<Option<(Channel, DownloadBundle)>, _>(CoreError::NoVersionAvailable)),
                reg,
            )
        }),
{
    let e0 = UpstreamEventView::Details(DetailsEvent::Found(doc));
    let evs = seq![e0];
    let m0 = dq_start(package, channel, None, reg);
    assert(m0.state == DqStateView::DetailsStage(
        PhaseView::Fetching { token: t, rejected_once: false },
    ));
    assert(evs[0] == e0 && dq_expects(m0, e0));
    let s1 = dq_step(m0, reg, e0);
    assert(s1.0.state == DqStateView::Finished(Err(CoreError::NoVersionAvailable)));
    assert(dq_drive(m0, reg, evs) == dq_drive(s1.0, s1.1, evs.drop_first()));
}

} // verus!
