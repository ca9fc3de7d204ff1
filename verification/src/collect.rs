//! Collectors and their aggregation.
//!
//! A collector asks one sibling service for one facet of the node's state.
//! Sending the request and awaiting the reply is the caller's work; what a
//! reply amounts to, which collector runs next and when a cycle is given up
//! are decided here.

use crate::model::{
    NamingState, NodeIdentity, PeerSummary, ProviderConfig, StatusSnapshot, SubscriptionState,
};
use vstd::prelude::*;
use vstd::string::StringExecFns;

verus! {

/// The collectors, in the order in which a cycle runs them.
#[derive(Debug, Clone, Copy, PartialEq, Eq, Structural)]
pub enum Collector {
    Identity,
    Peers,
    Providers,
    Subscriptions,
    ProcessCount,
    Naming,
}

/// Why a collector failed.
#[derive(Debug, Clone, Copy, PartialEq, Eq, Structural)]
pub enum FailureKind {
    /// No reply came: the request could not be sent, timed out, or was
    /// answered by something that is no response.
    Transport,
    /// A reply came that does not decode into what was asked for.
    Parse,
    /// A valid reply came, and it says that what was asked for does not exist.
    NotFound,
}

/// The failure of one collector.
#[derive(Debug, Clone, PartialEq, Eq)]
pub struct FetchError {
    pub kind: FailureKind,
    pub source: Collector,
    pub message: String,
}

/// What came back for one request, after the caller has decoded it.
#[derive(Debug, Clone, PartialEq, Eq)]
pub enum Reply<T> {
    /// Nothing that counts as a response.
    Silent,
    /// A response whose body did not decode.
    Garbled,
    /// A response with this content.
    Decoded(T),
}

/// One facet of the node's state, as its collector delivers it.
#[derive(Debug, Clone, PartialEq, Eq)]
pub enum Facet {
    Identity(NodeIdentity),
    Peers(PeerSummary),
    Providers(Vec<ProviderConfig>),
    Subscriptions(SubscriptionState),
    ProcessCount(u64),
    Naming(NamingState),
}

/// The seconds that a collector waits for its reply.
pub const COLLECTOR_TIMEOUT: u64 = 60;

/// The message of a collector whose request got no response.
pub open spec fn silent_text(collector: Collector) -> Seq<char> {
    match collector {
        Collector::Identity => "failed to get response from net (GetPeer)"@,
        Collector::Peers => "failed to get response from net (GetPeers)"@,
        Collector::Providers => "failed to get response from eth (GetProviders)"@,
        Collector::Subscriptions => "failed to get response from eth (GetState)"@,
        Collector::ProcessCount => "failed to get response from kernel"@,
        Collector::Naming => "failed to get response from kns-indexer (GetState)"@,
    }
}

/// The message of a collector whose response was not what it asked for.
pub open spec fn garbled_text(collector: Collector) -> Seq<char> {
    match collector {
        Collector::Identity => "got malformed response from net (GetPeer)"@,
        Collector::Peers => "got malformed response from net (GetPeers)"@,
        Collector::Providers => "failed to parse eth response (GetProviders)"@,
        Collector::Subscriptions => "failed to parse eth response (GetState)"@,
        Collector::ProcessCount => "failed to parse kernel response"@,
        Collector::Naming => "failed to parse kns-indexer response (GetState)"@,
    }
}

/// `error` is the failure of `source` with this kind and this message.
pub open spec fn is_failure(
    error: FetchError,
    kind: FailureKind,
    source: Collector,
    message: Seq<char>,
) -> bool {
    error.kind == kind && error.source == source && error.message@ == message
}

/// `r` is the failure of `source` with this kind, and with the message that
/// belongs to the kind: that of a silent collector for `Transport`, that of a
/// garbled reply for `Parse` and `NotFound`.
pub open spec fn fails<T>(r: Result<T, FetchError>, kind: FailureKind, source: Collector) -> bool {
    r matches Err(e) && is_failure(
        e,
        kind,
        source,
        if kind is Transport {
            silent_text(source)
        } else {
            garbled_text(source)
        },
    )
}

/// The failure of a collector whose request got no response.
pub fn silent_failure(collector: Collector) -> (error: FetchError)
    ensures
        is_failure(error, FailureKind::Transport, collector, silent_text(collector)),
{
    let message = match collector {
        Collector::Identity => "failed to get response from net (GetPeer)",
        Collector::Peers => "failed to get response from net (GetPeers)",
        Collector::Providers => "failed to get response from eth (GetProviders)",
        Collector::Subscriptions => "failed to get response from eth (GetState)",
        Collector::ProcessCount => "failed to get response from kernel",
        Collector::Naming => "failed to get response from kns-indexer (GetState)",
    };
    FetchError { kind: FailureKind::Transport, source: collector, message: message.to_owned() }
}

/// The failure of a collector whose response was not what it asked for:
/// of kind `Parse`, or `NotFound` where the response was valid and empty.
pub fn garbled_failure(collector: Collector, kind: FailureKind) -> (error: FetchError)
    ensures
        is_failure(error, kind, collector, garbled_text(collector)),
{
    let message = match collector {
        Collector::Identity => "got malformed response from net (GetPeer)",
        Collector::Peers => "got malformed response from net (GetPeers)",
        Collector::Providers => "failed to parse eth response (GetProviders)",
        Collector::Subscriptions => "failed to parse eth response (GetState)",
        Collector::ProcessCount => "failed to parse kernel response",
        Collector::Naming => "failed to parse kns-indexer response (GetState)",
    };
    FetchError { kind, source: collector, message: message.to_owned() }
}

/// The name of a collector in a report of its failure.
pub open spec fn collector_text(collector: Collector) -> Seq<char> {
    match collector {
        Collector::Identity => "identity"@,
        Collector::Peers => "peers"@,
        Collector::Providers => "providers"@,
        Collector::Subscriptions => "subscriptions"@,
        Collector::ProcessCount => "process count"@,
        Collector::Naming => "naming"@,
    }
}

/// The name of a kind of failure in a report.
pub open spec fn kind_text(kind: FailureKind) -> Seq<char> {
    match kind {
        FailureKind::Transport => "no response"@,
        FailureKind::Parse => "unreadable response"@,
        FailureKind::NotFound => "not found"@,
    }
}

impl FetchError {
    /// The line that reports this failure: which collector failed, in which
    /// way, and with what message.
    pub open spec fn report_line(self) -> Seq<char> {
        "error fetching card data: "@ + collector_text(self.source) + " collector, "@ + kind_text(
            self.kind,
        ) + ": "@ + self.message@
    }

    /// Writes the line that reports this failure.
    pub fn describe(&self) -> (line: String)
        ensures
            line@ == self.report_line(),
    {
        let collector = match self.source {
            Collector::Identity => "identity",
            Collector::Peers => "peers",
            Collector::Providers => "providers",
            Collector::Subscriptions => "subscriptions",
            Collector::ProcessCount => "process count",
            Collector::Naming => "naming",
        };
        let kind = match self.kind {
            FailureKind::Transport => "no response",
            FailureKind::Parse => "unreadable response",
            FailureKind::NotFound => "not found",
        };
        let mut line = "error fetching card data: ".to_owned();
        line.append(collector);
        line.append(" collector, ");
        line.append(kind);
        line.append(": ");
        line.append(self.message.as_str());
        line
    }
}

/// What a reply amounts to for `collector`: its content, or the failure of
/// the collector with the kind and the message that belong to the reply.
pub fn settle<T>(collector: Collector, reply: Reply<T>) -> (r: Result<T, FetchError>)
    ensures
        match reply {
            Reply::Silent => fails(r, FailureKind::Transport, collector),
            Reply::Garbled => fails(r, FailureKind::Parse, collector),
            Reply::Decoded(content) => r == Ok::<T, FetchError>(content),
        },
{
    match reply {
        Reply::Silent => Err(silent_failure(collector)),
        Reply::Garbled => Err(garbled_failure(collector, FailureKind::Parse)),
        Reply::Decoded(content) => Ok(content),
    }
}

/// The outcome of the identity collector, which asks the peer registry for
/// the record of the node's own name. An answer without a record is a
/// failure of kind `NotFound`.
pub fn identity_outcome(reply: Reply<Option<NodeIdentity>>) -> (r: Result<Facet, FetchError>)
    ensures
        match reply {
            Reply::Silent => fails(r, FailureKind::Transport, Collector::Identity),
            Reply::Garbled => fails(r, FailureKind::Parse, Collector::Identity),
            Reply::Decoded(None) => fails(r, FailureKind::NotFound, Collector::Identity),
            Reply::Decoded(Some(identity)) => r == Ok::<Facet, FetchError>(
                Facet::Identity(identity),
            ),
        },
{
    match settle(Collector::Identity, reply) {
        Err(e) => Err(e),
        Ok(None) => Err(garbled_failure(Collector::Identity, FailureKind::NotFound)),
        Ok(Some(identity)) => Ok(Facet::Identity(identity)),
    }
}

/// The outcome of the peer collector, which asks the peer registry for the
/// display names of the connected peers.
pub fn peers_outcome(reply: Reply<Vec<String>>) -> (r: Result<Facet, FetchError>)
    ensures
        match reply {
            Reply::Silent => fails(r, FailureKind::Transport, Collector::Peers),
            Reply::Garbled => fails(r, FailureKind::Parse, Collector::Peers),
            Reply::Decoded(names) => r == Ok::<Facet, FetchError>(
                Facet::Peers(PeerSummary { names }),
            ),
        },
{
    match settle(Collector::Peers, reply) {
        Err(e) => Err(e),
        Ok(names) => Ok(Facet::Peers(PeerSummary { names })),
    }
}

/// The outcome of the provider collector, which asks the provider registry
/// for every configured provider.
pub fn providers_outcome(reply: Reply<Vec<ProviderConfig>>) -> (r: Result<Facet, FetchError>)
    ensures
        match reply {
            Reply::Silent => fails(r, FailureKind::Transport, Collector::Providers),
            Reply::Garbled => fails(r, FailureKind::Parse, Collector::Providers),
            Reply::Decoded(providers) => r == Ok::<Facet, FetchError>(Facet::Providers(providers)),
        },
{
    match settle(Collector::Providers, reply) {
        Err(e) => Err(e),
        Ok(providers) => Ok(Facet::Providers(providers)),
    }
}

/// The outcome of the subscription collector, which asks the provider
/// registry for its subscriptions and unanswered requests.
pub fn subscriptions_outcome(reply: Reply<SubscriptionState>) -> (r: Result<Facet, FetchError>)
    ensures
        match reply {
            Reply::Silent => fails(r, FailureKind::Transport, Collector::Subscriptions),
            Reply::Garbled => fails(r, FailureKind::Parse, Collector::Subscriptions),
            Reply::Decoded(state) => r == Ok::<Facet, FetchError>(Facet::Subscriptions(state)),
        },
{
    match settle(Collector::Subscriptions, reply) {
        Err(e) => Err(e),
        Ok(state) => Ok(Facet::Subscriptions(state)),
    }
}

/// The outcome of the process collector, which asks the process registry
/// for its process map and keeps the number of its entries. The reply holds
/// the identifier of each entry.
pub fn process_count_outcome(reply: Reply<Vec<String>>) -> (r: Result<Facet, FetchError>)
    ensures
        match reply {
            Reply::Silent => fails(r, FailureKind::Transport, Collector::ProcessCount),
            Reply::Garbled => fails(r, FailureKind::Parse, Collector::ProcessCount),
            Reply::Decoded(processes) => r == Ok::<Facet, FetchError>(
                Facet::ProcessCount(processes@.len() as u64),
            ),
        },
{
    match settle(Collector::ProcessCount, reply) {
        Err(e) => Err(e),
        Ok(processes) => Ok(Facet::ProcessCount(processes.len() as u64)),
    }
}

/// The facets of a cycle that have come in so far.
#[derive(Debug, Clone, PartialEq, Eq)]
pub struct Aggregation {
    pub identity: Option<NodeIdentity>,
    pub peers: Option<PeerSummary>,
    pub providers: Option<Vec<ProviderConfig>>,
    pub subscriptions: Option<SubscriptionState>,
    pub process_count: Option<u64>,
    pub naming: Option<NamingState>,
}

/// What a cycle does next.
#[derive(Debug, Clone, PartialEq, Eq)]
pub enum Step {
    /// Run `collector` and hand its outcome to `state`.
    Fetch { state: Aggregation, collector: Collector },
    /// Every facet is in: the cycle has its snapshot.
    Done(StatusSnapshot),
    /// A collector failed: the cycle is given up with its failure.
    Failed(FetchError),
}

impl Aggregation {
    /// The aggregation that holds no facet yet.
    pub open spec fn empty() -> Aggregation {
        Aggregation {
            identity: None,
            peers: None,
            providers: None,
            subscriptions: None,
            process_count: None,
            naming: None,
        }
    }

    /// The first collector, in the order of a cycle, whose facet is not in.
    pub open spec fn missing(self) -> Option<Collector> {
        if self.identity is None {
            Some(Collector::Identity)
        } else if self.peers is None {
            Some(Collector::Peers)
        } else if self.providers is None {
            Some(Collector::Providers)
        } else if self.subscriptions is None {
            Some(Collector::Subscriptions)
        } else if self.process_count is None {
            Some(Collector::ProcessCount)
        } else if self.naming is None {
            Some(Collector::Naming)
        } else {
            None
        }
    }

    /// The aggregation with `facet` in its place.
    pub open spec fn with(self, facet: Facet) -> Aggregation {
        match facet {
            Facet::Identity(v) => Aggregation { identity: Some(v), ..self },
            Facet::Peers(v) => Aggregation { peers: Some(v), ..self },
            Facet::Providers(v) => Aggregation { providers: Some(v), ..self },
            Facet::Subscriptions(v) => Aggregation { subscriptions: Some(v), ..self },
            Facet::ProcessCount(v) => Aggregation { process_count: Some(v), ..self },
            Facet::Naming(v) => Aggregation { naming: Some(v), ..self },
        }
    }

    /// The snapshot of an aggregation in which nothing is missing.
    pub open spec fn snapshot(self) -> StatusSnapshot
        recommends
            self.missing() is None,
    {
        StatusSnapshot {
            identity: self.identity->0,
            peers: self.peers->0,
            providers: self.providers->0,
            subscriptions: self.subscriptions->0,
            process_count: self.process_count->0,
            naming: self.naming->0,
        }
    }

    /// What follows from this aggregation: the next collector, or the snapshot.
    pub open spec fn next(self) -> Step {
        match self.missing() {
            Some(collector) => Step::Fetch { state: self, collector },
            None => Step::Done(self.snapshot()),
        }
    }

    /// What follows when `outcome` comes in: a failure ends the cycle, a
    /// facet takes its place.
    pub open spec fn after(self, outcome: Result<Facet, FetchError>) -> Step {
        match outcome {
            Err(error) => Step::Failed(error),
            Ok(facet) => self.with(facet).next(),
        }
    }

    /// What follows when these outcomes come in one after the other, for as
    /// long as the cycle goes on.
    pub open spec fn run(self, outcomes: Seq<Result<Facet, FetchError>>) -> Step
        decreases outcomes.len(),
    {
        if outcomes.len() == 0 {
            self.next()
        } else {
            match self.after(outcomes[0]) {
                Step::Fetch { state, collector } => state.run(outcomes.drop_first()),
                end => end,
            }
        }
    }

    /// Begins a cycle: nothing is in, and the identity collector runs first.
    pub fn start() -> (r: Step)
        ensures
            r == Aggregation::empty().next(),
            r == (Step::Fetch { state: Aggregation::empty(), collector: Collector::Identity }),
    {
        Step::Fetch {
            state: Aggregation {
                identity: None,
                peers: None,
                providers: None,
                subscriptions: None,
                process_count: None,
                naming: None,
            },
            collector: Collector::Identity,
        }
    }

    /// Takes the outcome of a collector. A failure ends the cycle with that
    /// failure; a facet is kept, and the cycle goes on with the first
    /// collector whose facet is missing, or ends with the snapshot.
    pub fn advance(self, outcome: Result<Facet, FetchError>) -> (r: Step)
        ensures
            r == self.after(outcome),
    {
        let state = match outcome {
            Err(error) => {
                return Step::Failed(error);
            },
            Ok(Facet::Identity(v)) => Aggregation { identity: Some(v), ..self },
            Ok(Facet::Peers(v)) => Aggregation { peers: Some(v), ..self },
            Ok(Facet::Providers(v)) => Aggregation { providers: Some(v), ..self },
            Ok(Facet::Subscriptions(v)) => Aggregation { subscriptions: Some(v), ..self },
            Ok(Facet::ProcessCount(v)) => Aggregation { process_count: Some(v), ..self },
            Ok(Facet::Naming(v)) => Aggregation { naming: Some(v), ..self },
        };
        state.proceed()
    }

    /// The step that follows from this aggregation.
    pub fn proceed(self) -> (r: Step)
        ensures
            r == self.next(),
    {
        if self.identity.is_none() {
            Step::Fetch { state: self, collector: Collector::Identity }
        } else if self.peers.is_none() {
            Step::Fetch { state: self, collector: Collector::Peers }
        } else if self.providers.is_none() {
            Step::Fetch { state: self, collector: Collector::Providers }
        } else if self.subscriptions.is_none() {
            Step::Fetch { state: self, collector: Collector::Subscriptions }
        } else if self.process_count.is_none() {
            Step::Fetch { state: self, collector: Collector::ProcessCount }
        } else if self.naming.is_none() {
            Step::Fetch { state: self, collector: Collector::Naming }
        } else {
            Step::Done(
                StatusSnapshot {
                    identity: self.identity.unwrap(),
                    peers: self.peers.unwrap(),
                    providers: self.providers.unwrap(),
                    subscriptions: self.subscriptions.unwrap(),
                    process_count: self.process_count.unwrap(),
                    naming: self.naming.unwrap(),
                },
            )
        }
    }
}

/// Whichever collector fails first, and in whatever state, the cycle ends
/// with that failure: it yields no snapshot and asks for no further collector.
pub proof fn lemma_first_failure_ends_cycle(
    state: Aggregation,
    outcomes: Seq<Result<Facet, FetchError>>,
    k: int,
)
    requires
        0 <= k < outcomes.len(),
        outcomes[k] is Err,
        state.run(outcomes.take(k)) is Fetch,
    ensures
        state.run(outcomes) == Step::Failed(outcomes[k]->Err_0),
    decreases k,
{
    if k == 0 {
        assert(outcomes.take(0).len() == 0);
    } else {
        let head = outcomes.take(k);
        assert(head[0] == outcomes[0]);
        assert(head.drop_first() =~= outcomes.drop_first().take(k - 1));
        match state.after(outcomes[0]) {
            Step::Fetch { state: following, collector } => {
                lemma_first_failure_ends_cycle(following, outcomes.drop_first(), k - 1);
            },
            end => {},
        }
    }
}

/// A cycle whose six collectors deliver in turn ends with the snapshot of
/// what they delivered.
pub proof fn lemma_six_facets_make_snapshot(snapshot: StatusSnapshot)
    ensures
        Aggregation::empty().run(
            seq![
                Ok(Facet::Identity(snapshot.identity)),
                Ok(Facet::Peers(snapshot.peers)),
                Ok(Facet::Providers(snapshot.providers)),
                Ok(Facet::Subscriptions(snapshot.subscriptions)),
                Ok(Facet::ProcessCount(snapshot.process_count)),
                Ok(Facet::Naming(snapshot.naming)),
            ],
        ) == Step::Done(snapshot),
{
    let outcomes: Seq<Result<Facet, FetchError>> = seq![
        Ok(Facet::Identity(snapshot.identity)),
        Ok(Facet::Peers(snapshot.peers)),
        Ok(Facet::Providers(snapshot.providers)),
        Ok(Facet::Subscriptions(snapshot.subscriptions)),
        Ok(Facet::ProcessCount(snapshot.process_count)),
        Ok(Facet::Naming(snapshot.naming)),
    ];
    reveal_with_fuel(Aggregation::run, 8);
    let s0 = Aggregation::empty();
    let s1 = s0.with(Facet::Identity(snapshot.identity));
    let s2 = s1.with(Facet::Peers(snapshot.peers));
    let s3 = s2.with(Facet::Providers(snapshot.providers));
    let s4 = s3.with(Facet::Subscriptions(snapshot.subscriptions));
    let s5 = s4.with(Facet::ProcessCount(snapshot.process_count));
    let s6 = s5.with(Facet::Naming(snapshot.naming));
    let o1 = outcomes.drop_first();
    let o2 = o1.drop_first();
    let o3 = o2.drop_first();
    let o4 = o3.drop_first();
    let o5 = o4.drop_first();
    let o6 = o5.drop_first();
    assert(o6.len() == 0);
    assert(s6.snapshot() == snapshot);
    assert(s5.run(o5) == Step::Done(snapshot));
    assert(s4.run(o4) == Step::Done(snapshot));
    assert(s3.run(o3) == Step::Done(snapshot));
    assert(s2.run(o2) == Step::Done(snapshot));
    assert(s1.run(o1) == Step::Done(snapshot));
}

} // verus!
