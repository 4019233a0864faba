//! The subscription bridge: owns the connection configuration, the
//! background execution context and the consumer half of the conduit, and
//! hands the caller a bounded, non-blocking way to drain whatever has
//! arrived so far.

use vstd::prelude::*;
use std::sync::Arc;
use async_channel::Receiver;
use async_channel::Sender;
use starknet_types_core::felt::Felt;
use tokio::runtime::Runtime;
use crate::channel::RecvOutcome;
use crate::channel::new_unbounded;
use crate::channel::try_receive;
use crate::context::create_runtime;
use crate::task::Signal;
use crate::task::TaskEnd;

verus! {

/// The world identifier: a fixed-width field element naming which logical
/// dataset the subscription targets. Relied upon of `starknet_types_core`:
/// an opaque value, carried through to the network client untouched.
#[verifier::external_type_specification]
#[verifier::external_body]
pub struct ExFelt(Felt);

/// What the hex parser of `starknet_types_core` makes of a string: the field
/// element the string denotes, or nothing where the parser refuses it — a
/// function of the characters alone.
pub uninterp spec fn world_id_of(hex: Seq<char>) -> Option<Felt>;

/// Relies on `starknet_types_core::felt::Felt::from_hex`: the parse of a
/// hex-encoded number into a field element. The outcome depends on the
/// characters alone.
#[verifier::external_body]
pub(crate) fn parse_world_id(hex: &str) -> (r: Option<Felt>)
    ensures
        r == world_id_of(hex@),
{
    match Felt::from_hex(hex) {
        Ok(f) => Some(f),
        Err(_) => None,
    }
}

/// What can go wrong while constructing the bridge.
#[derive(Debug)]
pub enum Error {
    /// The background runtime could not be allocated: an operating-system
    /// resource failure, fatal to this construction attempt only.
    RuntimeError(std::io::Error),
}

impl From<std::io::Error> for Error {
    fn from(e: std::io::Error) -> (r: Error) {
        Error::RuntimeError(e)
    }
}

impl vstd::std_specs::convert::FromSpecImpl<std::io::Error> for Error {
    open spec fn obeys_from_spec() -> bool {
        true
    }

    open spec fn from_spec(e: std::io::Error) -> Error {
        Error::RuntimeError(e)
    }
}

/// The connection configuration: three endpoint addresses and the world
/// identifier. Built once by the caller before the bridge, never mutated,
/// owned by the bridge for its lifetime.
pub struct DojoClientConfig {
    /// The URL of the torii indexer.
    pub torii_url: String,
    /// The base URL of the RPC interface.
    pub rpc_url: String,
    /// The base URL of the relay server.
    pub relay_url: String,
    /// The identifier of the world the subscription targets.
    pub world_id: Felt,
}

impl DojoClientConfig {
    /// The compute part of reading the host's exported properties: the
    /// configuration from the four plain strings the host holds, with the
    /// world identifier parsed from hex. An unparsable identifier refuses
    /// the whole configuration — a caller-side fatal error, by design never
    /// signaled through the bridge's own error type.
    pub fn from_strings(
        torii_url: String,
        rpc_url: String,
        relay_url: String,
        world_id_hex: &str,
    ) -> (r: Option<DojoClientConfig>)
        ensures
            (r is Some) <==> (world_id_of(world_id_hex@) is Some),
            r matches Some(c) ==> c.torii_url == torii_url && c.rpc_url == rpc_url
                && c.relay_url == relay_url && Some(c.world_id) == world_id_of(world_id_hex@),
    {
        match parse_world_id(world_id_hex) {
            Some(world_id) => Some(DojoClientConfig { torii_url, rpc_url, relay_url, world_id }),
            None => None,
        }
    }
}

/// An ephemeral, bounded, non-blocking cursor over the conduit's consumer
/// end: each advance pops one already-buffered record, and the budget or the
/// buffer running dry ends it early. Consumed records are gone; the cursor
/// is not restartable and never persisted across ticks.
#[verifier::reject_recursive_types(T)]
pub struct EntityIterator<'a, T> {
    /// The conduit's consumer end, borrowed from the bridge.
    pub channel: &'a Receiver<Signal<T>>,
    /// How many more advances may yield a record.
    pub count: usize,
    /// The producer's terminal notice, once observed: latched, and from then
    /// on the cursor yields nothing.
    pub terminated: Option<TaskEnd>,
}

impl<'a, T> EntityIterator<'a, T> {
    /// One advance: with budget left and no terminal notice seen, it costs
    /// one unit of budget and pops the oldest buffered record if one is
    /// there — it never waits for one. An empty or closed conduit yields
    /// nothing; the producer's terminal notice is latched into `terminated`
    /// and ends the cursor for good.
    pub fn next(&mut self) -> (r: Option<T>)
        ensures
            final(self).channel == old(self).channel,
            old(self).terminated is Some ==> *final(self) == *old(self) && r is None,
            old(self).terminated is None && old(self).count == 0 ==> *final(self) == *old(self)
                && r is None,
            old(self).terminated is None && old(self).count > 0
                ==> final(self).count == old(self).count - 1,
            r is Some
                ==> old(self).terminated is None && old(self).count > 0
                && final(self).terminated is None,
    {
        if self.terminated.is_some() {
            return None;
        }
        if self.count == 0 {
            return None;
        }
        self.count = self.count - 1;
        let outcome = try_receive(self.channel);
        self.absorb(outcome)
    }

    /// The cursor's reading of one receive outcome, exact for every outcome
    /// the conduit can hand back: a record is yielded as it came; the
    /// producer's terminal notice is latched and yields nothing; silence —
    /// empty or closed — yields nothing and changes nothing.
    fn absorb(&mut self, outcome: RecvOutcome<Signal<T>>) -> (r: Option<T>)
        ensures
            final(self).channel == old(self).channel,
            final(self).count == old(self).count,
            outcome matches RecvOutcome::Item(Signal::Record(v)) ==> r == Some(v)
                && final(self).terminated == old(self).terminated,
            outcome matches RecvOutcome::Item(Signal::Terminated(e)) ==> r is None
                && final(self).terminated == Some(e),
            outcome is Empty || outcome is Closed ==> r is None && *final(self) == *old(self),
    {
        match outcome {
            RecvOutcome::Item(Signal::Record(v)) => Some(v),
            RecvOutcome::Item(Signal::Terminated(end)) => {
                self.terminated = Some(end);
                None
            },
            RecvOutcome::Empty => None,
            RecvOutcome::Closed => None,
        }
    }
}

/// One tick's harvest: the drained records, oldest first, and the producer's
/// terminal notice if the drain ran into it this tick.
pub struct DrainOutcome<T> {
    /// At most the cap's worth of records, in arrival order.
    pub records: Vec<T>,
    /// The subscription task's last word, if it was observed this tick.
    pub terminated: Option<TaskEnd>,
}

/// The long-lived bridge handle: one live subscription per instance. Shared
/// by reference count between the caller and the spawned task; when the last
/// handle is dropped, the runtime — and with it the task — is torn down.
///
/// The conduit is unbounded by design: no record is ever dropped, and the
/// accepted cost is that a producer outrunning the per-tick cap grows the
/// buffer without limit.
#[verifier::reject_recursive_types(T)]
pub struct DojoClient<T> {
    /// Kept alive for at least as long as the bridge, so that the spawned
    /// subscription task has a place to run.
    runtime: Runtime,
    config: DojoClientConfig,
    rx: Receiver<Signal<T>>,
}

impl<T> DojoClient<T> {
    /// The configuration the bridge was built with.
    pub closed spec fn spec_config(&self) -> DojoClientConfig {
        self.config
    }

    /// The conduit's consumer end, which the bridge owns exclusively.
    pub closed spec fn spec_rx(&self) -> Receiver<Signal<T>> {
        self.rx
    }

    /// Builds the bridge: the unbounded conduit first, then the background
    /// execution context — whose failure is the one construction error —
    /// then the shared handle. Construction never waits for the network: the
    /// subscription task must await the stream, which only unverified code
    /// can do, so the conduit's producer half is handed back to be moved
    /// into the task the caller spawns onto `runtime()`.
    pub fn new(config: DojoClientConfig) -> (r: Result<
        (Arc<DojoClient<T>>, Sender<Signal<T>>),
        Error,
    >)
        ensures
            r matches Ok(p) ==> p.0.spec_config() == config,
    {
        match Self::new_internal(config) {
            Ok((client, tx)) => Ok((Arc::new(client), tx)),
            Err(e) => Err(e),
        }
    }

    fn new_internal(config: DojoClientConfig) -> (r: Result<
        (DojoClient<T>, Sender<Signal<T>>),
        Error,
    >)
        ensures
            r matches Ok(p) ==> p.0.spec_config() == config,
    {
        let (tx, rx) = new_unbounded::<Signal<T>>();
        let runtime = match create_runtime() {
            Ok(rt) => rt,
            Err(e) => {
                return Err(Error::RuntimeError(e));
            },
        };
        Ok((DojoClient { runtime, config, rx }, tx))
    }

    /// The background execution context, for spawning the subscription task;
    /// the bridge keeps it alive exactly as long as itself.
    pub fn runtime(&self) -> &Runtime {
        &self.runtime
    }

    /// The connection configuration, for the subscription task to read.
    pub fn config(&self) -> (c: &DojoClientConfig)
        ensures
            c == self.spec_config(),
    {
        &self.config
    }

    /// A fresh drain cursor over the conduit, good for at most `max`
    /// records; created anew each tick.
    pub fn take<'a>(&'a self, max: usize) -> (it: EntityIterator<'a, T>)
        ensures
            it.channel == self.spec_rx(),
            it.count == max,
            it.terminated is None,
    {
        EntityIterator { channel: &self.rx, count: max, terminated: None }
    }

    /// The per-tick drain: pops up to `max` already-buffered records,
    /// without ever blocking and without erring — an empty conduit, even one
    /// whose producer is gone, just yields fewer (or no) records. The
    /// records come in the conduit's arrival order (the first-in first-out
    /// law the conduit is relied on to obey is stated and proved in
    /// `model`).
    pub fn drain(&self, max: usize) -> (out: DrainOutcome<T>)
        ensures
            out.records@.len() <= max,
    {
        let mut records: Vec<T> = Vec::new();
        let mut it = self.take(max);
        loop
            invariant
                records@.len() + it.count <= max,
            decreases it.count,
        {
            match it.next() {
                Some(v) => {
                    records.push(v);
                },
                None => {
                    break;
                },
            }
        }
        DrainOutcome { records, terminated: it.terminated }
    }
}

} // verus!
