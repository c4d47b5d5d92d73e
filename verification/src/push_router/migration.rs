//! Where a cold prefill worker fetches the prefix of a session from.

use vstd::prelude::*;

use vstd::string::{StrSliceExecFns, StringExecFns};

use crate::protocols::{MigrateFrom, PreprocessedRequest, WorkerWithDpRank};
use crate::push_router::router::KvPushRouter;
use crate::text::decimal;

verus! {

/// Base TCP port of the per-rank migration peer channels: rank `r` of a source
/// listens on `MIGRATION_PEER_PORT_BASE + r`. This must equal the value that the
/// engine is launched with; a mismatch sends the directive to a dead port.
pub const MIGRATION_PEER_PORT_BASE: u16 = 20000;

/// An IP address in its usual notation.
#[derive(Clone, Debug)]
pub enum PeerHost {
    V4(String),
    V6(String),
}

/// How requests reach a worker.
#[derive(Clone, Debug)]
pub enum TransportType {
    /// `host:port[/endpoint]`, after an optional `tcp://`.
    Tcp(String),
    /// A subject, which names no host.
    Nats(String),
}

/// A registered worker.
#[derive(Clone, Debug)]
pub struct WorkerInstance {
    pub instance_id: u64,
    pub transport: TransportType,
}

/// Where the host of a migration peer is to be had.
#[derive(Clone, Debug)]
pub enum PeerHostSource {
    /// A socket address in text form, still to be read.
    Socket(String),
    Known(PeerHost),
}

/// The address of a migration peer.
#[derive(Clone, Debug)]
pub struct PeerAddress {
    pub host: PeerHostSource,
    pub port: u16,
}

/// The migration port of a rank, if there is one.
pub open spec fn peer_port(dp_rank: u32) -> Option<u16> {
    if MIGRATION_PEER_PORT_BASE + dp_rank <= u16::MAX {
        Some((MIGRATION_PEER_PORT_BASE + dp_rank) as u16)
    } else {
        None
    }
}

/// The migration port of a rank, if there is one.
pub fn migration_peer_port(dp_rank: u32) -> (port: Option<u16>)
    ensures
        port == peer_port(dp_rank),
{
    if dp_rank > u16::MAX as u32 {
        None
    } else {
        MIGRATION_PEER_PORT_BASE.checked_add(dp_rank as u16)
    }
}

/// The text without the scheme `tcp://` in front, if it is there.
pub open spec fn without_scheme(address: Seq<char>) -> Seq<char> {
    if "tcp://"@.is_prefix_of(address) {
        address.skip(6)
    } else {
        address
    }
}

/// The text up to its first slash.
pub open spec fn up_to_slash(text: Seq<char>) -> Seq<char>
    decreases text.len(),
{
    if text.len() == 0 || text[0] == '/' {
        Seq::empty()
    } else {
        seq![text[0]] + up_to_slash(text.skip(1))
    }
}

/// The `host:port` part of a TCP address.
pub fn tcp_socket_part(address: &str) -> (socket: String)
    ensures
        socket@ == up_to_slash(without_scheme(address@)),
{
    proof {
        reveal_strlit("tcp://");
    }
    let len = address.unicode_len();
    let mut start: usize = 0;
    if len >= 6 && address.get_char(0) == 't' && address.get_char(1) == 'c' && address.get_char(2)
        == 'p' && address.get_char(3) == ':' && address.get_char(4) == '/' && address.get_char(5)
        == '/' {
        start = 6;
        assert("tcp://"@ =~= address@.subrange(0, 6));
    } else {
        assert("tcp://"@.is_prefix_of(address@) ==> forall|i: int|
            0 <= i < 6 ==> "tcp://"@[i] == address@[i]);
    }
    let mut end: usize = start;
    assert(address@.skip(start as int) =~= without_scheme(address@));
    while end < len && address.get_char(end) != '/'
        invariant
            start <= end <= len,
            len == address@.len(),
            address@.subrange(start as int, end as int) + up_to_slash(address@.skip(end as int))
                == up_to_slash(without_scheme(address@)),
        decreases len - end,
    {
        assert(address@.skip(end as int).skip(1) =~= address@.skip(end + 1));
        assert(address@.subrange(start as int, end as int) + (seq![address@[end as int]]
            + up_to_slash(address@.skip(end + 1))) =~= address@.subrange(start as int, end + 1)
            + up_to_slash(address@.skip(end + 1)));
        end = end + 1;
    }
    let part = address.substring_char(start, end);
    assert(part@ =~= up_to_slash(without_scheme(address@)));
    part.to_owned()
}

/// The instance at `i` is the first one of that worker.
pub open spec fn is_instance(instances: Seq<WorkerInstance>, worker_id: u64, i: int) -> bool {
    &&& 0 <= i < instances.len()
    &&& instances[i].instance_id == worker_id
    &&& forall|j: int| 0 <= j < i ==> (#[trigger] instances[j]).instance_id != worker_id
}

/// The host of a worker's migration peer is to be had from `host`: for TCP it
/// is that of the worker's address, and otherwise the configured one.
pub open spec fn gives_host(
    transport: TransportType,
    configured: Option<PeerHost>,
    host: PeerHostSource,
) -> bool {
    match transport {
        TransportType::Tcp(address) => {
            &&& host matches PeerHostSource::Socket(socket)
            &&& socket@ == up_to_slash(without_scheme(address@))
        },
        TransportType::Nats(_) => {
            &&& configured is Some
            &&& host == PeerHostSource::Known(configured->0)
        },
    }
}

/// `address` is that of the migration peer of `src`. There is none for a rank
/// beyond the port range, for a worker that is gone, and for a worker without a
/// TCP address where no host is configured.
pub open spec fn is_peer_address(
    address: Option<PeerAddress>,
    configured: Option<PeerHost>,
    instances: Seq<WorkerInstance>,
    src: WorkerWithDpRank,
) -> bool {
    match address {
        Some(found) => {
            &&& peer_port(src.dp_rank) == Some(found.port)
            &&& exists|i: int| #[trigger]
                is_instance(instances, src.worker_id, i) && gives_host(
                    instances[i].transport,
                    configured,
                    found.host,
                )
        },
        None => {
            ||| peer_port(src.dp_rank) is None
            ||| forall|i: int|
                #[trigger] is_instance(instances, src.worker_id, i) ==> configured is None
                    && instances[i].transport is Nats
        },
    }
}

/// The first instance of a worker.
fn find_instance(instances: &Vec<WorkerInstance>, worker_id: u64) -> (found: Option<usize>)
    ensures
        match found {
            Some(i) => is_instance(instances@, worker_id, i as int),
            None => forall|i: int| !is_instance(instances@, worker_id, i),
        },
{
    let mut i: usize = 0;
    while i < instances.len()
        invariant
            i <= instances.len(),
            forall|j: int| 0 <= j < i ==> (#[trigger] instances@[j]).instance_id != worker_id,
        decreases instances.len() - i,
    {
        if instances[i].instance_id == worker_id {
            return Some(i);
        }
        i = i + 1;
    }
    None
}

impl PeerHost {
    /// The address as it stands in front of a port.
    pub open spec fn text(self) -> Seq<char> {
        match self {
            PeerHost::V4(address) => address@,
            PeerHost::V6(address) => "["@ + address@ + "]"@,
        }
    }

    fn copied(&self) -> (host: PeerHost)
        ensures
            host == *self,
    {
        match self {
            PeerHost::V4(address) => PeerHost::V4(address.clone()),
            PeerHost::V6(address) => PeerHost::V6(address.clone()),
        }
    }
}

/// The endpoint of a migration peer in text form.
pub open spec fn endpoint_text(host: PeerHost, port: u16) -> Seq<char> {
    "tcp://"@ + host.text() + ":"@ + crate::text::decimal_text(port as nat)
}

impl PeerAddress {
    /// The host, once the socket address was read. `read` is the IP address in
    /// it, if it is one.
    pub open spec fn host(self, read: Option<PeerHost>) -> Option<PeerHost> {
        match self.host {
            PeerHostSource::Socket(_) => read,
            PeerHostSource::Known(host) => Some(host),
        }
    }

    /// The endpoint of the migration peer. `read` is the IP address in the
    /// socket address, where that had to be read and is one.
    pub fn endpoint(self, read: Option<PeerHost>) -> (endpoint: Option<String>)
        ensures
            match endpoint {
                Some(text) => self.host(read) is Some && text@ == endpoint_text(
                    self.host(read)->0,
                    self.port,
                ),
                None => self.host(read) is None,
            },
    {
        let host = match self.host {
            PeerHostSource::Socket(_) => match read {
                Some(host) => host,
                None => {
                    return None;
                },
            },
            PeerHostSource::Known(host) => host,
        };
        let mut text = "tcp://".to_owned();
        match &host {
            PeerHost::V4(address) => {
                text.append(address.as_str());
            },
            PeerHost::V6(address) => {
                text.append("[");
                text.append(address.as_str());
                text.append("]");
            },
        }
        text.append(":");
        text.append(decimal(self.port as u64).as_str());
        assert(text@ =~= endpoint_text(host, self.port));
        Some(text)
    }
}

impl KvPushRouter {
    /// The migration peer of the source rank.
    ///
    /// The host comes from the source worker's registry entry when the request
    /// plane is TCP, and from the configuration otherwise, where a subject
    /// names no host.
    pub fn resolve_migration_endpoint(
        &self,
        src: WorkerWithDpRank,
        instances: &Vec<WorkerInstance>,
    ) -> (address: Option<PeerAddress>)
        ensures
            is_peer_address(address, self.config.peer_host, instances@, src),
    {
        let port: u16 = match migration_peer_port(src.dp_rank) {
            Some(port) => port,
            None => {
                return None;
            },
        };
        let found = match find_instance(instances, src.worker_id) {
            Some(found) => found,
            None => {
                return None;
            },
        };
        assert forall|i: int| #[trigger] is_instance(instances@, src.worker_id, i) implies i
            == found by {}
        let host = match &instances[found].transport {
            TransportType::Tcp(address) => PeerHostSource::Socket(tcp_socket_part(address.as_str())),
            TransportType::Nats(_) => match &self.config.peer_host {
                Some(host) => PeerHostSource::Known(host.copied()),
                None => {
                    return None;
                },
            },
        };
        Some(PeerAddress { host, port })
    }

    /// The migration peer that the prefix of a session can be fetched from.
    ///
    /// By default that is safe only between ranks of one worker. A rebind across
    /// workers keeps its target, but goes without the prefix unless a host is
    /// configured.
    pub fn migration_source(
        &self,
        old_hot: WorkerWithDpRank,
        cold: WorkerWithDpRank,
        instances: &Vec<WorkerInstance>,
    ) -> (address: Option<PeerAddress>)
        ensures
            if old_hot.worker_id != cold.worker_id && self.config.peer_host is None {
                address is None
            } else {
                is_peer_address(address, self.config.peer_host, instances@, old_hot)
            },
    {
        if old_hot.worker_id != cold.worker_id && self.config.peer_host.is_none() {
            return None;
        }
        self.resolve_migration_endpoint(old_hot, instances)
    }
}

/// `after` is `before` with the directive to fetch the prefix of the session
/// from `endpoint`. Without an endpoint nothing changes.
pub open spec fn directs(
    before: PreprocessedRequest,
    after: PreprocessedRequest,
    session: Seq<char>,
    old_hot: WorkerWithDpRank,
    endpoint: Option<String>,
) -> bool {
    match endpoint {
        Some(text) => {
            &&& after.migrate_from matches Some(directive)
            &&& directive.source_endpoint == text
            &&& directive.source_dp_rank == old_hot.dp_rank
            &&& directive.session_id@ == session
            &&& after == (PreprocessedRequest { migrate_from: after.migrate_from, ..before })
        },
        None => after == before,
    }
}

/// Tell the cold worker where to fetch the prefix of the session from.
pub fn attach_migrate_from(
    request: &mut PreprocessedRequest,
    session_id: &str,
    old_hot: WorkerWithDpRank,
    endpoint: Option<String>,
)
    ensures
        directs(*old(request), *final(request), session_id@, old_hot, endpoint),
{
    match endpoint {
        Some(source_endpoint) => {
            request.migrate_from =
            Some(
                MigrateFrom {
                    source_endpoint,
                    source_dp_rank: old_hot.dp_rank,
                    session_id: session_id.to_owned(),
                },
            );
        },
        None => {},
    }
}

} // verus!
