//! The handshake-wide session policy: assembled once, read by every
//! handshake, never changed afterwards.
use vstd::prelude::*;

verus! {

/// An application protocol that a handshake can settle on.
#[derive(Clone, Copy, Debug, PartialEq, Eq, Structural)]
pub enum Protocol {
    /// HTTP/2, announced as `h2`.
    Http2,
    /// HTTP/1.1, announced as `http/1.1`.
    Http11,
}

/// The identifier by which a protocol is announced: the ASCII bytes of `h2`
/// or of `http/1.1`.
pub open spec fn alpn_id(protocol: Protocol) -> Seq<u8> {
    match protocol {
        Protocol::Http2 => seq![0x68u8, 0x32u8],
        Protocol::Http11 => seq![0x68u8, 0x74u8, 0x74u8, 0x70u8, 0x2fu8, 0x31u8, 0x2eu8, 0x31u8],
    }
}

/// The protocol that an identifier announces, if it is one of ours.
pub open spec fn protocol_of(id: Seq<u8>) -> Option<Protocol> {
    if id == alpn_id(Protocol::Http2) {
        Some(Protocol::Http2)
    } else if id == alpn_id(Protocol::Http11) {
        Some(Protocol::Http11)
    } else {
        None
    }
}

impl Protocol {
    /// The identifier by which this protocol is announced.
    pub fn alpn(&self) -> (r: Vec<u8>)
        ensures
            r@ == alpn_id(*self),
    {
        match self {
            Protocol::Http2 => {
                let r = vec![0x68u8, 0x32u8];
                assert(r@ =~= alpn_id(Protocol::Http2));
                r
            },
            Protocol::Http11 => {
                let r = vec![0x68u8, 0x74u8, 0x74u8, 0x70u8, 0x2fu8, 0x31u8, 0x2eu8, 0x31u8];
                assert(r@ =~= alpn_id(Protocol::Http11));
                r
            },
        }
    }

    /// The protocol that `id` announces, or `None` where it is neither
    /// identifier.
    pub fn from_alpn(id: &[u8]) -> (r: Option<Protocol>)
        ensures
            r == protocol_of(id@),
    {
        if id.len() == 2 && id[0] == 0x68 && id[1] == 0x32 {
            assert(id@ =~= alpn_id(Protocol::Http2));
            Some(Protocol::Http2)
        } else if id.len() == 8 && id[0] == 0x68 && id[1] == 0x74 && id[2] == 0x74 && id[3] == 0x70
            && id[4] == 0x2f && id[5] == 0x31 && id[6] == 0x2e && id[7] == 0x31 {
            assert(id@ =~= alpn_id(Protocol::Http11));
            Some(Protocol::Http11)
        } else {
            assert(id@ != alpn_id(Protocol::Http2)) by {
                if id@ == alpn_id(Protocol::Http2) {
                    assert(id@.len() == 2 && id@[0] == 0x68 && id@[1] == 0x32);
                }
            }
            assert(id@ != alpn_id(Protocol::Http11)) by {
                if id@ == alpn_id(Protocol::Http11) {
                    assert(id@.len() == 8 && id@[0] == 0x68 && id@[1] == 0x74 && id@[2] == 0x74
                        && id@[3] == 0x70 && id@[4] == 0x2f && id@[5] == 0x31 && id@[6] == 0x2e
                        && id@[7] == 0x31);
                }
            }
            None
        }
    }
}

/// The parameters that govern every handshake.
#[derive(Debug)]
pub struct SessionPolicy {
    /// Whether resumption tickets are issued, under a key made fresh at start.
    pub resumption_tickets: bool,
    /// The most sessions that the session cache holds for resumption.
    pub session_cache_capacity: usize,
    /// The most compressed certificates that are kept for reuse.
    pub compression_cache_capacity: usize,
    /// The acceptable protocols, most preferred first.
    pub alpn_protocols: Vec<Protocol>,
    /// The most bytes of early data accepted before a handshake is complete.
    pub max_early_data_size: u32,
    /// Whether session secrets are written to a key log.
    pub key_log: bool,
}

impl SessionPolicy {
    /// Whether the policy bounds both caches by a usable limit and names at
    /// least one protocol, none of them twice.
    pub open spec fn wf(&self) -> bool {
        &&& self.session_cache_capacity > 0
        &&& self.compression_cache_capacity > 0
        &&& self.alpn_protocols@.len() > 0
        &&& self.alpn_protocols@.no_duplicates()
    }

    /// The identifiers of the acceptable protocols, most preferred first, in
    /// the form that the TLS stack takes.
    pub fn alpn_identifiers(&self) -> (r: Vec<Vec<u8>>)
        ensures
            r@.len() == self.alpn_protocols@.len(),
            forall|i: int|
                0 <= i < r@.len() ==> (#[trigger] r@[i])@ == alpn_id(self.alpn_protocols@[i]),
    {
        let mut ids: Vec<Vec<u8>> = Vec::new();
        let mut i: usize = 0;
        while i < self.alpn_protocols.len()
            invariant
                i <= self.alpn_protocols@.len(),
                ids@.len() == i,
                forall|j: int|
                    0 <= j < i ==> (#[trigger] ids@[j])@ == alpn_id(self.alpn_protocols@[j]),
            decreases self.alpn_protocols@.len() - i,
        {
            ids.push(self.alpn_protocols[i].alpn());
            i = i + 1;
        }
        ids
    }

    /// The same policy with the key log switched on or off.
    pub fn with_key_log(self, enabled: bool) -> (r: Self)
        ensures
            r == (SessionPolicy { key_log: enabled, ..self }),
    {
        SessionPolicy { key_log: enabled, ..self }
    }
}

/// The policy of this server: resumption tickets on, room for 10024 sessions
/// and 2038 compressed certificates, HTTP/2 preferred over HTTP/1.1, at most
/// 2048 bytes of early data, and no key log.
pub fn create_server_config() -> (r: SessionPolicy)
    ensures
        r.wf(),
        r.resumption_tickets,
        r.session_cache_capacity == 10024,
        r.compression_cache_capacity == 2038,
        r.alpn_protocols@ == seq![Protocol::Http2, Protocol::Http11],
        r.max_early_data_size == 2048,
        !r.key_log,
{
    let alpn_protocols = vec![Protocol::Http2, Protocol::Http11];
    assert(alpn_protocols@ =~= seq![Protocol::Http2, Protocol::Http11]);
    SessionPolicy {
        resumption_tickets: true,
        session_cache_capacity: 10024,
        compression_cache_capacity: 2038,
        alpn_protocols,
        max_early_data_size: 2048,
        key_log: false,
    }
}

} // verus!
