//! Data model of the receiver: connection facts, envelope, completed mail,
//! policy statuses and the small value types shared by the other modules.
use vstd::prelude::*;

verus! {

/// How the connection was accepted: plaintext with optional STARTTLS
/// (opportunistic), or TLS established at TCP accept time (tunneled).
#[derive(Clone, Copy, PartialEq, Eq, Structural, Debug)]
pub enum ConnectionKind {
    Opportunistic,
    Tunneled,
}

/// A SASL authentication mechanism the server can offer.
#[derive(Clone, Copy, PartialEq, Eq, Structural, Debug)]
pub enum Mechanism {
    Plain,
    Login,
    CramMd5,
    Anonymous,
}

/// The set of mechanisms the configuration offers.
#[derive(Clone, Copy, PartialEq, Eq, Structural, Debug)]
pub struct Mechanisms {
    pub plain: bool,
    pub login: bool,
    pub cram_md5: bool,
    pub anonymous: bool,
}

impl Mechanisms {
    pub open spec fn spec_offers(self, m: Mechanism) -> bool {
        match m {
            Mechanism::Plain => self.plain,
            Mechanism::Login => self.login,
            Mechanism::CramMd5 => self.cram_md5,
            Mechanism::Anonymous => self.anonymous,
        }
    }

    /// Whether mechanism `m` is among the offered ones.
    pub fn offers(&self, m: Mechanism) -> (r: bool)
        ensures
            r == self.spec_offers(m),
    {
        match m {
            Mechanism::Plain => self.plain,
            Mechanism::Login => self.login,
            Mechanism::CramMd5 => self.cram_md5,
            Mechanism::Anonymous => self.anonymous,
        }
    }
}

/// Server configuration consumed by the receiver core.
#[derive(Clone, Copy, Debug)]
pub struct Config {
    /// TLS is configured, so STARTTLS may be offered and accepted.
    pub tls_available: bool,
    /// SASL authentication is configured.
    pub auth_enabled: bool,
    /// Mechanisms offered when authentication is configured.
    pub mechanisms: Mechanisms,
    /// Refuse AUTH on a channel that is not yet secured.
    pub require_tls_for_auth: bool,
    /// Ceiling on client protocol errors; reaching it closes with 421.
    pub max_errors: u32,
    /// Upper bound on accepted RCPT forward paths per transaction.
    pub max_recipients: usize,
    /// Upper bound on the accumulated message body, in bytes.
    pub max_message_size: usize,
}

impl Config {
    /// A usable configuration: the error ceiling and the transaction
    /// limits leave room for at least one command of each kind.
    pub open spec fn wf(self) -> bool {
        &&& self.max_errors >= 1
        &&& self.max_recipients >= 1
    }
}

/// Credentials carried into the policy authentication hook.
#[derive(Clone, Debug)]
pub enum Credentials {
    /// Ask the policy for the password of `authid`.
    Query { authid: Vec<u8> },
    /// Ask the policy whether the pair is valid.
    Verify { authid: Vec<u8>, authpass: Vec<u8> },
}

/// Specification view of `Credentials`.
pub enum CredentialsModel {
    Query { authid: Seq<u8> },
    Verify { authid: Seq<u8>, authpass: Seq<u8> },
}

impl View for Credentials {
    type V = CredentialsModel;

    open spec fn view(&self) -> CredentialsModel {
        match self {
            Credentials::Query { authid } => CredentialsModel::Query { authid: authid@ },
            Credentials::Verify { authid, authpass } => CredentialsModel::Verify {
                authid: authid@,
                authpass: authpass@,
            },
        }
    }
}

/// Result taxonomy of a policy hook.
#[derive(Clone, Debug)]
pub enum Status {
    Accept,
    Deny,
    Info { payload: Vec<u8> },
    Next,
}

/// Specification view of `Status`.
pub enum StatusModel {
    Accept,
    Deny,
    Info { payload: Seq<u8> },
    Next,
}

impl View for Status {
    type V = StatusModel;

    open spec fn view(&self) -> StatusModel {
        match self {
            Status::Accept => StatusModel::Accept,
            Status::Deny => StatusModel::Deny,
            Status::Info { payload } => StatusModel::Info { payload: payload@ },
            Status::Next => StatusModel::Next,
        }
    }
}

/// The policy hook points the core invokes.
#[derive(Clone, Copy, PartialEq, Eq, Structural, Debug)]
pub enum Hook {
    Connect,
    Helo,
    MailFrom,
    RcptTo,
    PreQueue,
}

/// Server-assigned identifier of a completed transaction: the session
/// start timestamp paired with a per-connection sequence number.
#[derive(Clone, Copy, PartialEq, Eq, Structural, Debug)]
pub struct MessageId {
    pub timestamp: u64,
    pub seq: u64,
}

/// The queue a completed mail is dispatched to.
#[derive(Clone, Copy, PartialEq, Eq, Structural, Debug)]
pub enum QueueTarget {
    Working,
    Deliver,
}

/// A socket address as plain data: the IP octets (four for IPv4,
/// sixteen for IPv6) and the port.
#[derive(Clone, Debug)]
pub struct Address {
    pub ip: Vec<u8>,
    pub port: u16,
}

/// Specification view of `Address`.
pub struct AddressModel {
    pub ip: Seq<u8>,
    pub port: u16,
}

impl View for Address {
    type V = AddressModel;

    open spec fn view(&self) -> AddressModel {
        AddressModel { ip: self.ip@, port: self.port }
    }
}

/// Copy an address.
pub fn clone_address(a: &Address) -> (r: Address)
    ensures
        r@ == a@,
{
    Address { ip: clone_bytes(&a.ip), port: a.port }
}

/// Snapshot of the connection taken when a mail completes.
#[derive(Clone, Debug)]
pub struct ConnectionInfo {
    pub client_addr: Address,
    pub server_addr: Address,
    pub timestamp: u64,
    pub is_secured: bool,
    pub is_authenticated: bool,
    pub credentials: Option<Credentials>,
}

/// Specification view of `ConnectionInfo`.
pub struct ConnectionInfoModel {
    pub client_addr: AddressModel,
    pub server_addr: AddressModel,
    pub timestamp: u64,
    pub is_secured: bool,
    pub is_authenticated: bool,
    pub credentials: Option<CredentialsModel>,
}

impl View for ConnectionInfo {
    type V = ConnectionInfoModel;

    open spec fn view(&self) -> ConnectionInfoModel {
        ConnectionInfoModel {
            client_addr: self.client_addr@,
            server_addr: self.server_addr@,
            timestamp: self.timestamp,
            is_secured: self.is_secured,
            is_authenticated: self.is_authenticated,
            credentials: match &self.credentials {
                Option::Some(c) => Option::Some(c@),
                Option::None => Option::None,
            },
        }
    }
}

/// The SMTP envelope of a completed transaction.
#[derive(Clone, Debug)]
pub struct Envelope {
    /// Domain asserted by EHLO/HELO.
    pub helo: Vec<u8>,
    /// The one reverse path set by MAIL FROM.
    pub reverse_path: Vec<u8>,
    /// Forward paths appended by each accepted RCPT TO, in order.
    pub forward_paths: Vec<Vec<u8>>,
}

/// Specification view of `Envelope`.
pub struct EnvelopeModel {
    pub helo: Seq<u8>,
    pub reverse_path: Seq<u8>,
    pub forward_paths: Seq<Seq<u8>>,
}

impl View for Envelope {
    type V = EnvelopeModel;

    open spec fn view(&self) -> EnvelopeModel {
        EnvelopeModel {
            helo: self.helo@,
            reverse_path: self.reverse_path@,
            forward_paths: Seq::new(
                self.forward_paths@.len(),
                |i: int| self.forward_paths@[i]@,
            ),
        }
    }
}

/// Metadata of a completed mail.
#[derive(Clone, Debug)]
pub struct Metadata {
    pub message_id: MessageId,
    /// Symbolic delivery path chosen by policy; the literal "none"
    /// suppresses delivery entirely.
    pub resolver: Vec<u8>,
    /// When set, dispatch bypasses the working stage and writes the
    /// mail directly to the delivery queue.
    pub skipped: Option<Vec<u8>>,
}

/// Specification view of `Metadata`.
pub struct MetadataModel {
    pub message_id: MessageId,
    pub resolver: Seq<u8>,
    pub skipped: Option<Seq<u8>>,
}

impl View for Metadata {
    type V = MetadataModel;

    open spec fn view(&self) -> MetadataModel {
        MetadataModel {
            message_id: self.message_id,
            resolver: self.resolver@,
            skipped: match &self.skipped {
                Option::Some(s) => Option::Some(s@),
                Option::None => Option::None,
            },
        }
    }
}

/// The completed artifact handed to dispatch: connection snapshot,
/// envelope, raw body bytes and metadata.
#[derive(Clone, Debug)]
pub struct MailContext {
    pub connection: ConnectionInfo,
    pub envelope: Envelope,
    pub body: Vec<u8>,
    pub metadata: Metadata,
}

/// Specification view of `MailContext`.
pub struct MailContextModel {
    pub connection: ConnectionInfoModel,
    pub envelope: EnvelopeModel,
    pub body: Seq<u8>,
    pub metadata: MetadataModel,
}

impl View for MailContext {
    type V = MailContextModel;

    open spec fn view(&self) -> MailContextModel {
        MailContextModel {
            connection: self.connection@,
            envelope: self.envelope@,
            body: self.body@,
            metadata: self.metadata@,
        }
    }
}

/// The resolver value that suppresses delivery.
pub open spec fn spec_no_delivery_resolver() -> Seq<u8> {
    seq![110u8, 111u8, 110u8, 101u8]
}

/// Whether `resolver` is the literal "none", which means "skip delivery".
pub fn is_no_delivery_resolver(resolver: &Vec<u8>) -> (r: bool)
    ensures
        r == (resolver@ == spec_no_delivery_resolver()),
{
    let r = resolver.len() == 4 && resolver[0] == 110 && resolver[1] == 111 && resolver[2] == 110
        && resolver[3] == 101;
    proof {
        if r {
            assert(resolver@ =~= spec_no_delivery_resolver());
        }
    }
    r
}

/// Copy the bytes of a path or domain.
pub fn clone_bytes(v: &Vec<u8>) -> (r: Vec<u8>)
    ensures
        r@ == v@,
{
    let mut out: Vec<u8> = Vec::new();
    let mut i: usize = 0;
    while i < v.len()
        invariant
            i <= v.len(),
            out@ == v@.take(i as int),
        decreases v.len() - i,
    {
        out.push(v[i]);
        i += 1;
        proof {
            assert(out@ =~= v@.take(i as int));
        }
    }
    proof {
        assert(v@.take(v.len() as int) =~= v@);
    }
    out
}

} // verus!
