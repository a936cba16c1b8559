//! The per-connection state machine. It consumes events — wire lines,
//! policy hook results, TLS, SASL, queue and handoff outcomes — and
//! produces the replies to send and the next outside action to run.
//! The surrounding process performs the I/O and feeds each outcome
//! back; every decision lives here.
use vstd::prelude::*;

use crate::body::{is_terminator, spec_terminator, spec_unstuff, unstuff_line};
use crate::command::{parse_command, spec_parse, spec_valid_path, valid_path, Command, CommandModel};
use crate::context::{
    clone_address, clone_bytes, is_no_delivery_resolver, spec_no_delivery_resolver, Address,
    AddressModel, Config, ConnectionInfo, ConnectionInfoModel, ConnectionKind, Credentials,
    CredentialsModel, Envelope, EnvelopeModel, Hook, MailContext, MailContextModel, Mechanism,
    MessageId, Metadata, MetadataModel, QueueTarget, Status, StatusModel,
};
use crate::reply::{Extensions, Reply, ReplyModel};

verus! {

/// Outcome of a SASL exchange run by the adapter.
#[derive(Clone, Debug)]
pub enum SaslOutcome {
    /// The mechanism completed and the policy accepted.
    Success { credentials: Credentials },
    /// The mechanism or the policy refused.
    Failed,
    /// The client aborted the exchange.
    Abort,
}

/// Specification view of `SaslOutcome`.
pub enum SaslOutcomeModel {
    Success { credentials: CredentialsModel },
    Failed,
    Abort,
}

impl View for SaslOutcome {
    type V = SaslOutcomeModel;

    open spec fn view(&self) -> SaslOutcomeModel {
        match self {
            SaslOutcome::Success { credentials } => SaslOutcomeModel::Success {
                credentials: credentials@,
            },
            SaslOutcome::Failed => SaslOutcomeModel::Failed,
            SaslOutcome::Abort => SaslOutcomeModel::Abort,
        }
    }
}

/// An event handed to the machine.
#[derive(Clone, Debug)]
pub enum Event {
    /// One wire line, without its CRLF.
    Line { line: Vec<u8> },
    /// The adapter gave up on a line that exceeded the configured
    /// maximum length; the bytes up to the next CRLF are gone.
    LineTooLong,
    /// Result of the policy hook the machine asked for.
    Policy { status: Status },
    /// Result of the pre-queue hook, with the metadata the policy set.
    PreQueue { status: Status, resolver: Vec<u8>, skipped: Option<Vec<u8>> },
    /// Outcome of the SASL exchange.
    Sasl { outcome: SaslOutcome },
    /// Whether the TLS handshake completed.
    TlsResult { ok: bool },
    /// Whether the queue write was durable.
    QueueResult { ok: bool },
    /// Whether the worker handoff was delivered.
    SignalResult { ok: bool },
}

/// Specification view of `Event`.
pub enum EventModel {
    Line { line: Seq<u8> },
    LineTooLong,
    Policy { status: StatusModel },
    PreQueue { status: StatusModel, resolver: Seq<u8>, skipped: Option<Seq<u8>> },
    Sasl { outcome: SaslOutcomeModel },
    TlsResult { ok: bool },
    QueueResult { ok: bool },
    SignalResult { ok: bool },
}

impl View for Event {
    type V = EventModel;

    open spec fn view(&self) -> EventModel {
        match self {
            Event::Line { line } => EventModel::Line { line: line@ },
            Event::LineTooLong => EventModel::LineTooLong,
            Event::Policy { status } => EventModel::Policy { status: status@ },
            Event::PreQueue { status, resolver, skipped } => EventModel::PreQueue {
                status: status@,
                resolver: resolver@,
                skipped: match skipped {
                    Option::Some(s) => Option::Some(s@),
                    Option::None => Option::None,
                },
            },
            Event::Sasl { outcome } => EventModel::Sasl { outcome: outcome@ },
            Event::TlsResult { ok } => EventModel::TlsResult { ok: *ok },
            Event::QueueResult { ok } => EventModel::QueueResult { ok: *ok },
            Event::SignalResult { ok } => EventModel::SignalResult { ok: *ok },
        }
    }
}

/// An outside action the machine asks the surrounding process to run.
#[derive(Clone, Debug)]
pub enum Action {
    /// Run a policy hook and feed back `Event::Policy` (or
    /// `Event::PreQueue` for the pre-queue hook).
    RunPolicy { hook: Hook },
    /// Drive the SASL exchange and feed back `Event::Sasl`.
    RunSasl { mechanism: Mechanism, initial: Option<Vec<u8>> },
    /// Perform the TLS handshake and feed back `Event::TlsResult`.
    StartTls,
    /// Write the mail durably to the queue and feed back
    /// `Event::QueueResult`.
    WriteQueue { target: QueueTarget, mail: MailContext },
    /// Hand the message id to the matching worker and feed back
    /// `Event::SignalResult`.
    Signal { target: QueueTarget, id: MessageId },
}

/// Specification view of `Action`.
pub enum ActionModel {
    RunPolicy { hook: Hook },
    RunSasl { mechanism: Mechanism, initial: Option<Seq<u8>> },
    StartTls,
    WriteQueue { target: QueueTarget, mail: MailContextModel },
    Signal { target: QueueTarget, id: MessageId },
}

impl View for Action {
    type V = ActionModel;

    open spec fn view(&self) -> ActionModel {
        match self {
            Action::RunPolicy { hook } => ActionModel::RunPolicy { hook: *hook },
            Action::RunSasl { mechanism, initial } => ActionModel::RunSasl {
                mechanism: *mechanism,
                initial: match initial {
                    Option::Some(i) => Option::Some(i@),
                    Option::None => Option::None,
                },
            },
            Action::StartTls => ActionModel::StartTls,
            Action::WriteQueue { target, mail } => ActionModel::WriteQueue {
                target: *target,
                mail: mail@,
            },
            Action::Signal { target, id } => ActionModel::Signal { target: *target, id: *id },
        }
    }
}

/// What one step produces: the replies to write, in order, and at most
/// one action to run.
#[derive(Debug)]
pub struct Output {
    pub replies: Vec<Reply>,
    pub action: Option<Action>,
}

/// Specification view of `Output`.
#[verifier::ext_equal]
pub struct OutputModel {
    pub replies: Seq<ReplyModel>,
    pub action: Option<ActionModel>,
}

impl View for Output {
    type V = OutputModel;

    open spec fn view(&self) -> OutputModel {
        OutputModel {
            replies: Seq::new(self.replies@.len(), |i: int| self.replies@[i]@),
            action: match &self.action {
                Option::Some(a) => Option::Some(a@),
                Option::None => Option::None,
            },
        }
    }
}

/// Where the machine stands.
#[derive(Clone, Debug)]
pub enum Phase {
    /// The greeting is written; awaiting the connect hook.
    ConnectPolicy,
    /// Command mode, no transaction open.
    Idle,
    /// Awaiting the helo hook.
    HeloPolicy { domain: Vec<u8>, extended: bool },
    /// Awaiting the mail hook.
    MailPolicy { path: Vec<u8> },
    /// MAIL accepted, no recipient yet.
    MailOk,
    /// Awaiting the rcpt hook.
    RcptPolicy { path: Vec<u8> },
    /// At least one recipient accepted.
    RcptOk,
    /// Reading the DATA body.
    Body,
    /// The body went over the configured cap: the remaining body lines
    /// are discarded, and the terminating dot draws the 552.
    BodyDiscard,
    /// Awaiting the pre-queue hook for the completed body.
    PreQueuePolicy { id: MessageId },
    /// Awaiting the durable queue write.
    QueueWrite { target: QueueTarget, id: MessageId },
    /// Awaiting the worker handoff.
    SignalWait { target: QueueTarget, id: MessageId },
    /// Awaiting the TLS handshake.
    TlsHandshake,
    /// Awaiting the SASL exchange.
    AuthExchange { mechanism: Mechanism },
    /// The connection is over.
    Closed,
}

/// Specification view of `Phase`.
pub enum PhaseModel {
    ConnectPolicy,
    Idle,
    HeloPolicy { domain: Seq<u8>, extended: bool },
    MailPolicy { path: Seq<u8> },
    MailOk,
    RcptPolicy { path: Seq<u8> },
    RcptOk,
    Body,
    BodyDiscard,
    PreQueuePolicy { id: MessageId },
    QueueWrite { target: QueueTarget, id: MessageId },
    SignalWait { target: QueueTarget, id: MessageId },
    TlsHandshake,
    AuthExchange { mechanism: Mechanism },
    Closed,
}

impl View for Phase {
    type V = PhaseModel;

    open spec fn view(&self) -> PhaseModel {
        match self {
            Phase::ConnectPolicy => PhaseModel::ConnectPolicy,
            Phase::Idle => PhaseModel::Idle,
            Phase::HeloPolicy { domain, extended } => PhaseModel::HeloPolicy {
                domain: domain@,
                extended: *extended,
            },
            Phase::MailPolicy { path } => PhaseModel::MailPolicy { path: path@ },
            Phase::MailOk => PhaseModel::MailOk,
            Phase::RcptPolicy { path } => PhaseModel::RcptPolicy { path: path@ },
            Phase::RcptOk => PhaseModel::RcptOk,
            Phase::Body => PhaseModel::Body,
            Phase::BodyDiscard => PhaseModel::BodyDiscard,
            Phase::PreQueuePolicy { id } => PhaseModel::PreQueuePolicy { id: *id },
            Phase::QueueWrite { target, id } => PhaseModel::QueueWrite {
                target: *target,
                id: *id,
            },
            Phase::SignalWait { target, id } => PhaseModel::SignalWait {
                target: *target,
                id: *id,
            },
            Phase::TlsHandshake => PhaseModel::TlsHandshake,
            Phase::AuthExchange { mechanism } => PhaseModel::AuthExchange {
                mechanism: *mechanism,
            },
            Phase::Closed => PhaseModel::Closed,
        }
    }
}

impl Phase {
    /// Command mode with no open transaction.
    pub fn is_idle(&self) -> (r: bool)
        ensures
            r == (self@ is Idle),
    {
        match self {
            Phase::Idle => true,
            _ => false,
        }
    }

    /// MAIL accepted, no recipient yet.
    pub fn is_mail_ok(&self) -> (r: bool)
        ensures
            r == (self@ is MailOk),
    {
        match self {
            Phase::MailOk => true,
            _ => false,
        }
    }

    /// At least one recipient accepted.
    pub fn is_rcpt_ok(&self) -> (r: bool)
        ensures
            r == (self@ is RcptOk),
    {
        match self {
            Phase::RcptOk => true,
            _ => false,
        }
    }
}

/// The machine driving one connection.
pub struct Machine {
    pub config: Config,
    pub kind: ConnectionKind,
    pub banner: Vec<u8>,
    /// The peer's socket address.
    pub client_addr: Address,
    /// The local socket address the peer connected to.
    pub server_addr: Address,
    /// Session start timestamp; part of every message id.
    pub timestamp: u64,
    pub secured: bool,
    pub authenticated: bool,
    pub credentials: Option<Credentials>,
    pub alive: bool,
    pub error_count: u32,
    pub helo: Option<Vec<u8>>,
    pub phase: Phase,
    pub rev_path: Option<Vec<u8>>,
    pub fwd_paths: Vec<Vec<u8>>,
    pub body: Vec<u8>,
    pub mail_seq: u64,
    /// Commands consumed, for the reply accounting law.
    pub lines: Ghost<nat>,
    /// Replies produced, for the reply accounting law.
    pub replies: Ghost<nat>,
}

/// Specification view of `Machine`; the two ghost counters stay
/// outside so that the model is exactly the operational state.
#[verifier::ext_equal]
pub struct MachineModel {
    pub config: Config,
    pub kind: ConnectionKind,
    pub banner: Seq<u8>,
    pub client_addr: AddressModel,
    pub server_addr: AddressModel,
    pub timestamp: u64,
    pub secured: bool,
    pub authenticated: bool,
    pub credentials: Option<CredentialsModel>,
    pub alive: bool,
    pub error_count: u32,
    pub helo: Option<Seq<u8>>,
    pub phase: PhaseModel,
    pub rev_path: Option<Seq<u8>>,
    pub fwd_paths: Seq<Seq<u8>>,
    pub body: Seq<u8>,
    pub mail_seq: u64,
}

impl View for Machine {
    type V = MachineModel;

    open spec fn view(&self) -> MachineModel {
        MachineModel {
            config: self.config,
            kind: self.kind,
            banner: self.banner@,
            client_addr: self.client_addr@,
            server_addr: self.server_addr@,
            timestamp: self.timestamp,
            secured: self.secured,
            authenticated: self.authenticated,
            credentials: match &self.credentials {
                Option::Some(c) => Option::Some(c@),
                Option::None => Option::None,
            },
            alive: self.alive,
            error_count: self.error_count,
            helo: match &self.helo {
                Option::Some(h) => Option::Some(h@),
                Option::None => Option::None,
            },
            phase: self.phase@,
            rev_path: match &self.rev_path {
                Option::Some(p) => Option::Some(p@),
                Option::None => Option::None,
            },
            fwd_paths: Seq::new(self.fwd_paths@.len(), |i: int| self.fwd_paths@[i]@),
            body: self.body@,
            mail_seq: self.mail_seq,
        }
    }
}

/// What one step does to the model.
#[verifier::ext_equal]
pub struct StepModel {
    pub next: MachineModel,
    pub out: OutputModel,
}

/// No transaction is open.
pub open spec fn spec_empty_tx(s: MachineModel) -> bool {
    s.rev_path is None && s.fwd_paths.len() == 0 && s.body.len() == 0
}

/// The transaction fields cleared; everything else kept.
pub open spec fn spec_reset_tx(s: MachineModel) -> MachineModel {
    MachineModel { rev_path: Option::None, fwd_paths: Seq::empty(), body: Seq::empty(), ..s }
}

/// One reply, no action, state unchanged beyond what the caller did.
pub open spec fn spec_give(s: MachineModel, r: ReplyModel) -> StepModel {
    StepModel { next: s, out: OutputModel { replies: seq![r], action: Option::None } }
}

/// No reply, no action.
pub open spec fn spec_silent(s: MachineModel) -> StepModel {
    StepModel { next: s, out: OutputModel { replies: Seq::empty(), action: Option::None } }
}

/// No reply, one action.
pub open spec fn spec_act(s: MachineModel, a: ActionModel) -> StepModel {
    StepModel { next: s, out: OutputModel { replies: Seq::empty(), action: Option::Some(a) } }
}

/// A client-caused error reply: the error count rises, and reaching
/// the ceiling closes the connection with a trailing 421.
pub open spec fn spec_client_err(s: MachineModel, r: ReplyModel) -> StepModel {
    if s.error_count + 1 >= s.config.max_errors {
        StepModel {
            next: MachineModel {
                error_count: (s.error_count + 1) as u32,
                alive: false,
                phase: PhaseModel::Closed,
                ..s
            },
            out: OutputModel {
                replies: seq![r, ReplyModel::Code421],
                action: Option::None,
            },
        }
    } else {
        StepModel {
            next: MachineModel { error_count: (s.error_count + 1) as u32, ..s },
            out: OutputModel { replies: seq![r], action: Option::None },
        }
    }
}

/// An internal integrity fault: 421 and the connection is over.
pub open spec fn spec_integrity_close(s: MachineModel) -> StepModel {
    StepModel {
        next: MachineModel { alive: false, phase: PhaseModel::Closed, ..s },
        out: OutputModel { replies: seq![ReplyModel::Code421], action: Option::None },
    }
}

/// The extensions an extended greeting advertises.
pub open spec fn spec_extensions(config: Config, secured: bool) -> Extensions {
    Extensions {
        starttls: config.tls_available && !secured,
        auth: if config.auth_enabled {
            Option::Some(config.mechanisms)
        } else {
            Option::None
        },
    }
}

/// The connection snapshot a completed mail carries.
pub open spec fn spec_snapshot(s: MachineModel) -> ConnectionInfoModel {
    ConnectionInfoModel {
        client_addr: s.client_addr,
        server_addr: s.server_addr,
        timestamp: s.timestamp,
        is_secured: s.secured,
        is_authenticated: s.authenticated,
        credentials: s.credentials,
    }
}

/// The next value of the mail sequence counter.
pub open spec fn spec_bump_seq(n: u64) -> u64 {
    if n == u64::MAX {
        n
    } else {
        (n + 1) as u64
    }
}

/// One command line in a command phase (`Idle`, `MailOk`, `RcptOk`).
pub open spec fn spec_on_command(s: MachineModel, line: Seq<u8>) -> StepModel {
    spec_dispatch(s, spec_parse(line))
}

/// What a parsed command does in a command phase.
pub open spec fn spec_dispatch(s: MachineModel, c: CommandModel) -> StepModel {
    match c {
        CommandModel::Helo { domain } => spec_on_greet(s, domain, false),
        CommandModel::Ehlo { domain } => spec_on_greet(s, domain, true),
        CommandModel::MailFrom { path, size } => spec_on_mail_from(s, path, size),
        CommandModel::RcptTo { path } => spec_on_rcpt_to(s, path),
        CommandModel::Data => spec_on_data(s),
        CommandModel::Rset => spec_give(
            MachineModel { phase: PhaseModel::Idle, ..spec_reset_tx(s) },
            ReplyModel::Code250,
        ),
        CommandModel::Noop => spec_give(s, ReplyModel::Code250),
        CommandModel::Quit => StepModel {
            next: MachineModel { alive: false, phase: PhaseModel::Closed, ..s },
            out: OutputModel { replies: seq![ReplyModel::Code221], action: Option::None },
        },
        CommandModel::Vrfy => spec_give(s, ReplyModel::Code252),
        CommandModel::Expn => spec_give(s, ReplyModel::Code252),
        CommandModel::StartTls => spec_on_starttls(s),
        CommandModel::Auth { mechanism, initial } => spec_on_auth(s, mechanism, initial),
        CommandModel::BadSyntax => spec_client_err(s, ReplyModel::Code501),
        CommandModel::Unknown => spec_client_err(s, ReplyModel::Code500),
    }
}

/// EHLO or HELO: valid only between transactions; the domain goes
/// through the helo hook before it is recorded.
pub open spec fn spec_on_greet(s: MachineModel, domain: Seq<u8>, extended: bool) -> StepModel {
    if !(s.phase is Idle) {
        spec_client_err(s, ReplyModel::Code503)
    } else if domain.len() == 0 {
        spec_client_err(s, ReplyModel::Code501)
    } else {
        spec_act(
            MachineModel { phase: PhaseModel::HeloPolicy { domain, extended }, ..s },
            ActionModel::RunPolicy { hook: Hook::Helo },
        )
    }
}

/// MAIL FROM: needs a prior EHLO/HELO, no open transaction, an
/// acceptable path, and a SIZE parameter within the configured cap.
pub open spec fn spec_on_mail_from(s: MachineModel, path: Seq<u8>, size: Option<u64>) -> StepModel {
    if !(s.phase is Idle) {
        spec_client_err(s, ReplyModel::Code503)
    } else if s.helo is None {
        spec_client_err(s, ReplyModel::Code503)
    } else if !spec_valid_path(path) {
        spec_client_err(s, ReplyModel::Code501)
    } else if size matches Option::Some(n) && n > s.config.max_message_size as u64 {
        spec_give(s, ReplyModel::Code552)
    } else {
        spec_act(
            MachineModel { phase: PhaseModel::MailPolicy { path }, ..s },
            ActionModel::RunPolicy { hook: Hook::MailFrom },
        )
    }
}

/// RCPT TO: needs an open transaction and room for one more
/// recipient; the path goes through the rcpt hook.
pub open spec fn spec_on_rcpt_to(s: MachineModel, path: Seq<u8>) -> StepModel {
    if !(s.phase is MailOk || s.phase is RcptOk) {
        spec_client_err(s, ReplyModel::Code503)
    } else if path.len() == 0 || !spec_valid_path(path) {
        spec_client_err(s, ReplyModel::Code501)
    } else if s.fwd_paths.len() >= s.config.max_recipients {
        spec_give(s, ReplyModel::Code452)
    } else {
        spec_act(
            MachineModel { phase: PhaseModel::RcptPolicy { path }, ..s },
            ActionModel::RunPolicy { hook: Hook::RcptTo },
        )
    }
}

/// DATA: needs at least one accepted recipient; with an open
/// transaction but none, the transaction has failed.
pub open spec fn spec_on_data(s: MachineModel) -> StepModel {
    if s.phase is RcptOk {
        spec_give(MachineModel { phase: PhaseModel::Body, ..s }, ReplyModel::Code354)
    } else if s.phase is MailOk {
        spec_give(s, ReplyModel::Code554)
    } else {
        spec_client_err(s, ReplyModel::Code503)
    }
}

/// STARTTLS: agreed only when TLS is configured, the channel is not
/// yet secured, and no transaction is open.
pub open spec fn spec_on_starttls(s: MachineModel) -> StepModel {
    if !(s.phase is Idle) {
        spec_client_err(s, ReplyModel::Code503)
    } else if s.secured {
        spec_client_err(s, ReplyModel::Code503)
    } else if !s.config.tls_available {
        spec_give(s, ReplyModel::Code454)
    } else {
        StepModel {
            next: MachineModel { phase: PhaseModel::TlsHandshake, ..s },
            out: OutputModel {
                replies: seq![ReplyModel::TlsReady],
                action: Option::Some(ActionModel::StartTls),
            },
        }
    }
}

/// AUTH: refused without configuration, after authentication, inside
/// a transaction, on an unsecured channel when TLS is demanded first,
/// and for unknown or unoffered mechanisms.
pub open spec fn spec_on_auth(
    s: MachineModel,
    mechanism: Option<Mechanism>,
    initial: Option<Seq<u8>>,
) -> StepModel {
    if !(s.phase is Idle) {
        spec_client_err(s, ReplyModel::Code503)
    } else if !s.config.auth_enabled || s.authenticated {
        spec_client_err(s, ReplyModel::Code503)
    } else if s.config.require_tls_for_auth && !s.secured {
        spec_give(s, ReplyModel::Code538)
    } else {
        match mechanism {
            Option::None => spec_give(s, ReplyModel::Code504),
            Option::Some(m) => if !s.config.mechanisms.spec_offers(m) {
                spec_give(s, ReplyModel::Code504)
            } else {
                spec_act(
                    MachineModel { phase: PhaseModel::AuthExchange { mechanism: m }, ..s },
                    ActionModel::RunSasl { mechanism: m, initial },
                )
            },
        }
    }
}

/// One line of the DATA body: the terminator completes the body and
/// asks for the pre-queue hook; a line that would push the body over
/// the cap silently switches to discarding (no reply goes out in the
/// middle of a body); anything else accumulates, unstuffed and CRLF
/// terminated.
pub open spec fn spec_on_body_line(s: MachineModel, line: Seq<u8>) -> StepModel {
    if line == spec_terminator() {
        let id = MessageId { timestamp: s.timestamp, seq: s.mail_seq };
        spec_act(
            MachineModel {
                phase: PhaseModel::PreQueuePolicy { id },
                mail_seq: spec_bump_seq(s.mail_seq),
                ..s
            },
            ActionModel::RunPolicy { hook: Hook::PreQueue },
        )
    } else {
        let unstuffed = spec_unstuff(line);
        if s.body.len() + unstuffed.len() + 2 > s.config.max_message_size {
            spec_silent(
                MachineModel { phase: PhaseModel::BodyDiscard, body: Seq::empty(), ..s },
            )
        } else {
            spec_silent(MachineModel { body: s.body + unstuffed + crate::reply::spec_crlf(), ..s })
        }
    }
}

/// A body line after the cap was exceeded: everything up to the
/// terminator is discarded, and the terminator itself draws the 552
/// that fails the transaction.
pub open spec fn spec_on_body_discard(s: MachineModel, line: Seq<u8>) -> StepModel {
    if line == spec_terminator() {
        spec_give(
            MachineModel { phase: PhaseModel::Idle, ..spec_reset_tx(s) },
            ReplyModel::Code552,
        )
    } else {
        spec_silent(s)
    }
}

/// The pre-queue hook answered: deny fails the transaction; otherwise
/// the completed mail is built and routed — resolver "none" means no
/// queue at all, a skipped marker means the delivery queue, anything
/// else the working queue.
pub open spec fn spec_on_prequeue(
    s: MachineModel,
    id: MessageId,
    status: StatusModel,
    resolver: Seq<u8>,
    skipped: Option<Seq<u8>>,
) -> StepModel {
    match status {
        StatusModel::Deny => spec_give(
            MachineModel { phase: PhaseModel::Idle, ..spec_reset_tx(s) },
            ReplyModel::Code554,
        ),
        StatusModel::Info { .. } => spec_integrity_close(s),
        _ => match (s.helo, s.rev_path) {
            (Option::Some(helo), Option::Some(rev)) => {
                let mail = MailContextModel {
                    connection: spec_snapshot(s),
                    envelope: EnvelopeModel {
                        helo,
                        reverse_path: rev,
                        forward_paths: s.fwd_paths,
                    },
                    body: s.body,
                    metadata: MetadataModel { message_id: id, resolver, skipped },
                };
                let cleared = MachineModel { phase: PhaseModel::Idle, ..spec_reset_tx(s) };
                if resolver == spec_no_delivery_resolver() {
                    spec_give(cleared, ReplyModel::Code250)
                } else {
                    let target = if skipped is Some {
                        QueueTarget::Deliver
                    } else {
                        QueueTarget::Working
                    };
                    spec_act(
                        MachineModel {
                            phase: PhaseModel::QueueWrite { target, id },
                            ..spec_reset_tx(s)
                        },
                        ActionModel::WriteQueue { target, mail },
                    )
                }
            },
            _ => spec_integrity_close(s),
        },
    }
}

/// The whole transition relation of the machine.
pub open spec fn spec_step(s: MachineModel, e: EventModel) -> StepModel {
    match (s.phase, e) {
        (PhaseModel::Closed, _) => spec_silent(s),
        (PhaseModel::ConnectPolicy, EventModel::Policy { status }) => match status {
            StatusModel::Deny => StepModel {
                next: MachineModel { alive: false, phase: PhaseModel::Closed, ..s },
                out: OutputModel { replies: seq![ReplyModel::Code554], action: Option::None },
            },
            StatusModel::Info { .. } => spec_integrity_close(s),
            _ => spec_silent(MachineModel { phase: PhaseModel::Idle, ..s }),
        },
        (PhaseModel::Idle, EventModel::Line { line }) => spec_on_command(s, line),
        (PhaseModel::MailOk, EventModel::Line { line }) => spec_on_command(s, line),
        (PhaseModel::RcptOk, EventModel::Line { line }) => spec_on_command(s, line),
        (PhaseModel::Body, EventModel::Line { line }) => spec_on_body_line(s, line),
        (PhaseModel::BodyDiscard, EventModel::Line { line }) => spec_on_body_discard(s, line),
        (PhaseModel::Idle, EventModel::LineTooLong) => spec_client_err(s, ReplyModel::Code500),
        (PhaseModel::MailOk, EventModel::LineTooLong) => spec_client_err(s, ReplyModel::Code500),
        (PhaseModel::RcptOk, EventModel::LineTooLong) => spec_client_err(s, ReplyModel::Code500),
        (PhaseModel::Body, EventModel::LineTooLong) => spec_silent(
            MachineModel { phase: PhaseModel::BodyDiscard, body: Seq::empty(), ..s },
        ),
        (PhaseModel::BodyDiscard, EventModel::LineTooLong) => spec_silent(s),
        (PhaseModel::HeloPolicy { domain, extended }, EventModel::Policy { status }) => match status {
            StatusModel::Deny => spec_give(
                MachineModel { phase: PhaseModel::Idle, ..s },
                ReplyModel::Code550,
            ),
            StatusModel::Info { .. } => spec_integrity_close(s),
            _ => spec_give(
                MachineModel { phase: PhaseModel::Idle, helo: Option::Some(domain), ..s },
                if extended {
                    ReplyModel::EhloOk { domain, exts: spec_extensions(s.config, s.secured) }
                } else {
                    ReplyModel::Code250
                },
            ),
        },
        (PhaseModel::MailPolicy { path }, EventModel::Policy { status }) => match status {
            StatusModel::Deny => spec_give(
                MachineModel { phase: PhaseModel::Idle, ..s },
                ReplyModel::Code550,
            ),
            StatusModel::Info { .. } => spec_integrity_close(s),
            _ => spec_give(
                MachineModel {
                    phase: PhaseModel::MailOk,
                    rev_path: Option::Some(path),
                    ..s
                },
                ReplyModel::Code250,
            ),
        },
        (PhaseModel::RcptPolicy { path }, EventModel::Policy { status }) => match status {
            StatusModel::Deny => spec_give(
                MachineModel {
                    phase: if s.fwd_paths.len() == 0 {
                        PhaseModel::MailOk
                    } else {
                        PhaseModel::RcptOk
                    },
                    ..s
                },
                ReplyModel::Code550,
            ),
            StatusModel::Info { .. } => spec_integrity_close(s),
            _ => spec_give(
                MachineModel {
                    phase: PhaseModel::RcptOk,
                    fwd_paths: s.fwd_paths.push(path),
                    ..s
                },
                ReplyModel::Code250,
            ),
        },
        (PhaseModel::PreQueuePolicy { id }, EventModel::PreQueue { status, resolver, skipped }) =>
            spec_on_prequeue(s, id, status, resolver, skipped),
        (PhaseModel::QueueWrite { target, id }, EventModel::QueueResult { ok }) => if ok {
            spec_act(
                MachineModel { phase: PhaseModel::SignalWait { target, id }, ..s },
                ActionModel::Signal { target, id },
            )
        } else {
            spec_give(MachineModel { phase: PhaseModel::Idle, ..s }, ReplyModel::Code554)
        },
        (PhaseModel::SignalWait { .. }, EventModel::SignalResult { ok }) => if ok {
            spec_give(MachineModel { phase: PhaseModel::Idle, ..s }, ReplyModel::Code250)
        } else {
            StepModel {
                next: MachineModel { alive: false, phase: PhaseModel::Closed, ..s },
                out: OutputModel { replies: Seq::empty(), action: Option::None },
            }
        },
        (PhaseModel::TlsHandshake, EventModel::TlsResult { ok }) => if ok {
            spec_silent(
                MachineModel {
                    phase: PhaseModel::Idle,
                    secured: true,
                    helo: Option::None,
                    ..s
                },
            )
        } else {
            StepModel {
                next: MachineModel { alive: false, phase: PhaseModel::Closed, ..s },
                out: OutputModel { replies: Seq::empty(), action: Option::None },
            }
        },
        (PhaseModel::AuthExchange { .. }, EventModel::Sasl { outcome }) => match outcome {
            SaslOutcomeModel::Success { credentials } => spec_give(
                MachineModel {
                    phase: PhaseModel::Idle,
                    authenticated: true,
                    credentials: Option::Some(credentials),
                    ..s
                },
                ReplyModel::Code235,
            ),
            SaslOutcomeModel::Failed => spec_give(
                MachineModel { phase: PhaseModel::Idle, ..s },
                ReplyModel::Code535,
            ),
            SaslOutcomeModel::Abort => spec_client_err(
                MachineModel { phase: PhaseModel::Idle, ..s },
                ReplyModel::Code501,
            ),
        },
        _ => spec_integrity_close(s),
    }
}

/// The state a fresh machine starts in: a tunneled connection is
/// secured from the start; the greeting is already written and the
/// connect hook is pending.
pub open spec fn spec_init(
    config: Config,
    kind: ConnectionKind,
    banner: Seq<u8>,
    client_addr: AddressModel,
    server_addr: AddressModel,
    timestamp: u64,
) -> MachineModel {
    MachineModel {
        config,
        kind,
        banner,
        client_addr,
        server_addr,
        timestamp,
        secured: kind is Tunneled,
        authenticated: false,
        credentials: Option::None,
        alive: true,
        error_count: 0,
        helo: Option::None,
        phase: PhaseModel::ConnectPolicy,
        rev_path: Option::None,
        fwd_paths: Seq::empty(),
        body: Seq::empty(),
        mail_seq: 0,
    }
}

impl MachineModel {
    /// The machine's invariant: credentials go with the authenticated
    /// flag, the error count stays below the ceiling while the
    /// connection lives, the transaction fields fit the phase, and the
    /// configured caps hold.
    pub open spec fn inv(self) -> bool {
        &&& self.config.wf()
        &&& (self.authenticated <==> self.credentials is Some)
        &&& self.error_count <= self.config.max_errors
        &&& (self.alive ==> self.error_count < self.config.max_errors)
        &&& (self.alive <==> !(self.phase is Closed))
        &&& self.fwd_paths.len() <= self.config.max_recipients
        &&& self.body.len() <= self.config.max_message_size
        &&& match self.phase {
            PhaseModel::ConnectPolicy => spec_empty_tx(self),
            PhaseModel::Idle => spec_empty_tx(self),
            PhaseModel::HeloPolicy { .. } => spec_empty_tx(self),
            PhaseModel::TlsHandshake => spec_empty_tx(self),
            PhaseModel::AuthExchange { .. } => spec_empty_tx(self),
            PhaseModel::MailPolicy { .. } => spec_empty_tx(self) && self.helo is Some,
            PhaseModel::MailOk => self.rev_path is Some && self.body.len() == 0
                && self.helo is Some,
            PhaseModel::RcptPolicy { .. } => self.rev_path is Some && self.body.len() == 0
                && self.helo is Some && self.fwd_paths.len() < self.config.max_recipients,
            PhaseModel::RcptOk => self.rev_path is Some && self.fwd_paths.len() >= 1
                && self.helo is Some && self.body.len() == 0,
            PhaseModel::Body => self.rev_path is Some && self.fwd_paths.len() >= 1
                && self.helo is Some,
            PhaseModel::BodyDiscard => self.body.len() == 0,
            PhaseModel::PreQueuePolicy { .. } => self.rev_path is Some
                && self.fwd_paths.len() >= 1 && self.helo is Some,
            PhaseModel::QueueWrite { .. } => spec_empty_tx(self),
            PhaseModel::SignalWait { .. } => spec_empty_tx(self),
            PhaseModel::Closed => true,
        }
    }
}


/// How many counted command lines one event consumes: one for each
/// line in a command phase, one for the body terminator or a body line
/// that fails the transaction; silently accumulated body lines and
/// outcome events count nothing.
pub open spec fn spec_lines_delta(s: MachineModel, e: EventModel) -> nat {
    match e {
        EventModel::Line { .. } => match s.phase {
            PhaseModel::Idle => 1,
            PhaseModel::MailOk => 1,
            PhaseModel::RcptOk => 1,
            PhaseModel::Body => if spec_step(s, e).out.replies.len() == 0 && spec_step(
                s,
                e,
            ).out.action is None {
                0
            } else {
                1
            },
            PhaseModel::BodyDiscard => if spec_step(s, e).out.replies.len() == 0 {
                0
            } else {
                1
            },
            _ => 0,
        },
        EventModel::LineTooLong => match s.phase {
            PhaseModel::Idle => 1,
            PhaseModel::MailOk => 1,
            PhaseModel::RcptOk => 1,
            _ => 0,
        },
        _ => 0,
    }
}

fn give(m: Machine, r: Reply) -> (res: (Machine, Output))
    ensures
        res.0@ == m@,
        res.0.lines@ == m.lines@,
        res.0.replies@ == m.replies@ + 1,
        res.1@ == (OutputModel { replies: seq![r@], action: Option::None }),
{
    let mut m2 = m;
    m2.replies = Ghost((m2.replies@ + 1) as nat);
    let mut rs: Vec<Reply> = Vec::new();
    rs.push(r);
    let out = Output { replies: rs, action: Option::None };
    proof {
        assert(out@ =~~= (OutputModel { replies: seq![r@], action: Option::None }));
    }
    (m2, out)
}

fn silent(m: Machine) -> (res: (Machine, Output))
    ensures
        res.0@ == m@,
        res.0.lines@ == m.lines@,
        res.0.replies@ == m.replies@,
        res.1@ == (OutputModel { replies: Seq::<ReplyModel>::empty(), action: Option::None }),
{
    let out = Output { replies: Vec::new(), action: Option::None };
    proof {
        assert(out@ =~~= (OutputModel {
            replies: Seq::<ReplyModel>::empty(),
            action: Option::None,
        }));
    }
    (m, out)
}

fn act(m: Machine, a: Action) -> (res: (Machine, Output))
    ensures
        res.0@ == m@,
        res.0.lines@ == m.lines@,
        res.0.replies@ == m.replies@,
        res.1@ == (OutputModel {
            replies: Seq::<ReplyModel>::empty(),
            action: Option::Some(a@),
        }),
{
    let ghost av = a@;
    let out = Output { replies: Vec::new(), action: Option::Some(a) };
    proof {
        assert(out@ =~~= (OutputModel {
            replies: Seq::<ReplyModel>::empty(),
            action: Option::Some(av),
        }));
    }
    (m, out)
}

fn client_err(m: Machine, r: Reply) -> (res: (Machine, Output))
    requires
        m@.error_count < m@.config.max_errors,
    ensures
        res.0@ == spec_client_err(m@, r@).next,
        res.1@ == spec_client_err(m@, r@).out,
        res.0.lines@ == m.lines@,
        res.0.replies@ == m.replies@ + spec_client_err(m@, r@).out.replies.len(),
{
    let ghost s0 = m@;
    let mut m2 = m;
    m2.error_count = m2.error_count + 1;
    if m2.error_count >= m2.config.max_errors {
        m2.alive = false;
        m2.phase = Phase::Closed;
        m2.replies = Ghost((m2.replies@ + 2) as nat);
        let mut rs: Vec<Reply> = Vec::new();
        rs.push(r);
        rs.push(Reply::Code421);
        let out = Output { replies: rs, action: Option::None };
        proof {
            assert(m2@ =~~= spec_client_err(s0, r@).next);
            assert(out@ =~~= spec_client_err(s0, r@).out);
        }
        (m2, out)
    } else {
        m2.replies = Ghost((m2.replies@ + 1) as nat);
        let mut rs: Vec<Reply> = Vec::new();
        rs.push(r);
        let out = Output { replies: rs, action: Option::None };
        proof {
            assert(m2@ =~~= spec_client_err(s0, r@).next);
            assert(out@ =~~= spec_client_err(s0, r@).out);
        }
        (m2, out)
    }
}

fn integrity_close(m: Machine) -> (res: (Machine, Output))
    ensures
        res.0@ == spec_integrity_close(m@).next,
        res.1@ == spec_integrity_close(m@).out,
        res.0.lines@ == m.lines@,
        res.0.replies@ == m.replies@ + 1,
{
    let ghost s0 = m@;
    let mut m2 = m;
    m2.alive = false;
    m2.phase = Phase::Closed;
    m2.replies = Ghost((m2.replies@ + 1) as nat);
    let mut rs: Vec<Reply> = Vec::new();
    rs.push(Reply::Code421);
    let out = Output { replies: rs, action: Option::None };
    proof {
        assert(m2@ =~~= spec_integrity_close(s0).next);
        assert(out@ =~~= spec_integrity_close(s0).out);
    }
    (m2, out)
}

/// The extensions the running configuration advertises.
pub fn extensions(config: Config, secured: bool) -> (e: Extensions)
    ensures
        e == spec_extensions(config, secured),
{
    Extensions {
        starttls: config.tls_available && !secured,
        auth: if config.auth_enabled {
            Option::Some(config.mechanisms)
        } else {
            Option::None
        },
    }
}

fn clone_credentials(c: &Option<Credentials>) -> (r: Option<Credentials>)
    ensures
        (match r {
            Option::Some(x) => Option::Some(x@),
            Option::None => Option::None::<CredentialsModel>,
        }) == (match c {
            Option::Some(x) => Option::Some(x@),
            Option::None => Option::None::<CredentialsModel>,
        }),
{
    match c {
        Option::Some(Credentials::Query { authid }) => Option::Some(
            Credentials::Query { authid: clone_bytes(authid) },
        ),
        Option::Some(Credentials::Verify { authid, authpass }) => Option::Some(
            Credentials::Verify { authid: clone_bytes(authid), authpass: clone_bytes(authpass) },
        ),
        Option::None => Option::None,
    }
}

fn on_greet(m: Machine, domain: Vec<u8>, extended: bool) -> (res: (Machine, Output))
    requires
        m@.inv(),
        m@.phase is Idle || m@.phase is MailOk || m@.phase is RcptOk,
    ensures
        res.0@ == spec_on_greet(m@, domain@, extended).next,
        res.1@ == spec_on_greet(m@, domain@, extended).out,
        res.0.lines@ == m.lines@,
        res.0.replies@ == m.replies@ + spec_on_greet(m@, domain@, extended).out.replies.len(),
{
    let ghost s0 = m@;
    if !m.phase.is_idle() {
        return client_err(m, Reply::Code503);
    }
    if domain.len() == 0 {
        return client_err(m, Reply::Code501);
    }
    let ghost dv = domain@;
    let mut m2 = m;
    m2.phase = Phase::HeloPolicy { domain, extended };
    proof {
        assert(m2@ =~~= (MachineModel {
            phase: PhaseModel::HeloPolicy { domain: dv, extended },
            ..s0
        }));
    }
    act(m2, Action::RunPolicy { hook: Hook::Helo })
}

fn on_mail_from(m: Machine, path: Vec<u8>, size: Option<u64>) -> (res: (Machine, Output))
    requires
        m@.inv(),
        m@.phase is Idle || m@.phase is MailOk || m@.phase is RcptOk,
    ensures
        res.0@ == spec_on_mail_from(m@, path@, size).next,
        res.1@ == spec_on_mail_from(m@, path@, size).out,
        res.0.lines@ == m.lines@,
        res.0.replies@ == m.replies@ + spec_on_mail_from(m@, path@, size).out.replies.len(),
{
    let ghost s0 = m@;
    if !m.phase.is_idle() {
        return client_err(m, Reply::Code503);
    }
    if m.helo.is_none() {
        return client_err(m, Reply::Code503);
    }
    if !valid_path(&path) {
        return client_err(m, Reply::Code501);
    }
    match size {
        Option::Some(n) if n > m.config.max_message_size as u64 => {
            return give(m, Reply::Code552);
        },
        _ => {},
    }
    let ghost pv = path@;
    let mut m2 = m;
    m2.phase = Phase::MailPolicy { path };
    proof {
        assert(m2@ =~~= (MachineModel { phase: PhaseModel::MailPolicy { path: pv }, ..s0 }));
    }
    act(m2, Action::RunPolicy { hook: Hook::MailFrom })
}

fn on_rcpt_to(m: Machine, path: Vec<u8>) -> (res: (Machine, Output))
    requires
        m@.inv(),
        m@.phase is Idle || m@.phase is MailOk || m@.phase is RcptOk,
    ensures
        res.0@ == spec_on_rcpt_to(m@, path@).next,
        res.1@ == spec_on_rcpt_to(m@, path@).out,
        res.0.lines@ == m.lines@,
        res.0.replies@ == m.replies@ + spec_on_rcpt_to(m@, path@).out.replies.len(),
{
    let ghost s0 = m@;
    if !(m.phase.is_mail_ok() || m.phase.is_rcpt_ok()) {
        return client_err(m, Reply::Code503);
    }
    if path.len() == 0 || !valid_path(&path) {
        return client_err(m, Reply::Code501);
    }
    if m.fwd_paths.len() >= m.config.max_recipients {
        return give(m, Reply::Code452);
    }
    let ghost pv = path@;
    let mut m2 = m;
    m2.phase = Phase::RcptPolicy { path };
    proof {
        assert(m2@ =~~= (MachineModel { phase: PhaseModel::RcptPolicy { path: pv }, ..s0 }));
    }
    act(m2, Action::RunPolicy { hook: Hook::RcptTo })
}

fn on_data(m: Machine) -> (res: (Machine, Output))
    requires
        m@.inv(),
        m@.phase is Idle || m@.phase is MailOk || m@.phase is RcptOk,
    ensures
        res.0@ == spec_on_data(m@).next,
        res.1@ == spec_on_data(m@).out,
        res.0.lines@ == m.lines@,
        res.0.replies@ == m.replies@ + spec_on_data(m@).out.replies.len(),
{
    let ghost s0 = m@;
    if m.phase.is_rcpt_ok() {
        let mut m2 = m;
        m2.phase = Phase::Body;
        proof {
            assert(m2@ =~~= (MachineModel { phase: PhaseModel::Body, ..s0 }));
        }
        give(m2, Reply::Code354)
    } else if m.phase.is_mail_ok() {
        give(m, Reply::Code554)
    } else {
        client_err(m, Reply::Code503)
    }
}

fn on_starttls(m: Machine) -> (res: (Machine, Output))
    requires
        m@.inv(),
        m@.phase is Idle || m@.phase is MailOk || m@.phase is RcptOk,
    ensures
        res.0@ == spec_on_starttls(m@).next,
        res.1@ == spec_on_starttls(m@).out,
        res.0.lines@ == m.lines@,
        res.0.replies@ == m.replies@ + spec_on_starttls(m@).out.replies.len(),
{
    let ghost s0 = m@;
    if !m.phase.is_idle() {
        return client_err(m, Reply::Code503);
    }
    if m.secured {
        return client_err(m, Reply::Code503);
    }
    if !m.config.tls_available {
        return give(m, Reply::Code454);
    }
    let mut m2 = m;
    m2.phase = Phase::TlsHandshake;
    m2.replies = Ghost((m2.replies@ + 1) as nat);
    let mut rs: Vec<Reply> = Vec::new();
    rs.push(Reply::TlsReady);
    let out = Output { replies: rs, action: Option::Some(Action::StartTls) };
    proof {
        assert(m2@ =~~= (MachineModel { phase: PhaseModel::TlsHandshake, ..s0 }));
        assert(out@ =~~= spec_on_starttls(s0).out);
    }
    (m2, out)
}

fn on_auth(m: Machine, mechanism: Option<Mechanism>, initial: Option<Vec<u8>>) -> (res: (
    Machine,
    Output,
))
    requires
        m@.inv(),
        m@.phase is Idle || m@.phase is MailOk || m@.phase is RcptOk,
    ensures
        res.0@ == spec_on_auth(m@, mechanism, match initial {
            Option::Some(i) => Option::Some(i@),
            Option::None => Option::None,
        }).next,
        res.1@ == spec_on_auth(m@, mechanism, match initial {
            Option::Some(i) => Option::Some(i@),
            Option::None => Option::None,
        }).out,
        res.0.lines@ == m.lines@,
        res.0.replies@ == m.replies@ + spec_on_auth(m@, mechanism, match initial {
            Option::Some(i) => Option::Some(i@),
            Option::None => Option::None,
        }).out.replies.len(),
{
    let ghost s0 = m@;
    if !m.phase.is_idle() {
        return client_err(m, Reply::Code503);
    }
    if !m.config.auth_enabled || m.authenticated {
        return client_err(m, Reply::Code503);
    }
    if m.config.require_tls_for_auth && !m.secured {
        return give(m, Reply::Code538);
    }
    match mechanism {
        Option::None => give(m, Reply::Code504),
        Option::Some(mech) => {
            if !m.config.mechanisms.offers(mech) {
                return give(m, Reply::Code504);
            }
            let mut m2 = m;
            m2.phase = Phase::AuthExchange { mechanism: mech };
            proof {
                assert(m2@ =~~= (MachineModel {
                    phase: PhaseModel::AuthExchange { mechanism: mech },
                    ..s0
                }));
            }
            act(m2, Action::RunSasl { mechanism: mech, initial })
        },
    }
}

#[verifier::rlimit(100)]
fn on_rset(m: Machine) -> (res: (Machine, Output))
    ensures
        res.0@ == (MachineModel { phase: PhaseModel::Idle, ..spec_reset_tx(m@) }),
        res.1@ == (OutputModel { replies: seq![ReplyModel::Code250], action: Option::None }),
        res.0.lines@ == m.lines@,
        res.0.replies@ == m.replies@ + 1,
{
    let ghost s0 = m@;
    let mut m2 = m;
    m2.rev_path = Option::None;
    m2.fwd_paths = Vec::new();
    m2.body = Vec::new();
    m2.phase = Phase::Idle;
    proof {
        assert(m2@ =~~= (MachineModel { phase: PhaseModel::Idle, ..spec_reset_tx(s0) }));
    }
    give(m2, Reply::Code250)
}

fn on_quit(m: Machine) -> (res: (Machine, Output))
    ensures
        res.0@ == (MachineModel { alive: false, phase: PhaseModel::Closed, ..m@ }),
        res.1@ == (OutputModel { replies: seq![ReplyModel::Code221], action: Option::None }),
        res.0.lines@ == m.lines@,
        res.0.replies@ == m.replies@ + 1,
{
    let ghost s0 = m@;
    let mut m2 = m;
    m2.alive = false;
    m2.phase = Phase::Closed;
    proof {
        assert(m2@ =~~= (MachineModel { alive: false, phase: PhaseModel::Closed, ..s0 }));
    }
    give(m2, Reply::Code221)
}

fn on_line_too_long(m: Machine) -> (res: (Machine, Output))
    requires
        m@.inv(),
        m@.phase is Idle || m@.phase is MailOk || m@.phase is RcptOk,
    ensures
        res.0@ == spec_client_err(m@, ReplyModel::Code500).next,
        res.1@ == spec_client_err(m@, ReplyModel::Code500).out,
        res.0.lines@ == m.lines@ + 1,
        res.0.replies@ == m.replies@ + spec_client_err(m@, ReplyModel::Code500).out.replies.len(),
{
    let mut m2 = m;
    m2.lines = Ghost((m2.lines@ + 1) as nat);
    client_err(m2, Reply::Code500)
}

fn on_command(m: Machine, line: Vec<u8>) -> (res: (Machine, Output))
    requires
        m@.inv(),
        m@.phase is Idle || m@.phase is MailOk || m@.phase is RcptOk,
    ensures
        res.0@ == spec_on_command(m@, line@).next,
        res.1@ == spec_on_command(m@, line@).out,
        res.0.lines@ == m.lines@ + 1,
        res.0.replies@ == m.replies@ + spec_on_command(m@, line@).out.replies.len(),
{
    let mut m2 = m;
    m2.lines = Ghost((m2.lines@ + 1) as nat);
    let c = parse_command(&line);
    dispatch_command(m2, c)
}

fn dispatch_command(m: Machine, c: Command) -> (res: (Machine, Output))
    requires
        m@.inv(),
        m@.phase is Idle || m@.phase is MailOk || m@.phase is RcptOk,
    ensures
        res.0@ == spec_dispatch(m@, c@).next,
        res.1@ == spec_dispatch(m@, c@).out,
        res.0.lines@ == m.lines@,
        res.0.replies@ == m.replies@ + spec_dispatch(m@, c@).out.replies.len(),
{
    let m2 = m;
    match c {
        Command::Helo { domain } => on_greet(m2, domain, false),
        Command::Ehlo { domain } => on_greet(m2, domain, true),
        Command::MailFrom { path, size } => on_mail_from(m2, path, size),
        Command::RcptTo { path } => on_rcpt_to(m2, path),
        Command::Data => on_data(m2),
        Command::Rset => on_rset(m2),
        Command::Noop => give(m2, Reply::Code250),
        Command::Quit => on_quit(m2),
        Command::Vrfy => give(m2, Reply::Code252),
        Command::Expn => give(m2, Reply::Code252),
        Command::StartTls => on_starttls(m2),
        Command::Auth { mechanism, initial } => on_auth(m2, mechanism, initial),
        Command::BadSyntax => client_err(m2, Reply::Code501),
        Command::Unknown => client_err(m2, Reply::Code500),
    }
}

/// The machine's security state never goes back: once secured, always
/// secured.
pub proof fn lemma_secured_monotonic(s: MachineModel, e: EventModel)
    ensures
        s.secured ==> spec_step(s, e).next.secured,
{
}

proof fn lemma_client_err_inv(s: MachineModel, r: ReplyModel)
    requires
        s.inv(),
        s.alive,
    ensures
        spec_client_err(s, r).next.inv(),
{
}

#[verifier::rlimit(100)]
proof fn lemma_on_command_inv(s: MachineModel, line: Seq<u8>)
    requires
        s.inv(),
        s.phase is Idle || s.phase is MailOk || s.phase is RcptOk,
    ensures
        spec_on_command(s, line).next.inv(),
{
    assert(s.alive);
    match spec_parse(line) {
        CommandModel::Helo { domain } => {
            lemma_client_err_inv(s, ReplyModel::Code503);
            lemma_client_err_inv(s, ReplyModel::Code501);
            assert(spec_on_command(s, line).next.inv());
        },
        CommandModel::Ehlo { domain } => {
            lemma_client_err_inv(s, ReplyModel::Code503);
            lemma_client_err_inv(s, ReplyModel::Code501);
            assert(spec_on_command(s, line).next.inv());
        },
        CommandModel::MailFrom { path, size } => {
            lemma_client_err_inv(s, ReplyModel::Code503);
            lemma_client_err_inv(s, ReplyModel::Code501);
            assert(spec_on_command(s, line).next.inv());
        },
        CommandModel::RcptTo { path } => {
            lemma_client_err_inv(s, ReplyModel::Code503);
            lemma_client_err_inv(s, ReplyModel::Code501);
            assert(spec_on_command(s, line).next.inv());
        },
        CommandModel::Data => {
            lemma_client_err_inv(s, ReplyModel::Code503);
            assert(spec_on_command(s, line).next.inv());
        },
        CommandModel::Rset => {
            assert(spec_on_command(s, line).next.inv());
        },
        CommandModel::Noop => {
            assert(spec_on_command(s, line).next.inv());
        },
        CommandModel::Quit => {
            assert(spec_on_command(s, line).next.inv());
        },
        CommandModel::Vrfy => {
            assert(spec_on_command(s, line).next.inv());
        },
        CommandModel::Expn => {
            assert(spec_on_command(s, line).next.inv());
        },
        CommandModel::StartTls => {
            lemma_client_err_inv(s, ReplyModel::Code503);
            assert(spec_on_command(s, line).next.inv());
        },
        CommandModel::Auth { mechanism, initial } => {
            lemma_client_err_inv(s, ReplyModel::Code503);
            assert(spec_on_command(s, line).next.inv());
        },
        CommandModel::BadSyntax => {
            lemma_client_err_inv(s, ReplyModel::Code501);
            assert(spec_on_command(s, line).next.inv());
        },
        CommandModel::Unknown => {
            lemma_client_err_inv(s, ReplyModel::Code500);
            assert(spec_on_command(s, line).next.inv());
        },
    }
}

/// Every step keeps the machine's invariant.
#[verifier::rlimit(100)]
pub proof fn lemma_step_preserves_inv(s: MachineModel, e: EventModel)
    requires
        s.inv(),
    ensures
        spec_step(s, e).next.inv(),
{
    match (s.phase, e) {
        (PhaseModel::Idle, EventModel::Line { line }) => lemma_on_command_inv(s, line),
        (PhaseModel::MailOk, EventModel::Line { line }) => lemma_on_command_inv(s, line),
        (PhaseModel::RcptOk, EventModel::Line { line }) => lemma_on_command_inv(s, line),
        (PhaseModel::Idle, EventModel::LineTooLong) => {
            lemma_client_err_inv(s, ReplyModel::Code500);
        },
        (PhaseModel::MailOk, EventModel::LineTooLong) => {
            lemma_client_err_inv(s, ReplyModel::Code500);
        },
        (PhaseModel::RcptOk, EventModel::LineTooLong) => {
            lemma_client_err_inv(s, ReplyModel::Code500);
        },
        (PhaseModel::AuthExchange { .. }, EventModel::Sasl { outcome }) => {
            lemma_client_err_inv(MachineModel { phase: PhaseModel::Idle, ..s }, ReplyModel::Code501);
        },
        _ => {},
    }
}

fn on_body_line(m: Machine, line: Vec<u8>) -> (res: (Machine, Output))
    requires
        m@.inv(),
        m@.phase is Body,
    ensures
        res.0@ == spec_on_body_line(m@, line@).next,
        res.1@ == spec_on_body_line(m@, line@).out,
        res.0.lines@ == m.lines@ + (if spec_on_body_line(m@, line@).out.replies.len() == 0
            && spec_on_body_line(m@, line@).out.action is None {
            0nat
        } else {
            1nat
        }),
        res.0.replies@ == m.replies@ + spec_on_body_line(m@, line@).out.replies.len(),
{
    let ghost s0 = m@;
    let mut m2 = m;
    if is_terminator(&line) {
        let id = MessageId { timestamp: m2.timestamp, seq: m2.mail_seq };
        m2.mail_seq = if m2.mail_seq == u64::MAX {
            m2.mail_seq
        } else {
            m2.mail_seq + 1
        };
        m2.phase = Phase::PreQueuePolicy { id };
        m2.lines = Ghost((m2.lines@ + 1) as nat);
        proof {
            assert(m2@ =~~= (MachineModel {
                phase: PhaseModel::PreQueuePolicy { id },
                mail_seq: spec_bump_seq(s0.mail_seq),
                ..s0
            }));
        }
        act(m2, Action::RunPolicy { hook: Hook::PreQueue })
    } else {
        let unstuffed = unstuff_line(&line);
        let max = m2.config.max_message_size;
        if unstuffed.len() > max || max - unstuffed.len() < 2 || m2.body.len() > max
            - unstuffed.len() - 2 {
            m2.body = Vec::new();
            m2.phase = Phase::BodyDiscard;
            proof {
                assert(s0.body.len() + spec_unstuff(line@).len() + 2
                    > s0.config.max_message_size);
                assert(m2@ =~~= (MachineModel {
                    phase: PhaseModel::BodyDiscard,
                    body: Seq::empty(),
                    ..s0
                }));
            }
            silent(m2)
        } else {
            m2.body.extend_from_slice(unstuffed.as_slice());
            m2.body.push(13);
            m2.body.push(10);
            proof {
                assert(!(s0.body.len() + spec_unstuff(line@).len() + 2
                    > s0.config.max_message_size));
                assert(m2@.body =~= s0.body + spec_unstuff(line@) + crate::reply::spec_crlf());
                assert(m2@ =~~= (MachineModel {
                    body: s0.body + spec_unstuff(line@) + crate::reply::spec_crlf(),
                    ..s0
                }));
            }
            silent(m2)
        }
    }
}

fn on_body_discard(m: Machine, line: Vec<u8>) -> (res: (Machine, Output))
    requires
        m@.inv(),
        m@.phase is BodyDiscard,
    ensures
        res.0@ == spec_on_body_discard(m@, line@).next,
        res.1@ == spec_on_body_discard(m@, line@).out,
        res.0.lines@ == m.lines@ + (if spec_on_body_discard(m@, line@).out.replies.len() == 0 {
            0nat
        } else {
            1nat
        }),
        res.0.replies@ == m.replies@ + spec_on_body_discard(m@, line@).out.replies.len(),
{
    let ghost s0 = m@;
    let mut m2 = m;
    if is_terminator(&line) {
        m2.rev_path = Option::None;
        m2.fwd_paths = Vec::new();
        m2.body = Vec::new();
        m2.phase = Phase::Idle;
        m2.lines = Ghost((m2.lines@ + 1) as nat);
        proof {
            assert(m2@ =~~= (MachineModel { phase: PhaseModel::Idle, ..spec_reset_tx(s0) }));
        }
        give(m2, Reply::Code552)
    } else {
        silent(m2)
    }
}

fn on_prequeue(m: Machine, id: MessageId, status: Status, resolver: Vec<u8>, skipped: Option<
    Vec<u8>,
>) -> (res: (Machine, Output))
    requires
        m@.inv(),
        m@.phase matches PhaseModel::PreQueuePolicy { id: i } && i == id,
    ensures
        res.0@ == spec_on_prequeue(m@, id, status@, resolver@, match skipped {
            Option::Some(v) => Option::Some(v@),
            Option::None => Option::None,
        }).next,
        res.1@ == spec_on_prequeue(m@, id, status@, resolver@, match skipped {
            Option::Some(v) => Option::Some(v@),
            Option::None => Option::None,
        }).out,
        res.0.lines@ == m.lines@,
        res.0.replies@ == m.replies@ + spec_on_prequeue(m@, id, status@, resolver@, match skipped {
            Option::Some(v) => Option::Some(v@),
            Option::None => Option::None,
        }).out.replies.len(),
{
    let ghost s0 = m@;
    let mut m2 = m;
    match status {
        Status::Deny => {
            m2.rev_path = Option::None;
            m2.fwd_paths = Vec::new();
            m2.body = Vec::new();
            m2.phase = Phase::Idle;
            proof {
                assert(m2@ =~~= (MachineModel { phase: PhaseModel::Idle, ..spec_reset_tx(s0) }));
            }
            give(m2, Reply::Code554)
        },
        Status::Info { .. } => integrity_close(m2),
        _ => {
            if m2.helo.is_none() || m2.rev_path.is_none() {
                return integrity_close(m2);
            }
            let helo_v = match &m2.helo {
                Option::Some(h) => clone_bytes(h),
                Option::None => Vec::new(),
            };
            let rev_taken = m2.rev_path;
            m2.rev_path = Option::None;
            let rev_v = match rev_taken {
                Option::Some(r) => r,
                Option::None => Vec::new(),
            };
            let fwd = m2.fwd_paths;
            m2.fwd_paths = Vec::new();
            let body_v = m2.body;
            m2.body = Vec::new();
            let creds = clone_credentials(&m2.credentials);
            let mail = MailContext {
                connection: ConnectionInfo {
                    client_addr: clone_address(&m2.client_addr),
                    server_addr: clone_address(&m2.server_addr),
                    timestamp: m2.timestamp,
                    is_secured: m2.secured,
                    is_authenticated: m2.authenticated,
                    credentials: creds,
                },
                envelope: Envelope { helo: helo_v, reverse_path: rev_v, forward_paths: fwd },
                body: body_v,
                metadata: Metadata { message_id: id, resolver, skipped },
            };
            let ghost mv = mail@;
            proof {
                assert(mv.envelope.forward_paths =~= s0.fwd_paths);
                assert(mv =~~= (MailContextModel {
                    connection: spec_snapshot(s0),
                    envelope: EnvelopeModel {
                        helo: s0.helo->Some_0,
                        reverse_path: s0.rev_path->Some_0,
                        forward_paths: s0.fwd_paths,
                    },
                    body: s0.body,
                    metadata: MetadataModel {
                        message_id: id,
                        resolver: mv.metadata.resolver,
                        skipped: mv.metadata.skipped,
                    },
                }));
            }
            if is_no_delivery_resolver(&mail.metadata.resolver) {
                m2.phase = Phase::Idle;
                proof {
                    assert(m2@ =~~= (MachineModel {
                        phase: PhaseModel::Idle,
                        ..spec_reset_tx(s0)
                    }));
                }
                give(m2, Reply::Code250)
            } else {
                let target = if mail.metadata.skipped.is_some() {
                    QueueTarget::Deliver
                } else {
                    QueueTarget::Working
                };
                m2.phase = Phase::QueueWrite { target, id };
                proof {
                    assert(m2@ =~~= (MachineModel {
                        phase: PhaseModel::QueueWrite { target, id },
                        ..spec_reset_tx(s0)
                    }));
                }
                act(m2, Action::WriteQueue { target, mail })
            }
        },
    }
}

fn on_connect_policy(m: Machine, status: Status) -> (res: (Machine, Output))
    requires
        m@.phase is ConnectPolicy,
    ensures
        res.0@ == spec_step(m@, EventModel::Policy { status: status@ }).next,
        res.1@ == spec_step(m@, EventModel::Policy { status: status@ }).out,
        res.0.lines@ == m.lines@,
        res.0.replies@ == m.replies@ + spec_step(
            m@,
            EventModel::Policy { status: status@ },
        ).out.replies.len(),
{
    let ghost s0 = m@;
    let mut m2 = m;
    match status {
        Status::Deny => {
            m2.alive = false;
            m2.phase = Phase::Closed;
            proof {
                assert(m2@ =~~= (MachineModel { alive: false, phase: PhaseModel::Closed, ..s0 }));
            }
            give(m2, Reply::Code554)
        },
        Status::Info { .. } => integrity_close(m2),
        _ => {
            m2.phase = Phase::Idle;
            proof {
                assert(m2@ =~~= (MachineModel { phase: PhaseModel::Idle, ..s0 }));
            }
            silent(m2)
        },
    }
}

fn on_helo_policy(m: Machine, domain: Vec<u8>, extended: bool, status: Status) -> (res: (
    Machine,
    Output,
))
    requires
        m@.phase == (PhaseModel::HeloPolicy { domain: domain@, extended }),
    ensures
        res.0@ == spec_step(m@, EventModel::Policy { status: status@ }).next,
        res.1@ == spec_step(m@, EventModel::Policy { status: status@ }).out,
        res.0.lines@ == m.lines@,
        res.0.replies@ == m.replies@ + spec_step(
            m@,
            EventModel::Policy { status: status@ },
        ).out.replies.len(),
{
    let ghost s0 = m@;
    let mut m2 = m;
    match status {
        Status::Deny => {
            m2.phase = Phase::Idle;
            proof {
                assert(m2@ =~~= (MachineModel { phase: PhaseModel::Idle, ..s0 }));
            }
            give(m2, Reply::Code550)
        },
        Status::Info { .. } => integrity_close(m2),
        _ => {
            let ghost dv = domain@;
            let exts = extensions(m2.config, m2.secured);
            let domain2 = clone_bytes(&domain);
            m2.helo = Option::Some(domain2);
            m2.phase = Phase::Idle;
            proof {
                assert(m2@ =~~= (MachineModel {
                    phase: PhaseModel::Idle,
                    helo: Option::Some(dv),
                    ..s0
                }));
            }
            if extended {
                give(m2, Reply::EhloOk { domain, exts })
            } else {
                give(m2, Reply::Code250)
            }
        },
    }
}

fn on_mail_policy(m: Machine, path: Vec<u8>, status: Status) -> (res: (Machine, Output))
    requires
        m@.phase == (PhaseModel::MailPolicy { path: path@ }),
    ensures
        res.0@ == spec_step(m@, EventModel::Policy { status: status@ }).next,
        res.1@ == spec_step(m@, EventModel::Policy { status: status@ }).out,
        res.0.lines@ == m.lines@,
        res.0.replies@ == m.replies@ + spec_step(
            m@,
            EventModel::Policy { status: status@ },
        ).out.replies.len(),
{
    let ghost s0 = m@;
    let mut m2 = m;
    match status {
        Status::Deny => {
            m2.phase = Phase::Idle;
            proof {
                assert(m2@ =~~= (MachineModel { phase: PhaseModel::Idle, ..s0 }));
            }
            give(m2, Reply::Code550)
        },
        Status::Info { .. } => integrity_close(m2),
        _ => {
            let ghost pv = path@;
            m2.rev_path = Option::Some(path);
            m2.phase = Phase::MailOk;
            proof {
                assert(m2@ =~~= (MachineModel {
                    phase: PhaseModel::MailOk,
                    rev_path: Option::Some(pv),
                    ..s0
                }));
            }
            give(m2, Reply::Code250)
        },
    }
}

fn on_rcpt_policy(m: Machine, path: Vec<u8>, status: Status) -> (res: (Machine, Output))
    requires
        m@.phase == (PhaseModel::RcptPolicy { path: path@ }),
    ensures
        res.0@ == spec_step(m@, EventModel::Policy { status: status@ }).next,
        res.1@ == spec_step(m@, EventModel::Policy { status: status@ }).out,
        res.0.lines@ == m.lines@,
        res.0.replies@ == m.replies@ + spec_step(
            m@,
            EventModel::Policy { status: status@ },
        ).out.replies.len(),
{
    let ghost s0 = m@;
    let mut m2 = m;
    match status {
        Status::Deny => {
            m2.phase = if m2.fwd_paths.len() == 0 {
                Phase::MailOk
            } else {
                Phase::RcptOk
            };
            proof {
                assert(m2@ =~~= (MachineModel {
                    phase: if s0.fwd_paths.len() == 0 {
                        PhaseModel::MailOk
                    } else {
                        PhaseModel::RcptOk
                    },
                    ..s0
                }));
            }
            give(m2, Reply::Code550)
        },
        Status::Info { .. } => integrity_close(m2),
        _ => {
            let ghost pv = path@;
            m2.fwd_paths.push(path);
            m2.phase = Phase::RcptOk;
            proof {
                assert(m2@.fwd_paths =~= s0.fwd_paths.push(pv));
                assert(m2@ =~~= (MachineModel {
                    phase: PhaseModel::RcptOk,
                    fwd_paths: s0.fwd_paths.push(pv),
                    ..s0
                }));
            }
            give(m2, Reply::Code250)
        },
    }
}

fn on_sasl_outcome(m: Machine, outcome: SaslOutcome) -> (res: (Machine, Output))
    requires
        m@.inv(),
        m@.phase is AuthExchange,
    ensures
        res.0@ == spec_step(m@, EventModel::Sasl { outcome: outcome@ }).next,
        res.1@ == spec_step(m@, EventModel::Sasl { outcome: outcome@ }).out,
        res.0.lines@ == m.lines@,
        res.0.replies@ == m.replies@ + spec_step(
            m@,
            EventModel::Sasl { outcome: outcome@ },
        ).out.replies.len(),
{
    let ghost s0 = m@;
    let mut m2 = m;
    match outcome {
        SaslOutcome::Success { credentials } => {
            let ghost cv = credentials@;
            m2.authenticated = true;
            m2.credentials = Option::Some(credentials);
            m2.phase = Phase::Idle;
            proof {
                assert(m2@ =~~= (MachineModel {
                    phase: PhaseModel::Idle,
                    authenticated: true,
                    credentials: Option::Some(cv),
                    ..s0
                }));
            }
            give(m2, Reply::Code235)
        },
        SaslOutcome::Failed => {
            m2.phase = Phase::Idle;
            proof {
                assert(m2@ =~~= (MachineModel { phase: PhaseModel::Idle, ..s0 }));
            }
            give(m2, Reply::Code535)
        },
        SaslOutcome::Abort => {
            m2.phase = Phase::Idle;
            proof {
                assert(m2@ =~~= (MachineModel { phase: PhaseModel::Idle, ..s0 }));
            }
            client_err(m2, Reply::Code501)
        },
    }
}

impl Machine {
    /// A fresh machine for one accepted connection. The 220 greeting is
    /// the first reply, written before anything else happens on the
    /// connection; the connect hook runs next, and a denial there draws
    /// 554 and the close after the greeting. A tunneled connection
    /// starts secured. Message ids pair the given timestamp with a
    /// per-connection counter, so their uniqueness across connections
    /// rests on the caller handing each connection a distinct
    /// timestamp.
    pub fn new(
        config: Config,
        kind: ConnectionKind,
        banner: Vec<u8>,
        client_addr: Address,
        server_addr: Address,
        timestamp: u64,
    ) -> (res: (Machine, Output))
        requires
            config.wf(),
        ensures
            res.0@ == spec_init(config, kind, banner@, client_addr@, server_addr@, timestamp),
            res.1@ == (OutputModel {
                replies: seq![ReplyModel::Greetings { banner: banner@ }],
                action: Option::Some(ActionModel::RunPolicy { hook: Hook::Connect }),
            }),
            res.0@.inv(),
            res.0.lines@ == 0,
            res.0.replies@ == 1,
    {
        let ghost bv = banner@;
        let greeting = Reply::Greetings { banner: clone_bytes(&banner) };
        let m = Machine {
            config,
            kind,
            banner,
            client_addr,
            server_addr,
            timestamp,
            secured: match kind {
                ConnectionKind::Tunneled => true,
                ConnectionKind::Opportunistic => false,
            },
            authenticated: false,
            credentials: Option::None,
            alive: true,
            error_count: 0,
            helo: Option::None,
            phase: Phase::ConnectPolicy,
            rev_path: Option::None,
            fwd_paths: Vec::new(),
            body: Vec::new(),
            mail_seq: 0,
            lines: Ghost(0nat),
            replies: Ghost(1nat),
        };
        proof {
            assert(m@ =~~= spec_init(
                config,
                kind,
                bv,
                m.client_addr@,
                m.server_addr@,
                timestamp,
            ));
        }
        let mut rs: Vec<Reply> = Vec::new();
        rs.push(greeting);
        let out = Output {
            replies: rs,
            action: Option::Some(Action::RunPolicy { hook: Hook::Connect }),
        };
        proof {
            assert(out@ =~~= (OutputModel {
                replies: seq![ReplyModel::Greetings { banner: bv }],
                action: Option::Some(ActionModel::RunPolicy { hook: Hook::Connect }),
            }));
        }
        (m, out)
    }

    /// Drive the machine by one event. The returned replies go to the
    /// client in order; the returned action is run by the caller, whose
    /// outcome comes back as the next event.
    #[verifier::rlimit(100)]
    pub fn step(self, event: Event) -> (res: (Machine, Output))
        requires
            self@.inv(),
        ensures
            res.0@ == spec_step(self@, event@).next,
            res.1@ == spec_step(self@, event@).out,
            res.0@.inv(),
            self@.secured ==> res.0@.secured,
            res.0.lines@ == self.lines@ + spec_lines_delta(self@, event@),
            res.0.replies@ == self.replies@ + spec_step(self@, event@).out.replies.len(),
    {
        let ghost s0 = self@;
        let ghost e0 = event@;
        proof {
            lemma_step_preserves_inv(s0, e0);
            lemma_secured_monotonic(s0, e0);
        }
        let mut m = self;
        let ph = m.phase;
        m.phase = Phase::Closed;
        match (ph, event) {
            (Phase::Closed, _) => silent(m),
            (Phase::ConnectPolicy, Event::Policy { status }) => {
                m.phase = Phase::ConnectPolicy;
                on_connect_policy(m, status)
            },
            (Phase::Idle, Event::Line { line }) => {
                m.phase = Phase::Idle;
                on_command(m, line)
            },
            (Phase::MailOk, Event::Line { line }) => {
                m.phase = Phase::MailOk;
                on_command(m, line)
            },
            (Phase::RcptOk, Event::Line { line }) => {
                m.phase = Phase::RcptOk;
                on_command(m, line)
            },
            (Phase::Body, Event::Line { line }) => {
                m.phase = Phase::Body;
                on_body_line(m, line)
            },
            (Phase::BodyDiscard, Event::Line { line }) => {
                m.phase = Phase::BodyDiscard;
                on_body_discard(m, line)
            },
            (Phase::Idle, Event::LineTooLong) => {
                m.phase = Phase::Idle;
                on_line_too_long(m)
            },
            (Phase::MailOk, Event::LineTooLong) => {
                m.phase = Phase::MailOk;
                on_line_too_long(m)
            },
            (Phase::RcptOk, Event::LineTooLong) => {
                m.phase = Phase::RcptOk;
                on_line_too_long(m)
            },
            (Phase::Body, Event::LineTooLong) => {
                m.phase = Phase::BodyDiscard;
                m.body = Vec::new();
                proof {
                    assert(m@ =~~= (MachineModel {
                        phase: PhaseModel::BodyDiscard,
                        body: Seq::empty(),
                        ..s0
                    }));
                }
                silent(m)
            },
            (Phase::BodyDiscard, Event::LineTooLong) => {
                m.phase = Phase::BodyDiscard;
                silent(m)
            },
            (Phase::HeloPolicy { domain, extended }, Event::Policy { status }) => {
                m.phase = Phase::HeloPolicy { domain: clone_bytes(&domain), extended };
                on_helo_policy(m, domain, extended, status)
            },
            (Phase::MailPolicy { path }, Event::Policy { status }) => {
                m.phase = Phase::MailPolicy { path: clone_bytes(&path) };
                on_mail_policy(m, path, status)
            },
            (Phase::RcptPolicy { path }, Event::Policy { status }) => {
                m.phase = Phase::RcptPolicy { path: clone_bytes(&path) };
                on_rcpt_policy(m, path, status)
            },
            (Phase::PreQueuePolicy { id }, Event::PreQueue { status, resolver, skipped }) => {
                m.phase = Phase::PreQueuePolicy { id };
                on_prequeue(m, id, status, resolver, skipped)
            },
            (Phase::QueueWrite { target, id }, Event::QueueResult { ok }) => {
                if ok {
                    m.phase = Phase::SignalWait { target, id };
                    proof {
                        assert(m@ =~~= (MachineModel {
                            phase: PhaseModel::SignalWait { target, id },
                            ..s0
                        }));
                    }
                    act(m, Action::Signal { target, id })
                } else {
                    m.phase = Phase::Idle;
                    proof {
                        assert(m@ =~~= (MachineModel { phase: PhaseModel::Idle, ..s0 }));
                    }
                    give(m, Reply::Code554)
                }
            },
            (Phase::SignalWait { .. }, Event::SignalResult { ok }) => {
                if ok {
                    m.phase = Phase::Idle;
                    proof {
                        assert(m@ =~~= (MachineModel { phase: PhaseModel::Idle, ..s0 }));
                    }
                    give(m, Reply::Code250)
                } else {
                    m.alive = false;
                    proof {
                        assert(m@ =~~= (MachineModel {
                            alive: false,
                            phase: PhaseModel::Closed,
                            ..s0
                        }));
                    }
                    silent(m)
                }
            },
            (Phase::TlsHandshake, Event::TlsResult { ok }) => {
                if ok {
                    m.phase = Phase::Idle;
                    m.secured = true;
                    m.helo = Option::None;
                    proof {
                        assert(m@ =~~= (MachineModel {
                            phase: PhaseModel::Idle,
                            secured: true,
                            helo: Option::None,
                            ..s0
                        }));
                    }
                    silent(m)
                } else {
                    m.alive = false;
                    proof {
                        assert(m@ =~~= (MachineModel {
                            alive: false,
                            phase: PhaseModel::Closed,
                            ..s0
                        }));
                    }
                    silent(m)
                }
            },
            (Phase::AuthExchange { mechanism }, Event::Sasl { outcome }) => {
                m.phase = Phase::AuthExchange { mechanism };
                on_sasl_outcome(m, outcome)
            },
            (ph2, _) => {
                m.phase = ph2;
                integrity_close(m)
            },
        }
    }
}

} // verus!
