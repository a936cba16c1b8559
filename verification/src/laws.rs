//! The receiver's global guarantees, proved over the machine's
//! transition relation `spec_step`.
use vstd::prelude::*;

use crate::command::{spec_parse, CommandModel};
use crate::reply::ReplyModel;
use crate::context::StatusModel;
use crate::session::{
    spec_lines_delta, spec_step, ActionModel, EventModel, MachineModel, PhaseModel,
};

verus! {

/// Credentials are populated if and only if the connection is marked
/// authenticated: this holds in every state the machine can reach.
pub proof fn lemma_credentials_iff_authenticated(s: MachineModel)
    requires
        s.inv(),
    ensures
        s.authenticated <==> s.credentials is Some,
{
}

/// Every mail handed to dispatch carries at least one forward path, a
/// reverse path set by the one accepted MAIL FROM, and the asserted
/// helo domain; and a second MAIL FROM inside an open transaction is
/// refused without touching the recorded reverse path.
pub proof fn lemma_accepted_mail_well_formed(s: MachineModel, e: EventModel)
    requires
        s.inv(),
    ensures
        (match spec_step(s, e).out.action {
            Option::Some(ActionModel::WriteQueue { mail, .. }) => mail.envelope.forward_paths.len()
                >= 1,
            _ => true,
        }),
        (s.phase is MailOk || s.phase is RcptOk) && (e matches EventModel::Line { line }
            && spec_parse(line) matches CommandModel::MailFrom { .. }) ==> spec_step(
            s,
            e,
        ).next.rev_path == s.rev_path && spec_step(s, e).out.replies[0] == ReplyModel::Code503,
{
}

/// Dispatch pairing: the durable queue write asked of the caller names
/// exactly the message id the machine tracks; a successful write is
/// followed by exactly one handoff with the same id and worker; the
/// 250 comes only after the handoff; a failed write gets 554 and no
/// handoff at all.
pub proof fn lemma_dispatch_pairing(s: MachineModel, e: EventModel)
    requires
        s.inv(),
    ensures
        (match spec_step(s, e).out.action {
            Option::Some(ActionModel::WriteQueue { target, mail }) => spec_step(s, e).next.phase
                == (PhaseModel::QueueWrite { target, id: mail.metadata.message_id })
                && spec_step(s, e).out.replies.len() == 0,
            _ => true,
        }),
        (forall|target, id|
            s.phase == (PhaseModel::QueueWrite { target, id }) && e == (EventModel::QueueResult {
                ok: true,
            }) ==> spec_step(s, e).out.action == Option::Some(
                ActionModel::Signal { target, id },
            ) && spec_step(s, e).out.replies.len() == 0 && spec_step(s, e).next.phase
                == (PhaseModel::SignalWait { target, id })),
        s.phase is QueueWrite && e == (EventModel::QueueResult { ok: false }) ==> spec_step(
            s,
            e,
        ).out.action is None && spec_step(s, e).out.replies =~= seq![ReplyModel::Code554]
            && spec_step(s, e).next.alive,
        s.phase is SignalWait && e == (EventModel::SignalResult { ok: true }) ==> spec_step(
            s,
            e,
        ).out.action is None && spec_step(s, e).out.replies =~= seq![ReplyModel::Code250],
{
}

/// The reply accounting relation: while the machine sits in a command
/// phase the replies written are the commands consumed plus one (the
/// greeting, written at creation); while an outcome is pending the one
/// reply of the pending command has not been written yet.
pub open spec fn spec_counts_ok(s: MachineModel, lines: nat, replies: nat) -> bool {
    match s.phase {
        PhaseModel::ConnectPolicy => replies == lines + 1,
        PhaseModel::Idle => replies == lines + 1,
        PhaseModel::MailOk => replies == lines + 1,
        PhaseModel::RcptOk => replies == lines + 1,
        PhaseModel::Body => replies == lines + 1,
        PhaseModel::BodyDiscard => replies == lines + 1,
        PhaseModel::TlsHandshake => replies == lines + 1,
        PhaseModel::Closed => true,
        _ => replies == lines,
    }
}

/// One reply per command: every step keeps the reply accounting
/// relation, counting the replies it emits and the command lines it
/// consumes.
#[verifier::rlimit(100)]
pub proof fn lemma_one_reply_per_command(s: MachineModel, e: EventModel, lines: nat, replies: nat)
    requires
        s.inv(),
        spec_counts_ok(s, lines, replies),
    ensures
        spec_counts_ok(
            spec_step(s, e).next,
            lines + spec_lines_delta(s, e),
            replies + spec_step(s, e).out.replies.len(),
        ),
{
}

/// RSET inside a transaction leaves exactly the state a fresh EHLO of
/// the same domain establishes: the envelope is cleared, the helo
/// domain, the security and authentication state, the counters and the
/// configuration all agree. Since `spec_step` is a function of the
/// state, the same MAIL, RCPT and DATA exchange afterwards produces
/// the same completed mail on both sides.
pub proof fn lemma_rset_equals_fresh_ehlo(
    s: MachineModel,
    w: MachineModel,
    rset_line: Seq<u8>,
    ehlo_line: Seq<u8>,
    d: Seq<u8>,
)
    requires
        s.inv(),
        w.inv(),
        s.phase is Idle || s.phase is MailOk || s.phase is RcptOk,
        w.phase is Idle,
        spec_parse(rset_line) == CommandModel::Rset,
        spec_parse(ehlo_line) == (CommandModel::Ehlo { domain: d }),
        d.len() > 0,
        s.helo == Option::Some(d),
        s.config == w.config,
        s.kind == w.kind,
        s.banner == w.banner,
        s.client_addr == w.client_addr,
        s.server_addr == w.server_addr,
        s.timestamp == w.timestamp,
        s.secured == w.secured,
        s.authenticated == w.authenticated,
        s.credentials == w.credentials,
        s.alive == w.alive,
        s.error_count == w.error_count,
        s.mail_seq == w.mail_seq,
    ensures
        spec_step(s, EventModel::Line { line: rset_line }).next == spec_step(
            spec_step(w, EventModel::Line { line: ehlo_line }).next,
            EventModel::Policy { status: StatusModel::Accept },
        ).next,
{
    let lhs = spec_step(s, EventModel::Line { line: rset_line }).next;
    let mid = spec_step(w, EventModel::Line { line: ehlo_line }).next;
    let rhs = spec_step(mid, EventModel::Policy { status: StatusModel::Accept }).next;
    assert(lhs =~~= rhs);
}

} // verus!
