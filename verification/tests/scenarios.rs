use smtp_receiver::context::{
    Address, Config, ConnectionKind, Credentials, Hook, Mechanism, Mechanisms, QueueTarget,
    Status,
};
use smtp_receiver::reply::Reply;
use smtp_receiver::session::{Action, Event, Machine, Output, SaslOutcome};

fn no_mechanisms() -> Mechanisms {
    Mechanisms { plain: false, login: false, cram_md5: false, anonymous: false }
}

fn plain_config() -> Config {
    Config {
        tls_available: false,
        auth_enabled: false,
        mechanisms: no_mechanisms(),
        require_tls_for_auth: false,
        max_errors: 10,
        max_recipients: 100,
        max_message_size: 10 * 1024 * 1024,
    }
}

fn peer() -> Address {
    Address { ip: vec![192, 0, 2, 7], port: 49152 }
}

fn local() -> Address {
    Address { ip: vec![192, 0, 2, 1], port: 25 }
}

fn greeted(config: Config, kind: ConnectionKind) -> Machine {
    let (m, out) = Machine::new(config, kind, b"mail.example".to_vec(), peer(), local(), 42);
    // The 220 greeting is the first write, before the connect hook runs.
    assert_eq!(out.replies.len(), 1);
    assert_eq!(out.replies[0].code(), 220);
    assert!(matches!(out.action, Some(Action::RunPolicy { hook: Hook::Connect })));
    let (m, out) = m.step(Event::Policy { status: Status::Accept });
    assert!(out.replies.is_empty());
    assert!(out.action.is_none());
    m
}

fn single_code(out: &Output) -> u16 {
    assert_eq!(out.replies.len(), 1);
    out.replies[0].code()
}

fn run_policy_accept(m: Machine, out: Output, hook: Hook) -> (Machine, Output) {
    match out.action {
        Some(Action::RunPolicy { hook: h }) => assert_eq!(h, hook),
        _ => panic!("expected a policy hook"),
    }
    m.step(Event::Policy { status: Status::Accept })
}

#[test]
fn plain_exchange() {
    let m = greeted(plain_config(), ConnectionKind::Opportunistic);

    let (m, out) = m.step(Event::Line { line: b"EHLO a".to_vec() });
    let (m, out) = run_policy_accept(m, out, Hook::Helo);
    assert_eq!(single_code(&out), 250);

    let (m, out) = m.step(Event::Line { line: b"MAIL FROM:<b@c>".to_vec() });
    let (m, out) = run_policy_accept(m, out, Hook::MailFrom);
    assert_eq!(single_code(&out), 250);

    let (m, out) = m.step(Event::Line { line: b"RCPT TO:<d@e>".to_vec() });
    let (m, out) = run_policy_accept(m, out, Hook::RcptTo);
    assert_eq!(single_code(&out), 250);

    let (m, out) = m.step(Event::Line { line: b"DATA".to_vec() });
    assert_eq!(single_code(&out), 354);

    let (m, out) = m.step(Event::Line { line: b"hi".to_vec() });
    assert!(out.replies.is_empty());
    assert!(out.action.is_none());

    let (m, out) = m.step(Event::Line { line: b".".to_vec() });
    assert!(matches!(out.action, Some(Action::RunPolicy { hook: Hook::PreQueue })));

    let (m, out) = m.step(Event::PreQueue {
        status: Status::Accept,
        resolver: b"smtp".to_vec(),
        skipped: None,
    });
    let mail = match out.action {
        Some(Action::WriteQueue { target, mail }) => {
            assert_eq!(target, QueueTarget::Working);
            mail
        },
        _ => panic!("expected a queue write"),
    };
    assert_eq!(mail.envelope.helo, b"a".to_vec());
    assert_eq!(mail.envelope.reverse_path, b"b@c".to_vec());
    assert_eq!(mail.envelope.forward_paths, vec![b"d@e".to_vec()]);
    assert_eq!(mail.body, b"hi\r\n".to_vec());
    assert_eq!(mail.connection.client_addr.ip, vec![192, 0, 2, 7]);
    assert_eq!(mail.connection.client_addr.port, 49152);
    assert_eq!(mail.connection.server_addr.port, 25);
    let id = mail.metadata.message_id;

    let (m, out) = m.step(Event::QueueResult { ok: true });
    match out.action {
        Some(Action::Signal { target, id: sent }) => {
            assert_eq!(target, QueueTarget::Working);
            assert_eq!(sent, id);
        },
        _ => panic!("expected a worker handoff"),
    }

    let (m, out) = m.step(Event::SignalResult { ok: true });
    assert_eq!(single_code(&out), 250);

    let (m, out) = m.step(Event::Line { line: b"QUIT".to_vec() });
    assert_eq!(single_code(&out), 221);
    assert!(!m.alive);
}

#[test]
fn starttls_upgrade_then_auth() {
    let config = Config {
        tls_available: true,
        auth_enabled: true,
        mechanisms: Mechanisms { plain: true, login: true, cram_md5: false, anonymous: false },
        require_tls_for_auth: true,
        ..plain_config()
    };
    let m = greeted(config, ConnectionKind::Opportunistic);

    let (m, out) = m.step(Event::Line { line: b"EHLO a".to_vec() });
    let (m, out) = run_policy_accept(m, out, Hook::Helo);
    match &out.replies[0] {
        Reply::EhloOk { exts, .. } => assert!(exts.starttls),
        _ => panic!("expected the extended greeting"),
    }

    let (m, out) = m.step(Event::Line { line: b"STARTTLS".to_vec() });
    assert_eq!(single_code(&out), 220);
    assert!(matches!(out.action, Some(Action::StartTls)));

    let (m, out) = m.step(Event::TlsResult { ok: true });
    assert!(out.replies.is_empty());
    assert!(m.secured);

    let (m, out) = m.step(Event::Line { line: b"EHLO a".to_vec() });
    let (m, out) = run_policy_accept(m, out, Hook::Helo);
    match &out.replies[0] {
        Reply::EhloOk { exts, .. } => {
            assert!(!exts.starttls);
            assert!(exts.auth.is_some());
        },
        _ => panic!("expected the extended greeting"),
    }

    let (m, out) = m.step(Event::Line { line: b"AUTH PLAIN AGFkbWluAHNlY3JldA==".to_vec() });
    match out.action {
        Some(Action::RunSasl { mechanism, initial }) => {
            assert_eq!(mechanism, Mechanism::Plain);
            assert_eq!(initial, Some(b"AGFkbWluAHNlY3JldA==".to_vec()));
        },
        _ => panic!("expected the SASL exchange"),
    }
    let (m, out) = m.step(Event::Sasl {
        outcome: SaslOutcome::Success {
            credentials: Credentials::Verify {
                authid: b"admin".to_vec(),
                authpass: b"secret".to_vec(),
            },
        },
    });
    assert_eq!(single_code(&out), 235);
    assert!(m.secured && m.authenticated);
    assert!(m.credentials.is_some());
}

#[test]
fn auth_refused_without_tls() {
    let config = Config {
        tls_available: true,
        auth_enabled: true,
        mechanisms: Mechanisms { plain: true, login: false, cram_md5: false, anonymous: false },
        require_tls_for_auth: true,
        ..plain_config()
    };
    let m = greeted(config, ConnectionKind::Opportunistic);
    let (m, out) = m.step(Event::Line { line: b"EHLO a".to_vec() });
    let (m, _) = run_policy_accept(m, out, Hook::Helo);
    let (_, out) = m.step(Event::Line { line: b"AUTH PLAIN".to_vec() });
    assert_eq!(single_code(&out), 538);
}

#[test]
fn unknown_mechanism_gets_504() {
    let config = Config {
        auth_enabled: true,
        mechanisms: Mechanisms { plain: true, login: false, cram_md5: false, anonymous: false },
        ..plain_config()
    };
    let m = greeted(config, ConnectionKind::Opportunistic);
    let (m, out) = m.step(Event::Line { line: b"EHLO a".to_vec() });
    let (m, _) = run_policy_accept(m, out, Hook::Helo);
    let (m, out) = m.step(Event::Line { line: b"AUTH GSSAPI".to_vec() });
    assert_eq!(single_code(&out), 504);
    // LOGIN is known but not offered here.
    let (_, out) = m.step(Event::Line { line: b"AUTH LOGIN".to_vec() });
    assert_eq!(single_code(&out), 504);
}

#[test]
fn resolver_none_skips_delivery() {
    let m = greeted(plain_config(), ConnectionKind::Opportunistic);
    let (m, out) = m.step(Event::Line { line: b"EHLO a".to_vec() });
    let (m, _) = run_policy_accept(m, out, Hook::Helo);
    let (m, out) = m.step(Event::Line { line: b"MAIL FROM:<b@c>".to_vec() });
    let (m, _) = run_policy_accept(m, out, Hook::MailFrom);
    let (m, out) = m.step(Event::Line { line: b"RCPT TO:<d@e>".to_vec() });
    let (m, _) = run_policy_accept(m, out, Hook::RcptTo);
    let (m, _) = m.step(Event::Line { line: b"DATA".to_vec() });
    let (m, _) = m.step(Event::Line { line: b"quarantined".to_vec() });
    let (m, _) = m.step(Event::Line { line: b".".to_vec() });
    let (m, out) = m.step(Event::PreQueue {
        status: Status::Accept,
        resolver: b"none".to_vec(),
        skipped: None,
    });
    // 250 straight away: no queue write, no handoff.
    assert_eq!(single_code(&out), 250);
    assert!(out.action.is_none());
    assert!(m.alive);
}

#[test]
fn skipped_mail_goes_to_delivery_queue() {
    let m = greeted(plain_config(), ConnectionKind::Opportunistic);
    let (m, out) = m.step(Event::Line { line: b"EHLO a".to_vec() });
    let (m, _) = run_policy_accept(m, out, Hook::Helo);
    let (m, out) = m.step(Event::Line { line: b"MAIL FROM:<b@c>".to_vec() });
    let (m, _) = run_policy_accept(m, out, Hook::MailFrom);
    let (m, out) = m.step(Event::Line { line: b"RCPT TO:<d@e>".to_vec() });
    let (m, _) = run_policy_accept(m, out, Hook::RcptTo);
    let (m, _) = m.step(Event::Line { line: b"DATA".to_vec() });
    let (m, _) = m.step(Event::Line { line: b".".to_vec() });
    let (m, out) = m.step(Event::PreQueue {
        status: Status::Accept,
        resolver: b"smtp".to_vec(),
        skipped: Some(b"postq bypassed".to_vec()),
    });
    let id = match out.action {
        Some(Action::WriteQueue { target, mail }) => {
            assert_eq!(target, QueueTarget::Deliver);
            assert_eq!(mail.metadata.skipped, Some(b"postq bypassed".to_vec()));
            mail.metadata.message_id
        },
        _ => panic!("expected a queue write"),
    };
    let (m, out) = m.step(Event::QueueResult { ok: true });
    match out.action {
        Some(Action::Signal { target, id: sent }) => {
            assert_eq!(target, QueueTarget::Deliver);
            assert_eq!(sent, id);
        },
        _ => panic!("expected the delivery handoff"),
    }
    let (_, out) = m.step(Event::SignalResult { ok: true });
    assert_eq!(single_code(&out), 250);
}

#[test]
fn queue_write_failure_replies_554_and_connection_survives() {
    let m = greeted(plain_config(), ConnectionKind::Opportunistic);
    let (m, out) = m.step(Event::Line { line: b"EHLO a".to_vec() });
    let (m, _) = run_policy_accept(m, out, Hook::Helo);
    let (m, out) = m.step(Event::Line { line: b"MAIL FROM:<b@c>".to_vec() });
    let (m, _) = run_policy_accept(m, out, Hook::MailFrom);
    let (m, out) = m.step(Event::Line { line: b"RCPT TO:<d@e>".to_vec() });
    let (m, _) = run_policy_accept(m, out, Hook::RcptTo);
    let (m, _) = m.step(Event::Line { line: b"DATA".to_vec() });
    let (m, _) = m.step(Event::Line { line: b".".to_vec() });
    let (m, out) = m.step(Event::PreQueue {
        status: Status::Accept,
        resolver: b"smtp".to_vec(),
        skipped: None,
    });
    assert!(matches!(out.action, Some(Action::WriteQueue { .. })));
    let (m, out) = m.step(Event::QueueResult { ok: false });
    assert_eq!(single_code(&out), 554);
    assert!(out.action.is_none());
    assert!(m.alive);

    // The connection still accepts RSET and a fresh transaction.
    let (m, out) = m.step(Event::Line { line: b"RSET".to_vec() });
    assert_eq!(single_code(&out), 250);
    let (m, out) = m.step(Event::Line { line: b"MAIL FROM:<x@y>".to_vec() });
    let (_, out) = run_policy_accept(m, out, Hook::MailFrom);
    assert_eq!(single_code(&out), 250);
}

#[test]
fn ten_unknown_verbs_hit_the_ceiling() {
    let mut m = greeted(plain_config(), ConnectionKind::Opportunistic);
    for _ in 0..9 {
        let (m2, out) = m.step(Event::Line { line: b"BOGUS".to_vec() });
        assert_eq!(out.replies.len(), 1);
        assert_eq!(out.replies[0].code(), 500);
        assert!(m2.alive);
        m = m2;
    }
    let (m, out) = m.step(Event::Line { line: b"BOGUS".to_vec() });
    assert_eq!(out.replies.len(), 2);
    assert_eq!(out.replies[0].code(), 500);
    assert_eq!(out.replies[1].code(), 421);
    assert!(!m.alive);
}

#[test]
fn rset_then_mail_equals_fresh_ehlo_mail() {
    // Two runs: EHLO, MAIL, then RSET and redo — versus a fresh EHLO
    // and the same MAIL/RCPT/DATA. The completed mails agree.
    let build = |restart: bool| -> Vec<u8> {
        let m = greeted(plain_config(), ConnectionKind::Opportunistic);
        let (m, out) = m.step(Event::Line { line: b"EHLO a".to_vec() });
        let (mut m, _) = run_policy_accept(m, out, Hook::Helo);
        if restart {
            let (m2, out) = m.step(Event::Line { line: b"MAIL FROM:<old@old>".to_vec() });
            let (m2, _) = run_policy_accept(m2, out, Hook::MailFrom);
            let (m2, out) = m2.step(Event::Line { line: b"RSET".to_vec() });
            assert_eq!(out.replies[0].code(), 250);
            m = m2;
        }
        let (m, out) = m.step(Event::Line { line: b"MAIL FROM:<b@c>".to_vec() });
        let (m, _) = run_policy_accept(m, out, Hook::MailFrom);
        let (m, out) = m.step(Event::Line { line: b"RCPT TO:<d@e>".to_vec() });
        let (m, _) = run_policy_accept(m, out, Hook::RcptTo);
        let (m, _) = m.step(Event::Line { line: b"DATA".to_vec() });
        let (m, _) = m.step(Event::Line { line: b"same body".to_vec() });
        let (m, _) = m.step(Event::Line { line: b".".to_vec() });
        let (_, out) = m.step(Event::PreQueue {
            status: Status::Accept,
            resolver: b"smtp".to_vec(),
            skipped: None,
        });
        match out.action {
            Some(Action::WriteQueue { mail, .. }) => {
                let mut flat = mail.envelope.helo.clone();
                flat.extend_from_slice(&mail.envelope.reverse_path);
                for p in &mail.envelope.forward_paths {
                    flat.extend_from_slice(p);
                }
                flat.extend_from_slice(&mail.body);
                flat
            },
            _ => panic!("expected a queue write"),
        }
    };
    assert_eq!(build(true), build(false));
}

#[test]
fn tunneled_connection_starts_secured() {
    let config = Config { tls_available: true, ..plain_config() };
    let m = greeted(config, ConnectionKind::Tunneled);
    assert!(m.secured);
    // A second STARTTLS inside a secured session is a protocol error.
    let (m, out) = m.step(Event::Line { line: b"EHLO a".to_vec() });
    let (m, _) = run_policy_accept(m, out, Hook::Helo);
    let (_, out) = m.step(Event::Line { line: b"STARTTLS".to_vec() });
    assert_eq!(single_code(&out), 503);
}

#[test]
fn sequence_errors() {
    let m = greeted(plain_config(), ConnectionKind::Opportunistic);
    // RCPT before MAIL.
    let (m, out) = m.step(Event::Line { line: b"RCPT TO:<d@e>".to_vec() });
    assert_eq!(single_code(&out), 503);
    // MAIL before EHLO.
    let (m, out) = m.step(Event::Line { line: b"MAIL FROM:<b@c>".to_vec() });
    assert_eq!(single_code(&out), 503);
    let (m, out) = m.step(Event::Line { line: b"EHLO a".to_vec() });
    let (m, _) = run_policy_accept(m, out, Hook::Helo);
    // DATA before RCPT (no open transaction) is out of sequence.
    let (m, out) = m.step(Event::Line { line: b"DATA".to_vec() });
    assert_eq!(single_code(&out), 503);
    let (m, out) = m.step(Event::Line { line: b"MAIL FROM:<b@c>".to_vec() });
    let (m, _) = run_policy_accept(m, out, Hook::MailFrom);
    // A second MAIL FROM while the transaction is open.
    let (m, out) = m.step(Event::Line { line: b"MAIL FROM:<z@z>".to_vec() });
    assert_eq!(single_code(&out), 503);
    // DATA with an empty recipient list fails the transaction.
    let (_, out) = m.step(Event::Line { line: b"DATA".to_vec() });
    assert_eq!(single_code(&out), 554);
}

#[test]
fn policy_denials() {
    let m = greeted(plain_config(), ConnectionKind::Opportunistic);
    let (m, out) = m.step(Event::Line { line: b"EHLO a".to_vec() });
    assert!(matches!(out.action, Some(Action::RunPolicy { hook: Hook::Helo })));
    let (m, out) = m.step(Event::Policy { status: Status::Deny });
    assert_eq!(single_code(&out), 550);
    let (m, out) = m.step(Event::Line { line: b"EHLO a".to_vec() });
    let (m, _) = run_policy_accept(m, out, Hook::Helo);
    let (m, out) = m.step(Event::Line { line: b"MAIL FROM:<b@c>".to_vec() });
    assert!(matches!(out.action, Some(Action::RunPolicy { hook: Hook::MailFrom })));
    let (m, out) = m.step(Event::Policy { status: Status::Deny });
    assert_eq!(single_code(&out), 550);
    // An accepted recipient survives the denial of a later one.
    let (m, out) = m.step(Event::Line { line: b"MAIL FROM:<b@c>".to_vec() });
    let (m, _) = run_policy_accept(m, out, Hook::MailFrom);
    let (m, out) = m.step(Event::Line { line: b"RCPT TO:<d@e>".to_vec() });
    let (m, _) = run_policy_accept(m, out, Hook::RcptTo);
    let (m, out) = m.step(Event::Line { line: b"RCPT TO:<bad@bad>".to_vec() });
    assert!(matches!(out.action, Some(Action::RunPolicy { hook: Hook::RcptTo })));
    let (m, out) = m.step(Event::Policy { status: Status::Deny });
    assert_eq!(single_code(&out), 550);
    // DATA still works: the first recipient is intact.
    let (_, out) = m.step(Event::Line { line: b"DATA".to_vec() });
    assert_eq!(single_code(&out), 354);
}

#[test]
fn message_size_cap_gives_552() {
    let config = Config { max_message_size: 16, ..plain_config() };
    let m = greeted(config, ConnectionKind::Opportunistic);
    let (m, out) = m.step(Event::Line { line: b"EHLO a".to_vec() });
    let (m, _) = run_policy_accept(m, out, Hook::Helo);
    // An oversized SIZE parameter is refused up front.
    let (m, out) = m.step(Event::Line { line: b"MAIL FROM:<b@c> SIZE=1000".to_vec() });
    assert_eq!(single_code(&out), 552);
    let (m, out) = m.step(Event::Line { line: b"MAIL FROM:<b@c> SIZE=10".to_vec() });
    let (m, _) = run_policy_accept(m, out, Hook::MailFrom);
    let (m, out) = m.step(Event::Line { line: b"RCPT TO:<d@e>".to_vec() });
    let (m, _) = run_policy_accept(m, out, Hook::RcptTo);
    let (m, _) = m.step(Event::Line { line: b"DATA".to_vec() });
    let (m, out) = m.step(Event::Line { line: b"0123456789".to_vec() });
    assert!(out.replies.is_empty());
    // The line that overflows the cap draws no mid-body reply.
    let (m, out) = m.step(Event::Line { line: b"0123456789".to_vec() });
    assert!(out.replies.is_empty());
    assert!(out.action.is_none());
    // The rest of the body is drained without replies or commands.
    let (m, out) = m.step(Event::Line { line: b"RSET".to_vec() });
    assert!(out.replies.is_empty());
    // The terminating dot draws the 552 that fails the transaction.
    let (m, out) = m.step(Event::Line { line: b".".to_vec() });
    assert_eq!(single_code(&out), 552);
    assert!(m.alive);
    // A fresh transaction is accepted afterwards.
    let (m, out) = m.step(Event::Line { line: b"MAIL FROM:<b@c>".to_vec() });
    let (_, out) = run_policy_accept(m, out, Hook::MailFrom);
    assert_eq!(single_code(&out), 250);
}

#[test]
fn over_long_command_line_gets_500_and_connection_survives() {
    let m = greeted(plain_config(), ConnectionKind::Opportunistic);
    let (m, out) = m.step(Event::LineTooLong);
    assert_eq!(single_code(&out), 500);
    assert!(m.alive);
    let (m, out) = m.step(Event::Line { line: b"EHLO a".to_vec() });
    let (_, out) = run_policy_accept(m, out, Hook::Helo);
    assert_eq!(out.replies[0].code(), 250);
}

#[test]
fn over_long_body_line_discards_the_body() {
    let m = greeted(plain_config(), ConnectionKind::Opportunistic);
    let (m, out) = m.step(Event::Line { line: b"EHLO a".to_vec() });
    let (m, _) = run_policy_accept(m, out, Hook::Helo);
    let (m, out) = m.step(Event::Line { line: b"MAIL FROM:<b@c>".to_vec() });
    let (m, _) = run_policy_accept(m, out, Hook::MailFrom);
    let (m, out) = m.step(Event::Line { line: b"RCPT TO:<d@e>".to_vec() });
    let (m, _) = run_policy_accept(m, out, Hook::RcptTo);
    let (m, _) = m.step(Event::Line { line: b"DATA".to_vec() });
    let (m, out) = m.step(Event::LineTooLong);
    assert!(out.replies.is_empty());
    let (m, out) = m.step(Event::Line { line: b"tail".to_vec() });
    assert!(out.replies.is_empty());
    let (m, out) = m.step(Event::Line { line: b".".to_vec() });
    assert_eq!(single_code(&out), 552);
    assert!(m.alive);
}

#[test]
fn policy_denials_do_not_close_the_connection() {
    // 550 denials are not protocol errors: far more of them than the
    // ceiling never draw the 421.
    let mut m = greeted(plain_config(), ConnectionKind::Opportunistic);
    let (m2, out) = m.step(Event::Line { line: b"EHLO a".to_vec() });
    let (m2, _) = run_policy_accept(m2, out, Hook::Helo);
    m = m2;
    for _ in 0..20 {
        let (m2, out) = m.step(Event::Line { line: b"MAIL FROM:<b@c>".to_vec() });
        assert!(matches!(out.action, Some(Action::RunPolicy { hook: Hook::MailFrom })));
        let (m2, out) = m2.step(Event::Policy { status: Status::Deny });
        assert_eq!(out.replies.len(), 1);
        assert_eq!(out.replies[0].code(), 550);
        assert!(m2.alive);
        m = m2;
    }
}

#[test]
fn too_many_recipients_gives_452() {
    let config = Config { max_recipients: 1, ..plain_config() };
    let m = greeted(config, ConnectionKind::Opportunistic);
    let (m, out) = m.step(Event::Line { line: b"EHLO a".to_vec() });
    let (m, _) = run_policy_accept(m, out, Hook::Helo);
    let (m, out) = m.step(Event::Line { line: b"MAIL FROM:<b@c>".to_vec() });
    let (m, _) = run_policy_accept(m, out, Hook::MailFrom);
    let (m, out) = m.step(Event::Line { line: b"RCPT TO:<d@e>".to_vec() });
    let (m, _) = run_policy_accept(m, out, Hook::RcptTo);
    let (_, out) = m.step(Event::Line { line: b"RCPT TO:<f@g>".to_vec() });
    assert_eq!(single_code(&out), 452);
}

#[test]
fn starttls_without_tls_config_gives_454() {
    let m = greeted(plain_config(), ConnectionKind::Opportunistic);
    let (m, out) = m.step(Event::Line { line: b"EHLO a".to_vec() });
    let (m, _) = run_policy_accept(m, out, Hook::Helo);
    let (m, out) = m.step(Event::Line { line: b"STARTTLS".to_vec() });
    assert_eq!(single_code(&out), 454);
    assert!(out.action.is_none());
    assert!(m.alive);
}

#[test]
fn connect_denial_closes_with_554_after_the_greeting() {
    let (m, out) = Machine::new(
        plain_config(),
        ConnectionKind::Opportunistic,
        b"mail.example".to_vec(),
        peer(),
        local(),
        7,
    );
    // The greeting went out first; the denial's 554 follows it.
    assert_eq!(out.replies.len(), 1);
    assert_eq!(out.replies[0].code(), 220);
    let (m, out) = m.step(Event::Policy { status: Status::Deny });
    assert_eq!(out.replies.len(), 1);
    assert_eq!(out.replies[0].code(), 554);
    assert!(!m.alive);
}

#[test]
fn sasl_failure_and_abort() {
    let config = Config {
        auth_enabled: true,
        mechanisms: Mechanisms { plain: true, login: false, cram_md5: false, anonymous: false },
        ..plain_config()
    };
    let m = greeted(config, ConnectionKind::Opportunistic);
    let (m, out) = m.step(Event::Line { line: b"EHLO a".to_vec() });
    let (m, _) = run_policy_accept(m, out, Hook::Helo);
    let (m, out) = m.step(Event::Line { line: b"AUTH PLAIN".to_vec() });
    assert!(matches!(out.action, Some(Action::RunSasl { .. })));
    let (m, out) = m.step(Event::Sasl { outcome: SaslOutcome::Failed });
    assert_eq!(single_code(&out), 535);
    assert!(!m.authenticated);
    assert!(m.credentials.is_none());
    let (m, out) = m.step(Event::Line { line: b"AUTH PLAIN".to_vec() });
    assert!(matches!(out.action, Some(Action::RunSasl { .. })));
    let (m, out) = m.step(Event::Sasl { outcome: SaslOutcome::Abort });
    assert_eq!(single_code(&out), 501);
    assert!(m.alive);
}

#[test]
fn message_ids_are_distinct_across_transactions() {
    let m = greeted(plain_config(), ConnectionKind::Opportunistic);
    let (m, out) = m.step(Event::Line { line: b"EHLO a".to_vec() });
    let (mut m, _) = run_policy_accept(m, out, Hook::Helo);
    let mut ids = Vec::new();
    for _ in 0..2 {
        let (m2, out) = m.step(Event::Line { line: b"MAIL FROM:<b@c>".to_vec() });
        let (m2, _) = run_policy_accept(m2, out, Hook::MailFrom);
        let (m2, out) = m2.step(Event::Line { line: b"RCPT TO:<d@e>".to_vec() });
        let (m2, _) = run_policy_accept(m2, out, Hook::RcptTo);
        let (m2, _) = m2.step(Event::Line { line: b"DATA".to_vec() });
        let (m2, _) = m2.step(Event::Line { line: b".".to_vec() });
        let (m2, out) = m2.step(Event::PreQueue {
            status: Status::Accept,
            resolver: b"smtp".to_vec(),
            skipped: None,
        });
        match out.action {
            Some(Action::WriteQueue { mail, .. }) => ids.push(mail.metadata.message_id),
            _ => panic!("expected a queue write"),
        }
        let (m2, _) = m2.step(Event::QueueResult { ok: true });
        let (m2, _) = m2.step(Event::SignalResult { ok: true });
        m = m2;
    }
    assert_ne!(ids[0], ids[1]);
}
