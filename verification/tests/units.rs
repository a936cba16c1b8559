use smtp_receiver::auth::{Callback, CallbackError, CallbackOutcome, Property};
use smtp_receiver::body::{is_terminator, stuff_line, unstuff_line};
use smtp_receiver::command::{parse_command, parse_size, valid_path, Command};
use smtp_receiver::context::{is_no_delivery_resolver, Mechanism, Mechanisms, Status};
use smtp_receiver::reply::{render, Extensions, Reply};

#[test]
fn verbs_parse_case_insensitively() {
    assert!(matches!(parse_command(&b"noop".to_vec()), Command::Noop));
    assert!(matches!(parse_command(&b"Quit".to_vec()), Command::Quit));
    assert!(matches!(parse_command(&b"RSET".to_vec()), Command::Rset));
    assert!(matches!(parse_command(&b"data".to_vec()), Command::Data));
    assert!(matches!(parse_command(&b"starttls".to_vec()), Command::StartTls));
    assert!(matches!(parse_command(&b"VRFY someone".to_vec()), Command::Vrfy));
    assert!(matches!(parse_command(&b"EXPN list".to_vec()), Command::Expn));
    assert!(matches!(parse_command(&b"NONSENSE".to_vec()), Command::Unknown));
    assert!(matches!(parse_command(&b"".to_vec()), Command::Unknown));
}

#[test]
fn helo_and_ehlo_carry_the_domain() {
    match parse_command(&b"EHLO mail.example".to_vec()) {
        Command::Ehlo { domain } => assert_eq!(domain, b"mail.example".to_vec()),
        _ => panic!("expected EHLO"),
    }
    match parse_command(&b"helo a".to_vec()) {
        Command::Helo { domain } => assert_eq!(domain, b"a".to_vec()),
        _ => panic!("expected HELO"),
    }
}

#[test]
fn mail_from_parses_path_and_size() {
    match parse_command(&b"MAIL FROM:<b@c>".to_vec()) {
        Command::MailFrom { path, size } => {
            assert_eq!(path, b"b@c".to_vec());
            assert_eq!(size, None);
        },
        _ => panic!("expected MAIL"),
    }
    match parse_command(&b"mail from: <b@c> size=2048".to_vec()) {
        Command::MailFrom { path, size } => {
            assert_eq!(path, b"b@c".to_vec());
            assert_eq!(size, Some(2048));
        },
        _ => panic!("expected MAIL"),
    }
    // The null reverse path is allowed.
    match parse_command(&b"MAIL FROM:<>".to_vec()) {
        Command::MailFrom { path, .. } => assert_eq!(path, b"".to_vec()),
        _ => panic!("expected MAIL"),
    }
    assert!(matches!(parse_command(&b"MAIL FROM:b@c".to_vec()), Command::BadSyntax));
    assert!(matches!(parse_command(&b"MAIL <b@c>".to_vec()), Command::BadSyntax));
    assert!(matches!(
        parse_command(&b"MAIL FROM:<b@c> SIZE=big".to_vec()),
        Command::BadSyntax
    ));
}

#[test]
fn rcpt_to_parses_the_path() {
    match parse_command(&b"RCPT TO:<d@e>".to_vec()) {
        Command::RcptTo { path } => assert_eq!(path, b"d@e".to_vec()),
        _ => panic!("expected RCPT"),
    }
    assert!(matches!(parse_command(&b"RCPT TO:<d@e> extra".to_vec()), Command::BadSyntax));
    assert!(matches!(parse_command(&b"RCPT".to_vec()), Command::BadSyntax));
}

#[test]
fn auth_parses_mechanism_and_initial_response() {
    match parse_command(&b"AUTH PLAIN dGVzdA==".to_vec()) {
        Command::Auth { mechanism, initial } => {
            assert_eq!(mechanism, Some(Mechanism::Plain));
            assert_eq!(initial, Some(b"dGVzdA==".to_vec()));
        },
        _ => panic!("expected AUTH"),
    }
    match parse_command(&b"AUTH cram-md5".to_vec()) {
        Command::Auth { mechanism, initial } => {
            assert_eq!(mechanism, Some(Mechanism::CramMd5));
            assert_eq!(initial, None);
        },
        _ => panic!("expected AUTH"),
    }
    match parse_command(&b"AUTH UNKNOWN".to_vec()) {
        Command::Auth { mechanism, .. } => assert_eq!(mechanism, None),
        _ => panic!("expected AUTH"),
    }
    assert!(matches!(parse_command(&b"AUTH".to_vec()), Command::BadSyntax));
}

#[test]
fn size_parameter_limits() {
    assert_eq!(parse_size(&b"0".to_vec()), Some(0));
    assert_eq!(parse_size(&b"10485760".to_vec()), Some(10485760));
    assert_eq!(parse_size(&b"".to_vec()), None);
    assert_eq!(parse_size(&b"12a".to_vec()), None);
    // 20 digits never fit the parameter.
    assert_eq!(parse_size(&b"99999999999999999999".to_vec()), None);
    assert_eq!(parse_size(&b"9999999999999999999".to_vec()), Some(9999999999999999999));
}

#[test]
fn path_validity() {
    assert!(valid_path(&b"".to_vec()));
    assert!(valid_path(&b"b@c".to_vec()));
    assert!(valid_path(&b"user.name@mail.example".to_vec()));
    assert!(!valid_path(&b"no-at-sign".to_vec()));
    assert!(!valid_path(&b"@c".to_vec()));
    assert!(!valid_path(&b"b@".to_vec()));
    assert!(!valid_path(&b"a@b@c".to_vec()));
    assert!(!valid_path(&b"a b@c".to_vec()));
}

#[test]
fn dot_stuffing_round_trip() {
    let cases: Vec<&[u8]> = vec![b"", b".", b"..", b".hidden", b"plain", b". leading"];
    for c in cases {
        let line = c.to_vec();
        let stuffed = stuff_line(&line);
        assert!(!is_terminator(&stuffed));
        assert_eq!(unstuff_line(&stuffed), line);
    }
    assert_eq!(stuff_line(&b".x".to_vec()), b"..x".to_vec());
    assert_eq!(unstuff_line(&b"..x".to_vec()), b".x".to_vec());
    assert_eq!(stuff_line(&b"x".to_vec()), b"x".to_vec());
    assert!(is_terminator(&b".".to_vec()));
    assert!(!is_terminator(&b"..".to_vec()));
}

#[test]
fn replies_render_with_code_text_and_crlf() {
    assert_eq!(render(&Reply::Code250), b"250 Ok\r\n".to_vec());
    assert_eq!(render(&Reply::Code221), b"221 Service closing transmission channel\r\n".to_vec());
    assert_eq!(render(&Reply::Code354), b"354 Start mail input\r\n".to_vec());
    assert_eq!(render(&Reply::Code554), b"554 Transaction failed\r\n".to_vec());
    assert_eq!(
        render(&Reply::Greetings { banner: b"mail.example".to_vec() }),
        b"220 mail.example\r\n".to_vec()
    );
    assert_eq!(
        render(&Reply::Code450),
        b"450 Mailbox unavailable\r\n".to_vec()
    );
    assert_eq!(
        render(&Reply::Code451),
        b"451 Requested action aborted local error\r\n".to_vec()
    );
    assert_eq!(
        render(&Reply::Code502),
        b"502 Command not implemented\r\n".to_vec()
    );
    assert_eq!(Reply::Code421.code(), 421);
    assert_eq!(Reply::Code450.code(), 450);
    assert_eq!(Reply::Code451.code(), 451);
    // Only the 500 to 503 protocol errors count toward the ceiling.
    assert!(Reply::Code500.is_client_error());
    assert!(Reply::Code501.is_client_error());
    assert!(Reply::Code502.is_client_error());
    assert!(Reply::Code503.is_client_error());
    assert!(!Reply::Code454.is_client_error());
    assert!(!Reply::Code250.is_client_error());
    assert!(!Reply::Code535.is_client_error());
    assert!(!Reply::Code550.is_client_error());
    assert!(!Reply::Code552.is_client_error());
}

#[test]
fn extended_greeting_lists_extensions() {
    let exts = Extensions {
        starttls: true,
        auth: Some(Mechanisms { plain: true, login: true, cram_md5: false, anonymous: false }),
    };
    let wire = render(&Reply::EhloOk { domain: b"a".to_vec(), exts });
    let text = String::from_utf8(wire).unwrap();
    assert_eq!(
        text,
        "250-a\r\n250-STARTTLS\r\n250-AUTH PLAIN LOGIN\r\n250-SIZE\r\n250-PIPELINING\r\n250 8BITMIME\r\n"
    );
    let bare = render(&Reply::EhloOk {
        domain: b"a".to_vec(),
        exts: Extensions { starttls: false, auth: None },
    });
    assert_eq!(
        String::from_utf8(bare).unwrap(),
        "250-a\r\n250-SIZE\r\n250-PIPELINING\r\n250 8BITMIME\r\n"
    );
}

#[test]
fn resolver_none_literal() {
    assert!(is_no_delivery_resolver(&b"none".to_vec()));
    assert!(!is_no_delivery_resolver(&b"smtp".to_vec()));
    assert!(!is_no_delivery_resolver(&b"None".to_vec()));
    assert!(!is_no_delivery_resolver(&b"".to_vec()));
}

#[test]
fn callback_password_query() {
    let authid = b"admin".to_vec();
    let creds = Callback::credentials_request(Property::Password, Some(&authid), None);
    match creds {
        Ok(smtp_receiver::context::Credentials::Query { authid: id }) => {
            assert_eq!(id, b"admin".to_vec())
        },
        _ => panic!("expected a password query"),
    }
    // The policy supplies the password through an Info result.
    match Callback::interpret_policy(
        Property::Password,
        Status::Info { payload: b"secret".to_vec() },
    ) {
        Ok(CallbackOutcome::SetPassword { password }) => assert_eq!(password, b"secret".to_vec()),
        _ => panic!("expected the password"),
    }
    // Anything else is an authentication error.
    assert_eq!(
        Callback::interpret_policy(Property::Password, Status::Accept).unwrap_err(),
        CallbackError::AuthenticationError
    );
}

#[test]
fn callback_validate_simple() {
    let authid = b"admin".to_vec();
    let pass = b"secret".to_vec();
    match Callback::credentials_request(Property::ValidateSimple, Some(&authid), Some(&pass)) {
        Ok(smtp_receiver::context::Credentials::Verify { authid: id, authpass }) => {
            assert_eq!(id, b"admin".to_vec());
            assert_eq!(authpass, b"secret".to_vec());
        },
        _ => panic!("expected a verification"),
    }
    assert!(matches!(
        Callback::interpret_policy(Property::ValidateSimple, Status::Accept),
        Ok(CallbackOutcome::Proceed)
    ));
    assert_eq!(
        Callback::interpret_policy(Property::ValidateSimple, Status::Next).unwrap_err(),
        CallbackError::AuthenticationError
    );
    assert_eq!(
        Callback::credentials_request(Property::ValidateSimple, None, Some(&pass)).unwrap_err(),
        CallbackError::NoAuthid
    );
    assert_eq!(
        Callback::credentials_request(Property::ValidateSimple, Some(&authid), None).unwrap_err(),
        CallbackError::NoPassword
    );
    assert_eq!(
        Callback::credentials_request(Property::Other, Some(&authid), None).unwrap_err(),
        CallbackError::NoCallback
    );
}
