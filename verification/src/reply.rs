//! The closed set of SMTP replies the receiver emits, each with its
//! reply code and canonical wire text.
use vstd::prelude::*;

use crate::context::Mechanisms;

verus! {

/// What an extended greeting advertises, derived from the configuration
/// and the current security state of the channel.
#[derive(Clone, Copy, PartialEq, Eq, Structural, Debug)]
pub struct Extensions {
    /// Advertise STARTTLS: TLS is configured and the channel is not yet
    /// secured.
    pub starttls: bool,
    /// Advertise AUTH with the offered mechanisms, when configured.
    pub auth: Option<Mechanisms>,
}

/// A reply of the receiver.
#[derive(Clone, Debug)]
pub enum Reply {
    /// 220, the greeting that opens the session.
    Greetings { banner: Vec<u8> },
    /// 250, multi-line answer to EHLO with the advertised extensions.
    EhloOk { domain: Vec<u8>, exts: Extensions },
    /// 220, agreement to start the TLS handshake.
    TlsReady,
    /// 221, closing after QUIT.
    Code221,
    /// 235, authentication succeeded.
    Code235,
    /// 250, the plain positive completion.
    Code250,
    /// 252, answer to VRFY and EXPN.
    Code252,
    /// 354, start of the DATA body.
    Code354,
    /// 421, service closing after too many errors or an integrity fault.
    Code421,
    /// 450, mailbox transiently unavailable.
    Code450,
    /// 451, transient local error.
    Code451,
    /// 452, too many recipients.
    Code452,
    /// 454, TLS not available.
    Code454,
    /// 500, unknown verb.
    Code500,
    /// 501, syntax error in parameters, or an aborted AUTH exchange.
    Code501,
    /// 502, command not implemented.
    Code502,
    /// 503, verb out of sequence.
    Code503,
    /// 504, unknown authentication mechanism.
    Code504,
    /// 535, authentication failed.
    Code535,
    /// 538, encryption required before AUTH.
    Code538,
    /// 550, policy denial.
    Code550,
    /// 552, message size cap exceeded.
    Code552,
    /// 554, transaction failed.
    Code554,
}

/// Specification view of `Reply`.
pub enum ReplyModel {
    Greetings { banner: Seq<u8> },
    EhloOk { domain: Seq<u8>, exts: Extensions },
    TlsReady,
    Code221,
    Code235,
    Code250,
    Code252,
    Code354,
    Code421,
    Code450,
    Code451,
    Code452,
    Code454,
    Code500,
    Code501,
    Code502,
    Code503,
    Code504,
    Code535,
    Code538,
    Code550,
    Code552,
    Code554,
}

impl View for Reply {
    type V = ReplyModel;

    open spec fn view(&self) -> ReplyModel {
        match self {
            Reply::Greetings { banner } => ReplyModel::Greetings { banner: banner@ },
            Reply::EhloOk { domain, exts } => ReplyModel::EhloOk { domain: domain@, exts: *exts },
            Reply::TlsReady => ReplyModel::TlsReady,
            Reply::Code221 => ReplyModel::Code221,
            Reply::Code235 => ReplyModel::Code235,
            Reply::Code250 => ReplyModel::Code250,
            Reply::Code252 => ReplyModel::Code252,
            Reply::Code354 => ReplyModel::Code354,
            Reply::Code421 => ReplyModel::Code421,
            Reply::Code450 => ReplyModel::Code450,
            Reply::Code451 => ReplyModel::Code451,
            Reply::Code452 => ReplyModel::Code452,
            Reply::Code454 => ReplyModel::Code454,
            Reply::Code500 => ReplyModel::Code500,
            Reply::Code501 => ReplyModel::Code501,
            Reply::Code502 => ReplyModel::Code502,
            Reply::Code503 => ReplyModel::Code503,
            Reply::Code504 => ReplyModel::Code504,
            Reply::Code535 => ReplyModel::Code535,
            Reply::Code538 => ReplyModel::Code538,
            Reply::Code550 => ReplyModel::Code550,
            Reply::Code552 => ReplyModel::Code552,
            Reply::Code554 => ReplyModel::Code554,
        }
    }
}

/// The three-digit code of a reply.
pub open spec fn spec_code(r: ReplyModel) -> u16 {
    match r {
        ReplyModel::Greetings { .. } => 220,
        ReplyModel::EhloOk { .. } => 250,
        ReplyModel::TlsReady => 220,
        ReplyModel::Code221 => 221,
        ReplyModel::Code235 => 235,
        ReplyModel::Code250 => 250,
        ReplyModel::Code252 => 252,
        ReplyModel::Code354 => 354,
        ReplyModel::Code421 => 421,
        ReplyModel::Code450 => 450,
        ReplyModel::Code451 => 451,
        ReplyModel::Code452 => 452,
        ReplyModel::Code454 => 454,
        ReplyModel::Code500 => 500,
        ReplyModel::Code501 => 501,
        ReplyModel::Code502 => 502,
        ReplyModel::Code503 => 503,
        ReplyModel::Code504 => 504,
        ReplyModel::Code535 => 535,
        ReplyModel::Code538 => 538,
        ReplyModel::Code550 => 550,
        ReplyModel::Code552 => 552,
        ReplyModel::Code554 => 554,
    }
}

/// The client-caused protocol errors that count toward the error
/// ceiling: the 500 to 503 permanent errors. Policy denials (550),
/// authentication failures (504, 535, 538), transient conditions
/// (450 to 454) and transaction failures (552, 554) leave the
/// connection's error count alone.
pub open spec fn spec_is_client_error(r: ReplyModel) -> bool {
    match r {
        ReplyModel::Code500 => true,
        ReplyModel::Code501 => true,
        ReplyModel::Code502 => true,
        ReplyModel::Code503 => true,
        _ => false,
    }
}

impl Reply {
    /// The three-digit code on the wire.
    pub fn code(&self) -> (c: u16)
        ensures
            c == spec_code(self@),
    {
        match self {
            Reply::Greetings { .. } => 220,
            Reply::EhloOk { .. } => 250,
            Reply::TlsReady => 220,
            Reply::Code221 => 221,
            Reply::Code235 => 235,
            Reply::Code250 => 250,
            Reply::Code252 => 252,
            Reply::Code354 => 354,
            Reply::Code421 => 421,
            Reply::Code450 => 450,
            Reply::Code451 => 451,
            Reply::Code452 => 452,
            Reply::Code454 => 454,
            Reply::Code500 => 500,
            Reply::Code501 => 501,
            Reply::Code502 => 502,
            Reply::Code503 => 503,
            Reply::Code504 => 504,
            Reply::Code535 => 535,
            Reply::Code538 => 538,
            Reply::Code550 => 550,
            Reply::Code552 => 552,
            Reply::Code554 => 554,
        }
    }

    /// Whether this reply counts toward the client error ceiling.
    pub fn is_client_error(&self) -> (r: bool)
        ensures
            r == spec_is_client_error(self@),
    {
        match self {
            Reply::Code500 => true,
            Reply::Code501 => true,
            Reply::Code502 => true,
            Reply::Code503 => true,
            _ => false,
        }
    }
}

/// The bytes of "220 ".
pub open spec fn spec_greet_pre() -> Seq<u8> {
    seq![50u8, 50, 48, 32]
}

/// The bytes of "220 TLS go ahead<CRLF>".
pub open spec fn spec_tls_ready() -> Seq<u8> {
    seq![50u8, 50, 48, 32, 84, 76, 83, 32, 103, 111, 32, 97, 104, 101, 97, 100, 13, 10]
}

/// The bytes of "221 Service closing transmission channel<CRLF>".
pub open spec fn spec_bye_221() -> Seq<u8> {
    seq![50u8, 50, 49, 32, 83, 101, 114, 118, 105, 99, 101, 32, 99, 108, 111, 115, 105, 110, 103, 32, 116, 114, 97, 110, 115, 109, 105, 115, 115, 105, 111, 110, 32, 99, 104, 97, 110, 110, 101, 108, 13, 10]
}

/// The bytes of "235 Authentication succeeded<CRLF>".
pub open spec fn spec_auth_ok_235() -> Seq<u8> {
    seq![50u8, 51, 53, 32, 65, 117, 116, 104, 101, 110, 116, 105, 99, 97, 116, 105, 111, 110, 32, 115, 117, 99, 99, 101, 101, 100, 101, 100, 13, 10]
}

/// The bytes of "250 Ok<CRLF>".
pub open spec fn spec_ok_250() -> Seq<u8> {
    seq![50u8, 53, 48, 32, 79, 107, 13, 10]
}

/// The bytes of "250-".
pub open spec fn spec_ehlo_pre() -> Seq<u8> {
    seq![50u8, 53, 48, 45]
}

/// The bytes of "250-STARTTLS<CRLF>".
pub open spec fn spec_ehlo_starttls() -> Seq<u8> {
    seq![50u8, 53, 48, 45, 83, 84, 65, 82, 84, 84, 76, 83, 13, 10]
}

/// The bytes of "250-AUTH".
pub open spec fn spec_ehlo_auth_pre() -> Seq<u8> {
    seq![50u8, 53, 48, 45, 65, 85, 84, 72]
}

/// The bytes of " PLAIN".
pub open spec fn spec_mech_plain() -> Seq<u8> {
    seq![32u8, 80, 76, 65, 73, 78]
}

/// The bytes of " LOGIN".
pub open spec fn spec_mech_login() -> Seq<u8> {
    seq![32u8, 76, 79, 71, 73, 78]
}

/// The bytes of " CRAM-MD5".
pub open spec fn spec_mech_cram_md5() -> Seq<u8> {
    seq![32u8, 67, 82, 65, 77, 45, 77, 68, 53]
}

/// The bytes of " ANONYMOUS".
pub open spec fn spec_mech_anonymous() -> Seq<u8> {
    seq![32u8, 65, 78, 79, 78, 89, 77, 79, 85, 83]
}

/// The bytes of "250-SIZE<CRLF>250-PIPELINING<CRLF>250 8BITMIME<CRLF>".
pub open spec fn spec_ehlo_tail() -> Seq<u8> {
    seq![50u8, 53, 48, 45, 83, 73, 90, 69, 13, 10, 50, 53, 48, 45, 80, 73, 80, 69, 76, 73, 78, 73, 78, 71, 13, 10, 50, 53, 48, 32, 56, 66, 73, 84, 77, 73, 77, 69, 13, 10]
}

/// The bytes of "252 Cannot VRFY user<CRLF>".
pub open spec fn spec_vrfy_252() -> Seq<u8> {
    seq![50u8, 53, 50, 32, 67, 97, 110, 110, 111, 116, 32, 86, 82, 70, 89, 32, 117, 115, 101, 114, 13, 10]
}

/// The bytes of "354 Start mail input<CRLF>".
pub open spec fn spec_data_354() -> Seq<u8> {
    seq![51u8, 53, 52, 32, 83, 116, 97, 114, 116, 32, 109, 97, 105, 108, 32, 105, 110, 112, 117, 116, 13, 10]
}

/// The bytes of "421 Service not available closing transmission channel<CRLF>".
pub open spec fn spec_err_421() -> Seq<u8> {
    seq![52u8, 50, 49, 32, 83, 101, 114, 118, 105, 99, 101, 32, 110, 111, 116, 32, 97, 118, 97, 105, 108, 97, 98, 108, 101, 32, 99, 108, 111, 115, 105, 110, 103, 32, 116, 114, 97, 110, 115, 109, 105, 115, 115, 105, 111, 110, 32, 99, 104, 97, 110, 110, 101, 108, 13, 10]
}

/// The bytes of "450 Mailbox unavailable<CRLF>".
pub open spec fn spec_err_450() -> Seq<u8> {
    seq![52u8, 53, 48, 32, 77, 97, 105, 108, 98, 111, 120, 32, 117, 110, 97, 118, 97, 105, 108, 97, 98, 108, 101, 13, 10]
}

/// The bytes of "451 Requested action aborted local error<CRLF>".
pub open spec fn spec_err_451() -> Seq<u8> {
    seq![52u8, 53, 49, 32, 82, 101, 113, 117, 101, 115, 116, 101, 100, 32, 97, 99, 116, 105, 111, 110, 32, 97, 98, 111, 114, 116, 101, 100, 32, 108, 111, 99, 97, 108, 32, 101, 114, 114, 111, 114, 13, 10]
}

/// The bytes of "452 Too many recipients<CRLF>".
pub open spec fn spec_err_452() -> Seq<u8> {
    seq![52u8, 53, 50, 32, 84, 111, 111, 32, 109, 97, 110, 121, 32, 114, 101, 99, 105, 112, 105, 101, 110, 116, 115, 13, 10]
}

/// The bytes of "454 TLS not available due to temporary reason<CRLF>".
pub open spec fn spec_err_454() -> Seq<u8> {
    seq![52u8, 53, 52, 32, 84, 76, 83, 32, 110, 111, 116, 32, 97, 118, 97, 105, 108, 97, 98, 108, 101, 32, 100, 117, 101, 32, 116, 111, 32, 116, 101, 109, 112, 111, 114, 97, 114, 121, 32, 114, 101, 97, 115, 111, 110, 13, 10]
}

/// The bytes of "500 Syntax error command unrecognized<CRLF>".
pub open spec fn spec_err_500() -> Seq<u8> {
    seq![53u8, 48, 48, 32, 83, 121, 110, 116, 97, 120, 32, 101, 114, 114, 111, 114, 32, 99, 111, 109, 109, 97, 110, 100, 32, 117, 110, 114, 101, 99, 111, 103, 110, 105, 122, 101, 100, 13, 10]
}

/// The bytes of "501 Syntax error in parameters or arguments<CRLF>".
pub open spec fn spec_err_501() -> Seq<u8> {
    seq![53u8, 48, 49, 32, 83, 121, 110, 116, 97, 120, 32, 101, 114, 114, 111, 114, 32, 105, 110, 32, 112, 97, 114, 97, 109, 101, 116, 101, 114, 115, 32, 111, 114, 32, 97, 114, 103, 117, 109, 101, 110, 116, 115, 13, 10]
}

/// The bytes of "502 Command not implemented<CRLF>".
pub open spec fn spec_err_502() -> Seq<u8> {
    seq![53u8, 48, 50, 32, 67, 111, 109, 109, 97, 110, 100, 32, 110, 111, 116, 32, 105, 109, 112, 108, 101, 109, 101, 110, 116, 101, 100, 13, 10]
}

/// The bytes of "503 Bad sequence of commands<CRLF>".
pub open spec fn spec_err_503() -> Seq<u8> {
    seq![53u8, 48, 51, 32, 66, 97, 100, 32, 115, 101, 113, 117, 101, 110, 99, 101, 32, 111, 102, 32, 99, 111, 109, 109, 97, 110, 100, 115, 13, 10]
}

/// The bytes of "504 Unrecognized authentication type<CRLF>".
pub open spec fn spec_err_504() -> Seq<u8> {
    seq![53u8, 48, 52, 32, 85, 110, 114, 101, 99, 111, 103, 110, 105, 122, 101, 100, 32, 97, 117, 116, 104, 101, 110, 116, 105, 99, 97, 116, 105, 111, 110, 32, 116, 121, 112, 101, 13, 10]
}

/// The bytes of "535 Authentication credentials invalid<CRLF>".
pub open spec fn spec_err_535() -> Seq<u8> {
    seq![53u8, 51, 53, 32, 65, 117, 116, 104, 101, 110, 116, 105, 99, 97, 116, 105, 111, 110, 32, 99, 114, 101, 100, 101, 110, 116, 105, 97, 108, 115, 32, 105, 110, 118, 97, 108, 105, 100, 13, 10]
}

/// The bytes of "538 Encryption required for authentication<CRLF>".
pub open spec fn spec_err_538() -> Seq<u8> {
    seq![53u8, 51, 56, 32, 69, 110, 99, 114, 121, 112, 116, 105, 111, 110, 32, 114, 101, 113, 117, 105, 114, 101, 100, 32, 102, 111, 114, 32, 97, 117, 116, 104, 101, 110, 116, 105, 99, 97, 116, 105, 111, 110, 13, 10]
}

/// The bytes of "550 Requested action not taken<CRLF>".
pub open spec fn spec_err_550() -> Seq<u8> {
    seq![53u8, 53, 48, 32, 82, 101, 113, 117, 101, 115, 116, 101, 100, 32, 97, 99, 116, 105, 111, 110, 32, 110, 111, 116, 32, 116, 97, 107, 101, 110, 13, 10]
}

/// The bytes of "552 Message exceeds fixed maximum message size<CRLF>".
pub open spec fn spec_err_552() -> Seq<u8> {
    seq![53u8, 53, 50, 32, 77, 101, 115, 115, 97, 103, 101, 32, 101, 120, 99, 101, 101, 100, 115, 32, 102, 105, 120, 101, 100, 32, 109, 97, 120, 105, 109, 117, 109, 32, 109, 101, 115, 115, 97, 103, 101, 32, 115, 105, 122, 101, 13, 10]
}

/// The bytes of "554 Transaction failed<CRLF>".
pub open spec fn spec_err_554() -> Seq<u8> {
    seq![53u8, 53, 52, 32, 84, 114, 97, 110, 115, 97, 99, 116, 105, 111, 110, 32, 102, 97, 105, 108, 101, 100, 13, 10]
}

/// The bytes of "<CRLF>".
pub open spec fn spec_crlf() -> Seq<u8> {
    seq![13u8, 10]
}

/// The mechanism list line of the extended greeting.
pub open spec fn spec_auth_line(m: Mechanisms) -> Seq<u8> {
    spec_ehlo_auth_pre() + (if m.plain {
        spec_mech_plain()
    } else {
        Seq::<u8>::empty()
    }) + (if m.login {
        spec_mech_login()
    } else {
        Seq::<u8>::empty()
    }) + (if m.cram_md5 {
        spec_mech_cram_md5()
    } else {
        Seq::<u8>::empty()
    }) + (if m.anonymous {
        spec_mech_anonymous()
    } else {
        Seq::<u8>::empty()
    }) + spec_crlf()
}

/// The exact wire bytes of a reply, CRLF terminated; the answer to EHLO
/// spans several lines.
pub open spec fn spec_render(r: ReplyModel) -> Seq<u8> {
    match r {
        ReplyModel::Greetings { banner } => spec_greet_pre() + banner + spec_crlf(),
        ReplyModel::EhloOk { domain, exts } => spec_ehlo_pre() + domain + spec_crlf() + (if exts.starttls {
            spec_ehlo_starttls()
        } else {
            Seq::<u8>::empty()
        }) + (match exts.auth {
            Option::Some(m) => spec_auth_line(m),
            Option::None => Seq::<u8>::empty(),
        }) + spec_ehlo_tail(),
        ReplyModel::TlsReady => spec_tls_ready(),
        ReplyModel::Code221 => spec_bye_221(),
        ReplyModel::Code235 => spec_auth_ok_235(),
        ReplyModel::Code250 => spec_ok_250(),
        ReplyModel::Code252 => spec_vrfy_252(),
        ReplyModel::Code354 => spec_data_354(),
        ReplyModel::Code421 => spec_err_421(),
        ReplyModel::Code450 => spec_err_450(),
        ReplyModel::Code451 => spec_err_451(),
        ReplyModel::Code452 => spec_err_452(),
        ReplyModel::Code454 => spec_err_454(),
        ReplyModel::Code500 => spec_err_500(),
        ReplyModel::Code501 => spec_err_501(),
        ReplyModel::Code502 => spec_err_502(),
        ReplyModel::Code503 => spec_err_503(),
        ReplyModel::Code504 => spec_err_504(),
        ReplyModel::Code535 => spec_err_535(),
        ReplyModel::Code538 => spec_err_538(),
        ReplyModel::Code550 => spec_err_550(),
        ReplyModel::Code552 => spec_err_552(),
        ReplyModel::Code554 => spec_err_554(),
    }
}

/// Render a reply to its wire bytes.
#[verifier::rlimit(60)]
pub fn render(r: &Reply) -> (out: Vec<u8>)
    ensures
        out@ == spec_render(r@),
{
    let mut out: Vec<u8> = Vec::new();
    match r {
        Reply::Greetings { banner } => {
            out.extend_from_slice(&[50u8, 50, 48, 32]);
            out.extend_from_slice(banner.as_slice());
            out.extend_from_slice(&[13u8, 10]);
        },
        Reply::EhloOk { domain, exts } => {
            out.extend_from_slice(&[50u8, 53, 48, 45]);
            out.extend_from_slice(domain.as_slice());
            out.extend_from_slice(&[13u8, 10]);
            if exts.starttls {
                out.extend_from_slice(&[50u8, 53, 48, 45, 83, 84, 65, 82, 84, 84, 76, 83, 13, 10]);
            }
            match &exts.auth {
                Option::Some(m) => {
                    out.extend_from_slice(&[50u8, 53, 48, 45, 65, 85, 84, 72]);
                    if m.plain {
                        out.extend_from_slice(&[32u8, 80, 76, 65, 73, 78]);
                    }
                    if m.login {
                        out.extend_from_slice(&[32u8, 76, 79, 71, 73, 78]);
                    }
                    if m.cram_md5 {
                        out.extend_from_slice(&[32u8, 67, 82, 65, 77, 45, 77, 68, 53]);
                    }
                    if m.anonymous {
                        out.extend_from_slice(&[32u8, 65, 78, 79, 78, 89, 77, 79, 85, 83]);
                    }
                    out.extend_from_slice(&[13u8, 10]);
                },
                Option::None => {},
            }
            out.extend_from_slice(&[50u8, 53, 48, 45, 83, 73, 90, 69, 13, 10, 50, 53, 48, 45, 80, 73, 80, 69, 76, 73, 78, 73, 78, 71, 13, 10, 50, 53, 48, 32, 56, 66, 73, 84, 77, 73, 77, 69, 13, 10]);
        },
        Reply::TlsReady => {
            out.extend_from_slice(&[50u8, 50, 48, 32, 84, 76, 83, 32, 103, 111, 32, 97, 104, 101, 97, 100, 13, 10]);
        },
        Reply::Code221 => {
            out.extend_from_slice(&[50u8, 50, 49, 32, 83, 101, 114, 118, 105, 99, 101, 32, 99, 108, 111, 115, 105, 110, 103, 32, 116, 114, 97, 110, 115, 109, 105, 115, 115, 105, 111, 110, 32, 99, 104, 97, 110, 110, 101, 108, 13, 10]);
        },
        Reply::Code235 => {
            out.extend_from_slice(&[50u8, 51, 53, 32, 65, 117, 116, 104, 101, 110, 116, 105, 99, 97, 116, 105, 111, 110, 32, 115, 117, 99, 99, 101, 101, 100, 101, 100, 13, 10]);
        },
        Reply::Code250 => {
            out.extend_from_slice(&[50u8, 53, 48, 32, 79, 107, 13, 10]);
        },
        Reply::Code252 => {
            out.extend_from_slice(&[50u8, 53, 50, 32, 67, 97, 110, 110, 111, 116, 32, 86, 82, 70, 89, 32, 117, 115, 101, 114, 13, 10]);
        },
        Reply::Code354 => {
            out.extend_from_slice(&[51u8, 53, 52, 32, 83, 116, 97, 114, 116, 32, 109, 97, 105, 108, 32, 105, 110, 112, 117, 116, 13, 10]);
        },
        Reply::Code421 => {
            out.extend_from_slice(&[52u8, 50, 49, 32, 83, 101, 114, 118, 105, 99, 101, 32, 110, 111, 116, 32, 97, 118, 97, 105, 108, 97, 98, 108, 101, 32, 99, 108, 111, 115, 105, 110, 103, 32, 116, 114, 97, 110, 115, 109, 105, 115, 115, 105, 111, 110, 32, 99, 104, 97, 110, 110, 101, 108, 13, 10]);
        },
        Reply::Code450 => {
            out.extend_from_slice(&[52u8, 53, 48, 32, 77, 97, 105, 108, 98, 111, 120, 32, 117, 110, 97, 118, 97, 105, 108, 97, 98, 108, 101, 13, 10]);
        },
        Reply::Code451 => {
            out.extend_from_slice(&[52u8, 53, 49, 32, 82, 101, 113, 117, 101, 115, 116, 101, 100, 32, 97, 99, 116, 105, 111, 110, 32, 97, 98, 111, 114, 116, 101, 100, 32, 108, 111, 99, 97, 108, 32, 101, 114, 114, 111, 114, 13, 10]);
        },
        Reply::Code452 => {
            out.extend_from_slice(&[52u8, 53, 50, 32, 84, 111, 111, 32, 109, 97, 110, 121, 32, 114, 101, 99, 105, 112, 105, 101, 110, 116, 115, 13, 10]);
        },
        Reply::Code454 => {
            out.extend_from_slice(&[52u8, 53, 52, 32, 84, 76, 83, 32, 110, 111, 116, 32, 97, 118, 97, 105, 108, 97, 98, 108, 101, 32, 100, 117, 101, 32, 116, 111, 32, 116, 101, 109, 112, 111, 114, 97, 114, 121, 32, 114, 101, 97, 115, 111, 110, 13, 10]);
        },
        Reply::Code500 => {
            out.extend_from_slice(&[53u8, 48, 48, 32, 83, 121, 110, 116, 97, 120, 32, 101, 114, 114, 111, 114, 32, 99, 111, 109, 109, 97, 110, 100, 32, 117, 110, 114, 101, 99, 111, 103, 110, 105, 122, 101, 100, 13, 10]);
        },
        Reply::Code501 => {
            out.extend_from_slice(&[53u8, 48, 49, 32, 83, 121, 110, 116, 97, 120, 32, 101, 114, 114, 111, 114, 32, 105, 110, 32, 112, 97, 114, 97, 109, 101, 116, 101, 114, 115, 32, 111, 114, 32, 97, 114, 103, 117, 109, 101, 110, 116, 115, 13, 10]);
        },
        Reply::Code502 => {
            out.extend_from_slice(&[53u8, 48, 50, 32, 67, 111, 109, 109, 97, 110, 100, 32, 110, 111, 116, 32, 105, 109, 112, 108, 101, 109, 101, 110, 116, 101, 100, 13, 10]);
        },
        Reply::Code503 => {
            out.extend_from_slice(&[53u8, 48, 51, 32, 66, 97, 100, 32, 115, 101, 113, 117, 101, 110, 99, 101, 32, 111, 102, 32, 99, 111, 109, 109, 97, 110, 100, 115, 13, 10]);
        },
        Reply::Code504 => {
            out.extend_from_slice(&[53u8, 48, 52, 32, 85, 110, 114, 101, 99, 111, 103, 110, 105, 122, 101, 100, 32, 97, 117, 116, 104, 101, 110, 116, 105, 99, 97, 116, 105, 111, 110, 32, 116, 121, 112, 101, 13, 10]);
        },
        Reply::Code535 => {
            out.extend_from_slice(&[53u8, 51, 53, 32, 65, 117, 116, 104, 101, 110, 116, 105, 99, 97, 116, 105, 111, 110, 32, 99, 114, 101, 100, 101, 110, 116, 105, 97, 108, 115, 32, 105, 110, 118, 97, 108, 105, 100, 13, 10]);
        },
        Reply::Code538 => {
            out.extend_from_slice(&[53u8, 51, 56, 32, 69, 110, 99, 114, 121, 112, 116, 105, 111, 110, 32, 114, 101, 113, 117, 105, 114, 101, 100, 32, 102, 111, 114, 32, 97, 117, 116, 104, 101, 110, 116, 105, 99, 97, 116, 105, 111, 110, 13, 10]);
        },
        Reply::Code550 => {
            out.extend_from_slice(&[53u8, 53, 48, 32, 82, 101, 113, 117, 101, 115, 116, 101, 100, 32, 97, 99, 116, 105, 111, 110, 32, 110, 111, 116, 32, 116, 97, 107, 101, 110, 13, 10]);
        },
        Reply::Code552 => {
            out.extend_from_slice(&[53u8, 53, 50, 32, 77, 101, 115, 115, 97, 103, 101, 32, 101, 120, 99, 101, 101, 100, 115, 32, 102, 105, 120, 101, 100, 32, 109, 97, 120, 105, 109, 117, 109, 32, 109, 101, 115, 115, 97, 103, 101, 32, 115, 105, 122, 101, 13, 10]);
        },
        Reply::Code554 => {
            out.extend_from_slice(&[53u8, 53, 52, 32, 84, 114, 97, 110, 115, 97, 99, 116, 105, 111, 110, 32, 102, 97, 105, 108, 101, 100, 13, 10]);
        },
    }
    proof {
        assert(out@ =~= spec_render(r@));
    }
    out
}

} // verus!
