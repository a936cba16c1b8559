//! Command framing: turning one wire line (without its CRLF) into an
//! SMTP command. Verbs are matched case-insensitively; malformed
//! arguments of a recognized verb parse to `BadSyntax`.
use vstd::prelude::*;

use crate::context::Mechanism;

verus! {

/// A parsed command line.
#[derive(Clone, Debug)]
pub enum Command {
    Helo { domain: Vec<u8> },
    Ehlo { domain: Vec<u8> },
    MailFrom { path: Vec<u8>, size: Option<u64> },
    RcptTo { path: Vec<u8> },
    Data,
    Rset,
    Noop,
    Quit,
    Vrfy,
    Expn,
    StartTls,
    /// AUTH with a mechanism name; `mechanism` is `None` when the name
    /// is not one of the known mechanisms.
    Auth { mechanism: Option<Mechanism>, initial: Option<Vec<u8>> },
    /// A recognized verb whose arguments are malformed.
    BadSyntax,
    /// An unrecognized verb.
    Unknown,
}

/// Specification view of `Command`.
pub enum CommandModel {
    Helo { domain: Seq<u8> },
    Ehlo { domain: Seq<u8> },
    MailFrom { path: Seq<u8>, size: Option<u64> },
    RcptTo { path: Seq<u8> },
    Data,
    Rset,
    Noop,
    Quit,
    Vrfy,
    Expn,
    StartTls,
    Auth { mechanism: Option<Mechanism>, initial: Option<Seq<u8>> },
    BadSyntax,
    Unknown,
}

impl View for Command {
    type V = CommandModel;

    open spec fn view(&self) -> CommandModel {
        match self {
            Command::Helo { domain } => CommandModel::Helo { domain: domain@ },
            Command::Ehlo { domain } => CommandModel::Ehlo { domain: domain@ },
            Command::MailFrom { path, size } => CommandModel::MailFrom {
                path: path@,
                size: *size,
            },
            Command::RcptTo { path } => CommandModel::RcptTo { path: path@ },
            Command::Data => CommandModel::Data,
            Command::Rset => CommandModel::Rset,
            Command::Noop => CommandModel::Noop,
            Command::Quit => CommandModel::Quit,
            Command::Vrfy => CommandModel::Vrfy,
            Command::Expn => CommandModel::Expn,
            Command::StartTls => CommandModel::StartTls,
            Command::Auth { mechanism, initial } => CommandModel::Auth {
                mechanism: *mechanism,
                initial: match initial {
                    Option::Some(i) => Option::Some(i@),
                    Option::None => Option::None,
                },
            },
            Command::BadSyntax => CommandModel::BadSyntax,
            Command::Unknown => CommandModel::Unknown,
        }
    }
}

/// ASCII upper-casing of one byte.
pub open spec fn spec_upper(b: u8) -> u8 {
    if 97 <= b && b <= 122 {
        (b - 32) as u8
    } else {
        b
    }
}

/// ASCII upper-casing of a byte sequence.
pub open spec fn spec_upper_seq(s: Seq<u8>) -> Seq<u8> {
    s.map_values(|b: u8| spec_upper(b))
}

/// Index of the first occurrence of `b` in `s`, or `s.len()`.
pub open spec fn spec_find(s: Seq<u8>, b: u8) -> int
    decreases s.len(),
{
    if s.len() == 0 {
        0
    } else if s[0] == b {
        0
    } else {
        1 + spec_find(s.skip(1), b)
    }
}

proof fn lemma_find_nonneg(s: Seq<u8>, b: u8)
    ensures
        0 <= spec_find(s, b) <= s.len(),
    decreases s.len(),
{
    if s.len() == 0 {
    } else if s[0] == b {
    } else {
        lemma_find_nonneg(s.skip(1), b);
    }
}

proof fn lemma_find_characterization(s: Seq<u8>, b: u8, i: int)
    requires
        0 <= i <= s.len(),
        forall|j: int| 0 <= j < i ==> s[j] != b,
        i < s.len() ==> s[i] == b,
    ensures
        spec_find(s, b) == i,
    decreases s.len(),
{
    if s.len() == 0 {
    } else if s[0] == b {
    } else {
        assert(forall|j: int| 0 <= j < i - 1 ==> s.skip(1)[j] == s[j + 1]);
        lemma_find_characterization(s.skip(1), b, i - 1);
    }
}

/// First index of `b` in `v`, or `v.len()` when absent.
pub fn find_byte(v: &Vec<u8>, b: u8) -> (i: usize)
    ensures
        i == spec_find(v@, b),
        i <= v.len(),
{
    let mut i: usize = 0;
    while i < v.len()
        invariant
            i <= v.len(),
            forall|j: int| 0 <= j < i ==> v@[j] != b,
        decreases v.len() - i,
    {
        if v[i] == b {
            proof {
                lemma_find_characterization(v@, b, i as int);
            }
            return i;
        }
        i += 1;
    }
    proof {
        lemma_find_characterization(v@, b, v@.len() as int);
    }
    i
}

/// Copy of `v[lo..hi]`.
pub fn subvec(v: &Vec<u8>, lo: usize, hi: usize) -> (r: Vec<u8>)
    requires
        lo <= hi <= v.len(),
    ensures
        r@ == v@.subrange(lo as int, hi as int),
{
    let mut out: Vec<u8> = Vec::new();
    let mut i: usize = lo;
    while i < hi
        invariant
            lo <= i <= hi <= v.len(),
            out@ == v@.subrange(lo as int, i as int),
        decreases hi - i,
    {
        out.push(v[i]);
        i += 1;
        proof {
            assert(out@ =~= v@.subrange(lo as int, i as int));
        }
    }
    out
}

/// ASCII upper-casing of a byte vector.
pub fn upper_vec(v: &Vec<u8>) -> (r: Vec<u8>)
    ensures
        r@ == spec_upper_seq(v@),
{
    let mut out: Vec<u8> = Vec::new();
    let mut i: usize = 0;
    while i < v.len()
        invariant
            i <= v.len(),
            out@.len() == i,
            forall|j: int| 0 <= j < i ==> out@[j] == spec_upper(v@[j]),
        decreases v.len() - i,
    {
        let b = v[i];
        if 97 <= b && b <= 122 {
            out.push(b - 32);
        } else {
            out.push(b);
        }
        i += 1;
    }
    proof {
        assert(out@ =~= spec_upper_seq(v@));
    }
    out
}

/// Whether `v` equals the word `w`.
pub fn eq_bytes(v: &Vec<u8>, w: &[u8]) -> (r: bool)
    ensures
        r == (v@ == w@),
{
    if v.len() != w.len() {
        proof {
            assert(v@ != w@);
        }
        return false;
    }
    let mut i: usize = 0;
    while i < v.len()
        invariant
            i <= v.len(),
            v.len() == w.len(),
            forall|j: int| 0 <= j < i ==> v@[j] == w@[j],
        decreases v.len() - i,
    {
        if v[i] != w[i] {
            return false;
        }
        i += 1;
    }
    proof {
        assert(v@ =~= w@);
    }
    true
}

/// `s` with its leading spaces removed.
pub open spec fn spec_skip_spaces(s: Seq<u8>) -> Seq<u8>
    decreases s.len(),
{
    if s.len() > 0 && s[0] == 32 {
        spec_skip_spaces(s.skip(1))
    } else {
        s
    }
}

proof fn lemma_skip_spaces_characterization(s: Seq<u8>, i: int)
    requires
        0 <= i <= s.len(),
        forall|j: int| 0 <= j < i ==> s[j] == 32,
        i < s.len() ==> s[i] != 32,
    ensures
        spec_skip_spaces(s) == s.skip(i),
    decreases s.len(),
{
    if i == 0 {
        assert(s.skip(0) =~= s);
    } else {
        assert(forall|j: int| 0 <= j < i - 1 ==> s.skip(1)[j] == s[j + 1]);
        lemma_skip_spaces_characterization(s.skip(1), i - 1);
        assert(s.skip(1).skip(i - 1) =~= s.skip(i));
    }
}

/// Copy of `v` with its leading spaces removed.
pub fn skip_spaces(v: &Vec<u8>) -> (r: Vec<u8>)
    ensures
        r@ == spec_skip_spaces(v@),
{
    let mut i: usize = 0;
    while i < v.len() && v[i] == 32
        invariant
            i <= v.len(),
            forall|j: int| 0 <= j < i ==> v@[j] == 32,
        decreases v.len() - i,
    {
        i += 1;
    }
    proof {
        lemma_skip_spaces_characterization(v@, i as int);
    }
    subvec(v, i, v.len())
}

/// Everything after the verb: the bytes behind the first space, or
/// nothing when the line is the verb alone.
pub open spec fn spec_rest(line: Seq<u8>) -> Seq<u8> {
    if spec_find(line, 32) < line.len() {
        line.skip(spec_find(line, 32) + 1)
    } else {
        Seq::<u8>::empty()
    }
}

/// The verb of the line, upper-cased.
pub open spec fn spec_verb(line: Seq<u8>) -> Seq<u8> {
    spec_upper_seq(line.take(spec_find(line, 32)))
}

/// Numeric value of a digit string.
pub open spec fn spec_digits_val(s: Seq<u8>) -> nat
    decreases s.len(),
{
    if s.len() == 0 {
        0
    } else {
        (spec_digits_val(s.drop_last()) * 10 + (s.last() - 48)) as nat
    }
}

/// Whether `s` is one or more ASCII digits.
pub open spec fn spec_all_digits(s: Seq<u8>) -> bool {
    forall|i: int| 0 <= i < s.len() ==> 48 <= #[trigger] s[i] <= 57
}

/// Powers of ten.
pub open spec fn spec_pow10(n: nat) -> nat
    decreases n,
{
    if n == 0 {
        1nat
    } else {
        10 * spec_pow10((n - 1) as nat)
    }
}

/// The SIZE parameter value: defined when the bytes are 1 to 19 digits,
/// which keeps the value below 2^64.
pub open spec fn spec_size_value(s: Seq<u8>) -> Option<u64> {
    if 1 <= s.len() <= 19 && spec_all_digits(s) {
        Option::Some(spec_digits_val(s) as u64)
    } else {
        Option::None
    }
}

/// Parse a digit string of at most 19 digits.
pub fn parse_size(v: &Vec<u8>) -> (r: Option<u64>)
    ensures
        r == spec_size_value(v@),
{
    if v.len() == 0 || v.len() > 19 {
        return Option::None;
    }
    let mut val: u64 = 0;
    let mut i: usize = 0;
    while i < v.len()
        invariant
            i <= v.len() <= 19,
            forall|j: int| 0 <= j < i ==> 48 <= #[trigger] v@[j] <= 57,
            spec_all_digits(v@.take(i as int)),
            val == spec_digits_val(v@.take(i as int)),
            val < spec_pow10(i as nat),
        decreases v.len() - i,
    {
        let b = v[i];
        if b < 48 || b > 57 {
            return Option::None;
        }
        proof {
            assert(spec_pow10(19) == 10000000000000000000) by {
                reveal_with_fuel(spec_pow10, 20);
            }
            lemma_pow10_mono(i as nat, 19);
            assert(val < spec_pow10(i as nat));
            assert(10 * spec_pow10(i as nat) == spec_pow10((i + 1) as nat));
            assert(10 * (val as nat) + (b - 48) < spec_pow10((i + 1) as nat)) by {
                assert(val + 1 <= spec_pow10(i as nat));
                assert(10 * (val as nat) + 10 <= 10 * spec_pow10(i as nat)) by (nonlinear_arith)
                    requires
                        val + 1 <= spec_pow10(i as nat),
                ;
            }
            lemma_pow10_mono((i + 1) as nat, 19);
        }
        val = val * 10 + ((b - 48) as u64);
        i += 1;
        proof {
            assert(v@.take(i as int).drop_last() =~= v@.take(i - 1));
            assert(v@.take(i as int).last() == b);
        }
    }
    proof {
        assert(v@.take(v@.len() as int) =~= v@);
    }
    Option::Some(val)
}

proof fn lemma_pow10_mono(a: nat, b: nat)
    requires
        a <= b,
    ensures
        spec_pow10(a) <= spec_pow10(b),
    decreases b,
{
    if a < b {
        lemma_pow10_mono(a, (b - 1) as nat);
        assert(spec_pow10(b) == 10 * spec_pow10((b - 1) as nat));
    }
}

/// A syntactically acceptable path between the angle brackets: empty
/// (the null reverse path), or local@domain with non-empty halves, a
/// single @, and no spaces or angle brackets.
pub open spec fn spec_valid_path(p: Seq<u8>) -> bool {
    ||| p.len() == 0
    ||| {
        let a = spec_find(p, 64);
        &&& 0 < a < p.len() - 1
        &&& spec_find(p.skip(a + 1), 64) == p.len() - a - 1
        &&& forall|i: int|
            0 <= i < p.len() ==> #[trigger] p[i] != 32 && p[i] != 60 && p[i] != 62
    }
}

/// Whether `p` is a syntactically acceptable path.
pub fn valid_path(p: &Vec<u8>) -> (r: bool)
    ensures
        r == spec_valid_path(p@),
{
    if p.len() == 0 {
        return true;
    }
    let a = find_byte(p, 64);
    if !(0 < a && a < p.len() - 1) {
        return false;
    }
    let after = subvec(p, a + 1, p.len());
    let second = find_byte(&after, 64);
    if second != after.len() {
        proof {
            assert(after@ =~= p@.skip(a + 1));
        }
        return false;
    }
    let mut i: usize = 0;
    while i < p.len()
        invariant
            i <= p.len(),
            forall|j: int| 0 <= j < i ==> #[trigger] p@[j] != 32 && p@[j] != 60 && p@[j] != 62,
        decreases p.len() - i,
    {
        let b = p[i];
        if b == 32 || b == 60 || b == 62 {
            return false;
        }
        i += 1;
    }
    proof {
        assert(after@ =~= p@.skip(a + 1));
    }
    true
}

/// Parse of the argument of MAIL: `FROM:<path>`, optionally followed by
/// a `SIZE=` parameter.
pub open spec fn spec_parse_mail(rest: Seq<u8>) -> CommandModel {
    if rest.len() >= 5 && spec_upper_seq(rest.take(5)) == seq![70u8, 82, 79, 77, 58] {
        let s = spec_skip_spaces(rest.skip(5));
        if s.len() >= 1 && s[0] == 60 && spec_find(s, 62) < s.len() {
            let e = spec_find(s, 62);
            let path = s.subrange(1, e);
            let tail = spec_skip_spaces(s.skip(e + 1));
            if tail.len() == 0 {
                CommandModel::MailFrom { path, size: Option::None }
            } else if tail.len() >= 5 && spec_upper_seq(tail.take(5)) == seq![83u8, 73, 90, 69, 61] {
                match spec_size_value(tail.skip(5)) {
                    Option::Some(n) => CommandModel::MailFrom { path, size: Option::Some(n) },
                    Option::None => CommandModel::BadSyntax,
                }
            } else {
                CommandModel::BadSyntax
            }
        } else {
            CommandModel::BadSyntax
        }
    } else {
        CommandModel::BadSyntax
    }
}

/// Parse of the argument of RCPT: `TO:<path>` with nothing after it.
pub open spec fn spec_parse_rcpt(rest: Seq<u8>) -> CommandModel {
    if rest.len() >= 3 && spec_upper_seq(rest.take(3)) == seq![84u8, 79, 58] {
        let s = spec_skip_spaces(rest.skip(3));
        if s.len() >= 1 && s[0] == 60 && spec_find(s, 62) < s.len() {
            let e = spec_find(s, 62);
            let path = s.subrange(1, e);
            let tail = spec_skip_spaces(s.skip(e + 1));
            if tail.len() == 0 {
                CommandModel::RcptTo { path }
            } else {
                CommandModel::BadSyntax
            }
        } else {
            CommandModel::BadSyntax
        }
    } else {
        CommandModel::BadSyntax
    }
}

/// The mechanism named by an upper-cased word, when known.
pub open spec fn spec_mechanism_of(w: Seq<u8>) -> Option<Mechanism> {
    if w == seq![80u8, 76, 65, 73, 78] {
        Option::Some(Mechanism::Plain)
    } else if w == seq![76u8, 79, 71, 73, 78] {
        Option::Some(Mechanism::Login)
    } else if w == seq![67u8, 82, 65, 77, 45, 77, 68, 53] {
        Option::Some(Mechanism::CramMd5)
    } else if w == seq![65u8, 78, 79, 78, 89, 77, 79, 85, 83] {
        Option::Some(Mechanism::Anonymous)
    } else {
        Option::None
    }
}

/// Parse of the argument of AUTH: a mechanism name and an optional
/// initial response.
pub open spec fn spec_parse_auth(rest: Seq<u8>) -> CommandModel {
    if rest.len() == 0 {
        CommandModel::BadSyntax
    } else {
        let e = spec_find(rest, 32);
        let name = spec_upper_seq(rest.take(e));
        let initial = if e < rest.len() {
            Option::Some(rest.skip(e + 1))
        } else {
            Option::None
        };
        CommandModel::Auth { mechanism: spec_mechanism_of(name), initial }
    }
}

/// Parse of one command line.
pub open spec fn spec_parse(line: Seq<u8>) -> CommandModel {
    let v = spec_verb(line);
    let rest = spec_rest(line);
    if v == seq![72u8, 69, 76, 79] {
        CommandModel::Helo { domain: rest }
    } else if v == seq![69u8, 72, 76, 79] {
        CommandModel::Ehlo { domain: rest }
    } else if v == seq![77u8, 65, 73, 76] {
        spec_parse_mail(rest)
    } else if v == seq![82u8, 67, 80, 84] {
        spec_parse_rcpt(rest)
    } else if v == seq![65u8, 85, 84, 72] {
        spec_parse_auth(rest)
    } else if v == seq![68u8, 65, 84, 65] {
        CommandModel::Data
    } else if v == seq![82u8, 83, 69, 84] {
        CommandModel::Rset
    } else if v == seq![78u8, 79, 79, 80] {
        CommandModel::Noop
    } else if v == seq![81u8, 85, 73, 84] {
        CommandModel::Quit
    } else if v == seq![86u8, 82, 70, 89] {
        CommandModel::Vrfy
    } else if v == seq![69u8, 88, 80, 78] {
        CommandModel::Expn
    } else if v == seq![83u8, 84, 65, 82, 84, 84, 76, 83] {
        CommandModel::StartTls
    } else {
        CommandModel::Unknown
    }
}

fn parse_mail_args(rest: &Vec<u8>) -> (c: Command)
    ensures
        c@ == spec_parse_mail(rest@),
{
    if rest.len() < 5 {
        return Command::BadSyntax;
    }
    let head = upper_vec(&subvec(rest, 0, 5));
    proof {
        assert(subvec_take5(rest@));
    }
    if !eq_bytes(&head, &[70u8, 82, 79, 77, 58]) {
        return Command::BadSyntax;
    }
    let s = skip_spaces(&subvec(rest, 5, rest.len()));
    if !(s.len() >= 1 && s[0] == 60) {
        return Command::BadSyntax;
    }
    let e = find_byte(&s, 62);
    if e == s.len() {
        return Command::BadSyntax;
    }
    proof {
        lemma_find_nonneg(s@.skip(1), 62);
        assert(spec_find(s@, 62) >= 1);
    }
    let path = subvec(&s, 1, e);
    let tail = skip_spaces(&subvec(&s, e + 1, s.len()));
    if tail.len() == 0 {
        return Command::MailFrom { path, size: Option::None };
    }
    if tail.len() < 5 {
        return Command::BadSyntax;
    }
    let thead = upper_vec(&subvec(&tail, 0, 5));
    proof {
        assert(subvec_take5(tail@));
    }
    if !eq_bytes(&thead, &[83u8, 73, 90, 69, 61]) {
        return Command::BadSyntax;
    }
    match parse_size(&subvec(&tail, 5, tail.len())) {
        Option::Some(n) => Command::MailFrom { path, size: Option::Some(n) },
        Option::None => Command::BadSyntax,
    }
}

/// `subrange(0, 5)` and `take(5)` agree; stated as a trigger helper.
pub open spec fn subvec_take5(s: Seq<u8>) -> bool {
    s.len() >= 5 ==> s.subrange(0, 5) == s.take(5)
}

fn parse_rcpt_args(rest: &Vec<u8>) -> (c: Command)
    ensures
        c@ == spec_parse_rcpt(rest@),
{
    if rest.len() < 3 {
        return Command::BadSyntax;
    }
    let head = upper_vec(&subvec(rest, 0, 3));
    proof {
        assert(rest@.subrange(0, 3) == rest@.take(3));
    }
    if !eq_bytes(&head, &[84u8, 79, 58]) {
        return Command::BadSyntax;
    }
    let s = skip_spaces(&subvec(rest, 3, rest.len()));
    if !(s.len() >= 1 && s[0] == 60) {
        return Command::BadSyntax;
    }
    let e = find_byte(&s, 62);
    if e == s.len() {
        return Command::BadSyntax;
    }
    proof {
        lemma_find_nonneg(s@.skip(1), 62);
        assert(spec_find(s@, 62) >= 1);
    }
    let path = subvec(&s, 1, e);
    let tail = skip_spaces(&subvec(&s, e + 1, s.len()));
    if tail.len() == 0 {
        Command::RcptTo { path }
    } else {
        Command::BadSyntax
    }
}

fn parse_auth_args(rest: &Vec<u8>) -> (c: Command)
    ensures
        c@ == spec_parse_auth(rest@),
{
    if rest.len() == 0 {
        return Command::BadSyntax;
    }
    let e = find_byte(rest, 32);
    let name = upper_vec(&subvec(rest, 0, e));
    proof {
        assert(rest@.subrange(0, e as int) == rest@.take(e as int));
    }
    let initial = if e < rest.len() {
        Option::Some(subvec(rest, e + 1, rest.len()))
    } else {
        Option::None
    };
    let mechanism = if eq_bytes(&name, &[80u8, 76, 65, 73, 78]) {
        Option::Some(Mechanism::Plain)
    } else if eq_bytes(&name, &[76u8, 79, 71, 73, 78]) {
        Option::Some(Mechanism::Login)
    } else if eq_bytes(&name, &[67u8, 82, 65, 77, 45, 77, 68, 53]) {
        Option::Some(Mechanism::CramMd5)
    } else if eq_bytes(&name, &[65u8, 78, 79, 78, 89, 77, 79, 85, 83]) {
        Option::Some(Mechanism::Anonymous)
    } else {
        Option::None
    };
    Command::Auth { mechanism, initial }
}

/// Parse one command line into a `Command`.
pub fn parse_command(line: &Vec<u8>) -> (c: Command)
    ensures
        c@ == spec_parse(line@),
{
    let e = find_byte(line, 32);
    let verb = upper_vec(&subvec(line, 0, e));
    proof {
        assert(line@.subrange(0, e as int) == line@.take(e as int));
    }
    let rest = if e < line.len() {
        subvec(line, e + 1, line.len())
    } else {
        Vec::new()
    };
    proof {
        assert(rest@ == spec_rest(line@));
    }
    if eq_bytes(&verb, &[72u8, 69, 76, 79]) {
        Command::Helo { domain: rest }
    } else if eq_bytes(&verb, &[69u8, 72, 76, 79]) {
        Command::Ehlo { domain: rest }
    } else if eq_bytes(&verb, &[77u8, 65, 73, 76]) {
        parse_mail_args(&rest)
    } else if eq_bytes(&verb, &[82u8, 67, 80, 84]) {
        parse_rcpt_args(&rest)
    } else if eq_bytes(&verb, &[65u8, 85, 84, 72]) {
        parse_auth_args(&rest)
    } else if eq_bytes(&verb, &[68u8, 65, 84, 65]) {
        Command::Data
    } else if eq_bytes(&verb, &[82u8, 83, 69, 84]) {
        Command::Rset
    } else if eq_bytes(&verb, &[78u8, 79, 79, 80]) {
        Command::Noop
    } else if eq_bytes(&verb, &[81u8, 85, 73, 84]) {
        Command::Quit
    } else if eq_bytes(&verb, &[86u8, 82, 70, 89]) {
        Command::Vrfy
    } else if eq_bytes(&verb, &[69u8, 88, 80, 78]) {
        Command::Expn
    } else if eq_bytes(&verb, &[83u8, 84, 65, 82, 84, 84, 76, 83]) {
        Command::StartTls
    } else {
        Command::Unknown
    }
}

} // verus!
