//! Dot-stuffing of the DATA body: on transmit a line that begins with a
//! dot gets a second dot in front; on receive that leading dot is
//! stripped. A line consisting of a single dot ends the body.
use vstd::prelude::*;

verus! {

/// The line that terminates the DATA body: a single dot.
pub open spec fn spec_terminator() -> Seq<u8> {
    seq![46u8]
}

/// Whether `line` is the body terminator.
pub fn is_terminator(line: &Vec<u8>) -> (r: bool)
    ensures
        r == (line@ == spec_terminator()),
{
    let r = line.len() == 1 && line[0] == 46;
    proof {
        if r {
            assert(line@ =~= spec_terminator());
        }
    }
    r
}

/// A received body line with its stuffing dot removed.
pub open spec fn spec_unstuff(line: Seq<u8>) -> Seq<u8> {
    if line.len() > 0 && line[0] == 46 {
        line.skip(1)
    } else {
        line
    }
}

/// A body line as transmitted: a leading dot is doubled.
pub open spec fn spec_stuff(line: Seq<u8>) -> Seq<u8> {
    if line.len() > 0 && line[0] == 46 {
        seq![46u8] + line
    } else {
        line
    }
}

/// Strip the stuffing dot of a received body line.
pub fn unstuff_line(line: &Vec<u8>) -> (r: Vec<u8>)
    ensures
        r@ == spec_unstuff(line@),
{
    let mut out: Vec<u8> = Vec::new();
    let mut i: usize = if line.len() > 0 && line[0] == 46 {
        1
    } else {
        0
    };
    let ghost start = i as int;
    while i < line.len()
        invariant
            0 <= start <= i <= line.len(),
            out@ == line@.skip(start).take(i - start),
        decreases line.len() - i,
    {
        out.push(line[i]);
        i += 1;
        proof {
            assert(out@ =~= line@.skip(start).take(i - start));
        }
    }
    proof {
        assert(line@.skip(start).take(line@.len() - start) =~= line@.skip(start));
        assert(line@.skip(0) =~= line@);
    }
    out
}

/// Add the stuffing dot to a body line about to be transmitted.
pub fn stuff_line(line: &Vec<u8>) -> (r: Vec<u8>)
    ensures
        r@ == spec_stuff(line@),
{
    let mut out: Vec<u8> = Vec::new();
    if line.len() > 0 && line[0] == 46 {
        out.push(46);
    }
    let mut i: usize = 0;
    let ghost pre = out@;
    while i < line.len()
        invariant
            i <= line.len(),
            out@ == pre + line@.take(i as int),
        decreases line.len() - i,
    {
        out.push(line[i]);
        i += 1;
        proof {
            assert(out@ =~= pre + line@.take(i as int));
        }
    }
    proof {
        assert(pre + line@.take(line@.len() as int) =~= spec_stuff(line@));
    }
    out
}

/// Dot-stuffing round trip: a transmitted line is reconstructed
/// byte-identical on receive, and a stuffed line is never mistaken for
/// the body terminator.
pub proof fn lemma_dot_stuffing_round_trip(line: Seq<u8>)
    ensures
        spec_unstuff(spec_stuff(line)) == line,
        spec_stuff(line) != spec_terminator(),
{
    if line.len() > 0 && line[0] == 46 {
        assert((seq![46u8] + line).skip(1) =~= line);
    }
    if line.len() == 0 {
        assert(spec_stuff(line).len() == 0);
    } else if line[0] == 46 {
        assert(spec_stuff(line).len() == line.len() + 1 >= 2);
    } else {
        assert(spec_stuff(line)[0] != 46);
    }
}

} // verus!
