//! The line collector: turns raw input lines into trimmed, non-empty
//! entries, stopping at the first line that is blank once trimmed.

use vstd::prelude::*;

use crate::text::{lemma_trim_idempotent, trim_spec, trim_str};

verus! {

/// A line the collector may hand out: non-empty and unchanged by trimming.
pub open spec fn is_entry(s: Seq<char>) -> bool {
    s.len() > 0 && trim_spec(s) == s
}

/// The entries kept from `lines`: each line trimmed, in order, up to (not
/// including) the first line that is blank once trimmed.
pub open spec fn collected_spec(lines: Seq<Seq<char>>) -> Seq<Seq<char>>
    decreases lines.len(),
{
    if lines.len() == 0 {
        Seq::empty()
    } else if trim_spec(lines[0]).len() == 0 {
        Seq::empty()
    } else {
        seq![trim_spec(lines[0])] + collected_spec(lines.drop_first())
    }
}

/// How many of `lines` the collector reads: the kept lines and, where one
/// exists, the terminating blank line.
pub open spec fn consumed_spec(lines: Seq<Seq<char>>) -> nat
    decreases lines.len(),
{
    if lines.len() == 0 {
        0
    } else if trim_spec(lines[0]).len() == 0 {
        1
    } else {
        1 + consumed_spec(lines.drop_first())
    }
}

/// The trimmed form of a line, or `None` where the line is blank once
/// trimmed and collection must stop.
pub fn entry_of(line: &str) -> (r: Option<String>)
    ensures
        r is Some <==> trim_spec(line@).len() > 0,
        r matches Some(e) ==> e@ == trim_spec(line@),
{
    let t = trim_str(line);
    if t.unicode_len() == 0 {
        None
    } else {
        Some(t.to_owned())
    }
}

proof fn lemma_collected_unfold(lines: Seq<Seq<char>>, i: int)
    requires
        0 <= i <= lines.len(),
        forall|k: int| 0 <= k < i ==> trim_spec(lines[k]).len() > 0,
    ensures
        collected_spec(lines) =~= lines.take(i).map_values(|l: Seq<char>| trim_spec(l))
            + collected_spec(lines.skip(i)),
        consumed_spec(lines) == i + consumed_spec(lines.skip(i)),
    decreases i,
{
    if i == 0 {
        assert(lines.skip(0) =~= lines);
        assert(lines.take(0).map_values(|l: Seq<char>| trim_spec(l))
            =~= Seq::<Seq<char>>::empty());
    } else {
        let t = lines.drop_first();
        lemma_collected_unfold(t, i - 1);
        assert(t.skip(i - 1) =~= lines.skip(i));
        assert(lines.take(i).map_values(|l: Seq<char>| trim_spec(l)) =~= seq![
            trim_spec(lines[0]),
        ] + t.take(i - 1).map_values(|l: Seq<char>| trim_spec(l)));
    }
}

/// The collector returns exactly the lines before the first blank one,
/// trimmed, in their original order, and reads nothing past that blank line.
pub proof fn lemma_collector_stops(lines: Seq<Seq<char>>, k: int)
    requires
        0 <= k < lines.len(),
        trim_spec(lines[k]).len() == 0,
        forall|i: int| 0 <= i < k ==> trim_spec(lines[i]).len() > 0,
    ensures
        collected_spec(lines) == lines.take(k).map_values(|l: Seq<char>| trim_spec(l)),
        consumed_spec(lines) == k + 1,
{
    lemma_collected_unfold(lines, k);
    assert(lines.skip(k)[0] == lines[k]);
    assert(collected_spec(lines.skip(k)) =~= Seq::<Seq<char>>::empty());
    assert(collected_spec(lines) =~= lines.take(k).map_values(|l: Seq<char>| trim_spec(l)));
}

/// Collects entries from `lines` as the collector would from a stream:
/// returns the entries and how many lines were read.
pub fn collect_entries(lines: &Vec<String>) -> (r: (Vec<String>, usize))
    ensures
        r.0.deep_view() == collected_spec(lines.deep_view()),
        r.1 == consumed_spec(lines.deep_view()),
        r.1 <= lines@.len(),
{
    let ghost all = lines.deep_view();
    let mut out: Vec<String> = Vec::new();
    let mut i: usize = 0;
    while i < lines.len()
        invariant
            i <= lines@.len(),
            all == lines.deep_view(),
            forall|k: int| 0 <= k < i ==> trim_spec(#[trigger] all[k]).len() > 0,
            out.deep_view() == all.take(i as int).map_values(|l: Seq<char>| trim_spec(l)),
        decreases lines@.len() - i,
    {
        let ghost prev = out.deep_view();
        match entry_of(lines[i].as_str()) {
            None => {
                proof {
                    lemma_collector_stops(all, i as int);
                }
                return (out, i + 1);
            },
            Some(e) => {
                out.push(e);
                proof {
                    assert(out.deep_view() =~= prev.push(e@));
                    assert(out.deep_view() =~= all.take(i + 1).map_values(
                        |l: Seq<char>| trim_spec(l),
                    ));
                }
                i = i + 1;
            },
        }
    }
    proof {
        lemma_collected_unfold(all, all.len() as int);
        assert(all.skip(all.len() as int) =~= Seq::<Seq<char>>::empty());
        assert(collected_spec(all) =~= all.take(all.len() as int).map_values(
            |l: Seq<char>| trim_spec(l),
        ));
    }
    (out, lines.len())
}

/// Declares std::io::Stdin, the process's input stream, as an opaque type.
#[verifier::external_type_specification]
#[verifier::external_body]
pub struct ExStdin(std::io::Stdin);

/// Relies on std::io::Stdin::read_line: appends one line of input to `buf`
/// (its newline included, when one was read) and returns how many bytes came,
/// zero at end of input, in which case `buf` is unchanged; `Err` when the
/// read itself fails.
#[verifier::external_body]
fn read_line_from(stdin: &std::io::Stdin, buf: &mut String) -> (r: Result<usize, ()>)
    ensures
        r matches Ok(n) && n == 0 ==> final(buf)@ == old(buf)@,
{
    match stdin.read_line(buf) {
        Ok(n) => Ok(n),
        Err(_) => Err(()),
    }
}

/// Reads lines from standard input until one is blank once trimmed; returns
/// the earlier lines, trimmed, in reading order. Every returned line is a
/// non-empty, fully trimmed entry.
pub fn read_stdin(stdin: &std::io::Stdin) -> (r: Result<Vec<String>, ()>)
    ensures
        r matches Ok(lines) ==> forall|i: int|
            0 <= i < lines@.len() ==> is_entry(#[trigger] lines@[i]@),
{
    let mut lines: Vec<String> = Vec::new();
    // One round per input line; the bound, which no finite input reaches,
    // only gives the loop a measure.
    let mut rounds: usize = 0;
    while rounds < usize::MAX
        invariant
            forall|i: int| 0 <= i < lines@.len() ==> is_entry(#[trigger] lines@[i]@),
        decreases usize::MAX - rounds,
    {
        let mut buffer = String::new();
        if read_line_from(stdin, &mut buffer).is_err() {
            return Err(());
        }
        match entry_of(buffer.as_str()) {
            None => {
                return Ok(lines);
            },
            Some(e) => {
                proof {
                    lemma_trim_idempotent(buffer@);
                }
                lines.push(e);
            },
        }
        rounds = rounds + 1;
    }
    Ok(lines)
}

} // verus!
