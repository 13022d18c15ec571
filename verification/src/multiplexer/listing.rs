//! Reading the sessions off what a multiplexer printed.

use crate::text::{
    before_first, chars_of, find_first, lemma_first_index, rows, slice_of, split, split_on,
    string_of, trim_end, trim_end_of, views,
};
use vstd::prelude::*;

verus! {

/// The session that a line of a listing names: the line itself, or what
/// stands before its first `:` where `cut` is set; none where that is empty.
pub open spec fn line_name(cut: bool) -> spec_fn(Seq<char>) -> Option<Seq<char>> {
    |line: Seq<char>|
        {
            let name = if cut { before_first(line, ':') } else { line };
            if name.len() > 0 { Some(name) } else { None }
        }
}

/// The sessions that a listing names, in its order: one per line that names
/// one, white space at the end of the listing aside.
pub open spec fn listed_sessions(stdout: Seq<char>, cut: bool) -> Seq<Seq<char>> {
    split_on(trim_end_of(stdout), '\n').filter_map(line_name(cut))
}

/// Reads the session names off a listing.
pub fn parse_sessions(stdout: &str, cut: bool) -> (r: Vec<String>)
    ensures
        views(r@) == listed_sessions(stdout@, cut),
{
    let text = trim_end(&chars_of(stdout));
    let lines = split(&text, '\n');
    let mut out: Vec<String> = Vec::new();
    let mut i: usize = 0;
    assert(rows(lines@).take(0).filter_map(line_name(cut)) =~= Seq::<Seq<char>>::empty());
    while i < lines.len()
        invariant
            i <= lines@.len(),
            views(out@) == rows(lines@).take(i as int).filter_map(line_name(cut)),
        decreases lines@.len() - i,
    {
        let line = &lines[i];
        let end = if cut { find_first(line, ':') } else { line.len() };
        proof {
            lemma_first_index(line@, ':');
            rows(lines@).lemma_filter_map_take_succ(line_name(cut), i as int);
            assert(line@.subrange(0, line@.len() as int) =~= line@);
        }
        if end > 0 {
            let name = string_of(&slice_of(line, 0, end));
            assert(views(out@.push(name)) =~= views(out@) + seq![name@]);
            out.push(name);
        } else {
            assert(views(out@) + Seq::<Seq<char>>::empty() =~= views(out@));
        }
        i = i + 1;
    }
    assert(rows(lines@).take(lines@.len() as int) =~= rows(lines@));
    out
}

} // verus!
