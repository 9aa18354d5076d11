use vstd::prelude::*;
use crate::diff::{parse_decimal, parse_usize};
use crate::text::{lines, lines_seq, split_seq, split_text, views};

verus! {

/// Reads what the version-control tool prints.
pub struct GitManager;

/// What `u32::from_str` gives.
pub open spec fn parse_u32(s: Seq<char>) -> Option<nat> {
    match parse_usize(s) {
        Some(n) => if n <= u32::MAX {
            Some(n)
        } else {
            None
        },
        None => None,
    }
}

pub open spec fn u32_or_zero(s: Seq<char>) -> nat {
    match parse_u32(s) {
        Some(n) => n,
        None => 0,
    }
}

/// The entry of one line of `--numstat` output, if it has the three tab-separated fields;
/// a count that is not a number counts as zero.
pub open spec fn numstat_entry(line: Seq<char>) -> Option<(Seq<char>, nat, nat)> {
    let parts = split_seq(line, "\t"@);
    if parts.len() >= 3 {
        Some((parts[2], u32_or_zero(parts[0]), u32_or_zero(parts[1])))
    } else {
        None
    }
}

/// The entries of all lines that have one, in order.
pub open spec fn numstat_entries(ls: Seq<Seq<char>>) -> Seq<(Seq<char>, nat, nat)>
    decreases ls.len(),
{
    if ls.len() == 0 {
        Seq::empty()
    } else {
        let rest = numstat_entries(ls.drop_last());
        match numstat_entry(ls.last()) {
            Some(e) => rest.push(e),
            None => rest,
        }
    }
}

pub open spec fn stat_view(v: Seq<(String, u32, u32)>) -> Seq<(Seq<char>, nat, nat)> {
    v.map_values(|e: (String, u32, u32)| (e.0@, e.1 as nat, e.2 as nat))
}

fn count_or_zero(s: &str) -> (r: u32)
    ensures
        r as nat == u32_or_zero(s@),
{
    match parse_decimal(s) {
        Some(n) => if n <= u32::MAX as usize {
            n as u32
        } else {
            0
        },
        None => 0,
    }
}

impl GitManager {
    /// The lines of the tool's output, one entry each.
    pub fn parse_lines(output: &str) -> (r: Vec<String>)
        ensures
            views(r@) == lines_seq(output@),
    {
        lines(output)
    }

    /// Per-file insertions and deletions from `--numstat` output.
    pub fn parse_numstat(output: &str) -> (r: Vec<(String, u32, u32)>)
        ensures
            stat_view(r@) == numstat_entries(lines_seq(output@)),
    {
        let ls = lines(output);
        let ghost lv = views(ls@);
        let mut out: Vec<(String, u32, u32)> = Vec::new();
        let mut i: usize = 0;
        while i < ls.len()
            invariant
                lv == views(ls@),
                i <= ls@.len(),
                stat_view(out@) == numstat_entries(lv.subrange(0, i as int)),
            decreases ls@.len() - i,
        {
            proof {
                reveal_strlit("\t");
            }
            assert(lv.subrange(0, i + 1).drop_last() =~= lv.subrange(0, i as int));
            assert(lv[i as int] == ls@[i as int]@);
            let parts = split_text(ls[i].as_str(), "\t");
            if parts.len() >= 3 {
                let ins = count_or_zero(parts[0].as_str());
                let del = count_or_zero(parts[1].as_str());
                let ghost before = stat_view(out@);
                out.push((parts[2].clone(), ins, del));
                assert(stat_view(out@) =~= before.push((parts@[2]@, ins as nat, del as nat)));
            }
            i += 1;
        }
        assert(lv.subrange(0, i as int) =~= lv);
        out
    }
}

} // verus!
