//! The cache statistics of `/proc/spl/kstat/zfs/arcstats`.
use crate::domain::Timestamp;
use crate::metrics::zfs_arc::ArcStats;
use crate::text::{
    after_header, chars_of, last_number, lines, lookup, numbered, or_zero, parse_u64,
    parse_u64_of, slice_copy, split_lines, split_whitespace, views, words,
};
use vstd::prelude::*;

verus! {

pub const PATH_ARCSTATS: &'static str = "/proc/spl/kstat/zfs/arcstats";

/// The name and the value of one line: its first and its third field. A line with fewer
/// fields, or whose third field is no number, gives nothing.
pub open spec fn arc_entry_of(line: Seq<char>) -> Option<(Seq<char>, u64)> {
    let f = words(line);
    if f.len() >= 3 {
        match parse_u64_of(f[2]) {
            Some(v) => Some((f[0], v)),
            None => None,
        }
    } else {
        None
    }
}

/// The values that `lines` give, in order.
pub open spec fn arc_entries(lines: Seq<Seq<char>>) -> Seq<(Seq<char>, u64)>
    decreases lines.len(),
{
    if lines.len() == 0 {
        Seq::empty()
    } else {
        match arc_entry_of(lines.last()) {
            Some(e) => arc_entries(lines.drop_last()).push(e),
            None => arc_entries(lines.drop_last()),
        }
    }
}

/// The statistics of the text `content`, whose first two lines are headings: each value is
/// that of the last line with its name, or zero.
pub open spec fn arc_stats_of(content: Seq<char>, now: Timestamp) -> ArcStats {
    let e = arc_entries(after_header(lines(content), 2));
    ArcStats {
        timestamp: now,
        hits: or_zero(lookup(e, "hits"@)),
        misses: or_zero(lookup(e, "misses"@)),
        size: or_zero(lookup(e, "size"@)),
        target_size: or_zero(lookup(e, "c"@)),
        max_size: or_zero(lookup(e, "c_max"@)),
    }
}

/// The reader of the cache statistics.
#[derive(Debug)]
pub struct KstatZfs {}

impl KstatZfs {
    pub fn new() -> (k: KstatZfs) {
        KstatZfs {  }
    }

    /// Reads one line.
    pub fn parse_line(&self, line: &[char]) -> (entry: Option<(Vec<char>, u64)>)
        ensures
            match entry {
                Some(e) => arc_entry_of(line@) == Some((e.0@, e.1)),
                None => arc_entry_of(line@) is None,
            },
    {
        let fields = split_whitespace(line);
        if fields.len() < 3 {
            return None;
        }
        assert(views(fields@)[0] == fields@[0]@);
        assert(views(fields@)[2] == fields@[2]@);
        match parse_u64(fields[2].as_slice()) {
            Some(v) => {
                let name = slice_copy(fields[0].as_slice(), 0, fields[0].len());
                assert(name@ =~= fields@[0]@);
                Some((name, v))
            },
            None => None,
        }
    }

    /// Reads the text of the cache statistics, taken at `now`.
    pub fn arc_stats(&self, content: &str, now: Timestamp) -> (stats: ArcStats)
        ensures
            stats == arc_stats_of(content@, now),
    {
        let chars = chars_of(content);
        let all = split_lines(chars.as_slice());
        let mut e: Vec<(Vec<char>, u64)> = Vec::new();
        assert(numbered(e@) =~= Seq::empty());
        let ghost body = after_header(lines(content@), 2);
        if all.len() >= 2 {
            let mut i: usize = 2;
            assert(body.take(0) =~= Seq::empty());
            while i < all.len()
                invariant
                    2 <= i <= all.len(),
                    views(all@) == lines(content@),
                    body == lines(content@).skip(2),
                    numbered(e@) == arc_entries(body.take(i - 2)),
                decreases all.len() - i,
            {
                assert(body.take(i - 1).drop_last() =~= body.take(i - 2));
                assert(body.take(i - 1).last() == all@[i as int]@);
                if let Some(entry) = self.parse_line(all[i].as_slice()) {
                    let ghost before = numbered(e@);
                    e.push(entry);
                    assert(numbered(e@) =~= before.push((entry.0@, entry.1)));
                }
                i += 1;
            }
            assert(body.take(all.len() - 2) =~= body);
        }
        ArcStats {
            timestamp: now,
            hits: last_number(&e, "hits").unwrap_or(0),
            misses: last_number(&e, "misses").unwrap_or(0),
            size: last_number(&e, "size").unwrap_or(0),
            target_size: last_number(&e, "c").unwrap_or(0),
            max_size: last_number(&e, "c_max").unwrap_or(0),
        }
    }
}

/// Reading the same text twice gives the same statistics: the reading depends on nothing
/// but the text.
pub proof fn lemma_arc_stats_is_repeatable(
    source: &KstatZfs,
    content: &str,
    again: &str,
    now: Timestamp,
    first: ArcStats,
    second: ArcStats,
)
    requires
        content@ == again@,
        call_ensures(KstatZfs::arc_stats, (source, content, now), first),
        call_ensures(KstatZfs::arc_stats, (source, again, now), second),
    ensures
        first == second,
{
}

} // verus!
