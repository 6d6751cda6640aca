//! The memory figures of `/proc/meminfo`.
use crate::metrics::memory_usage::{RamStats, SwapStats};
use crate::number::{minus, plus};
use crate::text::{
    chars_of, last_number, lines, lookup, numbered, or_zero, parse_u64, parse_u64_of,
    rsplit_once, rsplit_once_of, saturating_mul, saturating_product, split_lines, split_once,
    split_once_of, trim, trim_matches, trim_start_matches, trim_start_of, views, CharClass,
    equals,
};
use vstd::prelude::*;

verus! {

pub const PATH_MEM_INFO: &'static str = "/proc/meminfo";

/// The text of the number and the text of the unit in what follows the colon: they are parted
/// by the last space, and where there is no space after the leading blanks, all of it is the
/// number.
pub open spec fn value_and_unit(rest: Seq<char>) -> (Seq<char>, Seq<char>) {
    match rsplit_once_of(trim_start_of(rest, CharClass::Whitespace), ' ') {
        None => (rest, Seq::empty()),
        Some(parts) => parts,
    }
}

/// The key of one line and its figure in bytes. The key stands before the colon. A number
/// that cannot be read counts as zero; the unit is none, `kB` or `mB`, and a line with
/// another unit, or without a colon, gives nothing.
pub open spec fn mem_entry_of(line: Seq<char>) -> Option<(Seq<char>, u64)> {
    match split_once_of(line, ':') {
        None => None,
        Some(parts) => {
            let value = or_zero(parse_u64_of(trim(value_and_unit(parts.1).0)));
            let unit = trim(value_and_unit(parts.1).1);
            if unit.len() == 0 {
                Some((parts.0, value))
            } else if unit == "kB"@ {
                Some((parts.0, saturating_product(value, 1024)))
            } else if unit == "mB"@ {
                Some((parts.0, saturating_product(saturating_product(value, 1024), 1024)))
            } else {
                None
            }
        },
    }
}

/// The figures that `lines` give, in order.
pub open spec fn mem_entries(lines: Seq<Seq<char>>) -> Seq<(Seq<char>, u64)>
    decreases lines.len(),
{
    if lines.len() == 0 {
        Seq::empty()
    } else {
        match mem_entry_of(lines.last()) {
            Some(e) => mem_entries(lines.drop_last()).push(e),
            None => mem_entries(lines.drop_last()),
        }
    }
}

/// The figure of `key`: that of the last line with this key, or zero.
pub open spec fn figure(entries: Seq<(Seq<char>, u64)>, key: Seq<char>) -> u64 {
    or_zero(lookup(entries, key))
}

/// The swap figures of the text `content`.
pub open spec fn swap_of(content: Seq<char>) -> SwapStats {
    let e = mem_entries(lines(content));
    let total = figure(e, "SwapTotal"@);
    let free = figure(e, "SwapFree"@);
    SwapStats { total, used: minus(total, free), free }
}

/// The memory figures of the text `content`: the cache is the page cache and the reclaimable
/// slab, and what is used is the total less what is free, in buffers or in the cache.
pub open spec fn ram_of(content: Seq<char>) -> RamStats {
    let e = mem_entries(lines(content));
    let total = figure(e, "MemTotal"@);
    let free = figure(e, "MemFree"@);
    let buffers = figure(e, "Buffers"@);
    let cache = plus(figure(e, "Cached"@), figure(e, "SReclaimable"@));
    RamStats {
        total,
        used: minus(minus(minus(total, free), buffers), cache),
        free,
        available: figure(e, "MemAvailable"@),
        buffers,
        cache,
    }
}

/// The reader of `/proc/meminfo`.
#[derive(Debug)]
pub struct MemoryUsage {}

impl MemoryUsage {
    pub fn new() -> (m: MemoryUsage) {
        MemoryUsage {  }
    }

    /// Reads one line.
    pub fn parse_line(&self, line: &[char]) -> (entry: Option<(Vec<char>, u64)>)
        ensures
            match entry {
                Some(e) => mem_entry_of(line@) == Some((e.0@, e.1)),
                None => mem_entry_of(line@) is None,
            },
    {
        let (key, rest) = match split_once(line, ':') {
            None => {
                return None;
            },
            Some(parts) => parts,
        };
        let lead = trim_start_matches(rest.as_slice(), CharClass::Whitespace);
        let (value, unit) = match rsplit_once(lead.as_slice(), ' ') {
            None => (rest, Vec::new()),
            Some(parts) => parts,
        };
        assert((value@, unit@) == value_and_unit(rest@));
        let number = trim_matches(value.as_slice(), CharClass::Whitespace);
        let value: u64 = match parse_u64(number.as_slice()) {
            Some(v) => v,
            None => 0,
        };
        let unit = trim_matches(unit.as_slice(), CharClass::Whitespace);
        if unit.len() == 0 {
            Some((key, value))
        } else if equals(unit.as_slice(), "kB") {
            Some((key, saturating_mul(value, 1024)))
        } else if equals(unit.as_slice(), "mB") {
            Some((key, saturating_mul(saturating_mul(value, 1024), 1024)))
        } else {
            None
        }
    }

    fn entries(&self, content: &str) -> (out: Vec<(Vec<char>, u64)>)
        ensures
            numbered(out@) == mem_entries(lines(content@)),
    {
        let chars = chars_of(content);
        let all = split_lines(chars.as_slice());
        let mut out: Vec<(Vec<char>, u64)> = Vec::new();
        let mut i: usize = 0;
        assert(numbered(out@) =~= Seq::empty());
        while i < all.len()
            invariant
                i <= all.len(),
                views(all@) == lines(content@),
                numbered(out@) == mem_entries(lines(content@).take(i as int)),
            decreases all.len() - i,
        {
            let ghost ls = lines(content@);
            assert(ls.take(i + 1).drop_last() =~= ls.take(i as int));
            assert(ls.take(i + 1).last() == all@[i as int]@);
            if let Some(e) = self.parse_line(all[i].as_slice()) {
                let ghost before = numbered(out@);
                out.push(e);
                assert(numbered(out@) =~= before.push((e.0@, e.1)));
            }
            i += 1;
        }
        assert(lines(content@).take(all.len() as int) =~= lines(content@));
        out
    }

    /// Reads the swap figures from the text of `/proc/meminfo`.
    pub fn swap(&self, content: &str) -> (stats: SwapStats)
        ensures
            stats == swap_of(content@),
    {
        let e = self.entries(content);
        let total = last_number(&e, "SwapTotal").unwrap_or(0);
        let free = last_number(&e, "SwapFree").unwrap_or(0);
        SwapStats { total, used: total.saturating_sub(free), free }
    }

    /// Reads the memory figures from the text of `/proc/meminfo`.
    pub fn ram(&self, content: &str) -> (stats: RamStats)
        ensures
            stats == ram_of(content@),
    {
        let e = self.entries(content);
        let total = last_number(&e, "MemTotal").unwrap_or(0);
        let free = last_number(&e, "MemFree").unwrap_or(0);
        let available = last_number(&e, "MemAvailable").unwrap_or(0);
        let buffers = last_number(&e, "Buffers").unwrap_or(0);
        let cached = last_number(&e, "Cached").unwrap_or(0);
        let sreclaimable = last_number(&e, "SReclaimable").unwrap_or(0);
        let cache = cached.saturating_add(sreclaimable);
        let used = total.saturating_sub(free).saturating_sub(buffers).saturating_sub(cache);
        RamStats { total, used, free, available, buffers, cache }
    }
}

/// Reading the same text twice gives the same figures: the reading depends on nothing but
/// the text.
pub proof fn lemma_memory_usage_is_repeatable(
    source: &MemoryUsage,
    content: &str,
    again: &str,
    first: RamStats,
    second: RamStats,
    first_swap: SwapStats,
    second_swap: SwapStats,
)
    requires
        content@ == again@,
        call_ensures(MemoryUsage::ram, (source, content), first),
        call_ensures(MemoryUsage::ram, (source, again), second),
        call_ensures(MemoryUsage::swap, (source, content), first_swap),
        call_ensures(MemoryUsage::swap, (source, again), second_swap),
    ensures
        first == second,
        first_swap == second_swap,
{
}

} // verus!
