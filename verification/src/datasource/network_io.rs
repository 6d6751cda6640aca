//! The interface counters of `/proc/net/dev`.
use crate::domain::Timestamp;
use crate::metrics::network_io::{InterfaceModel, InterfaceStats, NetworkIoStats};
use crate::text::{
    after_header, chars_of, field_or_zero, lines, number_at, split_lines, split_once,
    split_once_of, split_whitespace, string_of, trim, trim_matches, views, words, CharClass,
};
use vstd::prelude::*;

verus! {

pub const PATH_NET_DEV: &'static str = "/proc/net/dev";

/// The counters that one line gives: the interface stands before the colon; after it, the
/// first two fields are the bytes and packets received and the ninth and tenth the bytes and
/// packets sent. A blank line and a line without a colon give nothing.
pub open spec fn interface_row_of(raw: Seq<char>) -> Option<InterfaceModel> {
    let line = trim(raw);
    if line.len() == 0 {
        None
    } else {
        match split_once_of(line, ':') {
            None => None,
            Some(parts) => {
                let f = words(parts.1);
                Some(
                    InterfaceModel {
                        interface: trim(parts.0),
                        bytes_sent: field_or_zero(f, 8),
                        bytes_received: field_or_zero(f, 0),
                        packets_sent: field_or_zero(f, 9),
                        packets_received: field_or_zero(f, 1),
                    },
                )
            },
        }
    }
}

/// The counters that `lines` give, in order.
pub open spec fn interface_rows(lines: Seq<Seq<char>>) -> Seq<InterfaceModel>
    decreases lines.len(),
{
    if lines.len() == 0 {
        Seq::empty()
    } else {
        match interface_row_of(lines.last()) {
            Some(row) => interface_rows(lines.drop_last()).push(row),
            None => interface_rows(lines.drop_last()),
        }
    }
}

/// The reader of `/proc/net/dev`.
#[derive(Debug)]
pub struct NetworkIo {}

impl NetworkIo {
    pub fn new() -> (n: NetworkIo) {
        NetworkIo {  }
    }

    /// Reads one line.
    pub fn parse_line(&self, raw: &[char]) -> (row: Option<InterfaceStats>)
        ensures
            match row {
                Some(r) => interface_row_of(raw@) == Some(r.deep_view()),
                None => interface_row_of(raw@) is None,
            },
    {
        let line = trim_matches(raw, CharClass::Whitespace);
        if line.len() == 0 {
            return None;
        }
        match split_once(line.as_slice(), ':') {
            None => None,
            Some((iface, stats)) => {
                let fields = split_whitespace(stats.as_slice());
                let name = trim_matches(iface.as_slice(), CharClass::Whitespace);
                Some(
                    InterfaceStats {
                        interface: string_of(name.as_slice()),
                        bytes_sent: number_at(&fields, 8),
                        bytes_received: number_at(&fields, 0),
                        packets_sent: number_at(&fields, 9),
                        packets_received: number_at(&fields, 1),
                    },
                )
            },
        }
    }

    /// Reads the text of `/proc/net/dev`, taken at `now`: its first two lines are headings.
    pub fn network_io(&self, content: &str, now: Timestamp) -> (stats: NetworkIoStats)
        ensures
            stats.timestamp == now,
            stats.interfaces.deep_view() == interface_rows(after_header(lines(content@), 2)),
    {
        let chars = chars_of(content);
        let all = split_lines(chars.as_slice());
        let mut interfaces: Vec<InterfaceStats> = Vec::new();
        assert(interfaces.deep_view() =~= Seq::empty());
        if all.len() < 2 {
            return NetworkIoStats { timestamp: now, interfaces };
        }
        let mut i: usize = 2;
        let ghost body = after_header(lines(content@), 2);
        assert(body.take(0) =~= Seq::empty());
        while i < all.len()
            invariant
                2 <= i <= all.len(),
                views(all@) == lines(content@),
                body == lines(content@).skip(2),
                interfaces.deep_view() == interface_rows(body.take(i - 2)),
            decreases all.len() - i,
        {
            assert(body.take(i - 1).drop_last() =~= body.take(i - 2));
            assert(body.take(i - 1).last() == all@[i as int]@);
            if let Some(row) = self.parse_line(all[i].as_slice()) {
                let ghost before = interfaces.deep_view();
                interfaces.push(row);
                assert(interfaces.deep_view() =~= before.push(row.deep_view()));
            }
            i += 1;
        }
        assert(body.take(all.len() - 2) =~= body);
        NetworkIoStats { timestamp: now, interfaces }
    }
}

/// Reading the same text twice gives the same interfaces with the same counters: the reading
/// depends on nothing but the text.
pub proof fn lemma_network_io_is_repeatable(
    source: &NetworkIo,
    content: &str,
    again: &str,
    now: Timestamp,
    first: NetworkIoStats,
    second: NetworkIoStats,
)
    requires
        content@ == again@,
        call_ensures(NetworkIo::network_io, (source, content, now), first),
        call_ensures(NetworkIo::network_io, (source, again, now), second),
    ensures
        first.timestamp == second.timestamp,
        first.interfaces.deep_view() == second.interfaces.deep_view(),
{
}

} // verus!
