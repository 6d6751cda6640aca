//! The dataset statistics under `/proc/spl/kstat/zfs`: one `objset-` file for each dataset,
//! in the directory of its pool.
use crate::domain::Timestamp;
use crate::metrics::zfs_dataset::{DatasetIoModel, DatasetIoStats, ZfsIoStats};
use crate::text::{
    after_header, chars_of, has_prefix, keyed, last_text, lines, lookup, or_zero, parse_u64,
    parse_u64_of, slice_copy, split_lines, split_whitespace, starts_with, string_of, views,
    words, contains,
};
use vstd::prelude::*;

verus! {

pub const KSTAT_ZFS: &'static str = "/proc/spl/kstat/zfs";

/// Whether a file of this name holds the statistics of a dataset.
pub open spec fn is_objset_name(filename: Seq<char>) -> bool {
    has_prefix(filename, "objset-"@)
}

/// The name and the value of one line: its first and its third field.
pub open spec fn objset_entry_of(line: Seq<char>) -> Option<(Seq<char>, Seq<char>)> {
    let f = words(line);
    if f.len() >= 3 {
        Some((f[0], f[2]))
    } else {
        None
    }
}

/// The names and values of `lines`, in order; nothing when one of the lines has fewer than
/// three fields.
pub open spec fn objset_entries(lines: Seq<Seq<char>>) -> Option<Seq<(Seq<char>, Seq<char>)>>
    decreases lines.len(),
{
    if lines.len() == 0 {
        Some(Seq::empty())
    } else {
        match (objset_entries(lines.drop_last()), objset_entry_of(lines.last())) {
            (Some(rest), Some(e)) => Some(rest.push(e)),
            _ => None,
        }
    }
}

/// The counter `key`: the value of the last line of this name, read as a number; zero when
/// there is no such line or its value is no number.
pub open spec fn counter_of(entries: Seq<(Seq<char>, Seq<char>)>, key: Seq<char>) -> u64 {
    match lookup(entries, key) {
        Some(t) => or_zero(parse_u64_of(t)),
        None => 0,
    }
}

/// The statistics that the text `content` of an `objset-` file in the pool `pool` gives. Its
/// first two lines are headings. A file whose dataset has no name, or is a snapshot (its
/// name holds an `@`), gives nothing.
pub open spec fn objset_of(pool: Seq<char>, content: Seq<char>) -> Option<DatasetIoModel> {
    match objset_entries(after_header(lines(content), 2)) {
        None => None,
        Some(e) => {
            let name = match lookup(e, "dataset_name"@) {
                Some(n) => n,
                None => Seq::empty(),
            };
            if name.len() == 0 || name.contains('@') {
                None
            } else {
                Some(
                    DatasetIoModel {
                        pool,
                        dataset: name,
                        reads: counter_of(e, "reads"@),
                        writes: counter_of(e, "writes"@),
                        nread: counter_of(e, "nread"@),
                        nwritten: counter_of(e, "nwritten"@),
                    },
                )
            }
        },
    }
}

/// One `objset-` file as it was read: the pool in whose directory it lies, and its text.
#[derive(Debug)]
pub struct ObjsetFile {
    pub pool: String,
    pub content: String,
}

/// The statistics of the files `files`, in order.
pub open spec fn datasets_of(files: Seq<ObjsetFile>) -> Seq<DatasetIoModel>
    decreases files.len(),
{
    if files.len() == 0 {
        Seq::empty()
    } else {
        match objset_of(files.last().pool@, files.last().content@) {
            Some(d) => datasets_of(files.drop_last()).push(d),
            None => datasets_of(files.drop_last()),
        }
    }
}

fn counter(entries: &Vec<(Vec<char>, Vec<char>)>, key: &str) -> (n: u64)
    ensures
        n == counter_of(keyed(entries@), key@),
{
    match last_text(entries, key) {
        Some(t) => match parse_u64(t.as_slice()) {
            Some(v) => v,
            None => 0,
        },
        None => 0,
    }
}

/// The reader of the dataset statistics.
#[derive(Debug)]
pub struct KstatZfsDatasetIo {}

impl KstatZfsDatasetIo {
    pub fn new() -> (k: KstatZfsDatasetIo) {
        KstatZfsDatasetIo {  }
    }

    /// Whether a file of this name holds the statistics of a dataset.
    pub fn is_objset_file(&self, filename: &str) -> (b: bool)
        ensures
            b == is_objset_name(filename@),
    {
        let chars = chars_of(filename);
        starts_with(chars.as_slice(), "objset-")
    }

    /// Reads the text of one `objset-` file of the pool `pool`.
    pub fn parse_objset(&self, pool: &str, content: &str) -> (stats: Option<DatasetIoStats>)
        ensures
            match stats {
                Some(s) => objset_of(pool@, content@) == Some(s.deep_view()),
                None => objset_of(pool@, content@) is None,
            },
    {
        let chars = chars_of(content);
        let all = split_lines(chars.as_slice());
        let mut e: Vec<(Vec<char>, Vec<char>)> = Vec::new();
        assert(keyed(e@) =~= Seq::empty());
        let ghost body = after_header(lines(content@), 2);
        if all.len() >= 2 {
            let mut i: usize = 2;
            assert(body.take(0) =~= Seq::empty());
            while i < all.len()
                invariant
                    2 <= i <= all.len(),
                    views(all@) == lines(content@),
                    body == lines(content@).skip(2),
                    objset_entries(body.take(i - 2)) == Some(keyed(e@)),
                decreases all.len() - i,
            {
                assert(body.take(i - 1).drop_last() =~= body.take(i - 2));
                assert(body.take(i - 1).last() == all@[i as int]@);
                let fields = split_whitespace(all[i].as_slice());
                if fields.len() < 3 {
                    proof {
                        lemma_entries_stay_none(body, i - 1);
                    }
                    return None;
                }
                assert(views(fields@)[0] == fields@[0]@);
                assert(views(fields@)[2] == fields@[2]@);
                let name = slice_copy(fields[0].as_slice(), 0, fields[0].len());
                let value = slice_copy(fields[2].as_slice(), 0, fields[2].len());
                assert(name@ =~= fields@[0]@);
                assert(value@ =~= fields@[2]@);
                let ghost before = keyed(e@);
                e.push((name, value));
                assert(keyed(e@) =~= before.push((name@, value@)));
                i += 1;
            }
            assert(body.take(all.len() - 2) =~= body);
        }
        let name = match last_text(&e, "dataset_name") {
            Some(n) => n,
            None => Vec::new(),
        };
        if name.len() == 0 || contains(name.as_slice(), '@') {
            return None;
        }
        Some(
            DatasetIoStats {
                pool: pool.to_owned(),
                dataset: string_of(name.as_slice()),
                reads: counter(&e, "reads"),
                writes: counter(&e, "writes"),
                nread: counter(&e, "nread"),
                nwritten: counter(&e, "nwritten"),
            },
        )
    }

    /// The statistics of one cycle: those of the files `files`, in their order, stamped with
    /// `now`.
    pub fn dataset_io(&self, files: &Vec<ObjsetFile>, now: Timestamp) -> (stats: ZfsIoStats)
        ensures
            stats.timestamp == now,
            stats.datasets.deep_view() == datasets_of(files@),
    {
        let mut datasets: Vec<DatasetIoStats> = Vec::new();
        let mut i: usize = 0;
        assert(datasets.deep_view() =~= datasets_of(files@.take(0)));
        while i < files.len()
            invariant
                i <= files.len(),
                datasets.deep_view() == datasets_of(files@.take(i as int)),
            decreases files.len() - i,
        {
            assert(files@.take(i + 1).drop_last() =~= files@.take(i as int));
            assert(files@.take(i + 1).last() == files@[i as int]);
            if let Some(d) = self.parse_objset(files[i].pool.as_str(), files[i].content.as_str()) {
                let ghost before = datasets.deep_view();
                datasets.push(d);
                assert(datasets.deep_view() =~= before.push(d.deep_view()));
            }
            i += 1;
        }
        assert(files@.take(files.len() as int) =~= files@);
        ZfsIoStats { timestamp: now, datasets }
    }
}

/// Once a line has fewer than three fields, no further line makes up for it.
pub proof fn lemma_entries_stay_none(lines: Seq<Seq<char>>, n: int)
    requires
        0 <= n <= lines.len(),
        objset_entries(lines.take(n)) is None,
    ensures
        objset_entries(lines) is None,
    decreases lines.len() - n,
{
    if n < lines.len() {
        assert(lines.take(n + 1).drop_last() =~= lines.take(n));
        lemma_entries_stay_none(lines, n + 1);
    } else {
        assert(lines.take(n) =~= lines);
    }
}

/// Reading the same text twice gives the same statistics, or nothing both times: the reading
/// depends on nothing but the pool and the text.
pub proof fn lemma_parse_objset_is_repeatable(
    source: &KstatZfsDatasetIo,
    pool: &str,
    content: &str,
    again: &str,
    first: Option<DatasetIoStats>,
    second: Option<DatasetIoStats>,
)
    requires
        content@ == again@,
        call_ensures(KstatZfsDatasetIo::parse_objset, (source, pool, content), first),
        call_ensures(KstatZfsDatasetIo::parse_objset, (source, pool, again), second),
    ensures
        first is Some == second is Some,
        first is Some ==> first->Some_0.deep_view() == second->Some_0.deep_view(),
{
}

} // verus!
