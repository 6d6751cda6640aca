//! The block device counters of `/proc/diskstats`.
use crate::domain::Timestamp;
use crate::metrics::disk_io::{DeviceIoModel, DeviceIoStats, DiskIoStats};
use crate::text::{
    chars_of, field_or_zero, has_prefix, lines, number_at, saturating_mul, saturating_product,
    split_lines, split_whitespace, starts_with, string_of, views, words,
};
use vstd::prelude::*;

verus! {

pub const PATH_DISK_STATS: &'static str = "/proc/diskstats";

/// The kernel counts sectors of this many bytes, whatever the device's own sector size.
pub const KERNEL_SECTOR_SIZE: u64 = 512;

/// Whether the data source leaves out a device of this name: loop devices, compressed RAM
/// disks, and the partitions of the array `md1`.
pub open spec fn is_excluded(device: Seq<char>) -> bool {
    has_prefix(device, "loop"@) || has_prefix(device, "zram"@) || has_prefix(device, "md1p"@)
}

/// Whether the data source leaves out a device of this name.
pub fn is_excluded_device(device: &[char]) -> (b: bool)
    ensures
        b == is_excluded(device@),
{
    starts_with(device, "loop") || starts_with(device, "zram") || starts_with(device, "md1p")
}

/// The counters that one line gives: the third field is the device, the fourth and the
/// eighth the reads and writes completed, the sixth and the tenth the sectors read and
/// written. A line without a third field, or of an excluded device, gives nothing.
pub open spec fn disk_row_of(line: Seq<char>) -> Option<DeviceIoModel> {
    let f = words(line);
    if f.len() > 2 && !is_excluded(f[2]) {
        Some(
            DeviceIoModel {
                device_name: f[2],
                bytes_read: saturating_product(field_or_zero(f, 5), 512),
                bytes_written: saturating_product(field_or_zero(f, 9), 512),
                read_ops: field_or_zero(f, 3),
                write_ops: field_or_zero(f, 7),
            },
        )
    } else {
        None
    }
}

/// The counters that `lines` give, in order.
pub open spec fn disk_rows(lines: Seq<Seq<char>>) -> Seq<DeviceIoModel>
    decreases lines.len(),
{
    if lines.len() == 0 {
        Seq::empty()
    } else {
        match disk_row_of(lines.last()) {
            Some(row) => disk_rows(lines.drop_last()).push(row),
            None => disk_rows(lines.drop_last()),
        }
    }
}

/// The reader of `/proc/diskstats`.
#[derive(Debug)]
pub struct DiskIo {}

impl DiskIo {
    pub fn new() -> (d: DiskIo) {
        DiskIo {  }
    }

    /// Reads one line.
    pub fn parse_line(&self, line: &[char]) -> (row: Option<DeviceIoStats>)
        ensures
            match row {
                Some(r) => disk_row_of(line@) == Some(r.deep_view()),
                None => disk_row_of(line@) is None,
            },
    {
        let fields = split_whitespace(line);
        if fields.len() <= 2 {
            return None;
        }
        assert(views(fields@)[2] == fields@[2]@);
        if is_excluded_device(fields[2].as_slice()) {
            return None;
        }
        let read_ops = number_at(&fields, 3);
        let bytes_read = saturating_mul(number_at(&fields, 5), KERNEL_SECTOR_SIZE);
        let write_ops = number_at(&fields, 7);
        let bytes_written = saturating_mul(number_at(&fields, 9), KERNEL_SECTOR_SIZE);
        Some(
            DeviceIoStats {
                device_name: string_of(fields[2].as_slice()),
                bytes_read,
                bytes_written,
                read_ops,
                write_ops,
            },
        )
    }

    /// Reads the text of `/proc/diskstats`, taken at `now`.
    pub fn disk_io(&self, content: &str, now: Timestamp) -> (stats: DiskIoStats)
        ensures
            stats.timestamp == now,
            stats.disks.deep_view() == disk_rows(lines(content@)),
    {
        let chars = chars_of(content);
        let all = split_lines(chars.as_slice());
        let mut disks: Vec<DeviceIoStats> = Vec::new();
        let mut i: usize = 0;
        assert(disks.deep_view() =~= Seq::empty());
        while i < all.len()
            invariant
                i <= all.len(),
                views(all@) == lines(content@),
                disks.deep_view() == disk_rows(lines(content@).take(i as int)),
            decreases all.len() - i,
        {
            let ghost ls = lines(content@);
            assert(ls.take(i + 1).drop_last() =~= ls.take(i as int));
            assert(ls.take(i + 1).last() == all@[i as int]@);
            if let Some(row) = self.parse_line(all[i].as_slice()) {
                let ghost before = disks.deep_view();
                disks.push(row);
                assert(disks.deep_view() =~= before.push(row.deep_view()));
            }
            i += 1;
        }
        assert(lines(content@).take(all.len() as int) =~= lines(content@));
        DiskIoStats { timestamp: now, disks }
    }
}

/// Reading the same text twice gives the same devices with the same counters: the reading
/// depends on nothing but the text.
pub proof fn lemma_disk_io_is_repeatable(
    source: &DiskIo,
    content: &str,
    again: &str,
    now: Timestamp,
    first: DiskIoStats,
    second: DiskIoStats,
)
    requires
        content@ == again@,
        call_ensures(DiskIo::disk_io, (source, content, now), first),
        call_ensures(DiskIo::disk_io, (source, again, now), second),
    ensures
        first.timestamp == second.timestamp,
        first.disks.deep_view() == second.disks.deep_view(),
{
}

} // verus!
