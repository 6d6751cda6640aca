//! The disks' self-monitoring reports, read from the JSON that `smartctl` prints.
use crate::domain::{CollectError, Timestamp};
use crate::metrics::disk_smart::{Device, NvmeDevice, SataDevice, SmartReports};
use crate::number::Ratio;
use crate::text::or_zero;
use vstd::prelude::*;

verus! {

/// `serde_json::Value`, a JSON value. Nothing of what is inside it is known here: it is only
/// handed on and asked through the functions below.
#[verifier::external_type_specification]
#[verifier::external_body]
pub struct ExValue(serde_json::Value);

/// `serde_json::Error`, the failure of `serde_json::from_slice`.
#[verifier::external_type_specification]
#[verifier::external_body]
pub struct ExJsonError(serde_json::Error);

/// The value that `serde_json::from_slice` reads from `bytes`; `None` where it fails.
pub uninterp spec fn json_document(bytes: Seq<u8>) -> Option<serde_json::Value>;

/// What indexing `v` with the key `key` gives.
pub uninterp spec fn json_member(v: serde_json::Value, key: Seq<char>) -> serde_json::Value;

/// What `serde_json::Value::as_u64` gives for `v`.
pub uninterp spec fn json_u64(v: serde_json::Value) -> Option<u64>;

/// What `serde_json::Value::as_str` gives for `v`.
pub uninterp spec fn json_text(v: serde_json::Value) -> Option<Seq<char>>;

/// What `serde_json::Value::as_array` gives for `v`.
pub uninterp spec fn json_items(v: serde_json::Value) -> Option<Seq<serde_json::Value>>;

/// Calls `serde_json::from_slice` for a `serde_json::Value`. What it reads, or that it fails,
/// depends on `bytes` alone, and goes by the name `json_document`; nothing more is claimed.
#[verifier::external_body]
fn from_slice(bytes: &[u8]) -> (r: Result<serde_json::Value, serde_json::Error>)
    ensures
        match r {
            Ok(v) => json_document(bytes@) == Some(v),
            Err(_) => json_document(bytes@) is None,
        },
{
    serde_json::from_slice(bytes)
}

/// Indexes a `serde_json::Value` with a string key (`std::ops::Index`), which never panics:
/// where there is no such member, the index gives the null value. What it gives depends on
/// the value and the key alone, and goes by the name `json_member`; nothing more is claimed.
#[verifier::external_body]
fn member<'a>(v: &'a serde_json::Value, key: &str) -> (m: &'a serde_json::Value)
    ensures
        *m == json_member(*v, key@),
{
    &v[key]
}

/// Calls `serde_json::Value::as_u64`. What it gives depends on the value alone, and goes by
/// the name `json_u64`; nothing more is claimed.
#[verifier::external_body]
fn as_u64(v: &serde_json::Value) -> (n: Option<u64>)
    ensures
        n == json_u64(*v),
{
    v.as_u64()
}

/// Calls `serde_json::Value::as_str`. What it gives depends on the value alone, and goes by
/// the name `json_text`; nothing more is claimed.
#[verifier::external_body]
fn as_str<'a>(v: &'a serde_json::Value) -> (s: Option<&'a str>)
    ensures
        match s {
            Some(t) => json_text(*v) == Some(t@),
            None => json_text(*v) is None,
        },
{
    v.as_str()
}

/// Calls `serde_json::Value::as_array`. What it gives depends on the value alone, and goes
/// by the name `json_items`; nothing more is claimed.
#[verifier::external_body]
fn as_array<'a>(v: &'a serde_json::Value) -> (a: Option<&'a Vec<serde_json::Value>>)
    ensures
        match a {
            Some(items) => json_items(*v) == Some(items@),
            None => json_items(*v) is None,
        },
{
    v.as_array()
}

/// How a run of `smartctl` ended.
#[derive(Clone, Copy, Debug, PartialEq, Eq, Structural)]
pub struct ExitStatus {
    pub success: bool,
    pub code: Option<i32>,
}

/// The exit code by which `smartctl` says that it left a disk alone because the disk is in
/// a low-power state.
pub const EXIT_STANDBY: i32 = 2;

/// The report of one disk.
#[derive(Debug)]
pub enum DeviceReport {
    Sata(SataDevice),
    Nvme(NvmeDevice),
}

/// The integer `n` as a value.
pub open spec fn count(n: Option<u64>) -> Option<Ratio> {
    match n {
        Some(v) => Some(Ratio { num: v as u128, den: 1 }),
        None => None,
    }
}

/// The percentage `n` as a fraction of one.
pub open spec fn hundredths(n: Option<u64>) -> Option<Ratio> {
    match n {
        Some(v) => Some(Ratio { num: v as u128, den: 100 }),
        None => None,
    }
}

/// The number under `key` in `v`.
pub open spec fn number_in(v: serde_json::Value, key: Seq<char>) -> Option<u64> {
    json_u64(json_member(v, key))
}

/// The text under `key` in `v`, or `fallback` where there is none.
pub open spec fn text_in(v: serde_json::Value, key: Seq<char>, fallback: Seq<char>) -> Seq<char> {
    match json_text(json_member(v, key)) {
        Some(t) => t,
        None => fallback,
    }
}

/// The device paths that the scan `json` lists: the `name` of each entry of `devices` that
/// has one.
pub open spec fn scanned(items: Seq<serde_json::Value>) -> Seq<Seq<char>>
    decreases items.len(),
{
    if items.len() == 0 {
        Seq::empty()
    } else {
        match json_text(json_member(items.last(), "name"@)) {
            Some(name) => scanned(items.drop_last()).push(name),
            None => scanned(items.drop_last()),
        }
    }
}

pub open spec fn scanned_in(json: serde_json::Value) -> Seq<Seq<char>> {
    match json_items(json_member(json, "devices"@)) {
        Some(items) => scanned(items),
        None => Seq::empty(),
    }
}

/// The report of the NVMe disk `info` in `json`: the figures of its health log, the spare
/// capacity and the life used as fractions of one.
pub open spec fn nvme_of(info: Device, json: serde_json::Value) -> NvmeDevice {
    let health = json_member(json, "nvme_smart_health_information_log"@);
    NvmeDevice {
        device: info,
        temperature: count(number_in(health, "temperature"@)),
        available_spare: hundredths(number_in(health, "available_spare"@)),
        percent_used: hundredths(number_in(health, "percentage_used"@)),
        data_units_read: number_in(health, "data_units_read"@),
        data_units_written: number_in(health, "data_units_written"@),
        host_reads: number_in(health, "host_reads"@),
        host_writes: number_in(health, "host_writes"@),
        power_on_hours: number_in(health, "power_on_hours"@),
        unsafe_shutdowns: number_in(health, "unsafe_shutdowns"@),
        media_errors: number_in(health, "media_errors"@),
    }
}

/// The identifier and the raw value of one entry of the attribute table; an entry without an
/// identifier is none, and an entry without a raw value has the raw value zero.
pub open spec fn attribute_of(item: serde_json::Value) -> Option<(u64, u64)> {
    match number_in(item, "id"@) {
        Some(id) => Some((id, or_zero(number_in(json_member(item, "raw"@), "value"@)))),
        None => None,
    }
}

/// The report `d` after the attribute `id` with the raw value `raw` was read.
///
/// Attributes 194 and 190 hold the temperature in the lowest byte, and, where the raw value
/// goes beyond two bytes, the lowest temperature in the third byte and the highest in the
/// fifth. Attributes 231, 233 and 202 hold the wear level. An attribute that is not known
/// changes nothing.
pub open spec fn with_attribute(d: SataDevice, id: u64, raw: u64) -> SataDevice {
    if id == 194 || id == 190 {
        let t = SataDevice { temperature: count(Some(raw & 0xFF)), ..d };
        if raw > 0xFFFF {
            SataDevice {
                temperature_min: count(Some((raw >> 16) & 0xFF)),
                temperature_max: count(Some((raw >> 32) & 0xFF)),
                ..t
            }
        } else {
            t
        }
    } else if id == 4 {
        SataDevice { start_stop_count: Some(raw), ..d }
    } else if id == 5 {
        SataDevice { reallocated_sectors: Some(raw), ..d }
    } else if id == 9 {
        SataDevice { power_on_hours: Some(raw), ..d }
    } else if id == 12 {
        SataDevice { power_cycle_count: Some(raw), ..d }
    } else if id == 193 {
        SataDevice { load_cycle_count: Some(raw), ..d }
    } else if id == 197 {
        SataDevice { pending_sectors: Some(raw), ..d }
    } else if id == 198 {
        SataDevice { uncorrectable_errors: Some(raw), ..d }
    } else if id == 199 {
        SataDevice { crc_errors: Some(raw), ..d }
    } else if id == 231 || id == 233 || id == 202 {
        SataDevice { wear_level: count(Some(raw)), ..d }
    } else {
        d
    }
}

/// The report `d` after the entries `items` of the attribute table were read in order.
pub open spec fn with_attributes(d: SataDevice, items: Seq<serde_json::Value>) -> SataDevice
    decreases items.len(),
{
    if items.len() == 0 {
        d
    } else {
        let before = with_attributes(d, items.drop_last());
        match attribute_of(items.last()) {
            Some(a) => with_attribute(before, a.0, a.1),
            None => before,
        }
    }
}

/// The report of the SATA disk `info` in `json`.
pub open spec fn sata_of(info: Device, json: serde_json::Value) -> SataDevice {
    match json_items(json_member(json_member(json, "ata_smart_attributes"@), "table"@)) {
        Some(items) => with_attributes(SataDevice::empty(info), items),
        None => SataDevice::empty(info),
    }
}

/// Whether `json` describes an NVMe disk.
pub open spec fn is_nvme(json: serde_json::Value) -> bool {
    text_in(json_member(json, "device"@), "type"@, Seq::empty()) == "nvme"@
}

/// Whether `report` is the report of the disk at `path` in `json`.
pub open spec fn is_report_of(report: DeviceReport, path: Seq<char>, json: serde_json::Value)
    -> bool {
    match report {
        DeviceReport::Nvme(n) => is_nvme(json) && is_identified(n.device, path, json) && n
            == nvme_of(n.device, json),
        DeviceReport::Sata(s) => !is_nvme(json) && is_identified(s.device, path, json) && s
            == sata_of(s.device, json),
    }
}

/// Whether `info` identifies the disk at `path` as `json` describes it: a model or a serial
/// number that is not given is `Unknown`.
pub open spec fn is_identified(info: Device, path: Seq<char>, json: serde_json::Value) -> bool {
    &&& info.device@ == path
    &&& info.model@ == text_in(json, "model_name"@, "Unknown"@)
    &&& info.serial_number@ == text_in(json, "serial_number"@, "Unknown"@)
}

fn number(v: &serde_json::Value, key: &str) -> (n: Option<u64>)
    ensures
        n == number_in(*v, key@),
{
    as_u64(member(v, key))
}

fn text(v: &serde_json::Value, key: &str, fallback: &str) -> (t: String)
    ensures
        t@ == text_in(*v, key@, fallback@),
{
    match as_str(member(v, key)) {
        Some(t) => t.to_owned(),
        None => fallback.to_owned(),
    }
}

fn as_count(n: Option<u64>) -> (r: Option<Ratio>)
    ensures
        r == count(n),
{
    match n {
        Some(v) => Some(Ratio::whole(v)),
        None => None,
    }
}

fn as_hundredths(n: Option<u64>) -> (r: Option<Ratio>)
    ensures
        r == hundredths(n),
{
    match n {
        Some(v) => Some(Ratio { num: v as u128, den: 100 }),
        None => None,
    }
}

fn apply_attribute(device: &mut SataDevice, id: u64, raw: u64)
    ensures
        *final(device) == with_attribute(*old(device), id, raw),
{
    if id == 194 || id == 190 {
        device.temperature = Some(Ratio::whole(raw & 0xFF));
        if raw > 0xFFFF {
            device.temperature_min = Some(Ratio::whole((raw >> 16) & 0xFF));
            device.temperature_max = Some(Ratio::whole((raw >> 32) & 0xFF));
        }
    } else if id == 4 {
        device.start_stop_count = Some(raw);
    } else if id == 5 {
        device.reallocated_sectors = Some(raw);
    } else if id == 9 {
        device.power_on_hours = Some(raw);
    } else if id == 12 {
        device.power_cycle_count = Some(raw);
    } else if id == 193 {
        device.load_cycle_count = Some(raw);
    } else if id == 197 {
        device.pending_sectors = Some(raw);
    } else if id == 198 {
        device.uncorrectable_errors = Some(raw);
    } else if id == 199 {
        device.crc_errors = Some(raw);
    } else if id == 231 || id == 233 || id == 202 {
        device.wear_level = Some(Ratio::whole(raw));
    }
}

/// The reader of what `smartctl` prints.
#[derive(Debug)]
pub struct SmartCtl {}

impl SmartCtl {
    pub fn new() -> (s: SmartCtl) {
        SmartCtl {  }
    }

    /// The device paths that the scan `json` lists.
    pub fn device_paths(&self, json: &serde_json::Value) -> (paths: Vec<String>)
        ensures
            paths.deep_view() == scanned_in(*json),
    {
        let mut paths: Vec<String> = Vec::new();
        assert(paths.deep_view() =~= Seq::empty());
        if let Some(devices) = as_array(member(json, "devices")) {
            let mut i: usize = 0;
            assert(devices@.take(0) =~= Seq::empty());
            while i < devices.len()
                invariant
                    i <= devices.len(),
                    paths.deep_view() == scanned(devices@.take(i as int)),
                decreases devices.len() - i,
            {
                assert(devices@.take(i + 1).drop_last() =~= devices@.take(i as int));
                assert(devices@.take(i + 1).last() == devices@[i as int]);
                if let Some(name) = as_str(member(&devices[i], "name")) {
                    let ghost before = paths.deep_view();
                    paths.push(name.to_owned());
                    assert(paths.deep_view() =~= before.push(name@));
                }
                i += 1;
            }
            assert(devices@.take(devices.len() as int) =~= devices@);
        }
        paths
    }

    /// The device paths in what `smartctl --scan --json` printed; an error when that is no
    /// JSON document.
    pub fn scan_devices(&self, stdout: &[u8]) -> (r: Result<Vec<String>, CollectError>)
        ensures
            match json_document(stdout@) {
                Some(json) => r is Ok && r->Ok_0.deep_view() == scanned_in(json),
                None => r == Err::<Vec<String>, CollectError>(CollectError::Malformed),
            },
    {
        match from_slice(stdout) {
            Ok(json) => Ok(self.device_paths(&json)),
            Err(_) => Err(CollectError::Malformed),
        }
    }

    /// The report of the NVMe disk `info` in `json`.
    pub fn parse_nvme(&self, info: Device, json: &serde_json::Value) -> (n: NvmeDevice)
        ensures
            n == nvme_of(info, *json),
    {
        let health = member(json, "nvme_smart_health_information_log");
        NvmeDevice {
            device: info,
            temperature: as_count(number(health, "temperature")),
            available_spare: as_hundredths(number(health, "available_spare")),
            percent_used: as_hundredths(number(health, "percentage_used")),
            data_units_read: number(health, "data_units_read"),
            data_units_written: number(health, "data_units_written"),
            host_reads: number(health, "host_reads"),
            host_writes: number(health, "host_writes"),
            power_on_hours: number(health, "power_on_hours"),
            unsafe_shutdowns: number(health, "unsafe_shutdowns"),
            media_errors: number(health, "media_errors"),
        }
    }

    /// The report of the SATA disk `info` in `json`.
    pub fn parse_sata(&self, info: Device, json: &serde_json::Value) -> (s: SataDevice)
        ensures
            s == sata_of(info, *json),
    {
        let mut device = SataDevice::new(info);
        if let Some(table) = as_array(member(member(json, "ata_smart_attributes"), "table")) {
            let mut i: usize = 0;
            assert(table@.take(0) =~= Seq::empty());
            while i < table.len()
                invariant
                    i <= table.len(),
                    device == with_attributes(SataDevice::empty(info), table@.take(i as int)),
                decreases table.len() - i,
            {
                assert(table@.take(i + 1).drop_last() =~= table@.take(i as int));
                assert(table@.take(i + 1).last() == table@[i as int]);
                let attr = &table[i];
                if let Some(id) = number(attr, "id") {
                    let raw = match number(member(attr, "raw"), "value") {
                        Some(v) => v,
                        None => 0,
                    };
                    apply_attribute(&mut device, id, raw);
                }
                i += 1;
            }
            assert(table@.take(table.len() as int) =~= table@);
        }
        device
    }

    /// The report of the disk at `path` in the document `json`.
    pub fn report(&self, path: &str, json: &serde_json::Value) -> (r: DeviceReport)
        ensures
            is_report_of(r, path@, *json),
    {
        let info = Device {
            device: path.to_owned(),
            model: text(json, "model_name", "Unknown"),
            serial_number: text(json, "serial_number", "Unknown"),
        };
        let dev_type = text(member(json, "device"), "type", "");
        proof {
            reveal_strlit("");
            assert(""@ =~= Seq::<char>::empty());
        }
        let nvme = dev_type == "nvme".to_owned();
        if nvme {
            let n = self.parse_nvme(info, json);
            DeviceReport::Nvme(n)
        } else {
            let s = self.parse_sata(info, json);
            proof {
                lemma_attributes_keep_the_disk(info, *json);
            }
            DeviceReport::Sata(s)
        }
    }

    /// What a run of `smartctl -a --json --nocheck standby` on the disk at `path` comes to:
    /// no report when the disk is in a low-power state, an error when the run failed
    /// otherwise or printed no JSON document, and else the disk's report.
    pub fn query_device(&self, path: &str, status: ExitStatus, stdout: &[u8]) -> (r: Result<
        Option<DeviceReport>,
        CollectError,
    >)
        ensures
            !status.success && status.code == Some(EXIT_STANDBY) ==> r == Ok::<
                Option<DeviceReport>,
                CollectError,
            >(None),
            !status.success && status.code != Some(EXIT_STANDBY) ==> r == Err::<
                Option<DeviceReport>,
                CollectError,
            >(CollectError::ToolFailed { code: status.code }),
            status.success ==> match json_document(stdout@) {
                Some(json) => r is Ok && r->Ok_0 is Some && is_report_of(
                    r->Ok_0->Some_0,
                    path@,
                    json,
                ),
                None => r == Err::<Option<DeviceReport>, CollectError>(CollectError::Malformed),
            },
    {
        if !status.success {
            match status.code {
                Some(code) if code == EXIT_STANDBY => {
                    return Ok(None);
                },
                _ => {
                    return Err(CollectError::ToolFailed { code: status.code });
                },
            }
        }
        match from_slice(stdout) {
            Ok(json) => Ok(Some(self.report(path, &json))),
            Err(_) => Err(CollectError::Malformed),
        }
    }

    /// The reports of one cycle, stamped with `now`: those of the disks whose query gave a
    /// report, the SATA disks and the NVMe disks each in the order of `results`. A disk
    /// whose query failed or gave no report is left out.
    pub fn disk_temps(
        &self,
        results: Vec<Result<Option<DeviceReport>, CollectError>>,
        now: Timestamp,
    ) -> (reports: SmartReports)
        ensures
            reports.timestamp == now,
            reports.sata@ == sata_among(results@),
            reports.nvme@ == nvme_among(results@),
    {
        let ghost all = results@;
        let mut rest = results;
        let mut taken: Vec<Result<Option<DeviceReport>, CollectError>> = Vec::new();
        // The results are moved out from the back and sorted in order afterwards.
        while rest.len() > 0
            invariant
                rest@ == all.take(rest@.len() as int),
                rest@.len() <= all.len(),
                taken@.len() + rest@.len() == all.len(),
                forall|j: int| 0 <= j < taken@.len() ==> taken@[j] == all[all.len() - 1 - j],
            decreases rest.len(),
        {
            let ghost n = rest@.len();
            let result = rest.pop().unwrap();
            taken.push(result);
            assert(rest@ =~= all.take(n - 1));
        }
        let mut sata: Vec<SataDevice> = Vec::new();
        let mut nvme: Vec<NvmeDevice> = Vec::new();
        assert(sata_among(all.take(0)) =~= Seq::empty());
        assert(nvme_among(all.take(0)) =~= Seq::empty());
        while taken.len() > 0
            invariant
                taken@.len() <= all.len(),
                forall|j: int| 0 <= j < taken@.len() ==> taken@[j] == all[all.len() - 1 - j],
                sata@ == sata_among(all.take(all.len() - taken@.len())),
                nvme@ == nvme_among(all.take(all.len() - taken@.len())),
            decreases taken.len(),
        {
            let ghost k = all.len() - taken@.len();
            let result = taken.pop().unwrap();
            assert(result == all[k]);
            assert(all.take(k + 1).drop_last() =~= all.take(k));
            assert(all.take(k + 1).last() == result);
            match result {
                Ok(Some(DeviceReport::Sata(s))) => {
                    sata.push(s);
                },
                Ok(Some(DeviceReport::Nvme(n))) => {
                    nvme.push(n);
                },
                _ => {},
            }
        }
        assert(all.take(all.len() as int) =~= all);
        SmartReports { timestamp: now, sata, nvme }
    }
}

/// Reading attributes changes no part of what identifies the disk.
pub proof fn lemma_attributes_keep_the_disk(info: Device, json: serde_json::Value)
    ensures
        sata_of(info, json).device == info,
{
    match json_items(json_member(json_member(json, "ata_smart_attributes"@), "table"@)) {
        Some(items) => lemma_with_attributes_keeps_the_disk(SataDevice::empty(info), items),
        None => {},
    }
}

pub proof fn lemma_with_attributes_keeps_the_disk(d: SataDevice, items: Seq<serde_json::Value>)
    ensures
        with_attributes(d, items).device == d.device,
    decreases items.len(),
{
    if items.len() > 0 {
        lemma_with_attributes_keeps_the_disk(d, items.drop_last());
    }
}

/// The reports of SATA disks among `results`, in order.
pub open spec fn sata_among(results: Seq<Result<Option<DeviceReport>, CollectError>>) -> Seq<
    SataDevice,
>
    decreases results.len(),
{
    if results.len() == 0 {
        Seq::empty()
    } else {
        match results.last() {
            Ok(Some(DeviceReport::Sata(s))) => sata_among(results.drop_last()).push(s),
            _ => sata_among(results.drop_last()),
        }
    }
}

/// The reports of NVMe disks among `results`, in order.
pub open spec fn nvme_among(results: Seq<Result<Option<DeviceReport>, CollectError>>) -> Seq<
    NvmeDevice,
>
    decreases results.len(),
{
    if results.len() == 0 {
        Seq::empty()
    } else {
        match results.last() {
            Ok(Some(DeviceReport::Nvme(n))) => nvme_among(results.drop_last()).push(n),
            _ => nvme_among(results.drop_last()),
        }
    }
}

} // verus!
