//! The core frequencies under `/sys/devices/system/cpu`.
use crate::domain::CollectError;
use crate::metrics::cpu_frequency::CpuFreqStats;
use crate::text::{
    chars_of, decimal_digits, decimal_string, or_zero, parse_u64, parse_u64_of, saturating_mul,
    saturating_product, trim, trim_matches, CharClass,
};
use vstd::prelude::*;

verus! {

/// The greatest number of cores that is asked for.
pub const MAX_CORES: usize = 256;

/// The file that holds the frequency of the core `core`.
pub open spec fn frequency_path(core: nat) -> Seq<char> {
    "/sys/devices/system/cpu/cpu"@ + decimal_digits(core) + "/cpufreq/scaling_cur_freq"@
}

/// The frequency in hertz that the text `content` gives: the text holds kilohertz, and a
/// text that is no number counts as zero.
pub open spec fn frequency_of(content: Seq<char>) -> u64 {
    saturating_product(or_zero(parse_u64_of(trim(content))), 1000)
}

/// The reader of the core frequencies.
#[derive(Debug)]
pub struct CpuFrequency {}

impl CpuFrequency {
    pub fn new() -> (c: CpuFrequency) {
        CpuFrequency {  }
    }

    /// The file that holds the frequency of the core `core`.
    pub fn path(&self, core: usize) -> (p: String)
        ensures
            p@ == frequency_path(core as nat),
    {
        let mut p = "/sys/devices/system/cpu/cpu".to_owned();
        p.append(decimal_string(core as u64).as_str());
        p.append("/cpufreq/scaling_cur_freq");
        p
    }

    /// The frequency in hertz that the text of one file gives.
    pub fn parse(&self, content: &str) -> (hertz: u64)
        ensures
            hertz == frequency_of(content@),
    {
        let chars = chars_of(content);
        let t = trim_matches(chars.as_slice(), CharClass::Whitespace);
        let khz = match parse_u64(t.as_slice()) {
            Some(v) => v,
            None => 0,
        };
        saturating_mul(khz, 1000)
    }

    /// The frequencies of one cycle. `contents` holds the texts of the files of the cores
    /// from core 0 on, as far as they exist; no more than `MAX_CORES` of them count. A
    /// machine without any such file has no frequency sensors, which is an error.
    pub fn cpy_freq(&self, contents: &Vec<String>) -> (r: Result<CpuFreqStats, CollectError>)
        ensures
            contents.len() == 0 ==> r == Err::<CpuFreqStats, CollectError>(
                CollectError::NoSensors,
            ),
            contents.len() > 0 ==> r is Ok && r->Ok_0.cores@.len() == (if contents.len()
                <= MAX_CORES {
                contents.len()
            } else {
                MAX_CORES
            }) && (forall|i: int|
                0 <= i < r->Ok_0.cores@.len() ==> #[trigger] r->Ok_0.cores@[i] == frequency_of(
                    contents@[i]@,
                )),
    {
        if contents.len() == 0 {
            return Err(CollectError::NoSensors);
        }
        let mut cores: Vec<u64> = Vec::new();
        let mut i: usize = 0;
        while i < contents.len() && i < MAX_CORES
            invariant
                i <= contents.len(),
                i <= MAX_CORES,
                cores@.len() == i,
                forall|j: int| 0 <= j < i ==> #[trigger] cores@[j] == frequency_of(contents@[j]@),
            decreases contents.len() - i,
        {
            cores.push(self.parse(contents[i].as_str()));
            i += 1;
        }
        Ok(CpuFreqStats { cores })
    }
}

} // verus!
