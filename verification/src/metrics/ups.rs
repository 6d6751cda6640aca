//! The series of the uninterruptible power supplies.
use crate::domain::{collect_into, CollectError, Metric, Timestamp, Timestamped};
use crate::metrics::util::{
    accepted, described, emit, family_of, present, Desc, DescModel, FamilyModel, InvalidDesc,
    LabelPair, MetricFamily, MetricType, Reading,
};
use crate::number::Ratio;
use vstd::prelude::*;

verus! {

#[derive(Clone, Copy, Debug, PartialEq, Eq, Structural)]
pub struct Config {
    pub enabled: bool,
}

impl Default for Config {
    fn default() -> (c: Config)
        ensures
            c.enabled,
    {
        Config { enabled: true }
    }
}

/// What one device reported. A field that the device did not report, or reported as
/// something that is no number, is absent.
#[derive(Debug)]
pub struct UpsDeviceStats {
    pub device_name: String,
    /// Seconds of battery runtime left.
    pub estimated_runtime: Option<Ratio>,
    /// The battery charge, from 0 to 1.
    pub battery_level: Option<Ratio>,
    pub input_voltage: Option<Ratio>,
    pub output_voltage: Option<Ratio>,
    pub apparent_power: Option<Ratio>,
    pub real_power: Option<Ratio>,
    /// The load, from 0 to 1.
    pub load: Option<Ratio>,
}

#[derive(Debug)]
pub struct UpsStats {
    pub timestamp: Timestamp,
    pub devices: Vec<UpsDeviceStats>,
}

impl Timestamped for UpsStats {
    open spec fn taken_at(&self) -> Timestamp {
        self.timestamp
    }

    fn timestamp(&self) -> (t: Timestamp) {
        self.timestamp
    }
}

/// The fields of a device that are exported.
#[derive(Clone, Copy, Debug, PartialEq, Eq, Structural)]
pub enum UpsField {
    Runtime,
    BatteryLevel,
    InputVoltage,
    OutputVoltage,
    ApparentPower,
    RealPower,
    Load,
}

impl UpsDeviceStats {
    pub open spec fn field(&self, which: UpsField) -> Option<Ratio> {
        match which {
            UpsField::Runtime => self.estimated_runtime,
            UpsField::BatteryLevel => self.battery_level,
            UpsField::InputVoltage => self.input_voltage,
            UpsField::OutputVoltage => self.output_voltage,
            UpsField::ApparentPower => self.apparent_power,
            UpsField::RealPower => self.real_power,
            UpsField::Load => self.load,
        }
    }

    pub fn get(&self, which: UpsField) -> (v: Option<Ratio>)
        ensures
            v == self.field(which),
    {
        match which {
            UpsField::Runtime => self.estimated_runtime,
            UpsField::BatteryLevel => self.battery_level,
            UpsField::InputVoltage => self.input_voltage,
            UpsField::OutputVoltage => self.output_voltage,
            UpsField::ApparentPower => self.apparent_power,
            UpsField::RealPower => self.real_power,
            UpsField::Load => self.load,
        }
    }
}

/// The labels of a device and its value of `which`.
pub open spec fn reading_of(device: UpsDeviceStats, which: UpsField) -> (
    Seq<(Seq<char>, Seq<char>)>,
    Option<Ratio>,
) {
    (seq![("ups"@, device.device_name@)], device.field(which))
}

pub open spec fn readings_of(devices: Seq<UpsDeviceStats>, which: UpsField) -> Seq<
    (Seq<(Seq<char>, Seq<char>)>, Option<Ratio>),
> {
    Seq::new(devices.len(), |i: int| reading_of(devices[i], which))
}

/// The descriptors of the UPS series, in the order in which they are declared to the
/// registry.
pub open spec fn descriptors() -> Seq<DescModel> {
    seq![
        described("system_ups_runtime_seconds"@, "Estimated battery runtime"@, seq!["ups"@]),
        described("system_ups_battery_level_percent"@, "Battery charge level"@, seq!["ups"@]),
        described("system_ups_input_voltage"@, "Input line voltage"@, seq!["ups"@]),
        described("system_ups_output_voltage"@, "Output line voltage"@, seq!["ups"@]),
        described("system_ups_apparent_power_va"@, "Apparent power draw"@, seq!["ups"@]),
        described("system_ups_real_power_watts"@, "Real power draw"@, seq!["ups"@]),
        described("system_ups_load_percent"@, "UPS load percentage"@, seq!["ups"@]),
    ]
}

#[derive(Debug)]
pub struct Metrics {
    pub runtime: Desc,
    pub battery_level: Desc,
    pub input_voltage: Desc,
    pub output_voltage: Desc,
    pub apparent_power: Desc,
    pub real_power: Desc,
    pub load: Desc,
}

impl Metrics {
    /// The descriptors that `self` holds, in the order of `descriptors`.
    pub open spec fn models(&self) -> Seq<DescModel> {
        seq![
            self.runtime.deep_view(),
            self.battery_level.deep_view(),
            self.input_voltage.deep_view(),
            self.output_voltage.deep_view(),
            self.apparent_power.deep_view(),
            self.real_power.deep_view(),
            self.load.deep_view(),
        ]
    }

    /// The descriptors, in the order in which they are declared.
    pub fn desc(&self) -> (d: Vec<&Desc>)
        ensures
            d.deep_view() == self.models(),
    {
        let mut d: Vec<&Desc> = Vec::new();
        d.push(&self.runtime);
        d.push(&self.battery_level);
        d.push(&self.input_voltage);
        d.push(&self.output_voltage);
        d.push(&self.apparent_power);
        d.push(&self.real_power);
        d.push(&self.load);
        assert(d.deep_view() =~= self.models());
        d
    }

    /// Builds the descriptors; fails when the registry's rules refuse one of them.
    pub fn new() -> (r: Result<Metrics, InvalidDesc>)
        ensures
            r is Ok <==> (forall|i: int| 0 <= i < 7 ==> accepted(#[trigger] descriptors()[i])),
            r is Ok ==> r->Ok_0.models() == descriptors(),
    {
        let ghost d = descriptors();
        // Each descriptor is named once, so that the clauses about all of them apply to it.
        assert(d[0] == d[0] && d[1] == d[1] && d[2] == d[2] && d[3] == d[3] && d[4] == d[4] && d[5]
            == d[5] && d[6] == d[6]);
        let runtime = Desc::with_label(
            "system_ups_runtime_seconds",
            "Estimated battery runtime",
            "ups",
        )?;
        let battery_level = Desc::with_label(
            "system_ups_battery_level_percent",
            "Battery charge level",
            "ups",
        )?;
        let input_voltage = Desc::with_label("system_ups_input_voltage", "Input line voltage", "ups")?;
        let output_voltage = Desc::with_label(
            "system_ups_output_voltage",
            "Output line voltage",
            "ups",
        )?;
        let apparent_power = Desc::with_label(
            "system_ups_apparent_power_va",
            "Apparent power draw",
            "ups",
        )?;
        let real_power = Desc::with_label("system_ups_real_power_watts", "Real power draw", "ups")?;
        let load = Desc::with_label("system_ups_load_percent", "UPS load percentage", "ups")?;
        let m = Metrics {
            runtime,
            battery_level,
            input_voltage,
            output_voltage,
            apparent_power,
            real_power,
            load,
        };
        assert(m.models() =~= descriptors());
        Ok(m)
    }

    /// The descriptor of `which`.
    pub open spec fn desc_of(&self, which: UpsField) -> Desc {
        match which {
            UpsField::Runtime => self.runtime,
            UpsField::BatteryLevel => self.battery_level,
            UpsField::InputVoltage => self.input_voltage,
            UpsField::OutputVoltage => self.output_voltage,
            UpsField::ApparentPower => self.apparent_power,
            UpsField::RealPower => self.real_power,
            UpsField::Load => self.load,
        }
    }

    /// The family of `which` over all devices of `stats`.
    pub open spec fn family(&self, stats: UpsStats, which: UpsField) -> FamilyModel {
        family_of(
            self.desc_of(which).deep_view(),
            MetricType::Gauge,
            present(readings_of(stats.devices@, which)),
        )
    }

    /// One gauge family for `desc`: a sample for each device that has the field `which`,
    /// labelled with the device's name.
    pub fn build_metric_family(&self, desc: &Desc, stats: &UpsStats, which: UpsField) -> (mf:
        MetricFamily)
        ensures
            mf.deep_view() == family_of(
                desc.deep_view(),
                MetricType::Gauge,
                present(readings_of(stats.devices@, which)),
            ),
    {
        let mut readings: Vec<Reading> = Vec::new();
        let mut i: usize = 0;
        while i < stats.devices.len()
            invariant
                i <= stats.devices.len(),
                readings.len() == i,
                forall|j: int|
                    0 <= j < i ==> readings@[j].deep_view() == reading_of(
                        stats.devices@[j],
                        which,
                    ),
            decreases stats.devices.len() - i,
        {
            let device = &stats.devices[i];
            let mut label: Vec<LabelPair> = Vec::new();
            label.push(LabelPair::new("ups", device.device_name.as_str()));
            assert(label.deep_view() =~= seq![("ups"@, device.device_name@)]);
            readings.push(Reading { label, value: device.get(which) });
            i += 1;
        }
        assert(readings.deep_view() =~= readings_of(stats.devices@, which));
        emit(desc, MetricType::Gauge, &readings)
    }

    /// The families of the stored measurement: none before the first measurement, and
    /// otherwise one per series, each with the samples of the devices that have the field.
    pub fn collect(&self, state: &Option<UpsStats>) -> (mf: Vec<MetricFamily>)
        ensures
            match *state {
                None => mf@.len() == 0,
                Some(stats) => mf.deep_view() == seq![
                    self.family(stats, UpsField::Runtime),
                    self.family(stats, UpsField::BatteryLevel),
                    self.family(stats, UpsField::ApparentPower),
                    self.family(stats, UpsField::RealPower),
                    self.family(stats, UpsField::Load),
                    self.family(stats, UpsField::InputVoltage),
                    self.family(stats, UpsField::OutputVoltage),
                ],
            },
    {
        let mut mf: Vec<MetricFamily> = Vec::new();
        match state {
            None => {},
            Some(stats) => {
                mf.push(self.build_metric_family(&self.runtime, stats, UpsField::Runtime));
                mf.push(
                    self.build_metric_family(&self.battery_level, stats, UpsField::BatteryLevel),
                );
                mf.push(
                    self.build_metric_family(&self.apparent_power, stats, UpsField::ApparentPower),
                );
                mf.push(self.build_metric_family(&self.real_power, stats, UpsField::RealPower));
                mf.push(self.build_metric_family(&self.load, stats, UpsField::Load));
                mf.push(
                    self.build_metric_family(&self.input_voltage, stats, UpsField::InputVoltage),
                );
                mf.push(
                    self.build_metric_family(&self.output_voltage, stats, UpsField::OutputVoltage),
                );
                assert(mf.deep_view() =~= seq![
                    self.family(*stats, UpsField::Runtime),
                    self.family(*stats, UpsField::BatteryLevel),
                    self.family(*stats, UpsField::ApparentPower),
                    self.family(*stats, UpsField::RealPower),
                    self.family(*stats, UpsField::Load),
                    self.family(*stats, UpsField::InputVoltage),
                    self.family(*stats, UpsField::OutputVoltage),
                ]);
            },
        }
        mf
    }
}

/// The UPS probe as configured.
#[derive(Debug)]
pub struct Ups {
    pub config: Config,
}

impl Metric for Ups {
    open spec fn name_of(&self) -> Seq<char> {
        "ups"@
    }

    open spec fn is_enabled(&self) -> bool {
        self.config.enabled
    }

    fn name(&self) -> (n: &'static str) {
        "ups"
    }

    fn enabled(&self) -> (b: bool) {
        self.config.enabled
    }
}

impl Ups {
    pub fn new(config: Config) -> (u: Ups)
        ensures
            u.config == config,
    {
        Ups { config }
    }

    /// Decides at start-up what stands for this probe: nothing when it is disabled, so that
    /// a disabled probe never collects and never emits, and otherwise its collector and its
    /// descriptors.
    pub fn register(self) -> (r: Result<Option<(UpsCollector, Metrics)>, InvalidDesc>)
        ensures
            !self.config.enabled ==> r == Ok::<Option<(UpsCollector, Metrics)>, InvalidDesc>(None),
            self.config.enabled ==> (r is Ok <==> registrable()),
            self.config.enabled && r is Ok ==> r->Ok_0 is Some && r->Ok_0->Some_0.0.measurements
                is None && r->Ok_0->Some_0.1.models() == descriptors(),
    {
        if !self.config.enabled {
            return Ok(None);
        }
        proof {
            reveal(registrable);
        }
        let collector = UpsCollector::new();
        let metrics = Metrics::new()?;
        Ok(Some((collector, metrics)))
    }
}

/// The state of the enabled UPS probe: the measurement of the last cycle that succeeded.
#[derive(Debug)]
pub struct UpsCollector {
    pub measurements: Option<UpsStats>,
}

impl UpsCollector {
    pub fn new() -> (c: UpsCollector)
        ensures
            c.measurements is None,
    {
        UpsCollector { measurements: None }
    }

    pub fn measurements(&self) -> (m: &Option<UpsStats>)
        ensures
            *m == self.measurements,
    {
        &self.measurements
    }

    /// Ends a cycle with what the data source delivered.
    pub fn collect(&mut self, outcome: Result<UpsStats, CollectError>) -> (r: Result<
        (),
        CollectError,
    >)
        ensures
            match outcome {
                Ok(m) => r is Ok && final(self).measurements == crate::domain::stored_after(
                    old(self).measurements,
                    m,
                ),
                Err(e) => r == Err::<(), CollectError>(e) && *final(self) == *old(self),
            },
    {
        collect_into(&mut self.measurements, outcome)
    }
}

/// Whether the registry takes every descriptor of this probe.
#[verifier::opaque]
pub open spec fn registrable() -> bool {
    forall|i: int| 0 <= i < 7 ==> accepted(#[trigger] descriptors()[i])
}

} // verus!
