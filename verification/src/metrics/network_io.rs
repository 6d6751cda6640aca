//! The series of the network interfaces.
use crate::domain::{collect_into, CollectError, Metric, replaces, Timestamp, Timestamped};
use crate::metrics::util::{
    accepted, described, maybe, maybe_counter, whole, Desc, DescModel, FamilyModel, InvalidDesc,
    LabelPair, MetricFamily, MetricType,
};
use vstd::prelude::*;

verus! {

/// Which interfaces are reported: those of `watch_interfaces` where it is given, and
/// otherwise all but those of `ignore_interfaces`.
#[derive(Clone, Debug)]
pub struct Config {
    pub enabled: bool,
    pub watch_interfaces: Option<Vec<String>>,
    pub ignore_interfaces: Option<Vec<String>>,
}

impl Default for Config {
    fn default() -> (c: Config)
        ensures
            c.enabled,
            c.watch_interfaces is Some,
            c.watch_interfaces->Some_0.deep_view() == seq!["bond0"@, "tailscale1"@],
            c.ignore_interfaces is None,
    {
        let mut watch: Vec<String> = Vec::new();
        watch.push("bond0".to_owned());
        watch.push("tailscale1".to_owned());
        assert(watch.deep_view() =~= seq!["bond0"@, "tailscale1"@]);
        Config { enabled: true, watch_interfaces: Some(watch), ignore_interfaces: None }
    }
}

/// The counters of one interface since boot.
#[derive(Debug)]
pub struct InterfaceStats {
    pub interface: String,
    pub bytes_sent: u64,
    pub bytes_received: u64,
    pub packets_sent: u64,
    pub packets_received: u64,
}

pub struct InterfaceModel {
    pub interface: Seq<char>,
    pub bytes_sent: u64,
    pub bytes_received: u64,
    pub packets_sent: u64,
    pub packets_received: u64,
}

impl DeepView for InterfaceStats {
    type V = InterfaceModel;

    open spec fn deep_view(&self) -> InterfaceModel {
        InterfaceModel {
            interface: self.interface@,
            bytes_sent: self.bytes_sent,
            bytes_received: self.bytes_received,
            packets_sent: self.packets_sent,
            packets_received: self.packets_received,
        }
    }
}

#[derive(Debug)]
pub struct NetworkIoStats {
    pub timestamp: Timestamp,
    pub interfaces: Vec<InterfaceStats>,
}

impl Timestamped for NetworkIoStats {
    open spec fn taken_at(&self) -> Timestamp {
        self.timestamp
    }

    fn timestamp(&self) -> (t: Timestamp) {
        self.timestamp
    }
}

/// The descriptors of the network series, in the order in which they are declared.
pub open spec fn descriptors() -> Seq<DescModel> {
    seq![
        described("system_network_transmit_bytes_total"@, "Total bytes sent"@, seq!["device"@]),
        described("system_network_receive_bytes_total"@, "Total bytes received"@, seq!["device"@]),
        described("system_network_transmit_packets_total"@, "Total packets sent"@, seq!["device"@]),
        described(
            "system_network_receive_packets_total"@,
            "Total packets received"@,
            seq!["device"@],
        ),
    ]
}

#[derive(Debug)]
pub struct Metrics {
    pub bytes_sent: Desc,
    pub bytes_received: Desc,
    pub packets_sent: Desc,
    pub packets_received: Desc,
}

impl Metrics {
    pub open spec fn models(&self) -> Seq<DescModel> {
        seq![
            self.bytes_sent.deep_view(),
            self.bytes_received.deep_view(),
            self.packets_sent.deep_view(),
            self.packets_received.deep_view(),
        ]
    }

    /// The descriptors, in the order in which they are declared.
    pub fn desc(&self) -> (d: Vec<&Desc>)
        ensures
            d.deep_view() == self.models(),
    {
        let mut d: Vec<&Desc> = Vec::new();
        d.push(&self.bytes_sent);
        d.push(&self.bytes_received);
        d.push(&self.packets_sent);
        d.push(&self.packets_received);
        assert(d.deep_view() =~= self.models());
        d
    }

    /// Builds the descriptors; fails when the registry's rules refuse one of them.
    pub fn new() -> (r: Result<Metrics, InvalidDesc>)
        ensures
            r is Ok <==> (forall|i: int| 0 <= i < 4 ==> accepted(#[trigger] descriptors()[i])),
            r is Ok ==> r->Ok_0.models() == descriptors(),
    {
        let ghost d = descriptors();
        // Each descriptor is named once, so that the clauses about all of them apply to it.
        assert(d[0] == d[0] && d[1] == d[1] && d[2] == d[2] && d[3] == d[3]);
        let bytes_sent = Desc::with_label(
            "system_network_transmit_bytes_total",
            "Total bytes sent",
            "device",
        )?;
        let bytes_received = Desc::with_label(
            "system_network_receive_bytes_total",
            "Total bytes received",
            "device",
        )?;
        let packets_sent = Desc::with_label(
            "system_network_transmit_packets_total",
            "Total packets sent",
            "device",
        )?;
        let packets_received = Desc::with_label(
            "system_network_receive_packets_total",
            "Total packets received",
            "device",
        )?;
        let m = Metrics { bytes_sent, bytes_received, packets_sent, packets_received };
        assert(m.models() =~= descriptors());
        Ok(m)
    }

    /// The labels of an interface.
    pub fn make_labels(&self, device: &InterfaceStats) -> (l: Vec<LabelPair>)
        ensures
            l.deep_view() == seq![("device"@, device.interface@)],
    {
        let mut l: Vec<LabelPair> = Vec::new();
        l.push(LabelPair::new("device", device.interface.as_str()));
        assert(l.deep_view() =~= seq![("device"@, device.interface@)]);
        l
    }

    /// The four families of one interface.
    pub open spec fn families_of(&self, device: InterfaceStats) -> Seq<FamilyModel> {
        let l = seq![("device"@, device.interface@)];
        maybe(self.bytes_sent.deep_view(), MetricType::Counter, l, whole(Some(device.bytes_sent)))
            + maybe(
            self.bytes_received.deep_view(),
            MetricType::Counter,
            l,
            whole(Some(device.bytes_received)),
        ) + maybe(
            self.packets_sent.deep_view(),
            MetricType::Counter,
            l,
            whole(Some(device.packets_sent)),
        ) + maybe(
            self.packets_received.deep_view(),
            MetricType::Counter,
            l,
            whole(Some(device.packets_received)),
        )
    }

    /// The families of `devices`, interface after interface.
    pub open spec fn families(&self, devices: Seq<InterfaceStats>) -> Seq<FamilyModel>
        decreases devices.len(),
    {
        if devices.len() == 0 {
            Seq::empty()
        } else {
            self.families(devices.drop_last()) + self.families_of(devices.last())
        }
    }

    /// The families of the stored measurement: none before the first measurement, and
    /// otherwise four counters for each interface.
    pub fn collect(&self, state: &Option<NetworkIoStats>) -> (mf: Vec<MetricFamily>)
        ensures
            match *state {
                None => mf@.len() == 0,
                Some(stats) => mf.deep_view() == self.families(stats.interfaces@),
            },
    {
        let mut mf: Vec<MetricFamily> = Vec::new();
        match state {
            None => {},
            Some(stats) => {
                let mut i: usize = 0;
                assert(mf.deep_view() =~= self.families(stats.interfaces@.take(0)));
                while i < stats.interfaces.len()
                    invariant
                        i <= stats.interfaces.len(),
                        mf.deep_view() == self.families(stats.interfaces@.take(i as int)),
                    decreases stats.interfaces.len() - i,
                {
                    let device = &stats.interfaces[i];
                    let ghost all = stats.interfaces@;
                    let ghost before = mf.deep_view();
                    assert(all.take(i + 1).drop_last() =~= all.take(i as int));
                    assert(all.take(i + 1).last() == *device);
                    let l = self.make_labels(device);
                    maybe_counter(&mut mf, &self.bytes_sent, &l, Some(device.bytes_sent));
                    maybe_counter(&mut mf, &self.bytes_received, &l, Some(device.bytes_received));
                    maybe_counter(&mut mf, &self.packets_sent, &l, Some(device.packets_sent));
                    maybe_counter(
                        &mut mf,
                        &self.packets_received,
                        &l,
                        Some(device.packets_received),
                    );
                    assert(mf.deep_view() =~= before + self.families_of(*device));
                    i += 1;
                }
                assert(stats.interfaces@.take(stats.interfaces.len() as int)
                    =~= stats.interfaces@);
            },
        }
        mf
    }
}

/// The network probe as configured.
#[derive(Debug)]
pub struct NetworkIo {
    pub config: Config,
}

impl Metric for NetworkIo {
    open spec fn name_of(&self) -> Seq<char> {
        "network-io"@
    }

    open spec fn is_enabled(&self) -> bool {
        self.config.enabled
    }

    fn name(&self) -> (n: &'static str) {
        "network-io"
    }

    fn enabled(&self) -> (b: bool) {
        self.config.enabled
    }
}

impl NetworkIo {
    pub fn new(config: Config) -> (n: NetworkIo)
        ensures
            n.config == config,
    {
        NetworkIo { config }
    }

    /// Decides at start-up what stands for this probe: nothing when it is disabled, and
    /// otherwise its collector and its descriptors.
    pub fn register(self) -> (r: Result<Option<(NetworkIoCollector, Metrics)>, InvalidDesc>)
        ensures
            !self.config.enabled ==> r == Ok::<Option<(NetworkIoCollector, Metrics)>, InvalidDesc>(
                None,
            ),
            self.config.enabled ==> (r is Ok <==> registrable()),
            self.config.enabled && r is Ok ==> r->Ok_0 is Some && r->Ok_0->Some_0.0.measurement
                is None && r->Ok_0->Some_0.0.config == self.config && r->Ok_0->Some_0.1.models()
                == descriptors(),
    {
        if !self.config.enabled {
            return Ok(None);
        }
        proof {
            reveal(registrable);
        }
        let collector = NetworkIoCollector::new(self.config);
        let metrics = Metrics::new()?;
        Ok(Some((collector, metrics)))
    }
}

/// Whether the interface `name` is reported under `config`.
pub open spec fn is_collected(config: Config, name: Seq<char>) -> bool {
    match config.watch_interfaces {
        Some(watch) => watch.deep_view().contains(name),
        None => match config.ignore_interfaces {
            Some(ignore) => !ignore.deep_view().contains(name),
            None => true,
        },
    }
}

/// The interfaces among `interfaces` that are reported, in order.
pub open spec fn collected(config: Config, interfaces: Seq<InterfaceStats>) -> Seq<InterfaceStats>
    decreases interfaces.len(),
{
    if interfaces.len() == 0 {
        Seq::empty()
    } else if is_collected(config, interfaces.last().interface@) {
        collected(config, interfaces.drop_last()).push(interfaces.last())
    } else {
        collected(config, interfaces.drop_last())
    }
}

fn lists(names: &Vec<String>, name: &String) -> (b: bool)
    ensures
        b == names.deep_view().contains(name@),
{
    let mut i: usize = 0;
    while i < names.len()
        invariant
            i <= names.len(),
            forall|j: int| 0 <= j < i ==> names.deep_view()[j] != name@,
        decreases names.len() - i,
    {
        if names[i] == *name {
            assert(names.deep_view()[i as int] == name@);
            return true;
        }
        i += 1;
    }
    false
}

/// The state of the enabled network probe.
#[derive(Debug)]
pub struct NetworkIoCollector {
    pub config: Config,
    pub measurement: Option<NetworkIoStats>,
}

impl NetworkIoCollector {
    pub fn new(config: Config) -> (c: NetworkIoCollector)
        ensures
            c.measurement is None,
            c.config == config,
    {
        NetworkIoCollector { config, measurement: None }
    }

    pub fn measurements(&self) -> (m: &Option<NetworkIoStats>)
        ensures
            *m == self.measurement,
    {
        &self.measurement
    }

    pub fn should_collect(&self, interface_name: &str) -> (b: bool)
        ensures
            b == is_collected(self.config, interface_name@),
    {
        let name = interface_name.to_owned();
        match &self.config.watch_interfaces {
            Some(watch) => lists(watch, &name),
            None => match &self.config.ignore_interfaces {
                Some(ignore) => !lists(ignore, &name),
                None => true,
            },
        }
    }

    /// The measurement `stats` without the interfaces that are not reported.
    pub fn retain(&self, stats: NetworkIoStats) -> (kept: NetworkIoStats)
        ensures
            kept.timestamp == stats.timestamp,
            kept.interfaces@ == collected(self.config, stats.interfaces@),
    {
        let NetworkIoStats { timestamp, interfaces } = stats;
        let ghost all = interfaces@;
        let mut out: Vec<InterfaceStats> = Vec::new();
        let mut rest = interfaces;
        let mut taken: Vec<InterfaceStats> = Vec::new();
        // Interfaces are moved out from the back and put back in order afterwards.
        while rest.len() > 0
            invariant
                rest@ == all.take(rest@.len() as int),
                rest@.len() <= all.len(),
                taken@.len() + rest@.len() == all.len(),
                forall|j: int| 0 <= j < taken@.len() ==> taken@[j] == all[all.len() - 1 - j],
            decreases rest.len(),
        {
            let ghost n = rest@.len();
            let device = rest.pop().unwrap();
            taken.push(device);
            assert(rest@ =~= all.take(n - 1));
        }
        assert(collected(self.config, all.take(0)) =~= Seq::empty());
        while taken.len() > 0
            invariant
                taken@.len() <= all.len(),
                forall|j: int| 0 <= j < taken@.len() ==> taken@[j] == all[all.len() - 1 - j],
                out@ == collected(self.config, all.take(all.len() - taken@.len())),
            decreases taken.len(),
        {
            let ghost k = all.len() - taken@.len();
            let device = taken.pop().unwrap();
            assert(device == all[k]);
            assert(all.take(k + 1).drop_last() =~= all.take(k));
            assert(all.take(k + 1).last() == device);
            if self.should_collect(device.interface.as_str()) {
                out.push(device);
            }
        }
        assert(all.take(all.len() as int) =~= all);
        NetworkIoStats { timestamp, interfaces: out }
    }

    /// Ends a cycle with what the data source delivered: a measurement is stored, without
    /// the interfaces that are not reported, unless it is older than the stored one.
    pub fn collect(&mut self, outcome: Result<NetworkIoStats, CollectError>) -> (r: Result<
        (),
        CollectError,
    >)
        ensures
            final(self).config == old(self).config,
            match outcome {
                Ok(m) => r is Ok && if replaces(old(self).measurement, m) {
                    &&& final(self).measurement is Some
                    &&& final(self).measurement->Some_0.timestamp == m.timestamp
                    &&& final(self).measurement->Some_0.interfaces@ == collected(
                        old(self).config,
                        m.interfaces@,
                    )
                } else {
                    final(self).measurement == old(self).measurement
                },
                Err(e) => r == Err::<(), CollectError>(e) && *final(self) == *old(self),
            },
    {
        match outcome {
            Ok(stats) => {
                let kept = self.retain(stats);
                collect_into(&mut self.measurement, Ok(kept))
            },
            Err(e) => Err(e),
        }
    }
}

/// Whether the registry takes every descriptor of this probe.
#[verifier::opaque]
pub open spec fn registrable() -> bool {
    forall|i: int| 0 <= i < 4 ==> accepted(#[trigger] descriptors()[i])
}

} // verus!
