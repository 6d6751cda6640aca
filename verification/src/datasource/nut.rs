//! The client side of the NUT line protocol: what to send, what each answered line means, and
//! how the raw parameters of a device become its statistics.
use crate::domain::Timestamp;
use crate::metrics::ups::{UpsDeviceStats, UpsStats};
use crate::number::{decimal_of, is_parsed, parse_decimal, Ratio};
use crate::text::{
    chars_of, equals, find, find_from, has_prefix, lookup, slice_copy, split_whitespace,
    starts_with, string_of, trim, trim_matches, trim_of, views, words, CharClass,
};
use vstd::prelude::*;

verus! {

/// Where the NUT server listens.
#[derive(Clone, Debug)]
pub struct Config {
    pub address: String,
    pub port: u16,
}

impl Default for Config {
    fn default() -> (c: Config)
        ensures
            c.address@ == "localhost"@,
            c.port == 3493,
    {
        Config { address: "localhost".to_owned(), port: 3493 }
    }
}

/// The NUT data source as configured.
#[derive(Debug)]
pub struct Nut {
    pub config: Config,
}

/// One raw parameter of a device.
#[derive(Debug)]
pub struct Parameter {
    pub key: String,
    pub value: String,
}

impl DeepView for Parameter {
    type V = (Seq<char>, Seq<char>);

    open spec fn deep_view(&self) -> (Seq<char>, Seq<char>) {
        (self.key@, self.value@)
    }
}

/// A device and the parameters that the server listed for it, in the order of the listing.
/// Where a key was listed twice, the later line counts.
#[derive(Debug)]
pub struct UpsDeviceRecord {
    pub name: String,
    pub raw_parameters: Vec<Parameter>,
}

impl DeepView for UpsDeviceRecord {
    type V = (Seq<char>, Seq<(Seq<char>, Seq<char>)>);

    open spec fn deep_view(&self) -> (Seq<char>, Seq<(Seq<char>, Seq<char>)>) {
        (self.name@, self.raw_parameters.deep_view())
    }
}

/// Whether `line` ends the list of devices.
pub open spec fn is_end_of_ups_list(line: Seq<char>) -> bool {
    trim(line) == "END LIST UPS"@
}

/// Whether `line` ends a list of parameters.
pub open spec fn is_end_of_var_list(line: Seq<char>) -> bool {
    has_prefix(trim(line), "END LIST VAR"@)
}

/// The device that a line of the form `UPS <name> "<description>"` names.
pub open spec fn ups_name_of(line: Seq<char>) -> Option<Seq<char>> {
    let parts = words(trim(line));
    if parts.len() >= 2 && parts[0] == "UPS"@ {
        Some(parts[1])
    } else {
        None
    }
}

/// The key and the value of a line of the form `VAR <device> <key> "<value>"`: the line is cut
/// at its first three spaces, the first part is the word `VAR`, the third part is the key, and
/// what follows the third space, without the quotation marks around it, is the value.
pub open spec fn var_of(line: Seq<char>) -> Option<(Seq<char>, Seq<char>)> {
    let t = trim(line);
    let a = find_from(t, ' ', 0);
    let b = find_from(t, ' ', a + 1);
    let c = find_from(t, ' ', b + 1);
    if 0 <= a < b && b < c && c < t.len() && t.take(a) == "VAR"@ {
        Some((t.subrange(b + 1, c), trim_of(t.skip(c + 1), CharClass::Exactly('"'))))
    } else {
        None
    }
}

/// Reads a line of the device list.
pub fn parse_ups_line(line: &str) -> (name: Option<String>)
    ensures
        match name {
            Some(n) => ups_name_of(line@) == Some(n@),
            None => ups_name_of(line@) is None,
        },
{
    let chars = chars_of(line);
    let trimmed = trim_matches(chars.as_slice(), CharClass::Whitespace);
    let parts = split_whitespace(trimmed.as_slice());
    if parts.len() >= 2 {
        assert(views(parts@)[0] == parts@[0]@);
        assert(views(parts@)[1] == parts@[1]@);
        if equals(parts[0].as_slice(), "UPS") {
            return Some(string_of(parts[1].as_slice()));
        }
    }
    None
}

/// Reads a line of a parameter list.
pub fn parse_var_line(line: &str) -> (parameter: Option<Parameter>)
    ensures
        match parameter {
            Some(p) => var_of(line@) == Some(p.deep_view()),
            None => var_of(line@) is None,
        },
{
    let chars = chars_of(line);
    let t = trim_matches(chars.as_slice(), CharClass::Whitespace);
    let a = find(t.as_slice(), ' ', 0);
    if a >= t.len() {
        return None;
    }
    let b = find(t.as_slice(), ' ', a + 1);
    if b >= t.len() {
        return None;
    }
    let c = find(t.as_slice(), ' ', b + 1);
    if c >= t.len() {
        return None;
    }
    let word = slice_copy(t.as_slice(), 0, a);
    assert(word@ =~= t@.take(a as int));
    if !equals(word.as_slice(), "VAR") {
        return None;
    }
    let key = slice_copy(t.as_slice(), b + 1, c);
    let rest = slice_copy(t.as_slice(), c + 1, t.len());
    assert(rest@ =~= t@.skip(c + 1));
    let value = trim_matches(rest.as_slice(), CharClass::Exactly('"'));
    Some(Parameter { key: string_of(key.as_slice()), value: string_of(value.as_slice()) })
}

/// Whether `line` ends the list of devices.
pub fn ends_ups_list(line: &str) -> (b: bool)
    ensures
        b == is_end_of_ups_list(line@),
{
    let chars = chars_of(line);
    let t = trim_matches(chars.as_slice(), CharClass::Whitespace);
    equals(t.as_slice(), "END LIST UPS")
}

/// Whether `line` ends a list of parameters.
pub fn ends_var_list(line: &str) -> (b: bool)
    ensures
        b == is_end_of_var_list(line@),
{
    let chars = chars_of(line);
    let t = trim_matches(chars.as_slice(), CharClass::Whitespace);
    starts_with(t.as_slice(), "END LIST VAR")
}

/// The number listed for `key`, which is that of the last line with this key; absent when
/// the key is not listed or its value is no number.
pub open spec fn numeric(params: Seq<(Seq<char>, Seq<char>)>, key: Seq<char>) -> Option<Ratio> {
    match lookup(params, key) {
        Some(v) => decimal_of(v),
        None => None,
    }
}

/// `first` if it is present, else `second`.
pub open spec fn or_else(first: Option<Ratio>, second: Option<Ratio>) -> Option<Ratio> {
    match first {
        Some(r) => Some(r),
        None => second,
    }
}

/// A percentage as a fraction of one.
pub open spec fn percent(value: Option<Ratio>) -> Option<Ratio> {
    match value {
        Some(r) => Some(Ratio { num: r.num, den: (r.den * 100) as u128 }),
        None => None,
    }
}

/// A power: the reading if there is one, and otherwise the nominal power times the load,
/// where both are known and the nominal power is above zero.
pub open spec fn power(reading: Option<Ratio>, nominal: Option<Ratio>, load: Option<Ratio>)
    -> Option<Ratio> {
    match (reading, nominal, load) {
        (Some(r), _, _) => Some(r),
        (None, Some(n), Some(l)) if n.num > 0 => Some(
            Ratio { num: (n.num * l.num) as u128, den: (n.den * l.den) as u128 },
        ),
        _ => None,
    }
}

/// Whether `stats` is what the parameters `params` of the device `name` come to.
pub open spec fn is_projection(
    stats: UpsDeviceStats,
    name: Seq<char>,
    params: Seq<(Seq<char>, Seq<char>)>,
) -> bool {
    let load = percent(numeric(params, "ups.load"@));
    &&& stats.device_name@ == name
    &&& stats.estimated_runtime == numeric(params, "battery.runtime"@)
    &&& stats.battery_level == percent(numeric(params, "battery.charge"@))
    &&& stats.input_voltage == numeric(params, "input.voltage"@)
    &&& stats.output_voltage == numeric(params, "output.voltage"@)
    &&& stats.load == load
    &&& stats.real_power == power(
        numeric(params, "ups.realpower"@),
        numeric(params, "ups.realpower.nominal"@),
        load,
    )
    &&& stats.apparent_power == power(
        or_else(numeric(params, "ups.power"@), numeric(params, "ups.realpower"@)),
        numeric(params, "ups.power.nominal"@),
        load,
    )
}

fn parse_parameter(params: &Vec<Parameter>, key: &str) -> (out: Option<Ratio>)
    ensures
        out == numeric(params.deep_view(), key@),
        out is Some ==> is_parsed(out->Some_0),
{
    let wanted = key.to_owned();
    let mut n: usize = params.len();
    let ghost all = params.deep_view();
    assert(all.take(n as int) =~= all);
    while n > 0
        invariant
            n <= params.len(),
            all == params.deep_view(),
            wanted@ == key@,
            lookup(all.take(n as int), key@) == lookup(all, key@),
        decreases n,
    {
        let p = &params[n - 1];
        assert(all.take(n as int).last() == p.deep_view());
        assert(all.take(n as int).drop_last() =~= all.take(n - 1));
        if p.key == wanted {
            let chars = chars_of(p.value.as_str());
            return parse_decimal(chars.as_slice());
        }
        n -= 1;
    }
    None
}

fn as_fraction(value: Option<Ratio>) -> (out: Option<Ratio>)
    requires
        value is Some ==> is_parsed(value->Some_0),
    ensures
        out == percent(value),
        out is Some ==> out->Some_0.num <= u64::MAX && 0 < out->Some_0.den
            <= 100_000_000_000_000_000_000,
{
    match value {
        Some(r) => Some(Ratio { num: r.num, den: r.den * 100 }),
        None => None,
    }
}

fn derive_power(reading: Option<Ratio>, nominal: Option<Ratio>, load: Option<Ratio>) -> (out:
    Option<Ratio>)
    requires
        nominal is Some ==> is_parsed(nominal->Some_0),
        load is Some ==> load->Some_0.num <= u64::MAX && 0 < load->Some_0.den
            <= 100_000_000_000_000_000_000,
    ensures
        out == power(reading, nominal, load),
{
    match reading {
        Some(r) => Some(r),
        None => match (nominal, load) {
            (Some(n), Some(l)) => {
                if n.num > 0 {
                    assert(n.num * l.num <= 0xFFFF_FFFF_FFFF_FFFF * 0xFFFF_FFFF_FFFF_FFFF)
                        by (nonlinear_arith)
                        requires
                            n.num <= 0xFFFF_FFFF_FFFF_FFFF,
                            l.num <= 0xFFFF_FFFF_FFFF_FFFF,
                    ;
                    assert(n.den * l.den <= 1_000_000_000_000_000_000
                        * 100_000_000_000_000_000_000) by (nonlinear_arith)
                        requires
                            n.den <= 1_000_000_000_000_000_000,
                            l.den <= 100_000_000_000_000_000_000,
                    ;
                    Some(Ratio { num: n.num * l.num, den: n.den * l.den })
                } else {
                    None
                }
            },
            _ => None,
        },
    }
}

impl Nut {
    pub fn new(config: Config) -> (n: Nut)
        ensures
            n.config == config,
    {
        Nut { config }
    }

    /// Turns the raw parameters of the device `name` into its statistics.
    ///
    /// Every field is read from its key; the apparent power from `ups.power` or, failing
    /// that, `ups.realpower`. The charge and the load are percentages and become fractions
    /// of one. A power that is not reported is the nominal power times the load.
    pub fn collect_device_parameters(&self, name: String, params: &Vec<Parameter>) -> (stats:
        UpsDeviceStats)
        ensures
            is_projection(stats, name@, params.deep_view()),
    {
        let load = as_fraction(parse_parameter(params, "ups.load"));
        let real_reading = parse_parameter(params, "ups.realpower");
        let apparent_reading = match parse_parameter(params, "ups.power") {
            Some(r) => Some(r),
            None => real_reading,
        };
        UpsDeviceStats {
            device_name: name,
            estimated_runtime: parse_parameter(params, "battery.runtime"),
            battery_level: as_fraction(parse_parameter(params, "battery.charge")),
            input_voltage: parse_parameter(params, "input.voltage"),
            output_voltage: parse_parameter(params, "output.voltage"),
            load,
            real_power: derive_power(
                real_reading,
                parse_parameter(params, "ups.realpower.nominal"),
                load,
            ),
            apparent_power: derive_power(
                apparent_reading,
                parse_parameter(params, "ups.power.nominal"),
                load,
            ),
        }
    }

    /// The statistics of one cycle: one entry for each device of `records`, in their order,
    /// stamped with `now`.
    pub fn ups_stats(&self, records: Vec<UpsDeviceRecord>, now: Timestamp) -> (stats: UpsStats)
        ensures
            stats.timestamp == now,
            stats.devices@.len() == records@.len(),
            forall|i: int|
                0 <= i < records@.len() ==> is_projection(
                    #[trigger] stats.devices@[i],
                    records@[i].name@,
                    records@[i].raw_parameters.deep_view(),
                ),
    {
        let mut devices: Vec<UpsDeviceStats> = Vec::new();
        let mut i: usize = 0;
        while i < records.len()
            invariant
                i <= records.len(),
                devices@.len() == i,
                forall|j: int|
                    0 <= j < i ==> is_projection(
                        #[trigger] devices@[j],
                        records@[j].name@,
                        records@[j].raw_parameters.deep_view(),
                    ),
            decreases records.len() - i,
        {
            let record = &records[i];
            let device = self.collect_device_parameters(
                record.name.clone(),
                &record.raw_parameters,
            );
            devices.push(device);
            i += 1;
        }
        UpsStats { timestamp: now, devices }
    }
}

/// Where a session stands.
#[derive(Clone, Copy, Debug, PartialEq, Eq, Structural)]
pub enum Phase {
    /// The connection is open and nothing was sent.
    Connected,
    /// `LIST UPS` was sent and its answer is being read.
    ListingDevices,
    /// `LIST VAR` was sent for the device with this index and its answer is being read.
    ListingParameters(usize),
    /// Nothing more is sent or read.
    Done,
}

/// What the transport does next for a session.
#[derive(Debug)]
pub enum Action {
    /// Send this text, then read a line.
    Send(String),
    /// Read a line.
    ReadLine,
    /// Close the connection and take the records.
    Finish,
}

pub enum ActionModel {
    Send(Seq<char>),
    ReadLine,
    Finish,
}

impl DeepView for Action {
    type V = ActionModel;

    open spec fn deep_view(&self) -> ActionModel {
        match self {
            Action::Send(text) => ActionModel::Send(text@),
            Action::ReadLine => ActionModel::ReadLine,
            Action::Finish => ActionModel::Finish,
        }
    }
}

/// One session with the server: a fresh one for each collection cycle.
#[derive(Debug)]
pub struct Session {
    pub phase: Phase,
    /// The devices discovered so far.
    pub devices: Vec<String>,
    /// The parameters read so far of the device that is being listed.
    pub pending: Vec<Parameter>,
    /// The devices whose parameters were read to the end.
    pub records: Vec<UpsDeviceRecord>,
}

pub struct SessionModel {
    pub phase: Phase,
    pub devices: Seq<Seq<char>>,
    pub pending: Seq<(Seq<char>, Seq<char>)>,
    pub records: Seq<(Seq<char>, Seq<(Seq<char>, Seq<char>)>)>,
}

impl DeepView for Session {
    type V = SessionModel;

    open spec fn deep_view(&self) -> SessionModel {
        SessionModel {
            phase: self.phase,
            devices: self.devices.deep_view(),
            pending: self.pending.deep_view(),
            records: self.records.deep_view(),
        }
    }
}

/// The command that lists the parameters of the device `name`.
pub open spec fn list_var_command(name: Seq<char>) -> Seq<char> {
    "LIST VAR "@ + name + "\n"@
}

/// A session is well formed when the device whose parameters it is listing is one of the
/// devices it discovered.
pub open spec fn well_formed(m: SessionModel) -> bool {
    match m.phase {
        Phase::ListingParameters(i) => i < m.devices.len(),
        _ => true,
    }
}

/// The step after the list of devices ended: the parameters of the first device are asked
/// for, or the session is done when there is no device.
pub open spec fn after_devices(m: SessionModel) -> (SessionModel, ActionModel) {
    if m.devices.len() == 0 {
        (SessionModel { phase: Phase::Done, ..m }, ActionModel::Finish)
    } else {
        (
            SessionModel { phase: Phase::ListingParameters(0), pending: Seq::empty(), ..m },
            ActionModel::Send(list_var_command(m.devices[0])),
        )
    }
}

/// The step after the parameters of device `i` ended: the device is recorded with what was
/// read, and the next device is asked for, or the session is done after the last.
pub open spec fn after_parameters(m: SessionModel, i: int) -> (SessionModel, ActionModel) {
    let records = m.records.push((m.devices[i], m.pending));
    if i + 1 < m.devices.len() {
        (
            SessionModel {
                phase: Phase::ListingParameters((i + 1) as usize),
                pending: Seq::empty(),
                records,
                ..m
            },
            ActionModel::Send(list_var_command(m.devices[i + 1])),
        )
    } else {
        (
            SessionModel { phase: Phase::Done, pending: Seq::empty(), records, ..m },
            ActionModel::Finish,
        )
    }
}

/// The step when the connection was opened.
pub open spec fn after_open(m: SessionModel) -> (SessionModel, ActionModel) {
    match m.phase {
        Phase::Connected => (
            SessionModel { phase: Phase::ListingDevices, ..m },
            ActionModel::Send("LIST UPS\n"@),
        ),
        _ => (m, ActionModel::Finish),
    }
}

/// The step when `line` was read. A line that is neither a terminator nor of the expected
/// form is skipped.
pub open spec fn after_line(m: SessionModel, line: Seq<char>) -> (SessionModel, ActionModel) {
    match m.phase {
        Phase::ListingDevices => {
            if is_end_of_ups_list(line) {
                after_devices(m)
            } else {
                match ups_name_of(line) {
                    Some(name) => (
                        SessionModel { devices: m.devices.push(name), ..m },
                        ActionModel::ReadLine,
                    ),
                    None => (m, ActionModel::ReadLine),
                }
            }
        },
        Phase::ListingParameters(i) => {
            if is_end_of_var_list(line) {
                after_parameters(m, i as int)
            } else {
                match var_of(line) {
                    Some(p) => (
                        SessionModel { pending: m.pending.push(p), ..m },
                        ActionModel::ReadLine,
                    ),
                    None => (m, ActionModel::ReadLine),
                }
            }
        },
        _ => (m, ActionModel::Finish),
    }
}

/// The step when the server closed the stream: what was being listed ends there.
pub open spec fn after_end_of_stream(m: SessionModel) -> (SessionModel, ActionModel) {
    match m.phase {
        Phase::ListingDevices => after_devices(m),
        Phase::ListingParameters(i) => after_parameters(m, i as int),
        _ => (m, ActionModel::Finish),
    }
}

impl Session {
    pub fn new() -> (s: Session)
        ensures
            s.deep_view() == (SessionModel {
                phase: Phase::Connected,
                devices: Seq::empty(),
                pending: Seq::empty(),
                records: Seq::empty(),
            }),
    {
        let s = Session {
            phase: Phase::Connected,
            devices: Vec::new(),
            pending: Vec::new(),
            records: Vec::new(),
        };
        assert(s.devices.deep_view() =~= Seq::empty());
        assert(s.pending.deep_view() =~= Seq::empty());
        assert(s.records.deep_view() =~= Seq::empty());
        s
    }

    fn list_var(&self, i: usize) -> (a: Action)
        requires
            i < self.devices.len(),
        ensures
            a.deep_view() == ActionModel::Send(list_var_command(self.devices.deep_view()[i as int])),
    {
        let mut command = "LIST VAR ".to_owned();
        command.append(self.devices[i].as_str());
        command.append("\n");
        Action::Send(command)
    }

    fn end_devices(&mut self) -> (a: Action)
        ensures
            (final(self).deep_view(), a.deep_view()) == after_devices(old(self).deep_view()),
            well_formed(final(self).deep_view()),
    {
        if self.devices.len() == 0 {
            self.phase = Phase::Done;
            Action::Finish
        } else {
            self.phase = Phase::ListingParameters(0);
            self.pending = Vec::new();
            assert(self.pending.deep_view() =~= Seq::empty());
            self.list_var(0)
        }
    }

    fn end_parameters(&mut self, i: usize) -> (a: Action)
        requires
            i < old(self).devices.len(),
        ensures
            (final(self).deep_view(), a.deep_view()) == after_parameters(
                old(self).deep_view(),
                i as int,
            ),
            well_formed(final(self).deep_view()),
    {
        let ghost before = self.deep_view();
        let mut taken: Vec<Parameter> = Vec::new();
        std::mem::swap(&mut self.pending, &mut taken);
        assert(self.pending.deep_view() =~= Seq::empty());
        let record = UpsDeviceRecord { name: self.devices[i].clone(), raw_parameters: taken };
        self.records.push(record);
        assert(self.records.deep_view() =~= before.records.push(
            (before.devices[i as int], before.pending),
        ));
        if i + 1 < self.devices.len() {
            self.phase = Phase::ListingParameters(i + 1);
            self.list_var(i + 1)
        } else {
            self.phase = Phase::Done;
            Action::Finish
        }
    }

    /// The connection was opened.
    pub fn open(&mut self) -> (a: Action)
        requires
            well_formed(old(self).deep_view()),
        ensures
            (final(self).deep_view(), a.deep_view()) == after_open(old(self).deep_view()),
            well_formed(final(self).deep_view()),
    {
        match self.phase {
            Phase::Connected => {
                self.phase = Phase::ListingDevices;
                Action::Send("LIST UPS\n".to_owned())
            },
            _ => Action::Finish,
        }
    }

    /// The line `line` was read.
    pub fn line(&mut self, line: &str) -> (a: Action)
        requires
            well_formed(old(self).deep_view()),
        ensures
            (final(self).deep_view(), a.deep_view()) == after_line(old(self).deep_view(), line@),
            well_formed(final(self).deep_view()),
    {
        let ghost before = self.deep_view();
        match self.phase {
            Phase::ListingDevices => {
                if ends_ups_list(line) {
                    self.end_devices()
                } else {
                    match parse_ups_line(line) {
                        Some(name) => {
                            self.devices.push(name);
                            assert(self.devices.deep_view() =~= before.devices.push(name@));
                        },
                        None => {},
                    }
                    Action::ReadLine
                }
            },
            Phase::ListingParameters(i) => {
                if ends_var_list(line) {
                    self.end_parameters(i)
                } else {
                    match parse_var_line(line) {
                        Some(p) => {
                            self.pending.push(p);
                            assert(self.pending.deep_view() =~= before.pending.push(
                                p.deep_view(),
                            ));
                        },
                        None => {},
                    }
                    Action::ReadLine
                }
            },
            _ => Action::Finish,
        }
    }

    /// The server closed the stream.
    pub fn end_of_stream(&mut self) -> (a: Action)
        requires
            well_formed(old(self).deep_view()),
        ensures
            (final(self).deep_view(), a.deep_view()) == after_end_of_stream(old(self).deep_view()),
            well_formed(final(self).deep_view()),
    {
        match self.phase {
            Phase::ListingDevices => self.end_devices(),
            Phase::ListingParameters(i) => self.end_parameters(i),
            _ => Action::Finish,
        }
    }

    /// The records gathered; all devices once the session is done.
    pub fn into_records(self) -> (records: Vec<UpsDeviceRecord>)
        ensures
            records == self.records,
    {
        self.records
    }
}

/// A session that is done stays done and asks for nothing more, whatever arrives.
pub proof fn lemma_done_is_final(m: SessionModel, line: Seq<char>)
    requires
        m.phase == Phase::Done,
    ensures
        after_open(m) == (m, ActionModel::Finish),
        after_line(m, line) == (m, ActionModel::Finish),
        after_end_of_stream(m) == (m, ActionModel::Finish),
{
}

/// A line that is neither a terminator nor of the expected form changes nothing, and the
/// session reads on.
pub proof fn lemma_malformed_line_is_skipped(m: SessionModel, line: Seq<char>)
    requires
        m.phase == Phase::ListingDevices && !is_end_of_ups_list(line) && ups_name_of(line) is None
            || m.phase is ListingParameters && !is_end_of_var_list(line) && var_of(line) is None,
    ensures
        after_line(m, line) == (m, ActionModel::ReadLine),
{
}

/// What holds of a session at every step: the recorded devices are the first of the
/// discovered ones, in their order; while the parameters of a device are listed, exactly
/// the devices before it are recorded; and a session that is done has recorded every
/// device it discovered.
pub open spec fn in_order(m: SessionModel) -> bool {
    &&& m.records.len() <= m.devices.len()
    &&& forall|k: int| 0 <= k < m.records.len() ==> (#[trigger] m.records[k]).0 == m.devices[k]
    &&& match m.phase {
        Phase::Connected => m.devices.len() == 0 && m.records.len() == 0,
        Phase::ListingDevices => m.records.len() == 0,
        Phase::ListingParameters(i) => i < m.devices.len() && m.records.len() == i,
        Phase::Done => m.records.len() == m.devices.len(),
    }
}

/// A new session is in order, and a session in order is well formed.
pub proof fn lemma_new_session_is_in_order(m: SessionModel)
    ensures
        m.phase == Phase::Connected && m.devices.len() == 0 && m.records.len() == 0 ==> in_order(m),
        in_order(m) ==> well_formed(m),
{
}

/// No step brings a session out of order, whatever arrives. (The number of devices is
/// that of a vector, so it is within the machine's range.)
pub proof fn lemma_steps_keep_the_order(m: SessionModel, line: Seq<char>)
    requires
        in_order(m),
        m.devices.len() <= usize::MAX,
    ensures
        in_order(after_open(m).0),
        in_order(after_line(m, line).0),
        in_order(after_end_of_stream(m).0),
{
    match m.phase {
        Phase::ListingParameters(i) => {
            lemma_recording_keeps_the_order(m, i as int);
        },
        _ => {},
    }
}

/// Recording the device whose parameters were listed keeps the session in order.
pub proof fn lemma_recording_keeps_the_order(m: SessionModel, i: int)
    requires
        in_order(m),
        m.phase == Phase::ListingParameters(i as usize),
        0 <= i < m.devices.len() <= usize::MAX,
    ensures
        in_order(after_parameters(m, i).0),
{
    let n = after_parameters(m, i).0;
    assert(n.records == m.records.push((m.devices[i], m.pending)));
    assert(n.devices == m.devices);
    assert forall|k: int| 0 <= k < n.records.len() implies (#[trigger] n.records[k]).0
        == n.devices[k] by {
        if k < i {
            assert(n.records[k] == m.records[k]);
        }
    }
}

/// Reading the same line twice gives the same device and the same parameter, or nothing
/// both times: the reading depends on nothing but the line.
pub proof fn lemma_lines_are_read_repeatably(
    line: &str,
    again: &str,
    first: Option<String>,
    second: Option<String>,
    first_var: Option<Parameter>,
    second_var: Option<Parameter>,
)
    requires
        line@ == again@,
        call_ensures(parse_ups_line, (line,), first),
        call_ensures(parse_ups_line, (again,), second),
        call_ensures(parse_var_line, (line,), first_var),
        call_ensures(parse_var_line, (again,), second_var),
    ensures
        first is Some == second is Some,
        first is Some ==> first->Some_0@ == second->Some_0@,
        first_var is Some == second_var is Some,
        first_var is Some ==> first_var->Some_0.deep_view() == second_var->Some_0.deep_view(),
{
}

/// The statistics of a device depend on nothing but its name and its parameters.
pub proof fn lemma_projection_is_repeatable(
    name: Seq<char>,
    params: Seq<(Seq<char>, Seq<char>)>,
    first: UpsDeviceStats,
    second: UpsDeviceStats,
)
    requires
        is_projection(first, name, params),
        is_projection(second, name, params),
    ensures
        first.device_name@ == second.device_name@,
        first.estimated_runtime == second.estimated_runtime,
        first.battery_level == second.battery_level,
        first.input_voltage == second.input_voltage,
        first.output_voltage == second.output_voltage,
        first.apparent_power == second.apparent_power,
        first.real_power == second.real_power,
        first.load == second.load,
{
}

} // verus!
