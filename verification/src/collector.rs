//! Collecting device metrics and encoding them in the Prometheus text format.
//!
//! A [`Collector`] remembers which devices the last scan found and when that
//! scan was made. Each collection first decides whether the devices must be
//! scanned again (they are re-scanned at most once per interval), then
//! publishes one `smart_device_up` series per known device and encodes all
//! registered metrics. Running smartctl and reading the clock are left to the
//! caller: [`Collector::collect`] is a step function that says what to do
//! next.

use vstd::prelude::*;
use vstd::string::*;

use prometheus_client::metrics::family::Family;
use prometheus_client::metrics::gauge::Gauge;
use prometheus_client::metrics::info::Info;
use prometheus_client::registry::Registry;

use crate::smartctl::scan;
use crate::smartctl::scan::Protocol;
use crate::smartctl::Version;

verus! {

// ---------------------------------------------------------------------------
// The exposition format
// ---------------------------------------------------------------------------

/// The view of a label set: pairs of label name and label value, in order.
pub type LabelSetView = Seq<(Seq<char>, Seq<char>)>;

/// A label set: pairs of label name and label value, in order.
pub open spec fn label_set_view(labels: Seq<(String, String)>) -> Seq<(Seq<char>, Seq<char>)> {
    labels.map_values(|p: (String, String)| (p.0@, p.1@))
}

/// One label as it is written: `name="value"` (values are written as they
/// are, without escaping).
pub open spec fn label_text(label: (Seq<char>, Seq<char>)) -> Seq<char> {
    label.0 + "=\""@ + label.1 + "\""@
}

/// A label set as it is written between braces: its labels joined by `,`.
pub open spec fn label_set_text(labels: Seq<(Seq<char>, Seq<char>)>) -> Seq<char> {
    crate::text::join_with(labels.map_values(|l: (Seq<char>, Seq<char>)| label_text(l)), ","@)
}

/// The decimal text of a signed integer, with `-` before a negative one.
pub open spec fn signed_decimal(v: int) -> Seq<char> {
    if v < 0 {
        seq!['-'] + crate::text::decimal((-v) as nat)
    } else {
        crate::text::decimal(v as nat)
    }
}

/// The two descriptor lines of a metric: its help text (given a closing
/// full stop) and its type.
pub open spec fn descriptor_text(name: Seq<char>, help: Seq<char>, kind: Seq<char>) -> Seq<char> {
    "# HELP "@ + name + " "@ + help + ".\n# TYPE "@ + name + " "@ + kind + "\n"@
}

/// The sample line of an info metric.
pub open spec fn info_sample(name: Seq<char>, labels: Seq<(Seq<char>, Seq<char>)>) -> Seq<char> {
    name + "_info{"@ + label_set_text(labels) + "} 1\n"@
}

/// The sample line of one series of a gauge family.
pub open spec fn gauge_sample(name: Seq<char>, labels: Seq<(Seq<char>, Seq<char>)>, value: i64) -> Seq<
    char,
> {
    name + "{"@ + label_set_text(labels) + "} "@ + signed_decimal(value as int) + "\n"@
}

/// The sample lines of a gauge family, one per label set of `order`, in
/// that order.
pub open spec fn gauge_samples(
    name: Seq<char>,
    series: Map<Seq<(Seq<char>, Seq<char>)>, i64>,
    order: Seq<Seq<(Seq<char>, Seq<char>)>>,
) -> Seq<char>
    decreases order.len(),
{
    if order.len() == 0 {
        seq![]
    } else {
        gauge_samples(name, series, order.drop_last()) + gauge_sample(
            name,
            order.last(),
            series[order.last()],
        )
    }
}

/// Whether `order` lists every label set of `series` exactly once.
pub open spec fn lists_series(
    order: Seq<Seq<(Seq<char>, Seq<char>)>>,
    series: Map<Seq<(Seq<char>, Seq<char>)>, i64>,
) -> bool {
    &&& order.no_duplicates()
    &&& forall|l: Seq<(Seq<char>, Seq<char>)>| series.contains_key(l) <==> order.contains(l)
}

/// A registered metric: its name, its help text, and either the label set
/// of an info metric (`Some`) or the device family of the same [`Metrics`]
/// (`None`).
pub type Registration = (Seq<char>, Seq<char>, Option<Seq<(Seq<char>, Seq<char>)>>);

/// The text of one registered metric: the info sample of an info metric, or
/// the family's samples in the order `order`.
pub open spec fn registration_text(
    r: (Seq<char>, Seq<char>, Option<Seq<(Seq<char>, Seq<char>)>>),
    series: Map<Seq<(Seq<char>, Seq<char>)>, i64>,
    order: Seq<Seq<(Seq<char>, Seq<char>)>>,
) -> Seq<char> {
    match r.2 {
        Some(labels) => descriptor_text(r.0, r.1, "info"@) + info_sample(r.0, labels),
        None => descriptor_text(r.0, r.1, "gauge"@) + gauge_samples(r.0, series, order),
    }
}

/// The text of the registered metrics, in the order of registration; the
/// `i`-th family lists its series in the order `orders[i]`.
pub open spec fn registrations_text(
    regs: Seq<(Seq<char>, Seq<char>, Option<Seq<(Seq<char>, Seq<char>)>>)>,
    series: Map<Seq<(Seq<char>, Seq<char>)>, i64>,
    orders: Seq<Seq<Seq<(Seq<char>, Seq<char>)>>>,
) -> Seq<char>
    decreases regs.len(),
{
    if regs.len() == 0 {
        seq![]
    } else {
        registrations_text(regs.drop_last(), series, orders) + registration_text(
            regs.last(),
            series,
            orders[regs.len() - 1],
        )
    }
}

/// The marker that ends an OpenMetrics exposition.
pub open spec fn exposition_end() -> Seq<char> {
    "# EOF\n"@
}

/// An exposition of the registered metrics `regs` and the family series
/// `series`, the `i`-th registration listing the series in the order
/// `orders[i]`.
pub open spec fn exposition(
    regs: Seq<(Seq<char>, Seq<char>, Option<Seq<(Seq<char>, Seq<char>)>>)>,
    series: Map<Seq<(Seq<char>, Seq<char>)>, i64>,
    orders: Seq<Seq<Seq<(Seq<char>, Seq<char>)>>>,
) -> Seq<char> {
    registrations_text(regs, series, orders) + exposition_end()
}

/// Whether `orders` gives one listing of `series` to each registration.
pub open spec fn valid_orders(
    regs: Seq<(Seq<char>, Seq<char>, Option<Seq<(Seq<char>, Seq<char>)>>)>,
    series: Map<Seq<(Seq<char>, Seq<char>)>, i64>,
    orders: Seq<Seq<Seq<(Seq<char>, Seq<char>)>>>,
) -> bool {
    &&& orders.len() == regs.len()
    &&& forall|i: int| 0 <= i < orders.len() ==> lists_series(#[trigger] orders[i], series)
}

/// Whether `text` is an exposition of `regs` and `series`, its families
/// listing the series in some order.
pub open spec fn is_exposition(
    text: Seq<char>,
    regs: Seq<(Seq<char>, Seq<char>, Option<Seq<(Seq<char>, Seq<char>)>>)>,
    series: Map<Seq<(Seq<char>, Seq<char>)>, i64>,
) -> bool {
    exists|orders: Seq<Seq<Seq<(Seq<char>, Seq<char>)>>>|
        valid_orders(regs, series, orders) && text == #[trigger] exposition(regs, series, orders)
}

// ---------------------------------------------------------------------------
// The metric registry and the device family (prometheus_client)
// ---------------------------------------------------------------------------

/// The exporter's metric registry together with the device family that it
/// shares with the registry.
#[verifier::external_body]
#[derive(Debug)]
pub struct Metrics {
    registry: Registry,
    smart_device_up: Family<Vec<(String, String)>, Gauge>,
}

/// The metrics registered with the registry of `metrics`, in the order of
/// registration: name, help text as given, and the label set of an info
/// metric or `None` for the device family of `metrics`.
pub uninterp spec fn registered_metrics(metrics: Metrics) -> Seq<
    (Seq<char>, Seq<char>, Option<Seq<(Seq<char>, Seq<char>)>>),
>;

/// The series of the device family: each label set that the family holds,
/// with the value of its gauge.
pub uninterp spec fn device_up_series(metrics: Metrics) -> Map<Seq<(Seq<char>, Seq<char>)>, i64>;

/// No series at all.
pub open spec fn no_series() -> Map<Seq<(Seq<char>, Seq<char>)>, i64> {
    Map::empty()
}

/// Calls `Registry::default` and `Family::default`: a registry with no
/// metric registered, and a device family with no series.
#[verifier::external_body]
fn new_metrics() -> (m: Metrics)
    ensures
        registered_metrics(m).len() == 0,
        device_up_series(m) == no_series(),
{
    Metrics { registry: Registry::default(), smart_device_up: Family::default() }
}

impl Default for Metrics {
    /// Metrics with nothing registered and no series.
    fn default() -> (m: Metrics)
        ensures
            registered_metrics(m).len() == 0,
            device_up_series(m) == no_series(),
    {
        new_metrics()
    }
}

/// Calls `Family::clear` on the device family, which removes every label
/// set from it. The registry is not touched.
#[verifier::external_body]
fn clear_device_up(m: &mut Metrics)
    ensures
        device_up_series(*final(m)) == no_series(),
        registered_metrics(*final(m)) == registered_metrics(*old(m)),
{
    m.smart_device_up.clear()
}

/// Calls `Family::get_or_create` for `labels` on the device family, which
/// adds the label set with a gauge of value 0 where it is missing, and
/// `Gauge::set` on the gauge that it hands back, which makes `value` the
/// gauge's value. Other label sets keep theirs; the registry is not touched.
#[verifier::external_body]
fn set_device_up(m: &mut Metrics, labels: &Vec<(String, String)>, value: i64)
    ensures
        device_up_series(*final(m)) == device_up_series(*old(m)).insert(
            label_set_view(labels@),
            value,
        ),
        registered_metrics(*final(m)) == registered_metrics(*old(m)),
{
    m.smart_device_up.get_or_create(labels).set(value);
}

/// Calls `Registry::register` with an info metric (`Info::new`) that carries
/// `labels`: the metric is appended to the registry under `name` and `help`.
#[verifier::external_body]
fn register_info(m: &mut Metrics, name: &str, help: &str, labels: Vec<(String, String)>)
    ensures
        registered_metrics(*final(m)) == registered_metrics(*old(m)).push(
            (name@, help@, Some(label_set_view(labels@))),
        ),
        device_up_series(*final(m)) == device_up_series(*old(m)),
{
    m.registry.register(name, help, Info::new(labels))
}

/// Calls `Registry::register` with a handle of the device family
/// (`Family::clone`, which shares the family's series with the original):
/// the family is appended to the registry under `name` and `help`.
#[verifier::external_body]
fn register_device_up(m: &mut Metrics, name: &str, help: &str)
    ensures
        registered_metrics(*final(m)) == registered_metrics(*old(m)).push((name@, help@, None)),
        device_up_series(*final(m)) == device_up_series(*old(m)),
{
    let family = m.smart_device_up.clone();
    m.registry.register(name, help, family)
}

/// Calls `prometheus_client::encoding::text::encode` on the registry,
/// writing into a new `String`. Writing into a `String` never fails, and
/// `encode` fails only where its writer does, so the result is `Ok`. The text
/// is the [`exposition`] of the registered metrics: for each, in order of
/// registration, its descriptor lines and its samples (a family's series in
/// the order in which its hash map is walked, which is not stated), then the
/// end marker.
#[verifier::external_body]
fn encode_metrics(m: &Metrics) -> (r: Result<String, String>)
    ensures
        r is Ok,
        r matches Ok(text) ==> is_exposition(text@, registered_metrics(*m), device_up_series(*m)),
{
    let mut buffer = String::new();
    match prometheus_client::encoding::text::encode(&mut buffer, &m.registry) {
        Ok(()) => Ok(buffer),
        Err(e) => Err(format!("{:?}", e)),
    }
}

// ---------------------------------------------------------------------------
// Devices and their labels
// ---------------------------------------------------------------------------

/// A device that the collector reports on.
#[derive(Debug)]
pub struct Device {
    /// The device path, such as `/dev/sda`.
    pub name: String,
    pub protocol: Protocol,
}

impl Device {
    /// Collects the device's own metrics. There are none yet, so this always
    /// succeeds and leaves the device as it is.
    pub fn collect(&mut self) -> (r: Result<(), String>)
        ensures
            r is Ok,
            *final(self) == *old(self),
    {
        Ok(())
    }
}

impl From<scan::Device> for Device {
    fn from(value: scan::Device) -> (d: Device) {
        Device { name: value.name, protocol: value.protocol }
    }
}

impl vstd::std_specs::convert::FromSpecImpl<scan::Device> for Device {
    open spec fn obeys_from_spec() -> bool {
        true
    }

    open spec fn from_spec(v: scan::Device) -> Device {
        Device { name: v.name, protocol: v.protocol }
    }
}

/// The label value of a protocol: the name of its variant.
pub open spec fn protocol_label(p: Protocol) -> Seq<char> {
    match p {
        Protocol::Ata => "Ata"@,
        Protocol::NVMe => "NVMe"@,
    }
}

fn protocol_label_string(p: Protocol) -> (s: String)
    ensures
        s@ == protocol_label(p),
{
    match p {
        Protocol::Ata => String::from_str("Ata"),
        Protocol::NVMe => String::from_str("NVMe"),
    }
}

/// The labels of a device's `smart_device_up` series: its path and its
/// protocol.
pub open spec fn device_up_labels(d: Device) -> Seq<(Seq<char>, Seq<char>)> {
    seq![("path"@, d.name@), ("protocol"@, protocol_label(d.protocol))]
}

/// The labels of a device's `smart_device_up` series.
pub fn device_up_label_set(d: &Device) -> (labels: Vec<(String, String)>)
    ensures
        label_set_view(labels@) == device_up_labels(*d),
{
    let mut labels: Vec<(String, String)> = Vec::new();
    labels.push((String::from_str("path"), d.name.clone()));
    labels.push((String::from_str("protocol"), protocol_label_string(d.protocol)));
    assert(label_set_view(labels@) =~= device_up_labels(*d));
    labels
}

/// The labels of the exporter's info metric: the exporter's version.
pub open spec fn info_labels(exporter_version: Seq<char>) -> Seq<(Seq<char>, Seq<char>)> {
    seq![("version"@, exporter_version)]
}

/// The labels of the exporter's info metric.
pub fn info_label_set(exporter_version: &str) -> (labels: Vec<(String, String)>)
    ensures
        label_set_view(labels@) == info_labels(exporter_version@),
{
    let mut labels: Vec<(String, String)> = Vec::new();
    labels.push((String::from_str("version"), exporter_version.to_owned()));
    assert(label_set_view(labels@) =~= info_labels(exporter_version@));
    labels
}

/// The `smart_device_up` series for the devices `devices`: one series of
/// value 1 per distinct label set.
pub open spec fn device_up_map(devices: Seq<Device>) -> Map<Seq<(Seq<char>, Seq<char>)>, i64>
    decreases devices.len(),
{
    if devices.len() == 0 {
        Map::empty()
    } else {
        device_up_map(devices.drop_last()).insert(device_up_labels(devices.last()), 1)
    }
}


/// Every known device has a `smart_device_up` series of value 1, and no
/// other series is published: devices that a later scan no longer lists are
/// no longer reported.
pub proof fn lemma_device_up_map_exact(devices: Seq<Device>)
    ensures
        forall|labels: Seq<(Seq<char>, Seq<char>)>|
            #[trigger] device_up_map(devices).contains_key(labels) <==> exists|i: int|
                0 <= i < devices.len() && device_up_labels(devices[i]) == labels,
        forall|labels: Seq<(Seq<char>, Seq<char>)>|
            #[trigger] device_up_map(devices).contains_key(labels) ==> device_up_map(
                devices,
            )[labels] == 1,
    decreases devices.len(),
{
    if devices.len() > 0 {
        let rest = devices.drop_last();
        let key = device_up_labels(devices.last());
        lemma_device_up_map_exact(rest);
        assert(device_up_map(devices) == device_up_map(rest).insert(key, 1));
        assert forall|labels: Seq<(Seq<char>, Seq<char>)>|
            #[trigger] device_up_map(devices).contains_key(labels) implies device_up_map(
                devices,
            )[labels] == 1 by {
            if labels != key {
                assert(device_up_map(rest).contains_key(labels));
            }
        }
        assert forall|labels: Seq<(Seq<char>, Seq<char>)>|
            #[trigger] device_up_map(devices).contains_key(labels) <==> exists|i: int|
                0 <= i < devices.len() && device_up_labels(devices[i]) == labels by {
            if device_up_map(devices).contains_key(labels) {
                if labels == key {
                    assert(device_up_labels(devices[devices.len() - 1]) == labels);
                } else {
                    assert(device_up_map(rest).contains_key(labels));
                    let i = choose|i: int|
                        0 <= i < rest.len() && device_up_labels(rest[i]) == labels;
                    assert(devices[i] == rest[i]);
                    assert(device_up_labels(devices[i]) == labels);
                }
            }
            if exists|i: int| 0 <= i < devices.len() && device_up_labels(devices[i]) == labels {
                let i = choose|i: int|
                    0 <= i < devices.len() && device_up_labels(devices[i]) == labels;
                if i < devices.len() - 1 {
                    assert(rest[i] == devices[i]);
                    assert(device_up_labels(rest[i]) == labels);
                    assert(device_up_map(rest).contains_key(labels));
                }
            }
        }
    }
}

/// A scan at time `t` is followed by another only once more than the
/// rescan interval has passed since `t`.
pub proof fn lemma_rescan_throttled(t: u64, interval: nat, now: nat)
    ensures
        rescan_due(Some(t), interval, now) <==> now - t > interval,
        now <= t + interval ==> !rescan_due(Some(t), interval, now),
{
}

/// The devices of a scan, as the collector keeps them.
pub open spec fn devices_of_scan(s: Seq<scan::Device>) -> Seq<Device> {
    s.map_values(|d: scan::Device| Device { name: d.name, protocol: d.protocol })
}


/// After a scan the collector knows one device per scanned device, in the
/// order of the scan, each with the scanned device's path and protocol.
pub proof fn lemma_devices_of_scan(s: Seq<scan::Device>)
    ensures
        devices_of_scan(s).len() == s.len(),
        forall|i: int|
            0 <= i < s.len() ==> (#[trigger] devices_of_scan(s)[i]).name == s[i].name
                && devices_of_scan(s)[i].protocol == s[i].protocol,
{
}

/// Every device of a successful scan is reported up: the published series
/// hold, for each scanned device, its path and protocol labels with value 1.
pub proof fn lemma_scanned_devices_reported(s: Seq<scan::Device>)
    ensures
        forall|i: int|
            #![trigger s[i]]
            0 <= i < s.len() ==> device_up_map(devices_of_scan(s)).contains_key(
                seq![("path"@, s[i].name@), ("protocol"@, protocol_label(s[i].protocol))],
            ) && device_up_map(devices_of_scan(s))[seq![
                ("path"@, s[i].name@),
                ("protocol"@, protocol_label(s[i].protocol)),
            ]] == 1,
{
    lemma_devices_of_scan(s);
    lemma_device_up_map_exact(devices_of_scan(s));
    assert forall|i: int| #![trigger s[i]] 0 <= i < s.len() implies device_up_map(
        devices_of_scan(s),
    ).contains_key(seq![("path"@, s[i].name@), ("protocol"@, protocol_label(s[i].protocol))])
        && device_up_map(devices_of_scan(s))[seq![
        ("path"@, s[i].name@),
        ("protocol"@, protocol_label(s[i].protocol)),
    ]] == 1 by {
        let d = devices_of_scan(s)[i];
        assert(device_up_labels(d) == seq![
            ("path"@, s[i].name@),
            ("protocol"@, protocol_label(s[i].protocol)),
        ]);
    }
}

// ---------------------------------------------------------------------------
// The collector
// ---------------------------------------------------------------------------

/// The name under which the exporter's info metric is registered.
pub open spec fn info_metric_name() -> Seq<char> {
    "smartctl_exporter_info"@
}

/// The name under which the device availability family is registered.
pub open spec fn device_up_metric_name() -> Seq<char> {
    "smart_device_up"@
}

/// The help text of the device availability family.
pub open spec fn device_up_metric_help() -> Seq<char> {
    "Information and availability of device"@
}

/// How long the device list of a scan is trusted: 30 seconds, in
/// nanoseconds.
pub open spec fn default_rescan_interval() -> nat {
    30_000_000_000
}

/// Whether a collection at time `now` must scan the devices again: when no
/// scan was made yet, or when more than `interval` has passed since the last
/// one. (Times are nanoseconds of a monotonic clock; a `now` before the last
/// scan counts as no time passed.)
pub open spec fn rescan_due(last_scan: Option<u64>, interval: nat, now: nat) -> bool {
    match last_scan {
        None => true,
        Some(t) => now - t > interval,
    }
}

/// The metrics that a collector registers: the exporter's info metric,
/// labelled with the exporter's version, then the device availability
/// family.
pub open spec fn standard_registrations(exporter_version: Seq<char>) -> Seq<
    (Seq<char>, Seq<char>, Option<Seq<(Seq<char>, Seq<char>)>>),
> {
    seq![
        (info_metric_name(), Seq::<char>::empty(), Some(info_labels(exporter_version))),
        (device_up_metric_name(), device_up_metric_help(), None),
    ]
}

/// The sample lines of the device availability family with every series of
/// value 1, one per label set of `order`, in that order.
pub open spec fn device_up_lines(order: Seq<Seq<(Seq<char>, Seq<char>)>>) -> Seq<char>
    decreases order.len(),
{
    if order.len() == 0 {
        seq![]
    } else {
        device_up_lines(order.drop_last()) + device_up_metric_name() + "{"@ + label_set_text(
            order.last(),
        ) + "} 1\n"@
    }
}

/// The text of every collection of a collector of exporter version
/// `exporter_version` that knows the devices `devices`, the device series
/// listed in the order `order`.
pub open spec fn scrape_text(
    exporter_version: Seq<char>,
    order: Seq<Seq<(Seq<char>, Seq<char>)>>,
) -> Seq<char> {
    descriptor_text(info_metric_name(), Seq::<char>::empty(), "info"@) + info_sample(
        info_metric_name(),
        info_labels(exporter_version),
    ) + descriptor_text(device_up_metric_name(), device_up_metric_help(), "gauge"@)
        + device_up_lines(order) + exposition_end()
}

proof fn lemma_samples_of_ones(
    series: Map<Seq<(Seq<char>, Seq<char>)>, i64>,
    order: Seq<Seq<(Seq<char>, Seq<char>)>>,
)
    requires
        forall|i: int| 0 <= i < order.len() ==> series[#[trigger] order[i]] == 1,
    ensures
        gauge_samples(device_up_metric_name(), series, order) == device_up_lines(order),
    decreases order.len(),
{
    if order.len() > 0 {
        let rest = order.drop_last();
        assert forall|i: int| 0 <= i < rest.len() implies series[#[trigger] rest[i]] == 1 by {
            assert(rest[i] == order[i]);
        }
        lemma_samples_of_ones(series, rest);
        assert(series[order.last()] == 1);
        assert(signed_decimal(1) =~= seq!['1']);
        reveal_strlit("} ");
        reveal_strlit("\n");
        reveal_strlit("} 1\n");
        assert("} "@ + seq!['1'] + "\n"@ =~= "} 1\n"@);
        let l = label_set_text(order.last());
        let nm = device_up_metric_name();
        assert(gauge_sample(nm, order.last(), 1) =~= nm + "{"@ + l + "} 1\n"@);
    }
}

/// What every collection shows: the exporter's info metric with its version
/// label, then the `smart_device_up` family with exactly one line of value 1
/// for each distinct label set of a known device (in some order), then the
/// end marker.
pub proof fn lemma_scrape_shows_devices(exporter_version: Seq<char>, devices: Seq<Device>, text: Seq<char>)
    requires
        is_exposition(text, standard_registrations(exporter_version), device_up_map(devices)),
    ensures
        exists|order: Seq<Seq<(Seq<char>, Seq<char>)>>|
            {
                &&& order.no_duplicates()
                &&& forall|l: Seq<(Seq<char>, Seq<char>)>|
                    order.contains(l) <==> exists|i: int|
                        0 <= i < devices.len() && device_up_labels(#[trigger] devices[i]) == l
                &&& text == #[trigger] scrape_text(exporter_version, order)
            },
{
    let regs = standard_registrations(exporter_version);
    let series = device_up_map(devices);
    let orders = choose|orders: Seq<Seq<Seq<(Seq<char>, Seq<char>)>>>|
        valid_orders(regs, series, orders) && text == #[trigger] exposition(regs, series, orders);
    let order = orders[1];
    assert(lists_series(orders[1], series));
    lemma_device_up_map_exact(devices);
    assert forall|i: int| 0 <= i < order.len() implies series[#[trigger] order[i]] == 1 by {
        assert(order.contains(order[i]));
    }
    lemma_samples_of_ones(series, order);
    let r0 = regs.drop_last();
    assert(r0.drop_last() =~= Seq::<(Seq<char>, Seq<char>, Option<Seq<(Seq<char>, Seq<char>)>>)>::empty());
    assert(r0.last() == regs[0]);
    assert(registrations_text(r0.drop_last(), series, orders) =~= Seq::<char>::empty());
    assert(registrations_text(r0, series, orders) =~= registration_text(regs[0], series, orders[0]));
    assert(registrations_text(regs, series, orders) =~= registration_text(regs[0], series, orders[0])
        + registration_text(regs[1], series, orders[1]));
    assert(text =~= scrape_text(exporter_version, order));
}

/// Collects device metrics and encodes them.
#[derive(Debug)]
pub struct Collector {
    last_read_version: Option<Version>,
    device_rescan_interval: u64,
    last_device_scan: Option<u64>,
    devices: Vec<Device>,
    metrics: Metrics,
}

/// What a collection step is told: a collection was requested at a time, or
/// the scan it asked for has ended.
pub enum CollectEvent {
    /// A collection is requested; the value is the current time in
    /// nanoseconds of a monotonic clock.
    Requested(u64),
    /// The scan has ended, with the scan and smartctl's version, or with the
    /// rendered error.
    Scanned(Result<(scan::Scan, Version), String>),
}

/// What the caller must do after a collection step.
pub enum CollectAction {
    /// Run `smartctl --scan-open` and report the outcome with
    /// [`CollectEvent::Scanned`].
    Scan,
    /// The collection is over; this is its result: the encoded exposition,
    /// or an error message.
    Reply(Result<String, String>),
}

/// The message of a collection whose scan failed.
pub open spec fn scan_failure(detail: Seq<char>) -> Seq<char> {
    "failed to run smartctl: "@ + detail
}

/// The arguments of the scan that a [`CollectAction::Scan`] asks for.
pub open spec fn scan_args() -> Seq<Seq<char>> {
    seq!["--scan-open"@]
}

/// The arguments of the scan that a [`CollectAction::Scan`] asks for.
pub fn scan_arguments() -> (args: Vec<String>)
    ensures
        crate::text::strings_view(args@) == scan_args(),
{
    let mut args: Vec<String> = Vec::new();
    args.push(String::from_str("--scan-open"));
    assert(crate::text::strings_view(args@) =~= scan_args());
    args
}

impl Collector {
    /// The time of the last scan, if any.
    pub closed spec fn last_scan(&self) -> Option<u64> {
        self.last_device_scan
    }

    /// How long the devices of a scan are trusted, in nanoseconds.
    pub closed spec fn rescan_interval(&self) -> nat {
        self.device_rescan_interval as nat
    }

    /// The devices of the last successful scan.
    pub closed spec fn devices(&self) -> Seq<Device> {
        self.devices@
    }

    /// smartctl's version as of the last successful scan.
    pub closed spec fn last_version(&self) -> Option<Version> {
        self.last_read_version
    }

    /// The series of the `smart_device_up` family.
    pub closed spec fn device_up(&self) -> Map<Seq<(Seq<char>, Seq<char>)>, i64> {
        device_up_series(self.metrics)
    }

    /// The registered metrics.
    pub closed spec fn registered(&self) -> Seq<
        (Seq<char>, Seq<char>, Option<Seq<(Seq<char>, Seq<char>)>>),
    > {
        registered_metrics(self.metrics)
    }

    /// A collector that knows no device yet and has never scanned. It
    /// registers the exporter's info metric, labelled with
    /// `exporter_version`, and the device availability family, and re-scans
    /// devices every 30 seconds.
    pub fn with(exporter_version: &str) -> (c: Collector)
        ensures
            c.last_scan() is None,
            c.rescan_interval() == default_rescan_interval(),
            c.devices() == Seq::<Device>::empty(),
            c.last_version() is None,
            c.device_up() == no_series(),
            c.registered() == standard_registrations(exporter_version@),
    {
        let mut metrics = Metrics::default();
        register_info(
            &mut metrics,
            "smartctl_exporter_info",
            "",
            info_label_set(exporter_version),
        );
        register_device_up(&mut metrics, "smart_device_up", "Information and availability of device");
        proof {
            reveal_strlit("");
            assert(""@ =~= Seq::<char>::empty());
        }
        assert(registered_metrics(metrics) =~= standard_registrations(exporter_version@));
        Collector {
            last_read_version: None,
            device_rescan_interval: 30_000_000_000,
            last_device_scan: None,
            devices: Vec::new(),
            metrics,
        }
    }

    /// Whether a collection at time `now` must scan the devices again.
    pub fn needs_rescan(&self, now: u64) -> (b: bool)
        ensures
            b == rescan_due(self.last_scan(), self.rescan_interval(), now as nat),
    {
        match self.last_device_scan {
            None => true,
            Some(t) => now > t && now - t > self.device_rescan_interval,
        }
    }

    /// Notes that a scan starts at time `now`. The time is kept whether or
    /// not the scan succeeds.
    pub fn begin_rescan(&mut self, now: u64)
        ensures
            final(self).last_scan() == Some(now),
            final(self).rescan_interval() == old(self).rescan_interval(),
            final(self).devices() == old(self).devices(),
            final(self).last_version() == old(self).last_version(),
            final(self).device_up() == old(self).device_up(),
            final(self).registered() == old(self).registered(),
    {
        self.last_device_scan = Some(now);
    }

    /// Takes in the result of a successful scan: its devices replace the
    /// known ones, in the order of the scan, and smartctl's version is kept.
    pub fn finish_rescan(&mut self, found: scan::Scan, version: Version)
        ensures
            final(self).devices() == devices_of_scan(found.devices@),
            final(self).last_version() == Some(version),
            final(self).last_scan() == old(self).last_scan(),
            final(self).rescan_interval() == old(self).rescan_interval(),
            final(self).device_up() == old(self).device_up(),
            final(self).registered() == old(self).registered(),
    {
        let mut found = found;
        let mut devices: Vec<Device> = Vec::new();
        let ghost all = found.devices@;
        let n = found.devices.len();
        let mut i: usize = 0;
        while i < n
            invariant
                n == all.len(),
                i <= n,
                found.devices@ == all.subrange(i as int, n as int),
                devices@ == devices_of_scan(all.take(i as int)),
            decreases n - i,
        {
            let d = found.devices.remove(0);
            devices.push(Device::from(d));
            assert(devices_of_scan(all.take(i + 1)) =~= devices_of_scan(all.take(i as int)).push(
                Device { name: all[i as int].name, protocol: all[i as int].protocol },
            ));
            i = i + 1;
            assert(found.devices@ =~= all.subrange(i as int, n as int));
        }
        assert(all.take(n as int) =~= all);
        self.devices = devices;
        self.last_read_version = Some(version);
    }

    /// Publishes one `smart_device_up` series of value 1 for each known
    /// device, after removing all earlier series, and encodes all registered
    /// metrics. This always succeeds: the text is an [`exposition`] of the
    /// registered metrics with exactly the series of the known devices.
    pub fn publish(&mut self) -> (r: Result<String, String>)
        ensures
            final(self).device_up() == device_up_map(old(self).devices()),
            final(self).devices() == old(self).devices(),
            final(self).last_scan() == old(self).last_scan(),
            final(self).rescan_interval() == old(self).rescan_interval(),
            final(self).last_version() == old(self).last_version(),
            final(self).registered() == old(self).registered(),
            r matches Ok(text) && is_exposition(
                text@,
                old(self).registered(),
                device_up_map(old(self).devices()),
            ),
    {
        clear_device_up(&mut self.metrics);
        let n = self.devices.len();
        for i in 0..n
            invariant
                n == self.devices@.len(),
                self.devices@ == old(self).devices@,
                self.last_device_scan == old(self).last_device_scan,
                self.device_rescan_interval == old(self).device_rescan_interval,
                self.last_read_version == old(self).last_read_version,
                registered_metrics(self.metrics) == registered_metrics(old(self).metrics),
                device_up_series(self.metrics) == device_up_map(self.devices@.take(i as int)),
        {
            let labels = device_up_label_set(&self.devices[i]);
            set_device_up(&mut self.metrics, &labels, 1);
            assert(self.devices@.take(i + 1).drop_last() =~= self.devices@.take(i as int));
        }
        assert(self.devices@.take(n as int) =~= self.devices@);
        match encode_metrics(&self.metrics) {
            Ok(text) => Ok(text),
            Err(e) => {
                let mut m = String::from_str("failed to encode prometheus exposition: ");
                m.append(e.as_str());
                Err(m)
            },
        }
    }

    /// One step of a collection.
    ///
    /// A requested collection at time `now` asks for a scan where
    /// [`rescan_due`] says so, noting `now` as the time of the last scan;
    /// else it publishes at once. A successful scan replaces the known
    /// devices and then publishes; a failed one ends the collection with an
    /// error and leaves the known devices as they were. A publication always
    /// replies with the exposition of the registered metrics and the series
    /// of the known devices.
    pub fn collect(&mut self, event: CollectEvent) -> (action: CollectAction)
        ensures
            match event {
                CollectEvent::Requested(now) => if rescan_due(
                    old(self).last_scan(),
                    old(self).rescan_interval(),
                    now as nat,
                ) {
                    &&& action is Scan
                    &&& final(self).last_scan() == Some(now)
                    &&& final(self).devices() == old(self).devices()
                    &&& final(self).device_up() == old(self).device_up()
                    &&& final(self).last_version() == old(self).last_version()
                } else {
                    &&& action matches CollectAction::Reply(Ok(text))
                    &&& is_exposition(
                        text@,
                        old(self).registered(),
                        device_up_map(old(self).devices()),
                    )
                    &&& final(self).last_scan() == old(self).last_scan()
                    &&& final(self).devices() == old(self).devices()
                    &&& final(self).device_up() == device_up_map(old(self).devices())
                    &&& final(self).last_version() == old(self).last_version()
                },
                CollectEvent::Scanned(Ok((found, version))) => {
                    &&& action matches CollectAction::Reply(Ok(text))
                    &&& is_exposition(
                        text@,
                        old(self).registered(),
                        device_up_map(devices_of_scan(found.devices@)),
                    )
                    &&& final(self).last_scan() == old(self).last_scan()
                    &&& final(self).devices() == devices_of_scan(found.devices@)
                    &&& final(self).device_up() == device_up_map(devices_of_scan(found.devices@))
                    &&& final(self).last_version() == Some(version)
                },
                CollectEvent::Scanned(Err(detail)) => {
                    &&& action matches CollectAction::Reply(Err(m))
                    &&& m@ == scan_failure(detail@)
                    &&& final(self).last_scan() == old(self).last_scan()
                    &&& final(self).devices() == old(self).devices()
                    &&& final(self).device_up() == old(self).device_up()
                    &&& final(self).last_version() == old(self).last_version()
                },
            },
            final(self).rescan_interval() == old(self).rescan_interval(),
            final(self).registered() == old(self).registered(),
    {
        match event {
            CollectEvent::Requested(now) => {
                if self.needs_rescan(now) {
                    self.begin_rescan(now);
                    CollectAction::Scan
                } else {
                    CollectAction::Reply(self.publish())
                }
            },
            CollectEvent::Scanned(Ok((found, version))) => {
                self.finish_rescan(found, version);
                CollectAction::Reply(self.publish())
            },
            CollectEvent::Scanned(Err(detail)) => {
                let mut m = String::from_str("failed to run smartctl: ");
                m.append(detail.as_str());
                CollectAction::Reply(Err(m))
            },
        }
    }
}

} // verus!
