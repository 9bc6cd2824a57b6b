use smart_exporter::collector::{
    device_up_label_set, info_label_set, scan_arguments, CollectAction, CollectEvent, Collector,
    Device,
};
use smart_exporter::server::{index_content_type, index_page, metrics_content_type};
use smart_exporter::smartctl::scan::{self, Protocol, Scan, Type};
use smart_exporter::smartctl::Version;

const SECOND: u64 = 1_000_000_000;

fn scan_device(name: &str, protocol: Protocol) -> scan::Device {
    scan::Device {
        name: name.to_string(),
        info_name: format!("{} [X]", name),
        device_type: if protocol == Protocol::Ata { Type::Sat } else { Type::Nvme },
        protocol,
    }
}

fn version() -> Version {
    Version { version: vec![7, 4], svn_revision: "5530".into(), platform_info: "linux".into() }
}

fn reply(action: CollectAction) -> Result<String, String> {
    match action {
        CollectAction::Reply(r) => r,
        CollectAction::Scan => panic!("expected a reply, got a scan request"),
    }
}

fn is_scan(action: &CollectAction) -> bool {
    matches!(action, CollectAction::Scan)
}

#[test]
fn device_from_scan_device() {
    let d = Device::from(scan_device("/dev/nvme0", Protocol::NVMe));
    assert_eq!(d.name, "/dev/nvme0");
    assert_eq!(d.protocol, Protocol::NVMe);
}

#[test]
fn device_collect_succeeds() {
    let mut d = Device::from(scan_device("/dev/sda", Protocol::Ata));
    assert_eq!(d.collect(), Ok(()));
    assert_eq!(d.name, "/dev/sda");
}

#[test]
fn device_labels() {
    let d = Device::from(scan_device("/dev/sda", Protocol::Ata));
    assert_eq!(
        device_up_label_set(&d),
        vec![("path".to_string(), "/dev/sda".to_string()), ("protocol".to_string(), "Ata".to_string())]
    );
    let d = Device::from(scan_device("/dev/nvme0", Protocol::NVMe));
    assert_eq!(device_up_label_set(&d)[1].1, "NVMe");
}

#[test]
fn info_labels() {
    assert_eq!(info_label_set("0.1.0"), vec![("version".to_string(), "0.1.0".to_string())]);
}

#[test]
fn scan_request_arguments() {
    assert_eq!(scan_arguments(), vec!["--scan-open".to_string()]);
}

#[test]
fn first_collection_scans() {
    let mut c = Collector::with("0.1.0");
    assert!(c.needs_rescan(0));
    assert!(is_scan(&c.collect(CollectEvent::Requested(5 * SECOND))));
}

#[test]
fn scanned_devices_are_published() {
    let mut c = Collector::with("0.1.0");
    assert!(is_scan(&c.collect(CollectEvent::Requested(0))));
    let found = Scan {
        devices: vec![scan_device("/dev/sda", Protocol::Ata), scan_device("/dev/nvme0", Protocol::NVMe)],
    };
    let text = reply(c.collect(CollectEvent::Scanned(Ok((found, version()))))).unwrap();
    assert!(text.contains("smart_device_up{path=\"/dev/sda\",protocol=\"Ata\"} 1\n"), "{}", text);
    assert!(text.contains("smart_device_up{path=\"/dev/nvme0\",protocol=\"NVMe\"} 1\n"), "{}", text);
    assert!(text.contains("smartctl_exporter_info_info{version=\"0.1.0\"} 1\n"), "{}", text);
    assert!(text.contains("# HELP smart_device_up Information and availability of device.\n"), "{}", text);
    assert!(text.ends_with("# EOF\n"));
}

#[test]
fn rescan_at_most_once_per_interval() {
    let mut c = Collector::with("0.1.0");
    assert!(is_scan(&c.collect(CollectEvent::Requested(100 * SECOND))));
    let found = Scan { devices: vec![scan_device("/dev/sda", Protocol::Ata)] };
    reply(c.collect(CollectEvent::Scanned(Ok((found, version()))))).unwrap();
    assert!(!c.needs_rescan(100 * SECOND));
    assert!(!c.needs_rescan(130 * SECOND));
    assert!(c.needs_rescan(130 * SECOND + 1));
    // a clock that went backwards counts as no time passed
    assert!(!c.needs_rescan(0));
    let text = reply(c.collect(CollectEvent::Requested(129 * SECOND))).unwrap();
    assert!(text.contains("path=\"/dev/sda\""));
    assert!(is_scan(&c.collect(CollectEvent::Requested(131 * SECOND))));
}

#[test]
fn vanished_devices_are_no_longer_reported() {
    let mut c = Collector::with("0.1.0");
    assert!(is_scan(&c.collect(CollectEvent::Requested(0))));
    let found = Scan {
        devices: vec![scan_device("/dev/sda", Protocol::Ata), scan_device("/dev/sdb", Protocol::Ata)],
    };
    reply(c.collect(CollectEvent::Scanned(Ok((found, version()))))).unwrap();
    assert!(is_scan(&c.collect(CollectEvent::Requested(31 * SECOND))));
    let found = Scan { devices: vec![scan_device("/dev/sdb", Protocol::Ata)] };
    let text = reply(c.collect(CollectEvent::Scanned(Ok((found, version()))))).unwrap();
    assert!(!text.contains("/dev/sda"), "{}", text);
    assert!(text.contains("smart_device_up{path=\"/dev/sdb\",protocol=\"Ata\"} 1\n"), "{}", text);
}

#[test]
fn failed_scan_keeps_devices_and_waits() {
    let mut c = Collector::with("0.1.0");
    assert!(is_scan(&c.collect(CollectEvent::Requested(0))));
    let found = Scan { devices: vec![scan_device("/dev/sda", Protocol::Ata)] };
    reply(c.collect(CollectEvent::Scanned(Ok((found, version()))))).unwrap();
    assert!(is_scan(&c.collect(CollectEvent::Requested(40 * SECOND))));
    let e = reply(c.collect(CollectEvent::Scanned(Err("no smartctl".to_string())))).unwrap_err();
    assert_eq!(e, "failed to run smartctl: no smartctl");
    // the failed scan still counts as a scan: no new one until the interval has passed
    assert!(!c.needs_rescan(60 * SECOND));
    let text = reply(c.collect(CollectEvent::Requested(60 * SECOND))).unwrap();
    assert!(text.contains("path=\"/dev/sda\""));
}

#[test]
fn empty_scan_publishes_no_device() {
    let mut c = Collector::with("9.9.9");
    assert!(is_scan(&c.collect(CollectEvent::Requested(0))));
    let text = reply(c.collect(CollectEvent::Scanned(Ok((Scan { devices: vec![] }, version()))))).unwrap();
    assert!(!text.contains("smart_device_up{"), "{}", text);
    assert!(text.contains("version=\"9.9.9\""), "{}", text);
}

#[test]
fn publish_without_scan() {
    let mut c = Collector::with("0.1.0");
    let text = c.publish().unwrap();
    assert!(text.ends_with("# EOF\n"));
    assert!(!text.contains("smart_device_up{"));
}

#[test]
fn index_page_contents() {
    let page = index_page("smart_exporter", "0.1.0", "Jane Doe", "https://example.org/");
    assert_eq!(
        page,
        "\n<h1><pre>smart_exporter</pre></h1>\n<p>v0.1.0 by Jane Doe, <a href=\"https://example.org/\">homepage</a></p>\n<ul><li><a href=\"/metrics\">/metrics</a></li></ul>"
    );
}

#[test]
fn content_types() {
    assert_eq!(index_content_type(), "text/html; charset=utf-8");
    assert_eq!(metrics_content_type(), "application/openmetrics-text; version=1.0.0; charset=utf-8");
}

const HEAD: &str = "# HELP smartctl_exporter_info .\n# TYPE smartctl_exporter_info info\nsmartctl_exporter_info_info{version=\"0.1.0\"} 1\n# HELP smart_device_up Information and availability of device.\n# TYPE smart_device_up gauge\n";

#[test]
fn exposition_of_one_device_is_exact() {
    let mut c = Collector::with("0.1.0");
    assert!(is_scan(&c.collect(CollectEvent::Requested(0))));
    let found = Scan { devices: vec![scan_device("/dev/sda", Protocol::Ata)] };
    let text = reply(c.collect(CollectEvent::Scanned(Ok((found, version()))))).unwrap();
    let expected = format!("{}smart_device_up{{path=\"/dev/sda\",protocol=\"Ata\"}} 1\n# EOF\n", HEAD);
    assert_eq!(text, expected);
}

#[test]
fn exposition_of_two_devices_in_some_order() {
    let mut c = Collector::with("0.1.0");
    assert!(is_scan(&c.collect(CollectEvent::Requested(0))));
    let found = Scan {
        devices: vec![scan_device("/dev/sda", Protocol::Ata), scan_device("/dev/nvme0", Protocol::NVMe)],
    };
    let text = reply(c.collect(CollectEvent::Scanned(Ok((found, version()))))).unwrap();
    let a = "smart_device_up{path=\"/dev/sda\",protocol=\"Ata\"} 1\n";
    let b = "smart_device_up{path=\"/dev/nvme0\",protocol=\"NVMe\"} 1\n";
    let one = format!("{}{}{}# EOF\n", HEAD, a, b);
    let other = format!("{}{}{}# EOF\n", HEAD, b, a);
    assert!(text == one || text == other, "{}", text);
}

#[test]
fn duplicate_devices_give_one_series() {
    let mut c = Collector::with("0.1.0");
    assert!(is_scan(&c.collect(CollectEvent::Requested(0))));
    let found = Scan {
        devices: vec![scan_device("/dev/sda", Protocol::Ata), scan_device("/dev/sda", Protocol::Ata)],
    };
    let text = reply(c.collect(CollectEvent::Scanned(Ok((found, version()))))).unwrap();
    let expected = format!("{}smart_device_up{{path=\"/dev/sda\",protocol=\"Ata\"}} 1\n# EOF\n", HEAD);
    assert_eq!(text, expected);
}

#[test]
fn exposition_without_devices_is_exact() {
    let mut c = Collector::with("0.1.0");
    let text = c.publish().unwrap();
    assert_eq!(text, format!("{}# EOF\n", HEAD));
}

#[test]
fn second_collection_in_window_gives_same_text() {
    let mut c = Collector::with("0.1.0");
    assert!(is_scan(&c.collect(CollectEvent::Requested(0))));
    let found = Scan { devices: vec![scan_device("/dev/sda", Protocol::Ata)] };
    let first = reply(c.collect(CollectEvent::Scanned(Ok((found, version()))))).unwrap();
    let second = reply(c.collect(CollectEvent::Requested(20 * SECOND))).unwrap();
    assert_eq!(first, second);
}
