use smart_exporter::smartctl::scan::{Device, Protocol, Scan, Type};
use smart_exporter::smartctl::{
    accept_output, check_exit_status, format_dotted, is_supported_json_format_version,
    normalize_args, parse_failure_context, FileInvoker, FilePresence, InvocationDetails, Output,
    OutputPresence, SudoInvoker, Version,
};

fn strings(v: &[&str]) -> Vec<String> {
    v.iter().map(|s| s.to_string()).collect()
}

fn version(v: Vec<u8>) -> Version {
    Version { version: v, svn_revision: "5530".to_string(), platform_info: "x86_64-linux".to_string() }
}

fn output_with_format(format: Vec<u8>) -> Output<Scan> {
    Output {
        json_format_version: format,
        smartctl: InvocationDetails {
            version_details: version(vec![7, 4]),
            argv: strings(&["smartctl", "--json", "--scan-open"]),
            exit_status: 0,
        },
        output: Scan {
            devices: vec![Device {
                name: "/dev/sda".to_string(),
                info_name: "/dev/sda [SAT]".to_string(),
                device_type: Type::Sat,
                protocol: Protocol::Ata,
            }],
        },
    }
}

#[test]
fn normalize_single_argument() {
    assert_eq!(normalize_args(&strings(&["--scan-open"])), "__scan_open");
}

#[test]
fn normalize_several_arguments() {
    assert_eq!(normalize_args(&strings(&["-a", "/dev/sda"])), "_a__dev_sda");
    assert_eq!(normalize_args(&strings(&["--all", "nvme0"])), "__all_nvme0");
}

#[test]
fn normalize_no_arguments() {
    assert_eq!(normalize_args(&Vec::new()), "");
    assert_eq!(normalize_args(&strings(&[""])), "");
    assert_eq!(normalize_args(&strings(&["", ""])), "_");
}

#[test]
fn normalize_non_ascii_characters() {
    // one `_` per character, not per byte
    assert_eq!(normalize_args(&strings(&["gr\u{fc}n", "\u{1f600}x"])), "gr_n__x");
}

#[test]
fn sudo_command() {
    let mut invoker = SudoInvoker {};
    let c = invoker.construct_command(&strings(&["--scan-open"]));
    assert_eq!(c.program, "sudo");
    assert_eq!(c.path_env, "/bin/:/sbin/:/usr/bin/:/usr/sbin/");
    assert_eq!(c.args, strings(&["--non-interactive", "--", "smartctl", "--json", "--scan-open"]));
}

#[test]
fn sudo_command_without_arguments() {
    let mut invoker = SudoInvoker {};
    let c = invoker.construct_command(&Vec::new());
    assert_eq!(c.args, strings(&["--non-interactive", "--", "smartctl", "--json"]));
}

#[test]
fn file_invoker_new_starts_at_iteration_zero() {
    let invoker = FileInvoker::new("tests/simple/");
    assert_eq!(invoker.iteration, 0);
    assert_eq!(invoker.base, "tests/simple/");
}

#[test]
fn file_invoker_output_files() {
    let invoker = FileInvoker::new("tests/simple/");
    let files = invoker.output_files(&strings(&["--scan-open"]));
    assert_eq!(files.stdout.indexed, "tests/simple/0/__scan_open.stdout");
    assert_eq!(files.stdout.unindexed, "tests/simple/__scan_open.stdout");
    assert_eq!(files.stderr.indexed, "tests/simple/0/__scan_open.stderr");
    assert_eq!(files.stderr.unindexed, "tests/simple/__scan_open.stderr");
    assert_eq!(files.exit.indexed, "tests/simple/0/__scan_open.exit");
    assert_eq!(files.exit.unindexed, "tests/simple/__scan_open.exit");
}

#[test]
fn file_invoker_output_files_later_iteration() {
    let mut invoker = FileInvoker::new("base");
    invoker.iteration = 12;
    let files = invoker.output_files(&strings(&["-a", "/dev/sda"]));
    assert_eq!(files.stdout.indexed, "base/12/_a__dev_sda.stdout");
    assert_eq!(files.exit.unindexed, "base/_a__dev_sda.exit");
}

fn present(indexed: bool, unindexed: bool) -> FilePresence {
    FilePresence { indexed, unindexed }
}

#[test]
fn file_invoker_command_all_unindexed() {
    let invoker = FileInvoker::new("tests/simple/");
    let files = invoker.output_files(&strings(&["--scan-open"]));
    let p = OutputPresence {
        stdout: present(false, true),
        stderr: present(false, true),
        exit: present(false, true),
    };
    let c = invoker.construct_command(&files, p);
    assert_eq!(c.program, "sh");
    assert_eq!(c.path_env, "/bin/:/sbin/:/usr/bin/:/usr/sbin/");
    assert_eq!(
        c.args,
        strings(&[
            "-c",
            "cat tests/simple/__scan_open.stdout; cat tests/simple/__scan_open.stderr 1>&2; exit $(cat tests/simple/__scan_open.exit)"
        ])
    );
}

#[test]
fn file_invoker_command_prefers_indexed() {
    let invoker = FileInvoker::new("tests/simple/");
    let files = invoker.output_files(&strings(&["--scan-open"]));
    let p = OutputPresence {
        stdout: present(true, true),
        stderr: present(false, false),
        exit: present(true, false),
    };
    let c = invoker.construct_command(&files, p);
    assert_eq!(
        c.args,
        strings(&[
            "-c",
            "cat tests/simple/0/__scan_open.stdout; exit $(cat tests/simple/0/__scan_open.exit)"
        ])
    );
}

#[test]
fn file_invoker_command_nothing_present() {
    let invoker = FileInvoker::new("t");
    let files = invoker.output_files(&strings(&["x"]));
    let p = OutputPresence {
        stdout: present(false, false),
        stderr: present(false, false),
        exit: present(false, false),
    };
    let c = invoker.construct_command(&files, p);
    assert_eq!(c.args, strings(&["-c", ""]));
}

#[test]
fn supported_format_version() {
    assert!(is_supported_json_format_version(&vec![1, 0]));
    assert!(!is_supported_json_format_version(&vec![1]));
    assert!(!is_supported_json_format_version(&vec![1, 0, 0]));
    assert!(!is_supported_json_format_version(&vec![2, 0]));
    assert!(!is_supported_json_format_version(&vec![]));
}

#[test]
fn dotted_versions() {
    assert_eq!(format_dotted(&vec![1, 0]), "1.0");
    assert_eq!(format_dotted(&vec![7, 4]), "7.4");
    assert_eq!(format_dotted(&vec![10, 0, 255]), "10.0.255");
    assert_eq!(format_dotted(&vec![]), "");
}

#[test]
fn accept_supported_output() {
    let (scan, v, warning) = accept_output(output_with_format(vec![1, 0]));
    assert_eq!(v.version, vec![7, 4]);
    assert_eq!(scan.devices.len(), 1);
    assert_eq!(scan.devices[0].name, "/dev/sda");
    assert!(warning.is_none());
}

#[test]
fn accept_unknown_format_with_warning() {
    let (scan, v, warning) = accept_output(output_with_format(vec![2, 1]));
    assert_eq!(v.version, vec![7, 4]);
    assert_eq!(scan.devices.len(), 1);
    assert_eq!(warning.unwrap(), "warning: unkown JSON output format from smartctl: 2.1");
}

#[test]
fn exit_status_success() {
    assert!(check_exit_status(true, "cmd", "exit status: 0", "out", "err").is_ok());
}

#[test]
fn exit_status_failure_message() {
    let e = check_exit_status(false, "\"sh\" \"-c\" \"exit 2\"", "exit status: 2", "", "oops")
        .unwrap_err();
    assert_eq!(e, "failed to execute \"sh\" \"-c\" \"exit 2\": exit status: 2\n\noops");
}

#[test]
fn parse_failure_message() {
    assert_eq!(
        parse_failure_context("devices[0].protocol"),
        "failed to parse smartctl output, JSON path: devices[0].protocol"
    );
}

#[test]
fn normalize_plain_argument_is_unchanged() {
    assert_eq!(normalize_args(&strings(&["nvme0"])), "nvme0");
    assert_eq!(normalize_args(&strings(&["a.b c"])), "a_b_c");
}
