use cargo_3ds::args::RemainingArgs;
use cargo_3ds::command::{Build, Run};
use cargo_3ds::link::Ipv4Addr;
use cargo_3ds::text::to_decimal;

fn run(words: &[&str]) -> Run {
    Run {
        address: None,
        argv0: None,
        server: false,
        retries: None,
        build_args: Build {
            verbose: false,
            passthrough: RemainingArgs {
                args: words.iter().map(ToString::to_string).collect(),
            },
        },
        config: vec![],
    }
}

#[test]
fn no_options_no_link_args() {
    assert!(run(&[]).get_3dslink_args().is_empty());
    assert!(run(&["--release", "--"]).get_3dslink_args().is_empty());
}

#[test]
fn link_options_in_order() {
    let mut options = run(&["--release"]);
    options.address = Some(Ipv4Addr {
        octets: [192, 168, 0, 10],
    });
    options.argv0 = Some("zero".to_string());
    options.retries = Some(25);
    options.server = true;
    assert_eq!(
        options.get_3dslink_args(),
        ["--address", "192.168.0.10", "--argv0", "zero", "--retries", "25", "--server"]
    );
}

#[test]
fn exe_args_without_hyphens() {
    assert_eq!(
        run(&["--", "a", "b"]).get_3dslink_args(),
        ["--args", "--", "a", "b"]
    );
}

#[test]
fn first_hyphen_is_escaped() {
    let mut options = run(&["x", "--", "a", "-b", "c", "--d", "-"]);
    options.server = true;
    assert_eq!(
        options.get_3dslink_args(),
        ["--server", "--args", "--", "a", "--", "-b", "c", "--d", "-"]
    );
    assert_eq!(
        run(&["--", "--", "a"]).get_3dslink_args(),
        ["--args", "--", "--", "--", "a"]
    );
}

#[test]
fn empty_exe_arg_is_kept() {
    assert_eq!(run(&["--", ""]).get_3dslink_args(), ["--args", "--", ""]);
}

#[test]
fn addresses_in_dotted_decimal() {
    for (octets, text) in [
        ([0, 0, 0, 0], "0.0.0.0"),
        ([127, 0, 0, 1], "127.0.0.1"),
        ([255, 255, 255, 255], "255.255.255.255"),
        ([10, 9, 100, 99], "10.9.100.99"),
    ] {
        assert_eq!(Ipv4Addr { octets }.to_text(), text);
    }
}

#[test]
fn numbers_in_decimal() {
    for n in [0, 1, 9, 10, 11, 99, 100, 1234567890, usize::MAX] {
        assert_eq!(to_decimal(n), n.to_string());
    }
    assert_eq!(to_decimal(40_506), "40506");
}
