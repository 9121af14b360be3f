use winws_launcher::config::Mode;
use winws_launcher::profile::build_args;

const HOSTLIST: &str = "C:\\fix\\list-discord.txt";
const QUIC: &str = "C:\\fix\\quic_initial_www_google_com.bin";
const TLS: &str = "C:\\fix\\tls_clienthello_www_google_com.bin";

fn expected_general() -> Vec<&'static str> {
    vec![
        "--wf-tcp=443",
        "--wf-udp=443,50000-65535",
        "--filter-udp=443",
        "--hostlist",
        "C:\\fix\\list-discord.txt",
        "--dpi-desync=fake",
        "--dpi-desync-udplen-increment=10",
        "--dpi-desync-repeats=6",
        "--dpi-desync-udplen-pattern=0xDEADBEEF",
        "--dpi-desync-fake-quic",
        "C:\\fix\\quic_initial_www_google_com.bin",
        "--new",
        "--filter-udp=50000-65535",
        "--dpi-desync=fake",
        "--dpi-desync-any-protocol",
        "--dpi-desync-cutoff=d3",
        "--dpi-desync-repeats=6",
        "--dpi-desync-fake-quic",
        "C:\\fix\\quic_initial_www_google_com.bin",
        "--new",
        "--filter-tcp=443",
        "--hostlist",
        "C:\\fix\\list-discord.txt",
        "--dpi-desync=fake,split",
        "--dpi-desync-autottl=2",
        "--dpi-desync-repeats=6",
        "--dpi-desync-fooling=badseq",
        "--dpi-desync-fake-tls",
        "C:\\fix\\tls_clienthello_www_google_com.bin",
    ]
}

fn expected_beeline() -> Vec<&'static str> {
    vec![
        "--wf-udp=50000-65535",
        "--filter-udp=50000-65535",
        "--hostlist",
        "C:\\fix\\list-discord.txt",
        "--dpi-desync=fake",
        "--dpi-desync-any-protocol",
        "--dpi-desync-cutoff=d3",
        "--dpi-desync-repeats=6",
        "--dpi-desync-fake-quic",
        "C:\\fix\\quic_initial_www_google_com.bin",
        "--new",
        "--wf-l3=ipv4",
        "--wf-tcp=443",
        "--dpi-desync=syndata",
        "--dpi-desync-split2",
        "--dpi-desync-disorder2",
        "--dpi-desync-fake-syndata",
        "C:\\fix\\tls_clienthello_www_google_com.bin",
        "--wssize",
        "1:6",
        "--dpi-desync-fake-syndata=",
        "C:\\fix\\tls_clienthello_www_google_com.bin",
    ]
}

fn expected_mgts() -> Vec<&'static str> {
    vec![
        "--wf-tcp=443",
        "--wf-udp=443,50000-65535",
        "--filter-udp=443",
        "--hostlist",
        "C:\\fix\\list-discord.txt",
        "--dpi-desync=fake",
        "--dpi-desync-udplen-increment=10",
        "--dpi-desync-repeats=6",
        "--dpi-desync-udplen-pattern=0xDEADBEEF",
        "--dpi-desync-fake-quic",
        "C:\\fix\\quic_initial_www_google_com.bin",
        "--new",
        "--filter-udp=50000-65535",
        "--dpi-desync=fake,tamper",
        "--dpi-desync-any-protocol",
        "--dpi-desync-cutoff=d3",
        "--dpi-desync-repeats=6",
        "--dpi-desync-fake-quic",
        "C:\\fix\\quic_initial_www_google_com.bin",
        "--new",
        "--filter-tcp=443",
        "--hostlist",
        "C:\\fix\\list-discord.txt",
        "--dpi-desync=fake",
        "--dpi-desync-autottl=2",
        "--dpi-desync-repeats=6",
        "--dpi-desync-fooling=md5sig",
        "--dpi-desync-fake-tls",
        "C:\\fix\\tls_clienthello_www_google_com.bin",
    ]
}

#[test]
fn general_profile_lists_every_argument_in_order() {
    assert_eq!(build_args(Mode::General, HOSTLIST, QUIC, TLS), expected_general());
}

#[test]
fn beeline_profile_lists_every_argument_in_order() {
    assert_eq!(build_args(Mode::Beeline, HOSTLIST, QUIC, TLS), expected_beeline());
}

#[test]
fn mgts_profile_lists_every_argument_in_order() {
    assert_eq!(build_args(Mode::Mgts, HOSTLIST, QUIC, TLS), expected_mgts());
}

#[test]
fn profiles_have_their_lengths() {
    assert_eq!(build_args(Mode::General, "l", "q", "t").len(), 29);
    assert_eq!(build_args(Mode::Beeline, "l", "q", "t").len(), 22);
    assert_eq!(build_args(Mode::Mgts, "l", "q", "t").len(), 29);
}

fn positions(args: &[String], text: &str) -> Vec<usize> {
    let mut found = Vec::new();
    for (index, arg) in args.iter().enumerate() {
        if arg == text {
            found.push(index);
        }
    }
    found
}

#[test]
fn general_profile_places_the_paths() {
    let args = build_args(Mode::General, "<list>", "<quic>", "<tls>");
    assert_eq!(positions(&args, "<list>"), vec![4, 22]);
    assert_eq!(positions(&args, "<quic>"), vec![10, 18]);
    assert_eq!(positions(&args, "<tls>"), vec![28]);
    assert_eq!(positions(&args, "--new"), vec![11, 19]);
}

#[test]
fn beeline_profile_places_the_paths() {
    let args = build_args(Mode::Beeline, "<list>", "<quic>", "<tls>");
    assert_eq!(positions(&args, "<list>"), vec![3]);
    assert_eq!(positions(&args, "<quic>"), vec![9]);
    assert_eq!(positions(&args, "<tls>"), vec![17, 21]);
    assert_eq!(positions(&args, "--new"), vec![10]);
    assert_eq!(args[18], "--wssize");
    assert_eq!(args[19], "1:6");
    assert_eq!(args[20], "--dpi-desync-fake-syndata=");
}

#[test]
fn mgts_profile_places_the_paths() {
    let args = build_args(Mode::Mgts, "<list>", "<quic>", "<tls>");
    assert_eq!(positions(&args, "<list>"), vec![4, 22]);
    assert_eq!(positions(&args, "<quic>"), vec![10, 18]);
    assert_eq!(positions(&args, "<tls>"), vec![28]);
    assert_eq!(positions(&args, "--new"), vec![11, 19]);
}

#[test]
fn general_and_mgts_differ_in_three_places() {
    let general = build_args(Mode::General, "l", "q", "t");
    let mgts = build_args(Mode::Mgts, "l", "q", "t");
    let mut differing = Vec::new();
    for index in 0..general.len() {
        if general[index] != mgts[index] {
            differing.push(index);
        }
    }
    assert_eq!(differing, vec![13, 23, 26]);
    assert_eq!(general[13], "--dpi-desync=fake");
    assert_eq!(mgts[13], "--dpi-desync=fake,tamper");
    assert_eq!(general[23], "--dpi-desync=fake,split");
    assert_eq!(mgts[23], "--dpi-desync=fake");
    assert_eq!(general[26], "--dpi-desync-fooling=badseq");
    assert_eq!(mgts[26], "--dpi-desync-fooling=md5sig");
}

#[test]
fn empty_paths_stay_in_their_places() {
    let args = build_args(Mode::Beeline, "", "", "");
    assert_eq!(args.len(), 22);
    assert_eq!(args[3], "");
    assert_eq!(args[9], "");
    assert_eq!(args[17], "");
    assert_eq!(args[21], "");
}

#[test]
fn paths_are_passed_unchanged() {
    let args = build_args(Mode::General, "C:\\Program Files\\fix\\list.txt", "\u{44f}.bin", "a b");
    assert_eq!(args[4], "C:\\Program Files\\fix\\list.txt");
    assert_eq!(args[10], "\u{44f}.bin");
    assert_eq!(args[28], "a b");
}
