//! The argument lists that the tool is started with, one per mode.
//!
//! A profile is a fixed list of flags in which three places are taken by
//! paths: the host list, the QUIC payload and the TLS payload. The model of
//! an argument is its text, a `Seq<char>`; the model of a profile is the
//! sequence of its arguments, in the order in which the tool receives them.

use vstd::prelude::*;
use vstd::string::*;
use crate::config::Mode;

verus! {

/// The texts of a list of arguments, in order.
pub open spec fn texts(args: Seq<String>) -> Seq<Seq<char>> {
    args.map_values(|arg: String| arg@)
}

/// The arguments of the general profile.
pub open spec fn general_args(hostlist: Seq<char>, quic: Seq<char>, tls: Seq<char>) -> Seq<
    Seq<char>,
> {
    seq![
        "--wf-tcp=443"@,
        "--wf-udp=443,50000-65535"@,
        "--filter-udp=443"@,
        "--hostlist"@,
        hostlist,
        "--dpi-desync=fake"@,
        "--dpi-desync-udplen-increment=10"@,
        "--dpi-desync-repeats=6"@,
        "--dpi-desync-udplen-pattern=0xDEADBEEF"@,
        "--dpi-desync-fake-quic"@,
        quic,
        "--new"@,
        "--filter-udp=50000-65535"@,
        "--dpi-desync=fake"@,
        "--dpi-desync-any-protocol"@,
        "--dpi-desync-cutoff=d3"@,
        "--dpi-desync-repeats=6"@,
        "--dpi-desync-fake-quic"@,
        quic,
        "--new"@,
        "--filter-tcp=443"@,
        "--hostlist"@,
        hostlist,
        "--dpi-desync=fake,split"@,
        "--dpi-desync-autottl=2"@,
        "--dpi-desync-repeats=6"@,
        "--dpi-desync-fooling=badseq"@,
        "--dpi-desync-fake-tls"@,
        tls,
    ]
}

/// The arguments of the Beeline profile.
pub open spec fn beeline_args(hostlist: Seq<char>, quic: Seq<char>, tls: Seq<char>) -> Seq<
    Seq<char>,
> {
    seq![
        "--wf-udp=50000-65535"@,
        "--filter-udp=50000-65535"@,
        "--hostlist"@,
        hostlist,
        "--dpi-desync=fake"@,
        "--dpi-desync-any-protocol"@,
        "--dpi-desync-cutoff=d3"@,
        "--dpi-desync-repeats=6"@,
        "--dpi-desync-fake-quic"@,
        quic,
        "--new"@,
        "--wf-l3=ipv4"@,
        "--wf-tcp=443"@,
        "--dpi-desync=syndata"@,
        "--dpi-desync-split2"@,
        "--dpi-desync-disorder2"@,
        "--dpi-desync-fake-syndata"@,
        tls,
        "--wssize"@,
        "1:6"@,
        "--dpi-desync-fake-syndata="@,
        tls,
    ]
}

/// The arguments of the MGTS profile.
pub open spec fn mgts_args(hostlist: Seq<char>, quic: Seq<char>, tls: Seq<char>) -> Seq<
    Seq<char>,
> {
    seq![
        "--wf-tcp=443"@,
        "--wf-udp=443,50000-65535"@,
        "--filter-udp=443"@,
        "--hostlist"@,
        hostlist,
        "--dpi-desync=fake"@,
        "--dpi-desync-udplen-increment=10"@,
        "--dpi-desync-repeats=6"@,
        "--dpi-desync-udplen-pattern=0xDEADBEEF"@,
        "--dpi-desync-fake-quic"@,
        quic,
        "--new"@,
        "--filter-udp=50000-65535"@,
        "--dpi-desync=fake,tamper"@,
        "--dpi-desync-any-protocol"@,
        "--dpi-desync-cutoff=d3"@,
        "--dpi-desync-repeats=6"@,
        "--dpi-desync-fake-quic"@,
        quic,
        "--new"@,
        "--filter-tcp=443"@,
        "--hostlist"@,
        hostlist,
        "--dpi-desync=fake"@,
        "--dpi-desync-autottl=2"@,
        "--dpi-desync-repeats=6"@,
        "--dpi-desync-fooling=md5sig"@,
        "--dpi-desync-fake-tls"@,
        tls,
    ]
}

/// The arguments that `mode` selects, with the three paths in their places.
pub open spec fn profile_args(mode: Mode, hostlist: Seq<char>, quic: Seq<char>, tls: Seq<char>) -> Seq<
    Seq<char>,
> {
    match mode {
        Mode::General => general_args(hostlist, quic, tls),
        Mode::Beeline => beeline_args(hostlist, quic, tls),
        Mode::Mgts => mgts_args(hostlist, quic, tls),
    }
}

/// The number of arguments in the profile of `mode`.
pub open spec fn profile_len(mode: Mode) -> nat {
    match mode {
        Mode::General => 29,
        Mode::Beeline => 22,
        Mode::Mgts => 29,
    }
}

/// The length of a profile depends on the mode alone, not on the paths.
pub proof fn lemma_profile_len(mode: Mode, hostlist: Seq<char>, quic: Seq<char>, tls: Seq<char>)
    ensures
        profile_args(mode, hostlist, quic, tls).len() == profile_len(mode),
{
}

/// Appends one argument to a list.
fn push_arg(args: &mut Vec<String>, arg: &str)
    ensures
        texts(final(args)@) == texts(old(args)@).push(arg@),
{
    args.push(arg.to_owned());
    assert(texts(args@) =~= texts(old(args)@).push(arg@));
}

/// Builds the arguments of the general profile.
fn build_general(hostlist: &str, quic: &str, tls: &str) -> (args: Vec<String>)
    ensures
        texts(args@) == general_args(hostlist@, quic@, tls@),
{
    let mut args: Vec<String> = Vec::new();
    assert(texts(args@) =~= Seq::empty());
    push_arg(&mut args, "--wf-tcp=443");
    push_arg(&mut args, "--wf-udp=443,50000-65535");
    push_arg(&mut args, "--filter-udp=443");
    push_arg(&mut args, "--hostlist");
    push_arg(&mut args, hostlist);
    push_arg(&mut args, "--dpi-desync=fake");
    push_arg(&mut args, "--dpi-desync-udplen-increment=10");
    push_arg(&mut args, "--dpi-desync-repeats=6");
    push_arg(&mut args, "--dpi-desync-udplen-pattern=0xDEADBEEF");
    push_arg(&mut args, "--dpi-desync-fake-quic");
    push_arg(&mut args, quic);
    push_arg(&mut args, "--new");
    push_arg(&mut args, "--filter-udp=50000-65535");
    push_arg(&mut args, "--dpi-desync=fake");
    push_arg(&mut args, "--dpi-desync-any-protocol");
    push_arg(&mut args, "--dpi-desync-cutoff=d3");
    push_arg(&mut args, "--dpi-desync-repeats=6");
    push_arg(&mut args, "--dpi-desync-fake-quic");
    push_arg(&mut args, quic);
    push_arg(&mut args, "--new");
    push_arg(&mut args, "--filter-tcp=443");
    push_arg(&mut args, "--hostlist");
    push_arg(&mut args, hostlist);
    push_arg(&mut args, "--dpi-desync=fake,split");
    push_arg(&mut args, "--dpi-desync-autottl=2");
    push_arg(&mut args, "--dpi-desync-repeats=6");
    push_arg(&mut args, "--dpi-desync-fooling=badseq");
    push_arg(&mut args, "--dpi-desync-fake-tls");
    push_arg(&mut args, tls);
    args
}

/// Builds the arguments of the Beeline profile.
fn build_beeline(hostlist: &str, quic: &str, tls: &str) -> (args: Vec<String>)
    ensures
        texts(args@) == beeline_args(hostlist@, quic@, tls@),
{
    let mut args: Vec<String> = Vec::new();
    assert(texts(args@) =~= Seq::empty());
    push_arg(&mut args, "--wf-udp=50000-65535");
    push_arg(&mut args, "--filter-udp=50000-65535");
    push_arg(&mut args, "--hostlist");
    push_arg(&mut args, hostlist);
    push_arg(&mut args, "--dpi-desync=fake");
    push_arg(&mut args, "--dpi-desync-any-protocol");
    push_arg(&mut args, "--dpi-desync-cutoff=d3");
    push_arg(&mut args, "--dpi-desync-repeats=6");
    push_arg(&mut args, "--dpi-desync-fake-quic");
    push_arg(&mut args, quic);
    push_arg(&mut args, "--new");
    push_arg(&mut args, "--wf-l3=ipv4");
    push_arg(&mut args, "--wf-tcp=443");
    push_arg(&mut args, "--dpi-desync=syndata");
    push_arg(&mut args, "--dpi-desync-split2");
    push_arg(&mut args, "--dpi-desync-disorder2");
    push_arg(&mut args, "--dpi-desync-fake-syndata");
    push_arg(&mut args, tls);
    push_arg(&mut args, "--wssize");
    push_arg(&mut args, "1:6");
    push_arg(&mut args, "--dpi-desync-fake-syndata=");
    push_arg(&mut args, tls);
    args
}

/// Builds the arguments of the MGTS profile.
fn build_mgts(hostlist: &str, quic: &str, tls: &str) -> (args: Vec<String>)
    ensures
        texts(args@) == mgts_args(hostlist@, quic@, tls@),
{
    let mut args: Vec<String> = Vec::new();
    assert(texts(args@) =~= Seq::empty());
    push_arg(&mut args, "--wf-tcp=443");
    push_arg(&mut args, "--wf-udp=443,50000-65535");
    push_arg(&mut args, "--filter-udp=443");
    push_arg(&mut args, "--hostlist");
    push_arg(&mut args, hostlist);
    push_arg(&mut args, "--dpi-desync=fake");
    push_arg(&mut args, "--dpi-desync-udplen-increment=10");
    push_arg(&mut args, "--dpi-desync-repeats=6");
    push_arg(&mut args, "--dpi-desync-udplen-pattern=0xDEADBEEF");
    push_arg(&mut args, "--dpi-desync-fake-quic");
    push_arg(&mut args, quic);
    push_arg(&mut args, "--new");
    push_arg(&mut args, "--filter-udp=50000-65535");
    push_arg(&mut args, "--dpi-desync=fake,tamper");
    push_arg(&mut args, "--dpi-desync-any-protocol");
    push_arg(&mut args, "--dpi-desync-cutoff=d3");
    push_arg(&mut args, "--dpi-desync-repeats=6");
    push_arg(&mut args, "--dpi-desync-fake-quic");
    push_arg(&mut args, quic);
    push_arg(&mut args, "--new");
    push_arg(&mut args, "--filter-tcp=443");
    push_arg(&mut args, "--hostlist");
    push_arg(&mut args, hostlist);
    push_arg(&mut args, "--dpi-desync=fake");
    push_arg(&mut args, "--dpi-desync-autottl=2");
    push_arg(&mut args, "--dpi-desync-repeats=6");
    push_arg(&mut args, "--dpi-desync-fooling=md5sig");
    push_arg(&mut args, "--dpi-desync-fake-tls");
    push_arg(&mut args, tls);
    args
}

/// Builds the argument list that `mode` selects.
///
/// The result holds the profile's flags in order, with `hostlist`, `quic`
/// and `tls` wherever the profile names the host list, the QUIC payload and
/// the TLS payload.
pub fn build_args(mode: Mode, hostlist: &str, quic: &str, tls: &str) -> (args: Vec<String>)
    ensures
        texts(args@) == profile_args(mode, hostlist@, quic@, tls@),
{
    match mode {
        Mode::General => build_general(hostlist, quic, tls),
        Mode::Beeline => build_beeline(hostlist, quic, tls),
        Mode::Mgts => build_mgts(hostlist, quic, tls),
    }
}

} // verus!
