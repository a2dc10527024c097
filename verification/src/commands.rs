//! The command lines that the library sends to the container runtime.

use crate::process::{Invocation, InvocationView};
use crate::text::{decimal, decimal_of};
use vstd::prelude::*;
use vstd::string::StringExecFns;

verus! {

/// `c`, or a hyphen where `c` is a colon or a slash.
pub open spec fn dash(c: char) -> char {
    if c == ':' || c == '/' {
        '-'
    } else {
        c
    }
}

/// `image` with a hyphen in the place of every colon and slash.
pub open spec fn dashed(image: Seq<char>) -> Seq<char> {
    Seq::new(image.len(), |i: int| dash(image[i]))
}

/// The name under which a container of `image` on `host_port` runs: the
/// same for every launch of that image on that port.
pub open spec fn container_name(image: Seq<char>, host_port: u16) -> Seq<char> {
    "tauridock-"@ + dashed(image) + "-"@ + decimal_of(host_port as nat)
}

/// The port mapping `host:container`.
pub open spec fn port_mapping(host_port: u16, container_port: u16) -> Seq<char> {
    decimal_of(host_port as nat) + ":"@ + decimal_of(container_port as nat)
}

/// Asks for the identifiers of the containers that publish `host_port`.
pub open spec fn probe_call(host_port: u16) -> InvocationView {
    InvocationView {
        program: "docker"@,
        args: seq!["ps"@, "-q"@, "--filter"@, "publish="@ + decimal_of(host_port as nat)],
    }
}

/// Stops the container `id`.
pub open spec fn stop_call(id: Seq<char>) -> InvocationView {
    InvocationView { program: "docker"@, args: seq!["stop"@, id] }
}

/// Removes the container `id`.
pub open spec fn remove_call(id: Seq<char>) -> InvocationView {
    InvocationView { program: "docker"@, args: seq!["rm"@, id] }
}

/// Runs a new container of `image` in the background, with `host_port`
/// mapped to `container_port`, under its name.
pub open spec fn run_call(image: Seq<char>, host_port: u16, container_port: u16) -> InvocationView {
    InvocationView {
        program: "docker"@,
        args: seq![
            "run"@,
            "-d"@,
            "-p"@,
            port_mapping(host_port, container_port),
            "--name"@,
            container_name(image, host_port),
            image,
        ],
    }
}

/// Lists all containers, running or not, one line of six fields each.
pub open spec fn list_call() -> InvocationView {
    InvocationView {
        program: "docker"@,
        args: seq![
            "ps"@,
            "-a"@,
            "--format"@,
            "{{.ID}}|{{.Names}}|{{.Image}}|{{.Status}}|{{.Ports}}|{{.CreatedAt}}"@,
        ],
    }
}

/// Asks for the system report as JSON.
pub open spec fn info_call() -> InvocationView {
    InvocationView { program: "docker"@, args: seq!["system"@, "info"@, "--format"@, "json"@] }
}

fn replace_separators(image: &str) -> (name: String)
    ensures
        name@ == dashed(image@),
{
    let mut name = String::new();
    for c in it: image.chars()
        invariant
            it.seq() == image@,
            name@ == dashed(image@.take(it.index() as int)),
    {
        if c == ':' || c == '/' {
            name.push('-');
        } else {
            name.push(c);
        }
        assert(name@ == dashed(image@.take(it.index() + 1)));
    }
    assert(image@.take(image@.len() as int) == image@);
    name
}

fn invocation(args: Vec<String>) -> (call: Invocation)
    ensures
        call@ == (InvocationView { program: "docker"@, args: args.deep_view() }),
{
    Invocation { program: "docker".to_owned(), args }
}

/// The invocation that asks which containers publish `host_port`.
pub fn probe(host_port: u16) -> (call: Invocation)
    ensures
        call@ == probe_call(host_port),
{
    let mut filter = "publish=".to_owned();
    filter.append(decimal(host_port as u64).as_str());
    let mut args: Vec<String> = Vec::new();
    args.push("ps".to_owned());
    args.push("-q".to_owned());
    args.push("--filter".to_owned());
    args.push(filter);
    assert(args.deep_view() == probe_call(host_port).args);
    invocation(args)
}

/// The invocation that stops the container `id`.
pub fn stop_container(id: &str) -> (call: Invocation)
    ensures
        call@ == stop_call(id@),
{
    let mut args: Vec<String> = Vec::new();
    args.push("stop".to_owned());
    args.push(id.to_owned());
    assert(args.deep_view() == stop_call(id@).args);
    invocation(args)
}

/// The invocation that removes the container `id`.
pub fn remove_container(id: &str) -> (call: Invocation)
    ensures
        call@ == remove_call(id@),
{
    let mut args: Vec<String> = Vec::new();
    args.push("rm".to_owned());
    args.push(id.to_owned());
    assert(args.deep_view() == remove_call(id@).args);
    invocation(args)
}

/// The invocation that runs a new container of `image`.
pub fn run_container(image: &str, host_port: u16, container_port: u16) -> (call: Invocation)
    ensures
        call@ == run_call(image@, host_port, container_port),
{
    let host = decimal(host_port as u64);
    let mut mapping = host.clone();
    mapping.append(":");
    mapping.append(decimal(container_port as u64).as_str());
    let mut name = "tauridock-".to_owned();
    name.append(replace_separators(image).as_str());
    name.append("-");
    name.append(host.as_str());
    let mut args: Vec<String> = Vec::new();
    args.push("run".to_owned());
    args.push("-d".to_owned());
    args.push("-p".to_owned());
    args.push(mapping);
    args.push("--name".to_owned());
    args.push(name);
    args.push(image.to_owned());
    assert(args.deep_view() == run_call(image@, host_port, container_port).args);
    invocation(args)
}

/// The invocation that lists all containers.
pub fn list_all() -> (call: Invocation)
    ensures
        call@ == list_call(),
{
    let mut args: Vec<String> = Vec::new();
    args.push("ps".to_owned());
    args.push("-a".to_owned());
    args.push("--format".to_owned());
    args.push("{{.ID}}|{{.Names}}|{{.Image}}|{{.Status}}|{{.Ports}}|{{.CreatedAt}}".to_owned());
    assert(args.deep_view() == list_call().args);
    invocation(args)
}

/// The invocation that asks for the system report.
pub fn report() -> (call: Invocation)
    ensures
        call@ == info_call(),
{
    let mut args: Vec<String> = Vec::new();
    args.push("system".to_owned());
    args.push("info".to_owned());
    args.push("--format".to_owned());
    args.push("json".to_owned());
    assert(args.deep_view() == info_call().args);
    invocation(args)
}

} // verus!
