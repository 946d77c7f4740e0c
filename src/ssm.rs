use vstd::prelude::*;


verus! {

/// The command line that opens a session on `target`.
pub open spec fn start_session_spec(target: Seq<char>) -> Seq<char> {
    "aws ssm start-session --target "@ + target
}

pub fn start_session_command(target: &str) -> (r: String)
    ensures
        r@ == start_session_spec(target@),
{
    let mut r = "aws ssm start-session --target ".to_owned();
    r.append(target);
    r
}

/// The command line that forwards `local_port` to `remote_port` on `host`,
/// as seen from `target`.
pub open spec fn port_forward_spec(
    target: Seq<char>,
    host: Seq<char>,
    local_port: Seq<char>,
    remote_port: Seq<char>,
) -> Seq<char> {
    start_session_spec(target)
        + " --document-name AWS-StartPortForwardingSessionToRemoteHost --parameters '{\"portNumber\":[\""@
        + remote_port + "\"],\"localPortNumber\":[\""@ + local_port + "\"], \"host\":[\""@ + host
        + "\"]}'"@
}

pub fn port_forward_command(target: &str, host: &str, local_port: &str, remote_port: &str) -> (r:
    String)
    ensures
        r@ == port_forward_spec(target@, host@, local_port@, remote_port@),
{
    let mut r = start_session_command(target);
    r.append(
        " --document-name AWS-StartPortForwardingSessionToRemoteHost --parameters '{\"portNumber\":[\"",
    );
    r.append(remote_port);
    r.append("\"],\"localPortNumber\":[\"");
    r.append(local_port);
    r.append("\"], \"host\":[\"");
    r.append(host);
    r.append("\"]}'");
    r
}

} // verus!
