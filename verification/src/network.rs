//! Container networking: a bridge on the host, a veth pair into the
//! container's network namespace, and NAT for the container subnet.

use vstd::prelude::*;
use vstd::string::*;

use crate::command::{
    command_stops, command_views, debug_list, debug_strings, law_sequence_stops_at_first_failure,
    run_sequence, CommandView, HostCommand, OutcomeView,
};
use crate::error::{ErrorView, GrinddError};
use crate::text::{concat, owned_strings};

verus! {

/// The network objects of one container.
#[derive(Debug, Clone)]
pub struct NetworkPlan {
    pub bridge_name: String,
    pub bridge_cidr: String,
    pub veth_host: String,
    pub veth_container: String,
    pub container_ns: String,
    pub container_ip: String,
}

/// The model of a `NetworkPlan`.
pub struct PlanView {
    pub bridge_name: Seq<char>,
    pub bridge_cidr: Seq<char>,
    pub veth_host: Seq<char>,
    pub veth_container: Seq<char>,
    pub container_ns: Seq<char>,
    pub container_ip: Seq<char>,
}

impl View for NetworkPlan {
    type V = PlanView;

    open spec fn view(&self) -> PlanView {
        PlanView {
            bridge_name: self.bridge_name@,
            bridge_cidr: self.bridge_cidr@,
            veth_host: self.veth_host@,
            veth_container: self.veth_container@,
            container_ns: self.container_ns@,
            container_ip: self.container_ip@,
        }
    }
}

/// The shell script that turns on forwarding and adds the masquerading rule
/// for the container subnet, unless it is there already.
pub open spec fn nat_script() -> Seq<char> {
    "sysctl -w net.ipv4.ip_forward=1 >/dev/null && iptables -t nat -C POSTROUTING -s 10.0.0.0/24 ! -o grindd0 -j MASQUERADE 2>/dev/null || iptables -t nat -A POSTROUTING -s 10.0.0.0/24 ! -o grindd0 -j MASQUERADE"@
}

/// `ip` with the given arguments; its failure is a network error "ip
/// command failed: " followed by the arguments as `{:?}` writes them.
pub open spec fn ip_command(args: Seq<Seq<char>>) -> CommandView {
    CommandView {
        program: "ip"@,
        args,
        on_failure: Some(ErrorView::Network("ip command failed: "@ + debug_strings(args))),
    }
}

/// `ip` with the given arguments, run inside namespace `ns`; its failure is a
/// network error "ip netns exec failed: " followed by those arguments as
/// `{:?}` writes them.
pub open spec fn netns_command(ns: Seq<char>, args: Seq<Seq<char>>) -> CommandView {
    CommandView {
        program: "ip"@,
        args: seq!["netns"@, "exec"@, ns] + args,
        on_failure: Some(ErrorView::Network("ip netns exec failed: "@ + debug_strings(args))),
    }
}

/// The commands that set up the network of `p`, in order, each with the
/// error its failure stops the setup with.
pub open spec fn setup_commands(p: PlanView) -> Seq<CommandView> {
    seq![
        ip_command(seq!["link"@, "add"@, p.bridge_name, "type"@, "bridge"@]),
        ip_command(seq!["addr"@, "add"@, p.bridge_cidr, "dev"@, p.bridge_name]),
        ip_command(seq!["link"@, "set"@, p.bridge_name, "up"@]),
        ip_command(
            seq![
                "link"@,
                "add"@,
                p.veth_host,
                "type"@,
                "veth"@,
                "peer"@,
                "name"@,
                p.veth_container,
            ],
        ),
        ip_command(seq!["link"@, "set"@, p.veth_host, "master"@, p.bridge_name]),
        ip_command(seq!["link"@, "set"@, p.veth_host, "up"@]),
        ip_command(seq!["link"@, "set"@, p.veth_container, "netns"@, p.container_ns]),
        netns_command(p.container_ns, seq!["ip"@, "link"@, "set"@, "lo"@, "up"@]),
        netns_command(p.container_ns, seq!["ip"@, "link"@, "set"@, p.veth_container, "up"@]),
        netns_command(
            p.container_ns,
            seq!["ip"@, "addr"@, "add"@, p.container_ip, "dev"@, p.veth_container],
        ),
        CommandView {
            program: "sh"@,
            args: seq!["-c"@, nat_script()],
            on_failure: Some(ErrorView::Network("failed to configure NAT"@)),
        },
    ]
}

/// The commands that tear down the network of `p`; their failures are ignored.
pub open spec fn teardown_commands(p: PlanView) -> Seq<CommandView> {
    seq![
        CommandView {
            program: "ip"@,
            args: seq!["link"@, "del"@, p.bridge_name],
            on_failure: None,
        },
        CommandView {
            program: "ip"@,
            args: seq!["netns"@, "del"@, p.container_ns],
            on_failure: None,
        },
    ]
}

fn push_arg<'a>(v: &mut Vec<&'a str>, s: &'a str)
    ensures
        final(v)@.map_values(|x: &str| x@) == old(v)@.map_values(|x: &str| x@).push(s@),
{
    let ghost before = v@;
    v.push(s);
    assert(v@.map_values(|x: &str| x@) =~= before.map_values(|x: &str| x@).push(s@));
}

fn command(program: &str, args: Vec<&str>, on_failure: Option<GrinddError>) -> (r: HostCommand)
    ensures
        r@ == (CommandView {
            program: program@,
            args: args@.map_values(|s: &str| s@),
            on_failure: match on_failure {
                Some(e) => Some(e@),
                None => None,
            },
        }),
{
    HostCommand { program: String::from_str(program), args: owned_strings(&args), on_failure }
}

fn ip(args: Vec<&str>) -> (r: HostCommand)
    ensures
        r@ == ip_command(args@.map_values(|s: &str| s@)),
{
    let owned = owned_strings(&args);
    let shown = debug_list(owned.as_slice());
    let failure = GrinddError::Network(concat("ip command failed: ", shown.as_str()));
    command("ip", args, Some(failure))
}

fn in_netns(ns: &str, inner: Vec<&str>) -> (r: HostCommand)
    ensures
        r@ == netns_command(ns@, inner@.map_values(|s: &str| s@)),
{
    let owned = owned_strings(&inner);
    let shown = debug_list(owned.as_slice());
    let failure = GrinddError::Network(concat("ip netns exec failed: ", shown.as_str()));
    let mut args: Vec<&str> = Vec::new();
    assert(args@.map_values(|x: &str| x@) =~= Seq::<Seq<char>>::empty());
    push_arg(&mut args, "netns");
    push_arg(&mut args, "exec");
    push_arg(&mut args, ns);
    let mut i: usize = 0;
    while i < inner.len()
        invariant
            i <= inner@.len(),
            args@.map_values(|s: &str| s@) == seq!["netns"@, "exec"@, ns@]
                + inner@.map_values(|s: &str| s@).take(i as int),
        decreases inner@.len() - i,
    {
        let ghost before = args@;
        push_arg(&mut args, inner[i]);
        assert(args@.map_values(|s: &str| s@) =~= before.map_values(|s: &str| s@).push(
            inner@[i as int]@,
        ));
        assert(inner@.map_values(|s: &str| s@).take(i + 1) =~= inner@.map_values(|s: &str| s@).take(
            i as int,
        ).push(inner@[i as int]@));
        i = i + 1;
    }
    assert(inner@.map_values(|s: &str| s@).take(inner@.len() as int) =~= inner@.map_values(
        |s: &str| s@,
    ));
    command("ip", args, Some(failure))
}

/// The commands that set up the network of `plan`; the caller runs them in
/// order with `first_step` and `next_command`, which stop at the first
/// failure with that command's error.
pub fn setup_network(plan: &NetworkPlan) -> (r: Vec<HostCommand>)
    ensures
        command_views(r@) == setup_commands(plan@),
{
    let bridge = plan.bridge_name.as_str();
    let host = plan.veth_host.as_str();
    let peer = plan.veth_container.as_str();
    let ns = plan.container_ns.as_str();
    let mut r: Vec<HostCommand> = Vec::new();
    let mut a: Vec<&str> = Vec::new();
    assert(a@.map_values(|x: &str| x@) =~= Seq::<Seq<char>>::empty());
    push_arg(&mut a, "link");
    push_arg(&mut a, "add");
    push_arg(&mut a, bridge);
    push_arg(&mut a, "type");
    push_arg(&mut a, "bridge");
    assert(a@.map_values(|x: &str| x@) =~= seq!["link"@, "add"@, bridge@, "type"@, "bridge"@]);
    r.push(ip(a));
    let mut a: Vec<&str> = Vec::new();
    assert(a@.map_values(|x: &str| x@) =~= Seq::<Seq<char>>::empty());
    push_arg(&mut a, "addr");
    push_arg(&mut a, "add");
    push_arg(&mut a, plan.bridge_cidr.as_str());
    push_arg(&mut a, "dev");
    push_arg(&mut a, bridge);
    assert(a@.map_values(|x: &str| x@) =~= seq!["addr"@, "add"@, plan.bridge_cidr@, "dev"@, bridge@]);
    r.push(ip(a));
    let mut a: Vec<&str> = Vec::new();
    assert(a@.map_values(|x: &str| x@) =~= Seq::<Seq<char>>::empty());
    push_arg(&mut a, "link");
    push_arg(&mut a, "set");
    push_arg(&mut a, bridge);
    push_arg(&mut a, "up");
    assert(a@.map_values(|x: &str| x@) =~= seq!["link"@, "set"@, bridge@, "up"@]);
    r.push(ip(a));
    let mut a: Vec<&str> = Vec::new();
    assert(a@.map_values(|x: &str| x@) =~= Seq::<Seq<char>>::empty());
    push_arg(&mut a, "link");
    push_arg(&mut a, "add");
    push_arg(&mut a, host);
    push_arg(&mut a, "type");
    push_arg(&mut a, "veth");
    push_arg(&mut a, "peer");
    push_arg(&mut a, "name");
    push_arg(&mut a, peer);
    assert(a@.map_values(|x: &str| x@) =~= seq!["link"@, "add"@, host@, "type"@, "veth"@, "peer"@, "name"@, peer@]);
    r.push(ip(a));
    let mut a: Vec<&str> = Vec::new();
    assert(a@.map_values(|x: &str| x@) =~= Seq::<Seq<char>>::empty());
    push_arg(&mut a, "link");
    push_arg(&mut a, "set");
    push_arg(&mut a, host);
    push_arg(&mut a, "master");
    push_arg(&mut a, bridge);
    assert(a@.map_values(|x: &str| x@) =~= seq!["link"@, "set"@, host@, "master"@, bridge@]);
    r.push(ip(a));
    let mut a: Vec<&str> = Vec::new();
    assert(a@.map_values(|x: &str| x@) =~= Seq::<Seq<char>>::empty());
    push_arg(&mut a, "link");
    push_arg(&mut a, "set");
    push_arg(&mut a, host);
    push_arg(&mut a, "up");
    assert(a@.map_values(|x: &str| x@) =~= seq!["link"@, "set"@, host@, "up"@]);
    r.push(ip(a));
    let mut a: Vec<&str> = Vec::new();
    assert(a@.map_values(|x: &str| x@) =~= Seq::<Seq<char>>::empty());
    push_arg(&mut a, "link");
    push_arg(&mut a, "set");
    push_arg(&mut a, peer);
    push_arg(&mut a, "netns");
    push_arg(&mut a, ns);
    assert(a@.map_values(|x: &str| x@) =~= seq!["link"@, "set"@, peer@, "netns"@, ns@]);
    r.push(ip(a));
    let mut a: Vec<&str> = Vec::new();
    assert(a@.map_values(|x: &str| x@) =~= Seq::<Seq<char>>::empty());
    push_arg(&mut a, "ip");
    push_arg(&mut a, "link");
    push_arg(&mut a, "set");
    push_arg(&mut a, "lo");
    push_arg(&mut a, "up");
    assert(a@.map_values(|x: &str| x@) =~= seq!["ip"@, "link"@, "set"@, "lo"@, "up"@]);
    r.push(in_netns(ns, a));
    let mut a: Vec<&str> = Vec::new();
    assert(a@.map_values(|x: &str| x@) =~= Seq::<Seq<char>>::empty());
    push_arg(&mut a, "ip");
    push_arg(&mut a, "link");
    push_arg(&mut a, "set");
    push_arg(&mut a, peer);
    push_arg(&mut a, "up");
    assert(a@.map_values(|x: &str| x@) =~= seq!["ip"@, "link"@, "set"@, peer@, "up"@]);
    r.push(in_netns(ns, a));
    let mut a: Vec<&str> = Vec::new();
    assert(a@.map_values(|x: &str| x@) =~= Seq::<Seq<char>>::empty());
    push_arg(&mut a, "ip");
    push_arg(&mut a, "addr");
    push_arg(&mut a, "add");
    push_arg(&mut a, plan.container_ip.as_str());
    push_arg(&mut a, "dev");
    push_arg(&mut a, peer);
    assert(a@.map_values(|x: &str| x@) =~= seq!["ip"@, "addr"@, "add"@, plan.container_ip@, "dev"@, peer@]);
    r.push(in_netns(ns, a));
    let mut a: Vec<&str> = Vec::new();
    assert(a@.map_values(|x: &str| x@) =~= Seq::<Seq<char>>::empty());
    push_arg(&mut a, "-c");
    push_arg(&mut a, 
        "sysctl -w net.ipv4.ip_forward=1 >/dev/null && iptables -t nat -C POSTROUTING -s 10.0.0.0/24 ! -o grindd0 -j MASQUERADE 2>/dev/null || iptables -t nat -A POSTROUTING -s 10.0.0.0/24 ! -o grindd0 -j MASQUERADE",
    );
    r.push(command("sh", a, Some(GrinddError::Network(String::from_str("failed to configure NAT")))));
    assert(command_views(r@) =~~= setup_commands(plan@));
    r
}

/// The commands that tear down the network of `plan`: delete the bridge, then
/// the namespace. Their failures are ignored.
pub fn teardown_network(plan: &NetworkPlan) -> (r: Vec<HostCommand>)
    ensures
        command_views(r@) == teardown_commands(plan@),
{
    let mut r: Vec<HostCommand> = Vec::new();
    let mut a: Vec<&str> = Vec::new();
    assert(a@.map_values(|x: &str| x@) =~= Seq::<Seq<char>>::empty());
    push_arg(&mut a, "link");
    push_arg(&mut a, "del");
    push_arg(&mut a, plan.bridge_name.as_str());
    r.push(command("ip", a, None));
    let mut a: Vec<&str> = Vec::new();
    assert(a@.map_values(|x: &str| x@) =~= Seq::<Seq<char>>::empty());
    push_arg(&mut a, "netns");
    push_arg(&mut a, "del");
    push_arg(&mut a, plan.container_ns.as_str());
    r.push(command("ip", a, None));
    assert(command_views(r@) =~~= teardown_commands(plan@));
    r
}

/// The network of container `id` on the engine's bridge.
pub open spec fn default_plan(id: Seq<char>) -> PlanView {
    PlanView {
        bridge_name: "grindd0"@,
        bridge_cidr: "10.0.0.1/24"@,
        veth_host: "vethh-"@ + id,
        veth_container: "vethc-"@ + id,
        container_ns: "ns-"@ + id,
        container_ip: "10.0.0.2/24"@,
    }
}

/// The network of container `id` on the engine's bridge `grindd0`
/// (10.0.0.1/24), with the container at 10.0.0.2/24.
pub fn default_network_plan(id: &str) -> (r: NetworkPlan)
    ensures
        r@ == default_plan(id@),
{
    NetworkPlan {
        bridge_name: String::from_str("grindd0"),
        bridge_cidr: String::from_str("10.0.0.1/24"),
        veth_host: concat("vethh-", id),
        veth_container: concat("vethc-", id),
        container_ns: concat("ns-", id),
        container_ip: String::from_str("10.0.0.2/24"),
    }
}

/// Setting up a network stops at the first command that fails: it and the
/// commands before it have run, none after it, and the setup fails with a
/// network error: "ip command failed: " and the arguments for the seven `ip`
/// commands, "ip netns exec failed: " and the arguments inside the namespace
/// for the next three, "failed to configure NAT" for the last.
pub proof fn law_network_setup_stops_at_first_failure(
    p: PlanView,
    outcomes: Seq<OutcomeView>,
    k: nat,
)
    requires
        outcomes.len() == setup_commands(p).len(),
        k < setup_commands(p).len(),
        forall|j: int| 0 <= j < k ==> outcomes[j] is Succeeded,
        outcomes[k as int] is Failed,
    ensures
        ({
            let c = setup_commands(p)[k as int];
            let (ran, result) = run_sequence(command_stops(setup_commands(p), outcomes), 0);
            &&& ran == k + 1
            &&& k < 7 ==> result == Err::<(), ErrorView>(
                ErrorView::Network("ip command failed: "@ + debug_strings(c.args)),
            )
            &&& 7 <= k < 10 ==> result == Err::<(), ErrorView>(
                ErrorView::Network("ip netns exec failed: "@ + debug_strings(c.args.skip(3))),
            )
            &&& k == 10 ==> result == Err::<(), ErrorView>(
                ErrorView::Network("failed to configure NAT"@),
            )
        }),
{
    let cmds = setup_commands(p);
    let stops = command_stops(cmds, outcomes);
    assert(cmds.len() == 11);
    assert forall|j: int| 0 <= j < k implies stops[j] is None by {
        assert(outcomes[j] is Succeeded);
    }
    assert(cmds[k as int].on_failure is Some) by {
        assert(forall|j: int| 0 <= j < 11 ==> #[trigger] cmds[j].on_failure is Some);
    }
    law_sequence_stops_at_first_failure(stops, k);
    if 7 <= k < 10 {
        let inner = cmds[k as int].args.skip(3);
        if k == 7 {
            assert(inner =~= seq!["ip"@, "link"@, "set"@, "lo"@, "up"@]);
        } else if k == 8 {
            assert(inner =~= seq!["ip"@, "link"@, "set"@, p.veth_container, "up"@]);
        } else {
            assert(inner =~= seq!["ip"@, "addr"@, "add"@, p.container_ip, "dev"@, p.veth_container]);
        }
    }
}

/// Whether `c` puts the interface `dev` on a bridge (`ip link set <dev>
/// master <bridge>`).
pub open spec fn enslaves(c: CommandView, dev: Seq<char>) -> bool {
    &&& c.program == "ip"@
    &&& c.args.len() == 5
    &&& c.args[0] == "link"@
    &&& c.args[1] == "set"@
    &&& c.args[2] == dev
    &&& c.args[3] == "master"@
}

/// The setup connects the container through the host end of its veth pair:
/// the pair is created, then its host end (and only that end) is put on the
/// bridge, then its container end is moved into the container's namespace.
pub proof fn law_host_end_on_bridge(p: PlanView)
    requires
        p.veth_host != p.veth_container,
    ensures
        ({
            let cmds = setup_commands(p);
            &&& exists|a: int, b: int, c: int|
                0 <= a < b < c < cmds.len() && (#[trigger] cmds[a]).args == seq![
                    "link"@,
                    "add"@,
                    p.veth_host,
                    "type"@,
                    "veth"@,
                    "peer"@,
                    "name"@,
                    p.veth_container,
                ] && #[trigger] cmds[b] == CommandView {
                    program: "ip"@,
                    args: seq!["link"@, "set"@, p.veth_host, "master"@, p.bridge_name],
                    on_failure: cmds[b].on_failure,
                } && (#[trigger] cmds[c]).args == seq![
                    "link"@,
                    "set"@,
                    p.veth_container,
                    "netns"@,
                    p.container_ns,
                ]
            &&& forall|k: int| 0 <= k < cmds.len() ==> !enslaves(#[trigger] cmds[k], p.veth_container)
        }),
{
    let cmds = setup_commands(p);
    reveal_strlit("link");
    reveal_strlit("set");
    reveal_strlit("add");
    reveal_strlit("addr");
    reveal_strlit("master");
    reveal_strlit("netns");
    reveal_strlit("sh");
    assert(cmds.len() == 11);
    assert("add"@[0] != "set"@[0]);
    assert("addr"@[0] != "link"@[0]);
    assert("netns"@.len() != "master"@.len());
    assert(!enslaves(cmds[0], p.veth_container));
    assert(!enslaves(cmds[1], p.veth_container));
    assert(!enslaves(cmds[2], p.veth_container));
    assert(!enslaves(cmds[3], p.veth_container));
    assert(!enslaves(cmds[4], p.veth_container));
    assert(!enslaves(cmds[5], p.veth_container));
    assert(!enslaves(cmds[6], p.veth_container));
    assert(!enslaves(cmds[7], p.veth_container));
    assert(!enslaves(cmds[8], p.veth_container));
    assert(!enslaves(cmds[9], p.veth_container));
    assert(!enslaves(cmds[10], p.veth_container));
    assert(forall|k: int| 0 <= k < 11 ==> !enslaves(#[trigger] cmds[k], p.veth_container));
    assert(cmds[3].args == seq![
        "link"@,
        "add"@,
        p.veth_host,
        "type"@,
        "veth"@,
        "peer"@,
        "name"@,
        p.veth_container,
    ]);
}

/// The order of the setup: the bridge is created, given its address and
/// brought up; the veth pair is created, its host end put on the bridge and
/// brought up, its container end moved into the container's namespace;
/// inside the namespace loopback and the container end are brought up and
/// the container end gets the container's address; NAT is configured last.
pub proof fn law_network_setup_order(p: PlanView)
    ensures
        ({
            let c = setup_commands(p);
            &&& c.len() == 11
            &&& c[0].args == seq!["link"@, "add"@, p.bridge_name, "type"@, "bridge"@]
            &&& c[1].args == seq!["addr"@, "add"@, p.bridge_cidr, "dev"@, p.bridge_name]
            &&& c[2].args == seq!["link"@, "set"@, p.bridge_name, "up"@]
            &&& c[3].args == seq![
                "link"@,
                "add"@,
                p.veth_host,
                "type"@,
                "veth"@,
                "peer"@,
                "name"@,
                p.veth_container,
            ]
            &&& c[4].args == seq!["link"@, "set"@, p.veth_host, "master"@, p.bridge_name]
            &&& c[5].args == seq!["link"@, "set"@, p.veth_host, "up"@]
            &&& c[6].args == seq!["link"@, "set"@, p.veth_container, "netns"@, p.container_ns]
            &&& c[7].args == seq!["netns"@, "exec"@, p.container_ns, "ip"@, "link"@, "set"@, "lo"@, "up"@]
            &&& c[8].args == seq![
                "netns"@,
                "exec"@,
                p.container_ns,
                "ip"@,
                "link"@,
                "set"@,
                p.veth_container,
                "up"@,
            ]
            &&& c[9].args == seq![
                "netns"@,
                "exec"@,
                p.container_ns,
                "ip"@,
                "addr"@,
                "add"@,
                p.container_ip,
                "dev"@,
                p.veth_container,
            ]
            &&& c[10].program == "sh"@ && c[10].args == seq!["-c"@, nat_script()]
            &&& forall|k: int| 0 <= k < 10 ==> (#[trigger] c[k]).program == "ip"@
        }),
{
    let c = setup_commands(p);
    assert(c[7].args =~= seq!["netns"@, "exec"@, p.container_ns, "ip"@, "link"@, "set"@, "lo"@, "up"@]);
    assert(c[8].args =~= seq![
        "netns"@,
        "exec"@,
        p.container_ns,
        "ip"@,
        "link"@,
        "set"@,
        p.veth_container,
        "up"@,
    ]);
    assert(c[9].args =~= seq![
        "netns"@,
        "exec"@,
        p.container_ns,
        "ip"@,
        "addr"@,
        "add"@,
        p.container_ip,
        "dev"@,
        p.veth_container,
    ]);
}

} // verus!
