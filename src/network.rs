//! Guest network configuration: netplan, the first-boot address script,
//! the shared hosts file, and the full cloud-init configuration of a guest.
use vstd::prelude::*;
use crate::addressing::lan_ip_text;
use crate::error::VmError;
use crate::scenario::{CloudInitConfig, VmDefinition, WriteFile};
use crate::text::{push_str, str_eq};
use crate::vm_steps::{apply_vm_steps_to_cloud_init, runcmd_or_empty, steps_applied};

verus! {

/// The start of the first-boot network script: a helper that finds an
/// interface by MAC address.
pub const NET_SETUP_SCRIPT_PREFIX: &'static str = "#!/usr/bin/env bash\nset -euo pipefail\n\niface_for_mac() {\n  local mac=\"$1\"\n  for p in /sys/class/net/*; do\n    local name addr\n    name=\"$(basename \"$p\")\"\n    addr=\"$(cat \"$p/address\" 2>/dev/null || true)\"\n    if [ \"$addr\" = \"$mac\" ]; then\n      echo \"$name\"\n      return 0\n    fi\n  done\n  return 1\n}\n\n";

/// Interface renaming to the stable names `enp0s1` and `enp0s2`.
pub const NET_SETUP_SCRIPT_RENAME_AND_FALLBACKS: &'static str = "\n# Fallbacks if names aren't ready yet.\n[ -z \"$MGMT_IF\" ] && MGMT_IF=\"enp0s1\"\n[ -n \"$LAN_MAC\" ] && [ -z \"$LAN_IF\" ] && LAN_IF=\"enp0s2\"\n\nexists_if() { [ -d \"/sys/class/net/$1\" ]; }\n\n# Ensure stable names for scenario scripts.\nTMP_MGMT=\"intar-mgmt0\"\n\nif exists_if \"$MGMT_IF\" && [ \"$MGMT_IF\" != \"enp0s1\" ]; then\n  ip link set \"$MGMT_IF\" down 2>/dev/null || true\n  ip link set \"$MGMT_IF\" name \"$TMP_MGMT\" 2>/dev/null || true\n  MGMT_IF=\"$TMP_MGMT\"\nfi\n\nif [ -n \"$LAN_IF\" ] && exists_if \"$LAN_IF\" && [ \"$LAN_IF\" != \"enp0s2\" ]; then\n  ip link set \"$LAN_IF\" down 2>/dev/null || true\n  ip link set \"$LAN_IF\" name \"enp0s2\" 2>/dev/null || true\n  LAN_IF=\"enp0s2\"\nfi\n\nif exists_if \"$MGMT_IF\" && [ \"$MGMT_IF\" != \"enp0s1\" ]; then\n  ip link set \"$MGMT_IF\" down 2>/dev/null || true\n  ip link set \"$MGMT_IF\" name \"enp0s1\" 2>/dev/null || true\n  MGMT_IF=\"enp0s1\"\nfi\n";

/// The netplan v2 document: the management NIC by MAC as `enp0s1` with its
/// static address, gateway and resolver, and, on a shared LAN, the LAN NIC
/// as `enp0s2`.
pub open spec fn netplan_text(
    primary_mac: Seq<char>,
    mgmt_ip: Seq<char>,
    lan: Option<(Seq<char>, Seq<char>)>,
) -> Seq<char> {
    "network:\n  version: 2\n  ethernets:\n    mgmt0:\n      match:\n        macaddress: \""@ + primary_mac + "\"\n      set-name: enp0s1\n      dhcp4: false\n      dhcp6: false\n      addresses:\n        - "@ + mgmt_ip + "/24\n      gateway4: 10.0.2.2\n      nameservers:\n        addresses:\n          - 10.0.2.3\n      optional: true\n"@ + match lan {
        Some((cluster_ip, lan_mac)) => "    lan0:\n      match:\n        macaddress: \""@ + lan_mac + "\"\n      set-name: enp0s2\n      dhcp4: false\n      dhcp6: false\n      addresses:\n        - "@
            + cluster_ip + "/24\n      optional: true\n"@,
        None => Seq::empty(),
    }
}

/// The first-boot script that applies the addresses at once.
pub open spec fn net_setup_text(
    primary_mac: Seq<char>,
    mgmt_ip: Seq<char>,
    lan: Option<(Seq<char>, Seq<char>)>,
) -> Seq<char> {
    NET_SETUP_SCRIPT_PREFIX@ + "PRIMARY_MAC=\""@ + primary_mac + "\"\nLAN_MAC=\"\"\n\nMGMT_IF=\"$(iface_for_mac \"$PRIMARY_MAC\" || true)\"\nLAN_IF=\"\"\n"@ + (match lan {
        Some((_c, lan_mac)) => "LAN_MAC=\""@ + lan_mac + "\"\nLAN_IF=\"$(iface_for_mac \"$LAN_MAC\" || true)\"\n"@,
        None => Seq::empty(),
    }) + NET_SETUP_SCRIPT_RENAME_AND_FALLBACKS@ + "\n# Configure management NIC immediately with static IPv4.\nip addr flush dev \"$MGMT_IF\" 2>/dev/null || true\nip addr add "@ + mgmt_ip + "/24 dev \"$MGMT_IF\" 2>/dev/null || true\nip link set \"$MGMT_IF\" up || true\nip route replace default via 10.0.2.2 dev \"$MGMT_IF\" 2>/dev/null || true\n"@
        + (match lan {
        Some((cluster_ip, _m)) => "\n# Configure shared LAN NIC immediately with static IPv4.\nip addr flush dev \"$LAN_IF\" 2>/dev/null || true\nip addr add "@ + cluster_ip + "/24 dev \"$LAN_IF\" 2>/dev/null || true\nip link set \"$LAN_IF\" up || true\n"@,
        None => Seq::empty(),
    }) + "\n# Apply IPv6 disablement without blocking boot.\nsysctl -p /etc/sysctl.d/99-intar-no-ipv6.conf 2>/dev/null || true\n"@
}

pub open spec fn lan_view(lan: Option<(&str, &str)>) -> Option<(Seq<char>, Seq<char>)> {
    match lan {
        Some((c, m)) => Some((c@, m@)),
        None => None,
    }
}

/// The netplan configuration of a guest; `lan` is its shared-LAN address and
/// MAC, when there is a shared LAN.
pub fn netplan_config(primary_mac: &str, mgmt_ip: &str, lan: Option<(&str, &str)>) -> (r: String)
    ensures
        r@ == netplan_text(primary_mac@, mgmt_ip@, lan_view(lan)),
{
    let mut s = String::from_str("network:\n  version: 2\n  ethernets:\n    mgmt0:\n      match:\n        macaddress: \"");
    push_str(&mut s, primary_mac);
    push_str(&mut s, "\"\n      set-name: enp0s1\n      dhcp4: false\n      dhcp6: false\n      addresses:\n        - ");
    push_str(&mut s, mgmt_ip);
    push_str(&mut s, "/24\n      gateway4: 10.0.2.2\n      nameservers:\n        addresses:\n          - 10.0.2.3\n      optional: true\n");
    match lan {
        Some((cluster_ip, lan_mac)) => {
            push_str(&mut s, "    lan0:\n      match:\n        macaddress: \"");
            push_str(&mut s, lan_mac);
            push_str(&mut s, "\"\n      set-name: enp0s2\n      dhcp4: false\n      dhcp6: false\n      addresses:\n        - ");
            push_str(&mut s, cluster_ip);
            push_str(&mut s, "/24\n      optional: true\n");
        },
        None => {},
    }
    assert(s@ =~= netplan_text(primary_mac@, mgmt_ip@, lan_view(lan)));
    s
}

/// The first-boot network script of a guest.
pub fn net_setup_script(primary_mac: &str, mgmt_ip: &str, lan: Option<(&str, &str)>) -> (r: String)
    ensures
        r@ == net_setup_text(primary_mac@, mgmt_ip@, lan_view(lan)),
{
    let mut s = String::from_str(NET_SETUP_SCRIPT_PREFIX);
    push_str(&mut s, "PRIMARY_MAC=\"");
    push_str(&mut s, primary_mac);
    push_str(&mut s, "\"\nLAN_MAC=\"\"\n\nMGMT_IF=\"$(iface_for_mac \"$PRIMARY_MAC\" || true)\"\nLAN_IF=\"\"\n");
    match lan {
        Some((_c, lan_mac)) => {
            push_str(&mut s, "LAN_MAC=\"");
            push_str(&mut s, lan_mac);
            push_str(&mut s, "\"\nLAN_IF=\"$(iface_for_mac \"$LAN_MAC\" || true)\"\n");
        },
        None => {},
    }
    push_str(&mut s, NET_SETUP_SCRIPT_RENAME_AND_FALLBACKS);
    push_str(&mut s, "\n# Configure management NIC immediately with static IPv4.\nip addr flush dev \"$MGMT_IF\" 2>/dev/null || true\nip addr add ");
    push_str(&mut s, mgmt_ip);
    push_str(&mut s, "/24 dev \"$MGMT_IF\" 2>/dev/null || true\nip link set \"$MGMT_IF\" up || true\nip route replace default via 10.0.2.2 dev \"$MGMT_IF\" 2>/dev/null || true\n");
    match lan {
        Some((cluster_ip, _m)) => {
            push_str(&mut s, "\n# Configure shared LAN NIC immediately with static IPv4.\nip addr flush dev \"$LAN_IF\" 2>/dev/null || true\nip addr add ");
            push_str(&mut s, cluster_ip);
            push_str(&mut s, "/24 dev \"$LAN_IF\" 2>/dev/null || true\nip link set \"$LAN_IF\" up || true\n");
        },
        None => {},
    }
    push_str(&mut s, "\n# Apply IPv6 disablement without blocking boot.\nsysctl -p /etc/sysctl.d/99-intar-no-ipv6.conf 2>/dev/null || true\n");
    assert(s@ =~= net_setup_text(primary_mac@, mgmt_ip@, lan_view(lan)));
    s
}

} // verus!

verus! {

/// The hosts entry of the guest at position `i` named `name`; `k3s-1` is
/// also known as `k3s-server`.
pub open spec fn hosts_line(i: nat, name: Seq<char>) -> Seq<char> {
    lan_ip_text(i) + " "@ + name + ".intar "@ + name + (if name == "k3s-1"@ {
        " k3s-server.intar k3s-server"@
    } else {
        Seq::empty()
    }) + "\n"@
}

pub open spec fn hosts_lines(names: Seq<String>) -> Seq<char>
    decreases names.len(),
{
    if names.len() == 0 {
        Seq::empty()
    } else {
        hosts_lines(names.drop_last()) + hosts_line((names.len() - 1) as nat, names.last()@)
    }
}

/// The hosts file shared by all guests of a scenario whose guests are
/// `names`, in order.
pub open spec fn hosts_text(names: Seq<String>) -> Seq<char> {
    "127.0.0.1 localhost\n"@ + hosts_lines(names)
}

/// The hosts file of a scenario; fails when its guests do not all get a
/// shared-LAN address.
pub fn render_hosts_file(names: &Vec<String>) -> (r: Result<String, VmError>)
    ensures
        names@.len() <= 245 <==> r is Ok,
        r matches Ok(s) ==> s@ == hosts_text(names@),
{
    if names.len() > 245 {
        return Err(VmError::Qemu(String::from_str("Too many VMs for shared LAN addressing")));
    }
    let mut s = String::from_str("127.0.0.1 localhost\n");
    let mut i: usize = 0;
    while i < names.len()
        invariant
            names@.len() <= 245,
            i <= names@.len(),
            s@ == "127.0.0.1 localhost\n"@ + hosts_lines(names@.subrange(0, i as int)),
        decreases names@.len() - i,
    {
        let ghost before = s@;
        let ip = match crate::addressing::lan_ip(i) {
            Ok(ip) => ip,
            Err(e) => {
                return Err(e);
            },
        };
        let name = names[i].as_str();
        push_str(&mut s, ip.as_str());
        push_str(&mut s, " ");
        push_str(&mut s, name);
        push_str(&mut s, ".intar ");
        push_str(&mut s, name);
        if str_eq(name, "k3s-1") {
            push_str(&mut s, " k3s-server.intar k3s-server");
        }
        push_str(&mut s, "\n");
        proof {
            let pre = names@.subrange(0, i as int + 1);
            assert(pre.drop_last() =~= names@.subrange(0, i as int));
            assert(pre.last() == names@[i as int]);
            assert(s@ =~= before + hosts_line(i as nat, names@[i as int]@));
        }
        i += 1;
    }
    assert(names@.subrange(0, names@.len() as int) =~= names@);
    Ok(s)
}

fn copy_strings(v: &Vec<String>) -> (r: Vec<String>)
    ensures
        r@ == v@,
{
    let mut out: Vec<String> = Vec::new();
    let mut i: usize = 0;
    while i < v.len()
        invariant
            i <= v@.len(),
            out@ == v@.subrange(0, i as int),
        decreases v@.len() - i,
    {
        out.push(v[i].clone());
        assert(out@ =~= v@.subrange(0, i as int + 1));
        i += 1;
    }
    assert(v@.subrange(0, v@.len() as int) =~= v@);
    out
}

fn copy_opt(o: &Option<String>) -> (r: Option<String>)
    ensures
        r == *o,
{
    match o {
        Some(s) => Some(s.clone()),
        None => None,
    }
}

fn copy_files(v: &Vec<WriteFile>) -> (r: Vec<WriteFile>)
    ensures
        r@ == v@,
{
    let mut out: Vec<WriteFile> = Vec::new();
    let mut i: usize = 0;
    while i < v.len()
        invariant
            i <= v@.len(),
            out@ == v@.subrange(0, i as int),
        decreases v@.len() - i,
    {
        let f = &v[i];
        out.push(
            WriteFile {
                path: f.path.clone(),
                content: f.content.clone(),
                permissions: copy_opt(&f.permissions),
            },
        );
        assert(out@ =~= v@.subrange(0, i as int + 1));
        i += 1;
    }
    assert(v@.subrange(0, v@.len() as int) =~= v@);
    out
}

/// Whether two configurations hold the same values.
pub open spec fn same_config(a: CloudInitConfig, b: CloudInitConfig) -> bool {
    &&& a.packages@ == b.packages@
    &&& a.network_config == b.network_config
    &&& a.runcmd == b.runcmd
    &&& a.write_files@ == b.write_files@
}

/// A copy of `c`.
pub fn copy_config(c: &CloudInitConfig) -> (r: CloudInitConfig)
    ensures
        same_config(r, *c),
{
    CloudInitConfig {
        packages: copy_strings(&c.packages),
        network_config: copy_opt(&c.network_config),
        runcmd: copy_opt(&c.runcmd),
        write_files: copy_files(&c.write_files),
    }
}

/// Whether `base` is the configuration a guest starts from: its own, or an
/// empty one.
pub open spec fn is_base_config(c: Option<CloudInitConfig>, base: CloudInitConfig) -> bool {
    match c {
        Some(ci) => same_config(base, ci),
        None => base.packages@.len() == 0 && base.network_config is None && base.runcmd is None
            && base.write_files@.len() == 0,
    }
}

pub open spec fn file_is(f: WriteFile, path: Seq<char>, content: Seq<char>, permissions: Seq<char>) -> bool {
    f.path@ == path && f.content@ == content && (f.permissions matches Some(p) && p@ == permissions)
}

/// The sysctl drop-in that disables IPv6.
pub const NO_IPV6_SYSCTL: &'static str = "net.ipv6.conf.all.disable_ipv6 = 1\nnet.ipv6.conf.default.disable_ipv6 = 1\nnet.ipv6.conf.lo.disable_ipv6 = 1\n";

/// `after` is `before` with what every guest gets: the shared hosts file,
/// the IPv6 sysctl drop-in and the first-boot network script appended, the
/// netplan document as network configuration, and runcmd starting with the
/// network script and the hosts merge, before the commands already there.
pub open spec fn runner_files_added(
    before: CloudInitConfig,
    after: CloudInitConfig,
    vm_names: Seq<String>,
    primary_mac: Seq<char>,
    mgmt_ip: Seq<char>,
    lan: Option<(Seq<char>, Seq<char>)>,
) -> bool {
    let n = before.write_files@.len() as int;
    &&& after.packages == before.packages
    &&& after.write_files@.len() == n + 3
    &&& after.write_files@.subrange(0, n) == before.write_files@
    &&& file_is(after.write_files@[n], "/etc/hosts.intar"@, hosts_text(vm_names), "0644"@)
    &&& file_is(after.write_files@[n + 1], "/etc/sysctl.d/99-intar-no-ipv6.conf"@, NO_IPV6_SYSCTL@, "0644"@)
    &&& file_is(after.write_files@[n + 2], "/usr/local/bin/intar-net-setup.sh"@, net_setup_text(primary_mac, mgmt_ip, lan), "0755"@)
    &&& after.network_config matches Some(np) && np@ == netplan_text(primary_mac, mgmt_ip, lan)
    &&& after.runcmd matches Some(rc) && rc@ == "/usr/local/bin/intar-net-setup.sh\n"@
        + "cat /etc/hosts.intar >> /etc/hosts\n"@ + runcmd_or_empty(before.runcmd)
}

fn file(path: &str, content: String, permissions: &str) -> (r: WriteFile)
    ensures
        file_is(r, path@, content@, permissions@),
{
    WriteFile { path: String::from_str(path), content, permissions: Some(String::from_str(permissions)) }
}

/// Add to `config` the files and commands every guest gets; fails when the
/// scenario's guests do not all get a shared-LAN address.
pub fn add_runner_files(
    config: &mut CloudInitConfig,
    vm_names: &Vec<String>,
    primary_mac: &str,
    mgmt_ip: &str,
    lan: Option<(&str, &str)>,
) -> (r: Result<(), VmError>)
    ensures
        vm_names@.len() <= 245 <==> r is Ok,
        r is Ok ==> runner_files_added(
            *old(config),
            *final(config),
            vm_names@,
            primary_mac@,
            mgmt_ip@,
            lan_view(lan),
        ),
{
    let hosts = render_hosts_file(vm_names)?;
    let ghost n = config.write_files@.len();
    config.write_files.push(file("/etc/hosts.intar", hosts, "0644"));
    config.network_config = Some(netplan_config(primary_mac, mgmt_ip, lan));
    config.write_files.push(file("/etc/sysctl.d/99-intar-no-ipv6.conf", String::from_str(NO_IPV6_SYSCTL), "0644"));
    let script = net_setup_script(primary_mac, mgmt_ip, lan);
    config.write_files.push(file("/usr/local/bin/intar-net-setup.sh", script, "0755"));
    let mut runcmd = String::from_str("/usr/local/bin/intar-net-setup.sh\n");
    push_str(&mut runcmd, "cat /etc/hosts.intar >> /etc/hosts\n");
    match &config.runcmd {
        Some(existing) => push_str(&mut runcmd, existing.as_str()),
        None => {},
    }
    config.runcmd = Some(runcmd);
    assert(config.write_files@.subrange(0, n as int) =~= old(config).write_files@);
    Ok(())
}

/// The cloud-init configuration of a guest: its own configuration (or an
/// empty one) with its steps compiled in, then what every guest gets.
///
/// `vm_names` are the names of all guests in scenario order; `lan` is the
/// guest's shared-LAN address and MAC when the scenario has a shared LAN.
pub fn build_cloud_init_config(
    vm_def: &VmDefinition,
    vm_names: &Vec<String>,
    primary_mac: &str,
    mgmt_ip: &str,
    lan: Option<(&str, &str)>,
) -> (r: Result<CloudInitConfig, VmError>)
    ensures
        vm_names@.len() <= 245 <==> r is Ok,
        r matches Ok(c) ==> exists|base: CloudInitConfig, stepped: CloudInitConfig|
            is_base_config(vm_def.cloud_init, base) && steps_applied(
                vm_def.name@,
                vm_def.steps@,
                base,
                stepped,
            ) && runner_files_added(stepped, c, vm_names@, primary_mac@, mgmt_ip@, lan_view(lan)),
{
    let mut config = match &vm_def.cloud_init {
        Some(c) => copy_config(c),
        None => CloudInitConfig::default(),
    };
    let ghost base = config;
    apply_vm_steps_to_cloud_init(vm_def.name.as_str(), &vm_def.steps, &mut config)?;
    let ghost stepped = config;
    add_runner_files(&mut config, vm_names, primary_mac, mgmt_ip, lan)?;
    assert(is_base_config(vm_def.cloud_init, base));
    assert(steps_applied(vm_def.name@, vm_def.steps@, base, stepped));
    Ok(config)
}

} // verus!
