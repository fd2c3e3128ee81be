//! The QEMU command line of a guest.
use vstd::prelude::*;
use crate::text::{decimal, push_decimal, push_str, str_eq};
use crate::cloud_init::views_of;
use crate::dirs::{join_path, joined};
use crate::vm_steps::opt_view;

verus! {

/// The guest's end of the shared LAN: QEMU's `dgram` backend between its own
/// loopback UDP port and the switch's.
#[derive(Debug, Clone, Copy, PartialEq, Eq, Structural)]
pub enum SharedNetworkEndpoint {
    Dgram { hub_port: u16, local_port: u16 },
}

/// The emulator for an architecture, if it is supported.
pub fn qemu_binary_for_arch(arch: &str) -> (r: Option<&'static str>)
    ensures
        (arch@ == "x86_64"@ || arch@ == "amd64"@) ==> (r matches Some(b) && b@
            == "qemu-system-x86_64"@),
        !(arch@ == "x86_64"@ || arch@ == "amd64"@) && (arch@ == "aarch64"@ || arch@ == "arm64"@)
            ==> (r matches Some(b) && b@ == "qemu-system-aarch64"@),
        !(arch@ == "x86_64"@ || arch@ == "amd64"@ || arch@ == "aarch64"@ || arch@ == "arm64"@)
            ==> r is None,
{
    if str_eq(arch, "x86_64") || str_eq(arch, "amd64") {
        Some("qemu-system-x86_64")
    } else if str_eq(arch, "aarch64") || str_eq(arch, "arm64") {
        Some("qemu-system-aarch64")
    } else {
        None
    }
}

/// The user-mode management network with the SSH forward, its NIC, and, on
/// a shared LAN, the `dgram` netdev into the switch and its NIC.
pub open spec fn network_args_spec(
    ssh_port: nat,
    mgmt_ip: Seq<char>,
    primary_mac: Option<Seq<char>>,
    shared_lan: Option<SharedNetworkEndpoint>,
    lan_mac: Option<Seq<char>>,
) -> Seq<Seq<char>> {
    seq![
        "-netdev"@,
        "user,id=net0,hostfwd=tcp::"@ + decimal(ssh_port) + "-"@ + mgmt_ip + ":22"@,
        "-device"@,
        "virtio-net-pci,netdev="@ + "net0"@ + match primary_mac {
            Some(m) => ",mac="@ + m,
            None => Seq::empty(),
        },
    ] + match shared_lan {
        Some(SharedNetworkEndpoint::Dgram { hub_port, local_port }) => seq![
            "-netdev"@,
            "dgram,id=net1,local.type=inet,local.host=127.0.0.1,local.port="@ + decimal(
                local_port as nat,
            ) + ",remote.type=inet,remote.host=127.0.0.1,remote.port="@ + decimal(
                hub_port as nat,
            ),
            "-device"@,
            "virtio-net-pci,netdev="@ + "net1"@ + match lan_mac {
                Some(m) => ",mac="@ + m,
                None => Seq::empty(),
            },
        ],
        None => Seq::empty(),
    }
}

} // verus!

verus! {

fn nic_arg(netdev: &str, mac: &Option<String>) -> (r: String)
    ensures
        r@ == "virtio-net-pci,netdev="@ + netdev@ + match *mac {
            Some(m) => ",mac="@ + m@,
            None => Seq::empty(),
        },
{
    let mut s = String::from_str("virtio-net-pci,netdev=");
    push_str(&mut s, netdev);
    match mac {
        Some(m) => {
            push_str(&mut s, ",mac=");
            push_str(&mut s, m.as_str());
        },
        None => {},
    }
    assert(s@ =~= "virtio-net-pci,netdev="@ + netdev@ + match *mac {
        Some(m) => ",mac="@ + m@,
        None => Seq::empty(),
    });
    s
}

/// The network arguments of a guest.
pub fn network_args(
    ssh_port: u16,
    mgmt_ip: &str,
    primary_mac: &Option<String>,
    shared_lan: Option<SharedNetworkEndpoint>,
    lan_mac: &Option<String>,
) -> (r: Vec<String>)
    ensures
        views_of(r@) == network_args_spec(
            ssh_port as nat,
            mgmt_ip@,
            opt_view(*primary_mac),
            shared_lan,
            opt_view(*lan_mac),
        ),
{
    let mut a: Vec<String> = Vec::new();
    a.push(String::from_str("-netdev"));
    let mut user = String::from_str("user,id=net0,hostfwd=tcp::");
    push_decimal(&mut user, ssh_port as u64);
    push_str(&mut user, "-");
    push_str(&mut user, mgmt_ip);
    push_str(&mut user, ":22");
    assert(user@ =~= "user,id=net0,hostfwd=tcp::"@ + decimal(ssh_port as nat) + "-"@ + mgmt_ip@ + ":22"@);
    a.push(user);
    a.push(String::from_str("-device"));
    a.push(nic_arg("net0", primary_mac));
    match shared_lan {
        Some(SharedNetworkEndpoint::Dgram { hub_port, local_port }) => {
            a.push(String::from_str("-netdev"));
            let mut d = String::from_str(
                "dgram,id=net1,local.type=inet,local.host=127.0.0.1,local.port=",
            );
            push_decimal(&mut d, local_port as u64);
            push_str(&mut d, ",remote.type=inet,remote.host=127.0.0.1,remote.port=");
            push_decimal(&mut d, hub_port as u64);
            assert(d@ =~= "dgram,id=net1,local.type=inet,local.host=127.0.0.1,local.port="@ + decimal(
                local_port as nat,
            ) + ",remote.type=inet,remote.host=127.0.0.1,remote.port="@ + decimal(hub_port as nat));
            a.push(d);
            a.push(String::from_str("-device"));
            a.push(nic_arg("net1", lan_mac));
        },
        None => {},
    }
    proof {
        let pm = opt_view(*primary_mac);
        let lm = opt_view(*lan_mac);
        assert(views_of(a@) =~= network_args_spec(ssh_port as nat, mgmt_ip@, pm, shared_lan, lm));
    }
    a
}

/// How many times `arg` occurs in `args`.
pub open spec fn occurrences(args: Seq<Seq<char>>, arg: Seq<char>) -> nat
    decreases args.len(),
{
    if args.len() == 0 {
        0
    } else {
        occurrences(args.drop_last(), arg) + if args.last() == arg {
            1nat
        } else {
            0nat
        }
    }
}

/// A guest without a shared LAN gets a single netdev, the management one; a
/// guest on a shared LAN gets a second one.
pub proof fn single_netdev_without_lan(
    ssh_port: nat,
    mgmt_ip: Seq<char>,
    primary_mac: Option<Seq<char>>,
    shared_lan: Option<SharedNetworkEndpoint>,
    lan_mac: Option<Seq<char>>,
)
    ensures
        occurrences(
            network_args_spec(ssh_port, mgmt_ip, primary_mac, shared_lan, lan_mac),
            "-netdev"@,
        ) == if shared_lan is Some {
            2nat
        } else {
            1nat
        },
{
    reveal_strlit("-netdev");
    reveal_strlit("-device");
    reveal_strlit("user,id=net0,hostfwd=tcp::");
    reveal_strlit("virtio-net-pci,netdev=");
    reveal_strlit("dgram,id=net1,local.type=inet,local.host=127.0.0.1,local.port=");
    let a = network_args_spec(ssh_port, mgmt_ip, primary_mac, shared_lan, lan_mac);
    let n = "-netdev"@;
    assert(a[1] != n) by {
        assert(a[1][0] == 'u');
    }
    assert(a[2] != n) by {
        assert(a[2][1] == 'd');
    }
    assert(a[3] != n) by {
        assert(a[3][0] == 'v');
    }
    if shared_lan is Some {
        assert(a.len() == 8);
        assert(a[5] != n) by {
            assert(a[5][0] == 'd');
        }
        assert(a[6] != n) by {
            assert(a[6][1] == 'd');
        }
        assert(a[7] != n) by {
            assert(a[7][0] == 'v');
        }
        assert(a.subrange(0, 7) == a.drop_last());
        assert(a.drop_last().drop_last() =~= a.subrange(0, 6));
        assert(a.subrange(0, 6).drop_last() =~= a.subrange(0, 5));
        assert(a.subrange(0, 5).drop_last() =~= a.subrange(0, 4));
        assert(a.subrange(0, 4).drop_last() =~= a.subrange(0, 3));
        assert(a.subrange(0, 3).drop_last() =~= a.subrange(0, 2));
        assert(a.subrange(0, 2).drop_last() =~= a.subrange(0, 1));
        assert(a.subrange(0, 1).drop_last() =~= a.subrange(0, 0));
        reveal_with_fuel(occurrences, 9);
    } else {
        assert(a.len() == 4);
        assert(a.drop_last() =~= a.subrange(0, 3));
        assert(a.subrange(0, 3).drop_last() =~= a.subrange(0, 2));
        assert(a.subrange(0, 2).drop_last() =~= a.subrange(0, 1));
        assert(a.subrange(0, 1).drop_last() =~= a.subrange(0, 0));
        reveal_with_fuel(occurrences, 5);
    }
}

} // verus!

verus! {

/// A host endpoint of a guest channel: a Unix socket path, or a loopback TCP
/// port where Unix sockets are not available.
#[derive(Debug, Clone, PartialEq, Eq)]
pub enum HostSocket {
    Unix(String),
    Tcp(u16),
}

impl HostSocket {
    /// The `-chardev` argument of a server socket with id `id`.
    pub fn chardev_arg(&self, id: &str) -> (r: String)
        ensures
            r@ == match *self {
                HostSocket::Unix(p) => "socket,id="@ + id@ + ",path="@ + p@ + ",server=on,wait=off"@,
                HostSocket::Tcp(port) => "socket,id="@ + id@ + ",host=127.0.0.1,port="@ + decimal(
                    port as nat,
                ) + ",server=on,wait=off"@,
            },
    {
        let mut s = String::from_str("socket,id=");
        push_str(&mut s, id);
        match self {
            HostSocket::Unix(p) => {
                push_str(&mut s, ",path=");
                push_str(&mut s, p.as_str());
            },
            HostSocket::Tcp(port) => {
                push_str(&mut s, ",host=127.0.0.1,port=");
                push_decimal(&mut s, *port as u64);
            },
        }
        push_str(&mut s, ",server=on,wait=off");
        proof {
            match self {
                HostSocket::Unix(p) => {
                    assert(s@ =~= "socket,id="@ + id@ + ",path="@ + p@ + ",server=on,wait=off"@);
                },
                HostSocket::Tcp(port) => {
                    assert(s@ =~= "socket,id="@ + id@ + ",host=127.0.0.1,port="@ + decimal(
                        *port as nat,
                    ) + ",server=on,wait=off"@);
                },
            }
        }
        s
    }

    /// The `-qmp` argument of a server socket.
    pub fn qmp_arg(&self) -> (r: String)
        ensures
            r@ == match *self {
                HostSocket::Unix(p) => "unix:"@ + p@ + ",server,nowait"@,
                HostSocket::Tcp(port) => "tcp:127.0.0.1:"@ + decimal(port as nat) + ",server,nowait"@,
            },
    {
        let mut s = String::new();
        match self {
            HostSocket::Unix(p) => {
                push_str(&mut s, "unix:");
                push_str(&mut s, p.as_str());
            },
            HostSocket::Tcp(port) => {
                push_str(&mut s, "tcp:127.0.0.1:");
                push_decimal(&mut s, *port as u64);
            },
        }
        push_str(&mut s, ",server,nowait");
        proof {
            match self {
                HostSocket::Unix(p) => {
                    assert(s@ =~= "unix:"@ + p@ + ",server,nowait"@);
                },
                HostSocket::Tcp(port) => {
                    assert(s@ =~= "tcp:127.0.0.1:"@ + decimal(*port as nat) + ",server,nowait"@);
                },
            }
        }
        s
    }
}

/// Hardware acceleration of the host.
#[derive(Debug, Clone, Copy, PartialEq, Eq, Structural)]
pub enum Accel {
    Hvf,
    Kvm,
    Off,
}

/// Everything the command line of a guest is made of.
#[derive(Debug, Clone, PartialEq, Eq)]
pub struct QemuLaunch {
    pub name: String,
    pub arch: String,
    /// The EDK2 firmware found on the host, for ARM guests.
    pub firmware: Option<String>,
    pub memory_mb: u32,
    pub cpus: u32,
    pub disk_path: String,
    pub cloud_init_iso: String,
    pub rng: bool,
    pub ssh_port: u16,
    pub mgmt_ip: String,
    pub primary_mac: Option<String>,
    pub shared_lan: Option<SharedNetworkEndpoint>,
    pub lan_mac: Option<String>,
    pub serial_socket: HostSocket,
    pub actions_socket: HostSocket,
    pub console_log: String,
    pub qmp_socket: HostSocket,
    pub accel: Accel,
}

fn extend(a: &mut Vec<String>, b: Vec<String>)
    ensures
        views_of(final(a)@) == views_of(old(a)@) + views_of(b@),
{
    let mut i: usize = 0;
    let ghost start = a@;
    let mut b = b;
    let ghost bv = b@;
    while i < b.len()
        invariant
            i <= b@.len(),
            b@ == bv,
            views_of(a@) == views_of(start) + views_of(bv.subrange(0, i as int)),
        decreases b@.len() - i,
    {
        let ghost before = a@;
        a.push(b[i].clone());
        assert(views_of(a@) =~= views_of(before).push(b@[i as int]@));
        assert(views_of(bv.subrange(0, i as int + 1)) =~= views_of(bv.subrange(0, i as int)).push(
            bv[i as int]@,
        ));
        i += 1;
    }
    assert(bv.subrange(0, bv.len() as int) =~= bv);
}

fn arg2(x: &str, y: String) -> (r: Vec<String>)
    ensures
        views_of(r@) == seq![x@, y@],
{
    let r = vec![String::from_str(x), y];
    assert(views_of(r@) =~= seq![x@, y@]);
    r
}

fn lit2(x: &str, y: &str) -> (r: Vec<String>)
    ensures
        views_of(r@) == seq![x@, y@],
{
    arg2(x, String::from_str(y))
}

pub open spec fn machine_args(arch: Seq<char>, firmware: Option<Seq<char>>) -> Seq<Seq<char>> {
    if arch == "aarch64"@ || arch == "arm64"@ {
        seq!["-machine"@, "virt,highmem=on"@, "-cpu"@, "host"@] + match firmware {
            Some(f) => seq!["-bios"@, f],
            None => Seq::empty(),
        }
    } else if arch == "x86_64"@ || arch == "amd64"@ {
        seq!["-machine"@, "q35"@, "-cpu"@, "host"@]
    } else {
        Seq::empty()
    }
}

pub open spec fn drive_args(disk: Seq<char>, iso: Seq<char>) -> Seq<Seq<char>> {
    seq![
        "-drive"@,
        "file="@ + disk + ",format=qcow2,if=virtio,node-name=intar_disk0"@,
        "-drive"@,
        "file="@ + iso + ",format=raw,if=virtio,readonly=on,node-name=intar_cloud_init0"@,
    ]
}

pub open spec fn socket_chardev(s: HostSocket, id: Seq<char>) -> Seq<char> {
    match s {
        HostSocket::Unix(p) => "socket,id="@ + id + ",path="@ + p@ + ",server=on,wait=off"@,
        HostSocket::Tcp(port) => "socket,id="@ + id + ",host=127.0.0.1,port="@ + decimal(port as nat)
            + ",server=on,wait=off"@,
    }
}

pub open spec fn socket_qmp(s: HostSocket) -> Seq<char> {
    match s {
        HostSocket::Unix(p) => "unix:"@ + p@ + ",server,nowait"@,
        HostSocket::Tcp(port) => "tcp:127.0.0.1:"@ + decimal(port as nat) + ",server,nowait"@,
    }
}

pub open spec fn head_args(l: QemuLaunch) -> Seq<Seq<char>> {
    seq!["-name"@, l.name@] + machine_args(l.arch@, opt_view(l.firmware))
}

pub open spec fn body_args(l: QemuLaunch) -> Seq<Seq<char>> {
    seq!["-m"@, decimal(l.memory_mb as nat) + "M"@, "-smp"@, decimal(l.cpus as nat)] + drive_args(
        l.disk_path@,
        l.cloud_init_iso@,
    ) + if l.rng {
        seq![
            "-object"@,
            "rng-random,id=rng0,filename=/dev/urandom"@,
            "-device"@,
            "virtio-rng-pci,rng=rng0"@,
        ]
    } else {
        Seq::empty()
    }
}

pub open spec fn channel_args(l: QemuLaunch) -> Seq<Seq<char>> {
    seq![
        "-device"@,
        "virtio-serial-pci,id=virtio-serial0"@,
        "-chardev"@,
        socket_chardev(l.serial_socket, "agent"@),
        "-device"@,
        "virtserialport,chardev=agent,name=intar.agent"@,
        "-chardev"@,
        socket_chardev(l.actions_socket, "actions"@),
        "-device"@,
        "virtserialport,chardev=actions,name=intar.actions"@,
        "-chardev"@,
        "file,id=console,path="@ + l.console_log@,
        "-serial"@,
        "chardev:console"@,
        "-qmp"@,
        socket_qmp(l.qmp_socket),
        "-display"@,
        "none"@,
    ]
}

pub open spec fn accel_args(a: Accel) -> Seq<Seq<char>> {
    match a {
        Accel::Hvf => seq!["-accel"@, "hvf"@],
        Accel::Kvm => seq!["-enable-kvm"@],
        Accel::Off => Seq::empty(),
    }
}

/// The whole QEMU command line of a guest, after the binary: name, machine,
/// memory and CPUs, the overlay disk and the seed ISO under their node
/// names, an RNG, the network, the agent and action channels, the console
/// log, QMP, no display, and acceleration.
pub open spec fn qemu_args_spec(l: QemuLaunch) -> Seq<Seq<char>> {
    head_args(l) + body_args(l) + network_args_spec(
        l.ssh_port as nat,
        l.mgmt_ip@,
        opt_view(l.primary_mac),
        l.shared_lan,
        opt_view(l.lan_mac),
    ) + channel_args(l) + accel_args(l.accel)
}

fn machine_arg_list(arch: &str, firmware: &Option<String>) -> (r: Vec<String>)
    ensures
        views_of(r@) == machine_args(arch@, opt_view(*firmware)),
{
    let mut a: Vec<String> = Vec::new();
    if str_eq(arch, "aarch64") || str_eq(arch, "arm64") {
        extend(&mut a, lit2("-machine", "virt,highmem=on"));
        extend(&mut a, lit2("-cpu", "host"));
        match firmware {
            Some(f) => extend(&mut a, arg2("-bios", f.clone())),
            None => {},
        }
    } else if str_eq(arch, "x86_64") || str_eq(arch, "amd64") {
        extend(&mut a, lit2("-machine", "q35"));
        extend(&mut a, lit2("-cpu", "host"));
    }
    assert(views_of(a@) =~= machine_args(arch@, opt_view(*firmware)));
    a
}

impl QemuLaunch {
    fn head_list(&self) -> (r: Vec<String>)
        ensures
            views_of(r@) == head_args(*self),
    {
        let mut a = arg2("-name", self.name.clone());
        extend(&mut a, machine_arg_list(self.arch.as_str(), &self.firmware));
        a
    }

    fn body_list(&self) -> (r: Vec<String>)
        ensures
            views_of(r@) == body_args(*self),
    {
        let mut mem = String::new();
        push_decimal(&mut mem, self.memory_mb as u64);
        push_str(&mut mem, "M");
        let mut a = arg2("-m", mem);
        let mut smp = String::new();
        push_decimal(&mut smp, self.cpus as u64);
        extend(&mut a, arg2("-smp", smp));
        let mut disk = String::from_str("file=");
        push_str(&mut disk, self.disk_path.as_str());
        push_str(&mut disk, ",format=qcow2,if=virtio,node-name=intar_disk0");
        extend(&mut a, arg2("-drive", disk));
        let mut iso = String::from_str("file=");
        push_str(&mut iso, self.cloud_init_iso.as_str());
        push_str(&mut iso, ",format=raw,if=virtio,readonly=on,node-name=intar_cloud_init0");
        extend(&mut a, arg2("-drive", iso));
        if self.rng {
            extend(&mut a, lit2("-object", "rng-random,id=rng0,filename=/dev/urandom"));
            extend(&mut a, lit2("-device", "virtio-rng-pci,rng=rng0"));
        }
        assert(views_of(a@) =~= body_args(*self));
        a
    }

    fn channel_list(&self) -> (r: Vec<String>)
        ensures
            views_of(r@) == channel_args(*self),
    {
        let mut a = lit2("-device", "virtio-serial-pci,id=virtio-serial0");
        extend(&mut a, arg2("-chardev", self.serial_socket.chardev_arg("agent")));
        extend(&mut a, lit2("-device", "virtserialport,chardev=agent,name=intar.agent"));
        extend(&mut a, arg2("-chardev", self.actions_socket.chardev_arg("actions")));
        extend(&mut a, lit2("-device", "virtserialport,chardev=actions,name=intar.actions"));
        let mut console = String::from_str("file,id=console,path=");
        push_str(&mut console, self.console_log.as_str());
        extend(&mut a, arg2("-chardev", console));
        extend(&mut a, lit2("-serial", "chardev:console"));
        extend(&mut a, arg2("-qmp", self.qmp_socket.qmp_arg()));
        extend(&mut a, lit2("-display", "none"));
        assert(views_of(a@) =~= channel_args(*self));
        a
    }

    /// The command line of the guest, after the binary.
    pub fn args(&self) -> (r: Vec<String>)
        ensures
            views_of(r@) == qemu_args_spec(*self),
    {
        let mut a = self.head_list();
        extend(&mut a, self.body_list());
        extend(
            &mut a,
            network_args(
                self.ssh_port,
                self.mgmt_ip.as_str(),
                &self.primary_mac,
                self.shared_lan,
                &self.lan_mac,
            ),
        );
        extend(&mut a, self.channel_list());
        let acc = match self.accel {
            Accel::Hvf => lit2("-accel", "hvf"),
            Accel::Kvm => {
                let k = vec![String::from_str("-enable-kvm")];
                assert(views_of(k@) =~= seq!["-enable-kvm"@]);
                k
            },
            Accel::Off => Vec::new(),
        };
        assert(views_of(acc@) =~= accel_args(self.accel));
        extend(&mut a, acc);
        a
    }
}

/// The `qemu-img` arguments that create the guest's overlay on `base`.
pub fn overlay_args(base: &str, disk: &str, disk_gb: u32) -> (r: Vec<String>)
    ensures
        views_of(r@) == seq![
            "create"@,
            "-f"@,
            "qcow2"@,
            "-b"@,
            base@,
            "-F"@,
            "qcow2"@,
            disk@,
            decimal(disk_gb as nat) + "G"@,
        ],
{
    let mut a: Vec<String> = Vec::new();
    extend(&mut a, lit2("create", "-f"));
    extend(&mut a, lit2("qcow2", "-b"));
    extend(&mut a, lit2(base, "-F"));
    extend(&mut a, lit2("qcow2", disk));
    let mut size = String::new();
    push_decimal(&mut size, disk_gb as u64);
    push_str(&mut size, "G");
    let last = vec![size];
    assert(views_of(last@) =~= seq![decimal(disk_gb as nat) + "G"@]);
    extend(&mut a, last);
    assert(views_of(a@) =~= seq![
        "create"@,
        "-f"@,
        "qcow2"@,
        "-b"@,
        base@,
        "-F"@,
        "qcow2"@,
        disk@,
        decimal(disk_gb as nat) + "G"@,
    ]);
    a
}

} // verus!

verus! {

/// The files of a guest inside its run directory.
#[derive(Debug, Clone, PartialEq, Eq)]
pub struct VmPaths {
    pub qmp_socket: String,
    pub serial_socket: String,
    pub actions_socket: String,
    pub pid_file: String,
    pub disk_path: String,
    pub cloud_init_iso: String,
    pub logs_dir: String,
}

fn run_file(work_dir: &str, name: &str, suffix: &str) -> (r: String)
    ensures
        r@ == joined(work_dir@, name@ + suffix@),
{
    let mut f = String::from_str(name);
    push_str(&mut f, suffix);
    join_path(work_dir, f.as_str())
}

/// Where the guest `name` keeps its sockets, pid file, overlay, seed ISO and
/// logs under `work_dir`.
pub fn vm_paths(work_dir: &str, name: &str) -> (r: VmPaths)
    ensures
        r.qmp_socket@ == joined(work_dir@, name@ + "-qmp.sock"@),
        r.serial_socket@ == joined(work_dir@, name@ + "-serial.sock"@),
        r.actions_socket@ == joined(work_dir@, name@ + "-actions.sock"@),
        r.pid_file@ == joined(work_dir@, name@ + "-qemu.pid"@),
        r.disk_path@ == joined(work_dir@, name@ + ".qcow2"@),
        r.cloud_init_iso@ == joined(work_dir@, name@ + "-cloud-init.iso"@),
        r.logs_dir@ == joined(joined(work_dir@, "logs"@), name@),
{
    let logs = join_path(work_dir, "logs");
    VmPaths {
        qmp_socket: run_file(work_dir, name, "-qmp.sock"),
        serial_socket: run_file(work_dir, name, "-serial.sock"),
        actions_socket: run_file(work_dir, name, "-actions.sock"),
        pid_file: run_file(work_dir, name, "-qemu.pid"),
        disk_path: run_file(work_dir, name, ".qcow2"),
        cloud_init_iso: run_file(work_dir, name, "-cloud-init.iso"),
        logs_dir: join_path(logs.as_str(), name),
    }
}

/// The command that logs into a guest over its forwarded SSH port.
pub fn ssh_command(work_dir: &str, ssh_port: u16) -> (r: String)
    ensures
        r@ == "ssh -i "@ + joined(work_dir@, "id_ed25519"@) + " -p "@ + decimal(ssh_port as nat)
            + " -o StrictHostKeyChecking=no user@localhost"@,
{
    let key = join_path(work_dir, "id_ed25519");
    let mut s = String::from_str("ssh -i ");
    push_str(&mut s, key.as_str());
    push_str(&mut s, " -p ");
    push_decimal(&mut s, ssh_port as u64);
    push_str(&mut s, " -o StrictHostKeyChecking=no user@localhost");
    assert(s@ =~= "ssh -i "@ + joined(work_dir@, "id_ed25519"@) + " -p "@ + decimal(
        ssh_port as nat,
    ) + " -o StrictHostKeyChecking=no user@localhost"@);
    s
}

} // verus!

verus! {

/// Where the EDK2 firmware of ARM guests is looked for, in order.
pub fn firmware_candidates() -> (r: Vec<&'static str>)
    ensures
        r@.len() == 3,
        r@[0]@ == "/opt/homebrew/share/qemu/edk2-aarch64-code.fd"@,
        r@[1]@ == "/usr/share/qemu/edk2-aarch64-code.fd"@,
        r@[2]@ == "/usr/share/AAVMF/AAVMF_CODE.fd"@,
{
    vec![
        "/opt/homebrew/share/qemu/edk2-aarch64-code.fd",
        "/usr/share/qemu/edk2-aarch64-code.fd",
        "/usr/share/AAVMF/AAVMF_CODE.fd",
    ]
}

/// Milliseconds a guest may take to quit before it is killed.
pub const QUIT_GRACE_MS: u64 = 5000;

/// Milliseconds between two checks whether a quitting guest has exited.
pub const QUIT_POLL_MS: u64 = 100;

} // verus!
