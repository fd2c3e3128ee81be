//! Deterministic addresses of the guests and the pool of host ports handed
//! out to them.
use vstd::prelude::*;
use crate::error::VmError;
use crate::text::{decimal, push_char, push_decimal};

verus! {

/// Guests past this many have no management address.
pub const MAX_VMS: usize = 155;

/// `10.0.2.(100+i)`, the management address of the guest at position `i`.
pub open spec fn mgmt_ip_text(i: nat) -> Seq<char> {
    "10.0.2."@ + decimal(100 + i)
}

/// `10.11.0.(10+i)`, the shared-LAN address of the guest at position `i`.
pub open spec fn lan_ip_text(i: nat) -> Seq<char> {
    "10.11.0."@ + decimal(10 + i)
}

pub open spec fn hex_digit(d: nat) -> char {
    if d < 10 {
        ((48 + d) as u8) as char
    } else {
        ((87 + d) as u8) as char
    }
}

/// Two lower-case hex digits of a byte.
pub open spec fn hex_byte(v: nat) -> Seq<char> {
    seq![hex_digit(v / 16), hex_digit(v % 16)]
}

pub open spec fn primary_mac_text(i: nat) -> Seq<char> {
    "52:54:00:12:56:"@ + hex_byte(0x10 + i)
}

pub open spec fn lan_mac_text(i: nat) -> Seq<char> {
    "52:54:00:12:57:"@ + hex_byte(0x40 + i)
}

fn push_hex_byte(out: &mut String, v: u8)
    ensures
        final(out)@ == old(out)@ + hex_byte(v as nat),
{
    let hi = v / 16;
    let lo = v % 16;
    push_char(out, if hi < 10 { (48 + hi) as char } else { (87 + hi) as char });
    push_char(out, if lo < 10 { (48 + lo) as char } else { (87 + lo) as char });
    assert(out@ =~= old(out)@ + hex_byte(v as nat));
}

/// The management address of the guest at position `vm_index`; positions
/// past the address space are a configuration error.
pub fn mgmt_ip(vm_index: usize) -> (r: Result<String, VmError>)
    ensures
        vm_index < MAX_VMS <==> r is Ok,
        r matches Ok(s) ==> s@ == mgmt_ip_text(vm_index as nat),
        r is Err ==> r matches Err(VmError::Qemu(_)),
{
    if vm_index >= MAX_VMS {
        return Err(VmError::Qemu(String::from_str("Too many VMs for management IP addressing")));
    }
    let mut s = String::from_str("10.0.2.");
    push_decimal(&mut s, 100 + vm_index as u64);
    Ok(s)
}

/// The shared-LAN address of the guest at position `vm_index`.
pub fn lan_ip(vm_index: usize) -> (r: Result<String, VmError>)
    ensures
        vm_index <= 244 <==> r is Ok,
        r matches Ok(s) ==> s@ == lan_ip_text(vm_index as nat),
{
    if vm_index > 244 {
        return Err(VmError::Qemu(String::from_str("Too many VMs for shared LAN addressing")));
    }
    let mut s = String::from_str("10.11.0.");
    push_decimal(&mut s, 10 + vm_index as u64);
    Ok(s)
}

/// The primary and shared-LAN MAC addresses of the guest at position
/// `vm_index`.
pub fn generate_macs(vm_index: usize) -> (r: Result<(String, Option<String>), VmError>)
    ensures
        vm_index <= 191 <==> r is Ok,
        r matches Ok((p, l)) ==> p@ == primary_mac_text(vm_index as nat) && (l matches Some(m)
            && m@ == lan_mac_text(vm_index as nat)),
{
    if vm_index > 191 {
        return Err(VmError::Qemu(String::from_str("Too many VMs to generate MAC addresses")));
    }
    let i = vm_index as u8;
    let mut p = String::from_str("52:54:00:12:56:");
    push_hex_byte(&mut p, 0x10 + i);
    let mut l = String::from_str("52:54:00:12:57:");
    push_hex_byte(&mut l, 0x40 + i);
    Ok((p, Some(l)))
}

/// Everything the guest at one position is addressed by.
#[derive(Debug, Clone, PartialEq, Eq)]
pub struct VmAddresses {
    pub mgmt_ip: String,
    pub lan_ip: String,
    pub primary_mac: String,
    pub lan_mac: String,
}

/// The addresses of the guest at position `vm_index`, or a configuration
/// error past the address space.
pub fn vm_addresses(vm_index: usize) -> (r: Result<VmAddresses, VmError>)
    ensures
        vm_index < MAX_VMS <==> r is Ok,
        r matches Ok(a) ==> {
            &&& a.mgmt_ip@ == mgmt_ip_text(vm_index as nat)
            &&& a.lan_ip@ == lan_ip_text(vm_index as nat)
            &&& a.primary_mac@ == primary_mac_text(vm_index as nat)
            &&& a.lan_mac@ == lan_mac_text(vm_index as nat)
        },
{
    let mgmt_ip = mgmt_ip(vm_index)?;
    let lan_ip = lan_ip(vm_index)?;
    let (primary_mac, lan) = generate_macs(vm_index)?;
    match lan {
        Some(lan_mac) => Ok(VmAddresses { mgmt_ip, lan_ip, primary_mac, lan_mac }),
        None => Err(VmError::Qemu(String::from_str("Too many VMs to generate MAC addresses"))),
    }
}

/// The host ports reserved for a run, handed out one by one.
#[derive(Debug, Clone)]
pub struct PortPool {
    pub ports: Vec<u16>,
    pub index: usize,
}

impl PortPool {
    /// The index never passes the number of reserved ports.
    pub open spec fn wf(&self) -> bool {
        self.index <= self.ports@.len()
    }

    pub fn new(ports: Vec<u16>) -> (r: Self)
        ensures
            r.wf(),
            r.ports@ == ports@,
            r.index == 0,
    {
        PortPool { ports, index: 0 }
    }

    /// The next unused port, or an error once all are handed out.
    pub fn next_port(&mut self) -> (r: Result<u16, VmError>)
        requires
            old(self).wf(),
        ensures
            final(self).wf(),
            final(self).ports@ == old(self).ports@,
            old(self).index < old(self).ports@.len() <==> r is Ok,
            r matches Ok(p) ==> p == old(self).ports@[old(self).index as int] && final(self).index
                == old(self).index + 1,
            r is Err ==> final(self).index == old(self).index,
    {
        if self.index < self.ports.len() {
            let p = self.ports[self.index];
            self.index = self.index + 1;
            Ok(p)
        } else {
            Err(VmError::Qemu(String::from_str("No available port")))
        }
    }
}

/// How many host ports a run reserves: one per guest, or four where the
/// QMP, serial and action channels also need TCP ports.
pub fn port_count(vm_count: usize, tcp_channels: bool) -> (r: Option<usize>)
    ensures
        tcp_channels ==> (r == if vm_count * 4 <= usize::MAX {
            Some((vm_count * 4) as usize)
        } else {
            None::<usize>
        }),
        !tcp_channels ==> r == Some(vm_count),
{
    if tcp_channels {
        vm_count.checked_mul(4)
    } else {
        Some(vm_count)
    }
}

/// The shared LAN and its switch exist only when there are two guests or more.
pub fn needs_lan_switch(vm_count: usize) -> (r: bool)
    ensures
        r == (vm_count >= 2),
{
    vm_count >= 2
}

} // verus!
