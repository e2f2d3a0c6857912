//! The virtualization detection engine: a priority-ordered chain of
//! independent evidence sources (firmware identity strings, a firmware
//! VM bit, CPU identification, kernel-exposed hypervisor metadata,
//! device-tree data, s390 system information) reconciled into one
//! classification. A missing source is "no evidence"; a present source
//! that cannot be read makes the whole detection fail.

use vstd::prelude::*;
use vstd::string::StrSliceExecFns;
use crate::evidence::{Arch, BytesRead, DirRead, IoError, LinesRead, TextRead};
use crate::text::{
    contains_seq, find_from, first_comma_token_is, has_leading_minus, starts_with, str_contains,
    str_eq, str_find_from, str_first_comma_token_is, str_has_leading_minus, str_starts_with,
    str_strip_eol, strip_eol,
};
use crate::virtualization::{spec_ident_class, HypervisorIdent, Virtualization};

verus! {

/// State of the firmware VM bit: byte 19, bit 4 of the firmware table
/// blob. Unknown when the table is missing, too short, or declares a
/// header shorter than that offset.
#[derive(Debug, Clone, Copy, PartialEq, Eq, Structural)]
#[allow(non_camel_case_types)]
pub enum SMBIOS {
    VM_BIT_SET,
    VM_BIT_UNSET,
    VM_BIT_UNKNOWN,
}

/// Role of a Xen domain: the privileged management domain (Dom0), an
/// unprivileged guest (DomU), or undetermined.
#[derive(Debug, Clone, Copy, PartialEq, Eq, Structural)]
pub enum XenFeat {
    DomU,
    Dom0,
    Undetermined,
}

/// Everything the virtualization engine reads from the running system,
/// as plain values. Text fields hold what a reader returned, end-of-line
/// characters kept; line lists hold lines without them.
#[derive(Debug)]
pub struct VmEvidence {
    /// Processor family of the host; several sources exist only on some.
    pub arch: Arch,
    /// First line of the firmware product-name identity file.
    pub dmi_product_name: TextRead,
    /// First line of the firmware system-vendor identity file.
    pub dmi_sys_vendor: TextRead,
    /// First line of the firmware board-vendor identity file.
    pub dmi_board_vendor: TextRead,
    /// First line of the firmware BIOS-vendor identity file.
    pub dmi_bios_vendor: TextRead,
    /// Raw bytes of the firmware table blob holding the VM bit.
    pub smbios_raw: BytesRead,
    /// Lines of the CPU-info pseudo-file.
    pub cpuinfo: LinesRead,
    /// Whether the Xen kernel device path exists.
    pub xen_dev_present: bool,
    /// First line of the hypervisor-type file.
    pub hypervisor_type: TextRead,
    /// Content of the Xen feature-bitmask file.
    pub xen_features: TextRead,
    /// First line of the Xen capabilities file.
    pub xen_capabilities: TextRead,
    /// First line of the device-tree hypervisor-compatible file.
    pub dt_compatible: TextRead,
    /// Whether the device-tree partition-name marker exists.
    pub dt_partition_name_present: bool,
    /// Whether the device-tree management-console marker exists.
    pub dt_hmc_managed_present: bool,
    /// Whether the device-tree graphics-width marker exists.
    pub dt_qemu_graphic_width_present: bool,
    /// Entry paths of the device-tree root directory.
    pub dt_root: DirRead,
    /// Lines of the s390 system-information file.
    pub sysinfo: LinesRead,
}

/// The firmware identity sources exist on the x86 and ARM families only.
pub open spec fn spec_dmi_arch(a: Arch) -> bool {
    a == Arch::X86 || a == Arch::Arm
}

/// First match wins in this fixed order of vendor prefixes; a line
/// matching none of them is no evidence.
pub open spec fn spec_vendor_class(line: Seq<char>) -> Virtualization {
    if starts_with(line, "KVM"@) {
        Virtualization::KVM
    } else if starts_with(line, "Amazon EC2"@) {
        Virtualization::Amazon
    } else if starts_with(line, "QEMU"@) {
        Virtualization::QEMU
    } else if starts_with(line, "VMware"@) {
        Virtualization::VMware
    } else if starts_with(line, "VMW"@) {
        Virtualization::VMware
    } else if starts_with(line, "innotek GmbH"@) {
        Virtualization::Oracle
    } else if starts_with(line, "Oracle Corporation"@) {
        Virtualization::Oracle
    } else if starts_with(line, "Xen"@) {
        Virtualization::Xen
    } else if starts_with(line, "Bochs"@) {
        Virtualization::Bochs
    } else if starts_with(line, "Parallels"@) {
        Virtualization::Parallels
    } else if starts_with(line, "BHYVE"@) {
        Virtualization::Bhyve
    } else {
        Virtualization::Absent
    }
}

/// One firmware identity file: if present it decides (its first line is
/// tested against the vendor table); only a missing file falls through.
pub open spec fn spec_vendor_file(t: TextRead, fallback: Result<Virtualization, IoError>) -> Result<
    Virtualization,
    IoError,
> {
    match t {
        TextRead::Missing => fallback,
        TextRead::Unreadable => Result::Err(IoError),
        TextRead::Text(s) => Result::Ok(spec_vendor_class(s@)),
    }
}

/// The firmware vendor signal: the first present identity file, in fixed
/// priority order, decides; no file present means no evidence.
pub open spec fn spec_dmi_vendor(ev: VmEvidence) -> Result<Virtualization, IoError> {
    spec_vendor_file(
        ev.dmi_product_name,
        spec_vendor_file(
            ev.dmi_sys_vendor,
            spec_vendor_file(
                ev.dmi_board_vendor,
                spec_vendor_file(ev.dmi_bios_vendor, Result::Ok(Virtualization::Absent)),
            ),
        ),
    )
}

/// The firmware VM bit: bit 4 of byte 19 of the table blob; unknown when
/// the blob is missing, shorter than 20 bytes, or its declared header
/// length (byte 1) is below 20.
pub open spec fn spec_smbios(b: BytesRead) -> Result<SMBIOS, IoError> {
    match b {
        BytesRead::Missing => Result::Ok(SMBIOS::VM_BIT_UNKNOWN),
        BytesRead::Unreadable => Result::Err(IoError),
        BytesRead::Data(d) => {
            if d@.len() < 20 || d@[1] < 20 {
                Result::Ok(SMBIOS::VM_BIT_UNKNOWN)
            } else if d@[19] & 0x10 != 0 {
                Result::Ok(SMBIOS::VM_BIT_SET)
            } else {
                Result::Ok(SMBIOS::VM_BIT_UNSET)
            }
        },
    }
}

/// The combined firmware signal: the vendor signal reconciled with the
/// VM bit. An Amazon vendor string with the bit explicitly unset is
/// overridden to no evidence; no vendor signal with the bit explicitly
/// set is overridden to `Other`.
pub open spec fn spec_dmi(ev: VmEvidence) -> Result<Virtualization, IoError> {
    if !spec_dmi_arch(ev.arch) {
        Result::Ok(Virtualization::Absent)
    } else {
        match spec_dmi_vendor(ev) {
            Result::Err(e) => Result::Err(e),
            Result::Ok(vendor) => match spec_smbios(ev.smbios_raw) {
                Result::Err(e) => Result::Err(e),
                Result::Ok(bit) => {
                    if vendor == Virtualization::Amazon && bit == SMBIOS::VM_BIT_UNSET {
                        Result::Ok(Virtualization::Absent)
                    } else if vendor == Virtualization::Absent && bit == SMBIOS::VM_BIT_SET {
                        Result::Ok(Virtualization::Other)
                    } else {
                        Result::Ok(vendor)
                    }
                },
            },
        }
    }
}

/// Whether some CPU-info line is exactly the vendor line of User Mode
/// Linux: a `vendor_id` field equal to `User Mode Linux`.
pub open spec fn spec_uml(l: LinesRead) -> Result<bool, IoError> {
    match l {
        LinesRead::Missing => Result::Ok(false),
        LinesRead::Unreadable => Result::Err(IoError),
        LinesRead::Lines(ls) => Result::Ok(
            exists|i: int| 0 <= i < ls@.len() && #[trigger] ls@[i]@ == "vendor_id\t: User Mode Linux"@,
        ),
    }
}

/// The Xen capabilities fallback: a first comma-separated token that is
/// exactly `control_d`, the line's end-of-line stripped, marks the
/// privileged domain.
pub open spec fn spec_xen_caps(c: TextRead) -> Result<XenFeat, IoError> {
    match c {
        TextRead::Missing => Result::Ok(XenFeat::Undetermined),
        TextRead::Unreadable => Result::Err(IoError),
        TextRead::Text(s) => {
            if first_comma_token_is(strip_eol(s@), "control_d"@) {
                Result::Ok(XenFeat::Dom0)
            } else {
                Result::Ok(XenFeat::Undetermined)
            }
        },
    }
}

/// The domain role a parsed feature bitmask decides: bit 11 set marks the
/// privileged domain; an unparsable mask or an unset bit falls back to
/// the capabilities file.
pub open spec fn spec_xen_role(bits: Option<u32>, cap: TextRead) -> Result<XenFeat, IoError> {
    match bits {
        Option::Some(f) => {
            if f & 0x800 != 0 {
                Result::Ok(XenFeat::Dom0)
            } else {
                spec_xen_caps(cap)
            }
        },
        Option::None => spec_xen_caps(cap),
    }
}

/// The Xen domain role: the feature-bitmask file decides when present
/// and readable (its content parsed as a prefixed or plain unsigned
/// number, a minus-signed string counting as unparsable); whenever the
/// bitmask does not establish the privileged domain — the file missing,
/// its content unparsable, or the bit unset — the capabilities file is
/// the fallback.
pub open spec fn spec_xen_dom0(ev: VmEvidence) -> Result<XenFeat, IoError> {
    match ev.xen_features {
        TextRead::Missing => spec_xen_caps(ev.xen_capabilities),
        TextRead::Unreadable => Result::Err(IoError),
        TextRead::Text(s) => spec_xen_role(
            if has_leading_minus(s@) {
                Option::None
            } else {
                parse_u32_of(s@)
            },
            ev.xen_capabilities,
        ),
    }
}

/// The hypervisor-type file: exactly the line `xen` (with its newline)
/// names Xen; any other content is unidentified positive evidence.
pub open spec fn spec_hypervisor(t: TextRead) -> Result<Virtualization, IoError> {
    match t {
        TextRead::Missing => Result::Ok(Virtualization::Absent),
        TextRead::Unreadable => Result::Err(IoError),
        TextRead::Text(s) => {
            if s@ == "xen\n"@ {
                Result::Ok(Virtualization::Xen)
            } else {
                Result::Ok(Virtualization::Other)
            }
        },
    }
}

/// The device-tree signal, consulted on the ARM and PowerPC families: a
/// hypervisor-compatible string decides; failing that, a fixed trio of
/// marker files indicates PowerVM, and a root entry whose path holds the
/// QEMU confidential-compute firmware marker indicates QEMU.
pub open spec fn spec_device_tree(ev: VmEvidence) -> Result<Virtualization, IoError> {
    if !(ev.arch == Arch::Arm || ev.arch == Arch::PowerPc) {
        Result::Ok(Virtualization::Absent)
    } else {
        match ev.dt_compatible {
            TextRead::Unreadable => Result::Err(IoError),
            TextRead::Text(s) => {
                if s@ == "linux,kvm\n"@ {
                    Result::Ok(Virtualization::KVM)
                } else if s@ == "xen\n"@ {
                    Result::Ok(Virtualization::Xen)
                } else if s@ == "vmware\n"@ {
                    Result::Ok(Virtualization::VMware)
                } else {
                    Result::Ok(Virtualization::Other)
                }
            },
            TextRead::Missing => {
                if ev.dt_partition_name_present && ev.dt_hmc_managed_present
                    && ev.dt_qemu_graphic_width_present {
                    Result::Ok(Virtualization::PowerVM)
                } else {
                    match ev.dt_root {
                        DirRead::Missing => Result::Ok(Virtualization::Absent),
                        DirRead::Unreadable => Result::Err(IoError),
                        DirRead::Entries(es) => {
                            if exists|i: int|
                                0 <= i < es@.len() && contains_seq(#[trigger] es@[i]@, "fw-ctf"@) {
                                Result::Ok(Virtualization::QEMU)
                            } else {
                                Result::Ok(Virtualization::Absent)
                            }
                        },
                    }
                }
            },
        }
    }
}

/// A system-information line that names the z/VM control program: it
/// starts with the control-program tag and the field after its first
/// colon, up to the next colon or the end, holds `z/VM`.
pub open spec fn spec_zvm_line(l: Seq<char>) -> bool {
    starts_with(l, "VM00 Control Program"@) && {
        let a = find_from(l, ':', 0);
        a < l.len() && contains_seq(l.subrange(a + 1, find_from(l, ':', a + 1)), "z/VM"@)
    }
}

/// The s390 signal: a present system-information file names z/VM when
/// some line does, and the KVM hypervisor otherwise.
pub open spec fn spec_zvm(ev: VmEvidence) -> Result<Virtualization, IoError> {
    if ev.arch != Arch::S390 {
        Result::Ok(Virtualization::Absent)
    } else {
        match ev.sysinfo {
            LinesRead::Missing => Result::Ok(Virtualization::Absent),
            LinesRead::Unreadable => Result::Err(IoError),
            LinesRead::Lines(ls) => {
                if exists|i: int| 0 <= i < ls@.len() && spec_zvm_line(#[trigger] ls@[i]@) {
                    Result::Ok(Virtualization::ZVM)
                } else {
                    Result::Ok(Virtualization::KVM)
                }
            },
        }
    }
}

/// The tail of the chain, after the firmware result `dmi` stood neither
/// for an early exit nor for a privileged Xen domain, the UML check
/// failed, and CPU identification (whose unidentified positive signal is
/// `other`) named nothing specific: a specific firmware result returns,
/// an unidentified one is recorded; then the Xen device node, the
/// hypervisor-type file, the device tree and the s390 signal are tried in
/// order, each returning a specific answer, recording an unidentified
/// one, or passing; recorded unidentified evidence resolves to `Other`,
/// and nothing at all to `None`-like absence.
pub open spec fn spec_vm_tail(ev: VmEvidence, dmi: Virtualization, other0: bool) -> Result<
    Virtualization,
    IoError,
> {
    if dmi != Virtualization::Absent && dmi != Virtualization::Other {
        Result::Ok(dmi)
    } else {
        let other1 = other0 || dmi == Virtualization::Other;
        if ev.xen_dev_present {
            Result::Ok(Virtualization::Xen)
        } else {
            match spec_hypervisor(ev.hypervisor_type) {
                Result::Err(e) => Result::Err(e),
                Result::Ok(hv) => {
                    if hv != Virtualization::Absent && hv != Virtualization::Other {
                        Result::Ok(hv)
                    } else {
                        let other2 = other1 || hv == Virtualization::Other;
                        match spec_device_tree(ev) {
                            Result::Err(e) => Result::Err(e),
                            Result::Ok(dev) => {
                                if dev != Virtualization::Absent && dev != Virtualization::Other {
                                    Result::Ok(dev)
                                } else {
                                    let other3 = other2 || dev == Virtualization::Other;
                                    match spec_zvm(ev) {
                                        Result::Err(e) => Result::Err(e),
                                        Result::Ok(z) => {
                                            if z != Virtualization::Absent {
                                                Result::Ok(z)
                                            } else if other3 {
                                                Result::Ok(Virtualization::Other)
                                            } else {
                                                Result::Ok(Virtualization::Absent)
                                            }
                                        },
                                    }
                                }
                            },
                        }
                    }
                },
            }
        }
    }
}

/// The chain after the firmware stage: the UML check returns at once;
/// then CPU identification (consulted on the x86 family only) returns
/// any specific identity and records an unidentified one.
pub open spec fn spec_vm_after_firmware(
    ev: VmEvidence,
    cpuid: Option<HypervisorIdent>,
    dmi: Virtualization,
) -> Result<Virtualization, IoError> {
    match spec_uml(ev.cpuinfo) {
        Result::Err(e) => Result::Err(e),
        Result::Ok(true) => Result::Ok(Virtualization::UML),
        Result::Ok(false) => {
            let cid = if ev.arch == Arch::X86 {
                cpuid
            } else {
                Option::None
            };
            match cid {
                Option::Some(h) => {
                    if spec_ident_class(h) != Virtualization::Other {
                        Result::Ok(spec_ident_class(h))
                    } else {
                        spec_vm_tail(ev, dmi, true)
                    }
                },
                Option::None => spec_vm_tail(ev, dmi, false),
            }
        },
    }
}

/// The whole virtualization detection: the combined firmware signal first
/// (Oracle and Amazon are unambiguous and return at once; a Xen signal
/// from a privileged domain overrides the whole result to absence), then
/// the rest of the chain.
pub open spec fn spec_vm_detect(ev: VmEvidence, cpuid: Option<HypervisorIdent>) -> Result<
    Virtualization,
    IoError,
> {
    match spec_dmi(ev) {
        Result::Err(e) => Result::Err(e),
        Result::Ok(dmi) => {
            if dmi == Virtualization::Oracle || dmi == Virtualization::Amazon {
                Result::Ok(dmi)
            } else if dmi == Virtualization::Xen {
                match spec_xen_dom0(ev) {
                    Result::Err(e) => Result::Err(e),
                    Result::Ok(role) => {
                        if role == XenFeat::Dom0 {
                            Result::Ok(Virtualization::Absent)
                        } else {
                            spec_vm_after_firmware(ev, cpuid, dmi)
                        }
                    },
                }
            } else {
                spec_vm_after_firmware(ev, cpuid, dmi)
            }
        },
    }
}

/// The value a numeric string denotes as an unsigned 32-bit number, in
/// decimal or under a `0x`, `0o` or `0b` prefix, with underscores and
/// surrounding whitespace allowed; `None` for a string that denotes no
/// such value.
pub uninterp spec fn parse_u32_of(s: Seq<char>) -> Option<u32>;

/// Relies on parse_int::parse::<u32>: the value it reads is a function
/// of the characters alone. A minus sign after leading whitespace is
/// excluded, since on such input the call negates an unsigned number.
#[verifier::external_body]
fn parse_u32(s: &str) -> (r: Option<u32>)
    requires
        !has_leading_minus(s@),
    ensures
        r == parse_u32_of(s@),
{
    parse_int::parse::<u32>(s).ok()
}

/// Relies on raw_cpuid::CpuId::get_hypervisor_info and
/// HypervisorInfo::identify: present only when the processor reports a
/// hypervisor, and then naming it. The result depends on the machine, so
/// nothing is promised of it.
#[verifier::external_body]
fn cpuid_hypervisor() -> Option<HypervisorIdent> {
    let info = raw_cpuid::CpuId::new().get_hypervisor_info()?;
    Some(match info.identify() {
        raw_cpuid::Hypervisor::Xen => HypervisorIdent::Xen,
        raw_cpuid::Hypervisor::VMware => HypervisorIdent::VMware,
        raw_cpuid::Hypervisor::HyperV => HypervisorIdent::HyperV,
        raw_cpuid::Hypervisor::KVM => HypervisorIdent::KVM,
        raw_cpuid::Hypervisor::QEMU => HypervisorIdent::QEMU,
        raw_cpuid::Hypervisor::Bhyve => HypervisorIdent::Bhyve,
        raw_cpuid::Hypervisor::QNX => HypervisorIdent::QNX,
        raw_cpuid::Hypervisor::ACRN => HypervisorIdent::ACRN,
        raw_cpuid::Hypervisor::Unknown(b, c, d) => HypervisorIdent::Unknown(b, c, d),
    })
}

/// The vendor-substring table, first match wins.
pub fn vendor_class(line: &str) -> (r: Virtualization)
    ensures
        r == spec_vendor_class(line@),
{
    if str_starts_with(line, "KVM") {
        Virtualization::KVM
    } else if str_starts_with(line, "Amazon EC2") {
        Virtualization::Amazon
    } else if str_starts_with(line, "QEMU") {
        Virtualization::QEMU
    } else if str_starts_with(line, "VMware") {
        Virtualization::VMware
    } else if str_starts_with(line, "VMW") {
        Virtualization::VMware
    } else if str_starts_with(line, "innotek GmbH") {
        Virtualization::Oracle
    } else if str_starts_with(line, "Oracle Corporation") {
        Virtualization::Oracle
    } else if str_starts_with(line, "Xen") {
        Virtualization::Xen
    } else if str_starts_with(line, "Bochs") {
        Virtualization::Bochs
    } else if str_starts_with(line, "Parallels") {
        Virtualization::Parallels
    } else if str_starts_with(line, "BHYVE") {
        Virtualization::Bhyve
    } else {
        Virtualization::Absent
    }
}

/// The firmware vendor signal of the evidence: the first present
/// identity file decides.
pub fn detect_dmi_vendor(ev: &VmEvidence) -> (r: Result<Virtualization, IoError>)
    ensures
        r == spec_dmi_vendor(*ev),
{
    match &ev.dmi_product_name {
        TextRead::Unreadable => { return Result::Err(IoError); },
        TextRead::Text(s) => { return Result::Ok(vendor_class(s.as_str())); },
        TextRead::Missing => {},
    }
    match &ev.dmi_sys_vendor {
        TextRead::Unreadable => { return Result::Err(IoError); },
        TextRead::Text(s) => { return Result::Ok(vendor_class(s.as_str())); },
        TextRead::Missing => {},
    }
    match &ev.dmi_board_vendor {
        TextRead::Unreadable => { return Result::Err(IoError); },
        TextRead::Text(s) => { return Result::Ok(vendor_class(s.as_str())); },
        TextRead::Missing => {},
    }
    match &ev.dmi_bios_vendor {
        TextRead::Unreadable => { return Result::Err(IoError); },
        TextRead::Text(s) => { return Result::Ok(vendor_class(s.as_str())); },
        TextRead::Missing => {},
    }
    Result::Ok(Virtualization::Absent)
}

/// The firmware VM bit of the blob.
pub fn detect_smbios(b: &BytesRead) -> (r: Result<SMBIOS, IoError>)
    ensures
        r == spec_smbios(*b),
{
    match b {
        BytesRead::Missing => Result::Ok(SMBIOS::VM_BIT_UNKNOWN),
        BytesRead::Unreadable => Result::Err(IoError),
        BytesRead::Data(d) => {
            if d.len() < 20 || d[1] < 20 {
                Result::Ok(SMBIOS::VM_BIT_UNKNOWN)
            } else if d[19] & 0x10 != 0 {
                Result::Ok(SMBIOS::VM_BIT_SET)
            } else {
                Result::Ok(SMBIOS::VM_BIT_UNSET)
            }
        },
    }
}

/// The combined firmware signal with its two override rules.
pub fn detect_dmi(ev: &VmEvidence) -> (r: Result<Virtualization, IoError>)
    ensures
        r == spec_dmi(*ev),
{
    if !(ev.arch == Arch::X86 || ev.arch == Arch::Arm) {
        return Result::Ok(Virtualization::Absent);
    }
    let vendor = match detect_dmi_vendor(ev) {
        Result::Ok(v) => v,
        Result::Err(e) => { return Result::Err(e); },
    };
    let bit = match detect_smbios(&ev.smbios_raw) {
        Result::Ok(b) => b,
        Result::Err(e) => { return Result::Err(e); },
    };
    if vendor == Virtualization::Amazon && bit == SMBIOS::VM_BIT_UNSET {
        Result::Ok(Virtualization::Absent)
    } else if vendor == Virtualization::Absent && bit == SMBIOS::VM_BIT_SET {
        Result::Ok(Virtualization::Other)
    } else {
        Result::Ok(vendor)
    }
}

/// Whether some CPU-info line is exactly the User Mode Linux vendor line.
#[verifier::loop_isolation(false)]
pub fn detect_uml(cpuinfo: &LinesRead) -> (r: Result<bool, IoError>)
    ensures
        r == spec_uml(*cpuinfo),
{
    match cpuinfo {
        LinesRead::Missing => Result::Ok(false),
        LinesRead::Unreadable => Result::Err(IoError),
        LinesRead::Lines(ls) => {
            let n = ls.len();
            let mut i: usize = 0;
            while i < n
                invariant
                    n == ls@.len(),
                    0 <= i <= n,
                    forall|j: int|
                        0 <= j < i ==> #[trigger] ls@[j]@ != "vendor_id\t: User Mode Linux"@,
                decreases n - i,
            {
                if str_eq(ls[i].as_str(), "vendor_id\t: User Mode Linux") {
                    proof {
                        assert(ls@[i as int]@ == "vendor_id\t: User Mode Linux"@);
                    }
                    return Result::Ok(true);
                }
                i = i + 1;
            }
            Result::Ok(false)
        },
    }
}

/// The domain role a parsed feature bitmask and the capabilities
/// fallback decide, for every possible parse outcome.
pub fn xen_role_from_bits(bits: Option<u32>, cap: &TextRead) -> (r: Result<XenFeat, IoError>)
    ensures
        r == spec_xen_role(bits, *cap),
{
    if let Option::Some(f) = bits {
        if f & 0x800 != 0 {
            return Result::Ok(XenFeat::Dom0);
        }
    }
    match cap {
        TextRead::Missing => Result::Ok(XenFeat::Undetermined),
        TextRead::Unreadable => Result::Err(IoError),
        TextRead::Text(s) => {
            if str_first_comma_token_is(str_strip_eol(s.as_str()), "control_d") {
                Result::Ok(XenFeat::Dom0)
            } else {
                Result::Ok(XenFeat::Undetermined)
            }
        },
    }
}

/// The Xen domain role of the evidence.
pub fn detect_xen_dom0(ev: &VmEvidence) -> (r: Result<XenFeat, IoError>)
    ensures
        r == spec_xen_dom0(*ev),
{
    match &ev.xen_features {
        TextRead::Missing => xen_role_from_bits(Option::None, &ev.xen_capabilities),
        TextRead::Unreadable => Result::Err(IoError),
        TextRead::Text(s) => {
            let bits = if str_has_leading_minus(s.as_str()) {
                Option::None
            } else {
                parse_u32(s.as_str())
            };
            xen_role_from_bits(bits, &ev.xen_capabilities)
        },
    }
}

/// The hypervisor-type signal.
pub fn detect_hypervisor(t: &TextRead) -> (r: Result<Virtualization, IoError>)
    ensures
        r == spec_hypervisor(*t),
{
    match t {
        TextRead::Missing => Result::Ok(Virtualization::Absent),
        TextRead::Unreadable => Result::Err(IoError),
        TextRead::Text(s) => {
            if str_eq(s.as_str(), "xen\n") {
                Result::Ok(Virtualization::Xen)
            } else {
                Result::Ok(Virtualization::Other)
            }
        },
    }
}

/// The device-tree signal of the evidence.
#[verifier::loop_isolation(false)]
pub fn detect_device_tree(ev: &VmEvidence) -> (r: Result<Virtualization, IoError>)
    ensures
        r == spec_device_tree(*ev),
{
    if !(ev.arch == Arch::Arm || ev.arch == Arch::PowerPc) {
        return Result::Ok(Virtualization::Absent);
    }
    match &ev.dt_compatible {
        TextRead::Unreadable => Result::Err(IoError),
        TextRead::Text(s) => {
            if str_eq(s.as_str(), "linux,kvm\n") {
                Result::Ok(Virtualization::KVM)
            } else if str_eq(s.as_str(), "xen\n") {
                Result::Ok(Virtualization::Xen)
            } else if str_eq(s.as_str(), "vmware\n") {
                Result::Ok(Virtualization::VMware)
            } else {
                Result::Ok(Virtualization::Other)
            }
        },
        TextRead::Missing => {
            if ev.dt_partition_name_present && ev.dt_hmc_managed_present
                && ev.dt_qemu_graphic_width_present {
                return Result::Ok(Virtualization::PowerVM);
            }
            match &ev.dt_root {
                DirRead::Missing => Result::Ok(Virtualization::Absent),
                DirRead::Unreadable => Result::Err(IoError),
                DirRead::Entries(es) => {
                    let n = es.len();
                    let mut i: usize = 0;
                    while i < n
                        invariant
                            n == es@.len(),
                            0 <= i <= n,
                            forall|j: int|
                                0 <= j < i ==> !contains_seq(#[trigger] es@[j]@, "fw-ctf"@),
                        decreases n - i,
                    {
                        if str_contains(es[i].as_str(), "fw-ctf") {
                            proof {
                                assert(contains_seq(es@[i as int]@, "fw-ctf"@));
                                assert(exists|j: int|
                                    0 <= j < es@.len() && contains_seq(
                                        #[trigger] es@[j]@,
                                        "fw-ctf"@,
                                    ));
                            }
                            return Result::Ok(Virtualization::QEMU);
                        }
                        i = i + 1;
                    }
                    Result::Ok(Virtualization::Absent)
                },
            }
        },
    }
}

/// Whether one system-information line names the z/VM control program.
pub fn zvm_line(l: &str) -> (r: bool)
    ensures
        r == spec_zvm_line(l@),
{
    if !str_starts_with(l, "VM00 Control Program") {
        return false;
    }
    let n = l.unicode_len();
    let a = str_find_from(l, ':', 0);
    if a == n {
        return false;
    }
    let b = str_find_from(l, ':', a + 1);
    let field = l.substring_char(a + 1, b);
    str_contains(field, "z/VM")
}

/// The s390 signal of the evidence.
#[verifier::loop_isolation(false)]
pub fn detect_zvm(ev: &VmEvidence) -> (r: Result<Virtualization, IoError>)
    ensures
        r == spec_zvm(*ev),
{
    if !(ev.arch == Arch::S390) {
        return Result::Ok(Virtualization::Absent);
    }
    match &ev.sysinfo {
        LinesRead::Missing => Result::Ok(Virtualization::Absent),
        LinesRead::Unreadable => Result::Err(IoError),
        LinesRead::Lines(ls) => {
            let n = ls.len();
            let mut i: usize = 0;
            while i < n
                invariant
                    n == ls@.len(),
                    0 <= i <= n,
                    forall|j: int| 0 <= j < i ==> !spec_zvm_line(#[trigger] ls@[j]@),
                decreases n - i,
            {
                if zvm_line(ls[i].as_str()) {
                    proof {
                        assert(spec_zvm_line(ls@[i as int]@));
                        assert(exists|j: int| 0 <= j < ls@.len() && spec_zvm_line(#[trigger] ls@[j]@));
                    }
                    return Result::Ok(Virtualization::ZVM);
                }
                i = i + 1;
            }
            Result::Ok(Virtualization::KVM)
        },
    }
}

/// The whole chain for a given CPU-identification outcome: exactly the
/// detection the evidence and that outcome determine.
pub fn vm_with_cpuid(ev: &VmEvidence, cpuid: Option<HypervisorIdent>) -> (r: Result<
    Virtualization,
    IoError,
>)
    ensures
        r == spec_vm_detect(*ev, cpuid),
{
    let dmi = match detect_dmi(ev) {
        Result::Ok(d) => d,
        Result::Err(e) => { return Result::Err(e); },
    };
    if dmi == Virtualization::Oracle || dmi == Virtualization::Amazon {
        return Result::Ok(dmi);
    }
    if dmi == Virtualization::Xen {
        let role = match detect_xen_dom0(ev) {
            Result::Ok(x) => x,
            Result::Err(e) => { return Result::Err(e); },
        };
        if role == XenFeat::Dom0 {
            return Result::Ok(Virtualization::Absent);
        }
    }
    let uml = match detect_uml(&ev.cpuinfo) {
        Result::Ok(u) => u,
        Result::Err(e) => { return Result::Err(e); },
    };
    if uml {
        return Result::Ok(Virtualization::UML);
    }
    let mut other = false;
    let cid = if ev.arch == Arch::X86 {
        cpuid
    } else {
        Option::None
    };
    if let Option::Some(h) = cid {
        let c = Virtualization::from_ident(h);
        if c != Virtualization::Other {
            return Result::Ok(c);
        }
        other = true;
    }
    if dmi != Virtualization::Absent && dmi != Virtualization::Other {
        return Result::Ok(dmi);
    }
    if dmi == Virtualization::Other {
        other = true;
    }
    if ev.xen_dev_present {
        return Result::Ok(Virtualization::Xen);
    }
    let hv = match detect_hypervisor(&ev.hypervisor_type) {
        Result::Ok(h) => h,
        Result::Err(e) => { return Result::Err(e); },
    };
    if hv != Virtualization::Absent && hv != Virtualization::Other {
        return Result::Ok(hv);
    }
    if hv == Virtualization::Other {
        other = true;
    }
    let dev = match detect_device_tree(ev) {
        Result::Ok(d) => d,
        Result::Err(e) => { return Result::Err(e); },
    };
    if dev != Virtualization::Absent && dev != Virtualization::Other {
        return Result::Ok(dev);
    }
    if dev == Virtualization::Other {
        other = true;
    }
    let z = match detect_zvm(ev) {
        Result::Ok(d) => d,
        Result::Err(e) => { return Result::Err(e); },
    };
    if z != Virtualization::Absent {
        return Result::Ok(z);
    }
    if other {
        Result::Ok(Virtualization::Other)
    } else {
        Result::Ok(Virtualization::Absent)
    }
}

/// The detection on the live CPU-identification outcome: whatever that
/// outcome was, the result is exactly the detection the evidence and it
/// determine.
pub fn vm(ev: &VmEvidence) -> (r: Result<Virtualization, IoError>)
    ensures
        exists|c: Option<HypervisorIdent>| r == spec_vm_detect(*ev, c),
{
    let c = cpuid_hypervisor();
    let r = vm_with_cpuid(ev, c);
    proof {
        assert(r == spec_vm_detect(*ev, c));
    }
    r
}

/// The first reconciliation rule in general: an Amazon vendor signal
/// with the VM bit explicitly unset is overridden, and the combined
/// firmware signal is confirmed absence, whatever else the evidence
/// holds.
pub proof fn lemma_amazon_vm_bit_override(ev: VmEvidence)
    requires
        spec_dmi_arch(ev.arch),
        spec_dmi_vendor(ev) == Result::<Virtualization, IoError>::Ok(Virtualization::Amazon),
        spec_smbios(ev.smbios_raw) == Result::<SMBIOS, IoError>::Ok(SMBIOS::VM_BIT_UNSET),
    ensures
        spec_dmi(ev) == Result::<Virtualization, IoError>::Ok(Virtualization::Absent),
{
}

/// The second reconciliation rule in general: a VM bit explicitly set
/// without any vendor signal confirms virtualization with the vendor
/// unidentified, and the combined firmware signal is `Other`, whatever
/// else the evidence holds.
pub proof fn lemma_vm_bit_set_override(ev: VmEvidence)
    requires
        spec_dmi_arch(ev.arch),
        spec_dmi_vendor(ev) == Result::<Virtualization, IoError>::Ok(Virtualization::Absent),
        spec_smbios(ev.smbios_raw) == Result::<SMBIOS, IoError>::Ok(SMBIOS::VM_BIT_SET),
    ensures
        spec_dmi(ev) == Result::<Virtualization, IoError>::Ok(Virtualization::Other),
{
}

impl VmEvidence {
    /// Evidence with every source missing: no identity file, no blob, no
    /// markers, nothing.
    pub fn empty(arch: Arch) -> (r: VmEvidence)
        ensures
            r.arch == arch,
            r.dmi_product_name is Missing,
            r.dmi_sys_vendor is Missing,
            r.dmi_board_vendor is Missing,
            r.dmi_bios_vendor is Missing,
            r.smbios_raw is Missing,
            r.cpuinfo is Missing,
            !r.xen_dev_present,
            r.hypervisor_type is Missing,
            r.xen_features is Missing,
            r.xen_capabilities is Missing,
            r.dt_compatible is Missing,
            !r.dt_partition_name_present,
            !r.dt_hmc_managed_present,
            !r.dt_qemu_graphic_width_present,
            r.dt_root is Missing,
            r.sysinfo is Missing,
    {
        VmEvidence {
            arch,
            dmi_product_name: TextRead::Missing,
            dmi_sys_vendor: TextRead::Missing,
            dmi_board_vendor: TextRead::Missing,
            dmi_bios_vendor: TextRead::Missing,
            smbios_raw: BytesRead::Missing,
            cpuinfo: LinesRead::Missing,
            xen_dev_present: false,
            hypervisor_type: TextRead::Missing,
            xen_features: TextRead::Missing,
            xen_capabilities: TextRead::Missing,
            dt_compatible: TextRead::Missing,
            dt_partition_name_present: false,
            dt_hmc_managed_present: false,
            dt_qemu_graphic_width_present: false,
            dt_root: DirRead::Missing,
            sysinfo: LinesRead::Missing,
        }
    }
}

} // verus!
