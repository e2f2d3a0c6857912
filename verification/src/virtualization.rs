//! The `Virtualization` classification: which hypervisor, if any, the
//! current host runs under.

pub mod detect;

use vstd::prelude::*;
use crate::text::str_eq;

verus! {

/// The hypervisor identity the processor's identification instruction
/// reports when its hypervisor-presence bit is set. `Unknown` carries the
/// three raw identification words of an unrecognised hypervisor.
#[derive(Debug, Clone, Copy, PartialEq, Eq, Structural)]
pub enum HypervisorIdent {
    Xen,
    VMware,
    HyperV,
    KVM,
    QEMU,
    Bhyve,
    QNX,
    ACRN,
    Unknown(u32, u32, u32),
}

/// The classification each reported hypervisor identity maps to; an
/// unrecognised identity maps to `Other`.
pub open spec fn spec_ident_class(h: HypervisorIdent) -> Virtualization {
    match h {
        HypervisorIdent::Xen => Virtualization::Xen,
        HypervisorIdent::VMware => Virtualization::VMware,
        HypervisorIdent::HyperV => Virtualization::MicroSoft,
        HypervisorIdent::KVM => Virtualization::KVM,
        HypervisorIdent::QEMU => Virtualization::QEMU,
        HypervisorIdent::Bhyve => Virtualization::Bhyve,
        HypervisorIdent::QNX => Virtualization::QNX,
        HypervisorIdent::ACRN => Virtualization::ACRN,
        HypervisorIdent::Unknown(_, _, _) => Virtualization::Other,
    }
}

/// One hypervisor classification. `Absent` means confirmed absence of
/// virtualization; `Other` means virtualization confirmed but the
/// hypervisor unidentified. Exactly one variant holds at a time.
#[derive(Debug, Clone, Copy, PartialEq, Eq, Structural)]
#[allow(non_camel_case_types)]
pub enum Virtualization {
    KVM,
    Amazon,
    QEMU,
    Bochs,
    Xen,
    UML,
    VMware,
    Oracle,
    MicroSoft,
    ZVM,
    Parallels,
    Bhyve,
    QNX,
    ACRN,
    PowerVM,
    Absent,
    Other,
}

/// The canonical display name of each variant.
pub open spec fn spec_vm_text(v: Virtualization) -> Seq<char> {
    match v {
        Virtualization::KVM => "KVM"@,
        Virtualization::Amazon => "Amazon"@,
        Virtualization::QEMU => "QEMU"@,
        Virtualization::Bochs => "Bochs"@,
        Virtualization::Xen => "Xen"@,
        Virtualization::UML => "UML"@,
        Virtualization::VMware => "VMware"@,
        Virtualization::Oracle => "Oracle"@,
        Virtualization::MicroSoft => "MicroSoft"@,
        Virtualization::ZVM => "ZVM"@,
        Virtualization::Parallels => "Parallels"@,
        Virtualization::Bhyve => "Bhyve"@,
        Virtualization::QNX => "QNX"@,
        Virtualization::ACRN => "ACRN"@,
        Virtualization::PowerVM => "PowerVM"@,
        Virtualization::Other => "other"@,
        Virtualization::Absent => "none"@,
    }
}

/// The variant a lowercase kernel-style token denotes; any unknown token,
/// the empty string included, denotes `Other`.
pub open spec fn spec_vm_from_text(s: Seq<char>) -> Virtualization {
    if s == "kvm"@ {
        Virtualization::KVM
    } else if s == "amazon"@ {
        Virtualization::Amazon
    } else if s == "qemu"@ {
        Virtualization::QEMU
    } else if s == "bochs"@ {
        Virtualization::Bochs
    } else if s == "xen"@ {
        Virtualization::Xen
    } else if s == "uml"@ {
        Virtualization::UML
    } else if s == "vmware"@ {
        Virtualization::VMware
    } else if s == "oracle"@ {
        Virtualization::Oracle
    } else if s == "microsoft"@ {
        Virtualization::MicroSoft
    } else if s == "zvm"@ {
        Virtualization::ZVM
    } else if s == "parallels"@ {
        Virtualization::Parallels
    } else if s == "bhyve"@ {
        Virtualization::Bhyve
    } else if s == "qnx"@ {
        Virtualization::QNX
    } else if s == "acrn"@ {
        Virtualization::ACRN
    } else if s == "powervm"@ {
        Virtualization::PowerVM
    } else {
        Virtualization::Other
    }
}

/// The fixed token the kernel and environment emit for each specific
/// variant; `Absent` and `Other` have none.
pub open spec fn spec_vm_kernel_token(v: Virtualization) -> Option<Seq<char>> {
    match v {
        Virtualization::KVM => Option::Some("kvm"@),
        Virtualization::Amazon => Option::Some("amazon"@),
        Virtualization::QEMU => Option::Some("qemu"@),
        Virtualization::Bochs => Option::Some("bochs"@),
        Virtualization::Xen => Option::Some("xen"@),
        Virtualization::UML => Option::Some("uml"@),
        Virtualization::VMware => Option::Some("vmware"@),
        Virtualization::Oracle => Option::Some("oracle"@),
        Virtualization::MicroSoft => Option::Some("microsoft"@),
        Virtualization::ZVM => Option::Some("zvm"@),
        Virtualization::Parallels => Option::Some("parallels"@),
        Virtualization::Bhyve => Option::Some("bhyve"@),
        Virtualization::QNX => Option::Some("qnx"@),
        Virtualization::ACRN => Option::Some("acrn"@),
        Virtualization::PowerVM => Option::Some("powervm"@),
        Virtualization::Absent => Option::None,
        Virtualization::Other => Option::None,
    }
}

/// The specific variants, in the fixed order used for enumeration;
/// `Absent` and `Other` are excluded.
pub open spec fn spec_vm_list() -> Seq<Virtualization> {
    seq![
        Virtualization::KVM,
        Virtualization::Amazon,
        Virtualization::QEMU,
        Virtualization::Bochs,
        Virtualization::Xen,
        Virtualization::UML,
        Virtualization::VMware,
        Virtualization::Oracle,
        Virtualization::MicroSoft,
        Virtualization::ZVM,
        Virtualization::Parallels,
        Virtualization::Bhyve,
        Virtualization::QNX,
        Virtualization::ACRN,
        Virtualization::PowerVM,
    ]
}

impl Virtualization {
    /// True for every variant but `Absent`: `Other` still means "some
    /// hypervisor, unknown which".
    pub fn is_vm(&self) -> (r: bool)
        ensures
            r == (*self != Virtualization::Absent),
    {
        *self != Virtualization::Absent
    }

    /// Every specific variant, in a fixed, stable order.
    pub fn list() -> (r: Vec<Virtualization>)
        ensures
            r@ == spec_vm_list(),
    {
        let mut v: Vec<Virtualization> = Vec::new();
        v.push(Virtualization::KVM);
        v.push(Virtualization::Amazon);
        v.push(Virtualization::QEMU);
        v.push(Virtualization::Bochs);
        v.push(Virtualization::Xen);
        v.push(Virtualization::UML);
        v.push(Virtualization::VMware);
        v.push(Virtualization::Oracle);
        v.push(Virtualization::MicroSoft);
        v.push(Virtualization::ZVM);
        v.push(Virtualization::Parallels);
        v.push(Virtualization::Bhyve);
        v.push(Virtualization::QNX);
        v.push(Virtualization::ACRN);
        v.push(Virtualization::PowerVM);
        proof {
            assert(v@ =~= spec_vm_list());
        }
        v
    }

    /// The canonical display name.
    pub fn as_str(&self) -> (r: &'static str)
        ensures
            r@ == spec_vm_text(*self),
    {
        match self {
            Virtualization::KVM => "KVM",
            Virtualization::Amazon => "Amazon",
            Virtualization::QEMU => "QEMU",
            Virtualization::Bochs => "Bochs",
            Virtualization::Xen => "Xen",
            Virtualization::UML => "UML",
            Virtualization::VMware => "VMware",
            Virtualization::Oracle => "Oracle",
            Virtualization::MicroSoft => "MicroSoft",
            Virtualization::ZVM => "ZVM",
            Virtualization::Parallels => "Parallels",
            Virtualization::Bhyve => "Bhyve",
            Virtualization::QNX => "QNX",
            Virtualization::ACRN => "ACRN",
            Virtualization::PowerVM => "PowerVM",
            Virtualization::Other => "other",
            Virtualization::Absent => "none",
        }
    }

    /// Map a reported hypervisor identity to its classification.
    pub fn from_ident(h: HypervisorIdent) -> (r: Virtualization)
        ensures
            r == spec_ident_class(h),
    {
        match h {
            HypervisorIdent::Xen => Virtualization::Xen,
            HypervisorIdent::VMware => Virtualization::VMware,
            HypervisorIdent::HyperV => Virtualization::MicroSoft,
            HypervisorIdent::KVM => Virtualization::KVM,
            HypervisorIdent::QEMU => Virtualization::QEMU,
            HypervisorIdent::Bhyve => Virtualization::Bhyve,
            HypervisorIdent::QNX => Virtualization::QNX,
            HypervisorIdent::ACRN => Virtualization::ACRN,
            HypervisorIdent::Unknown(_, _, _) => Virtualization::Other,
        }
    }

    /// Map a kernel-style token to its variant; anything unknown is `Other`.
    pub fn from_text(s: &str) -> (r: Virtualization)
        ensures
            r == spec_vm_from_text(s@),
    {
        if str_eq(s, "kvm") {
            Virtualization::KVM
        } else if str_eq(s, "amazon") {
            Virtualization::Amazon
        } else if str_eq(s, "qemu") {
            Virtualization::QEMU
        } else if str_eq(s, "bochs") {
            Virtualization::Bochs
        } else if str_eq(s, "xen") {
            Virtualization::Xen
        } else if str_eq(s, "uml") {
            Virtualization::UML
        } else if str_eq(s, "vmware") {
            Virtualization::VMware
        } else if str_eq(s, "oracle") {
            Virtualization::Oracle
        } else if str_eq(s, "microsoft") {
            Virtualization::MicroSoft
        } else if str_eq(s, "zvm") {
            Virtualization::ZVM
        } else if str_eq(s, "parallels") {
            Virtualization::Parallels
        } else if str_eq(s, "bhyve") {
            Virtualization::Bhyve
        } else if str_eq(s, "qnx") {
            Virtualization::QNX
        } else if str_eq(s, "acrn") {
            Virtualization::ACRN
        } else if str_eq(s, "powervm") {
            Virtualization::PowerVM
        } else {
            Virtualization::Other
        }
    }
}

/// Parsing is left inverse to the kernel token: every specific variant
/// comes back from its own token.
pub proof fn lemma_vm_token_round_trip(v: Virtualization)
    ensures
        (match spec_vm_kernel_token(v) {
            Option::Some(t) => spec_vm_from_text(t) == v,
            Option::None => v == Virtualization::Absent || v == Virtualization::Other,
        }),
{
    broadcast use vstd::string::group_string_axioms;

    reveal_strlit("kvm");
    reveal_strlit("amazon");
    reveal_strlit("qemu");
    reveal_strlit("bochs");
    reveal_strlit("xen");
    reveal_strlit("uml");
    reveal_strlit("vmware");
    reveal_strlit("oracle");
    reveal_strlit("microsoft");
    reveal_strlit("zvm");
    reveal_strlit("parallels");
    reveal_strlit("bhyve");
    reveal_strlit("qnx");
    reveal_strlit("acrn");
    reveal_strlit("powervm");
    assert("kvm"@.len() == 3 && "xen"@.len() == 3 && "uml"@.len() == 3 && "zvm"@.len() == 3
        && "qnx"@.len() == 3);
    assert("qemu"@.len() == 4 && "acrn"@.len() == 4);
    assert("bochs"@.len() == 5 && "bhyve"@.len() == 5);
    assert("amazon"@.len() == 6 && "vmware"@.len() == 6 && "oracle"@.len() == 6);
    assert("microsoft"@.len() == 9 && "parallels"@.len() == 9);
    assert("powervm"@.len() == 7);
    assert("kvm"@[0] == 'k' && "xen"@[0] == 'x' && "uml"@[0] == 'u' && "zvm"@[0] == 'z'
        && "qnx"@[0] == 'q');
    assert("qemu"@[0] == 'q' && "acrn"@[0] == 'a');
    assert("amazon"@[0] == 'a' && "vmware"@[0] == 'v' && "oracle"@[0] == 'o');
    assert("microsoft"@[0] == 'm' && "parallels"@[0] == 'p');
    assert("bochs"@[1] == 'o' && "bhyve"@[1] == 'h');
    match v {
        Virtualization::KVM => assert(spec_vm_from_text("kvm"@) == Virtualization::KVM),
        Virtualization::Amazon => assert(spec_vm_from_text("amazon"@) == Virtualization::Amazon),
        Virtualization::QEMU => assert(spec_vm_from_text("qemu"@) == Virtualization::QEMU),
        Virtualization::Bochs => assert(spec_vm_from_text("bochs"@) == Virtualization::Bochs),
        Virtualization::Xen => assert(spec_vm_from_text("xen"@) == Virtualization::Xen),
        Virtualization::UML => assert(spec_vm_from_text("uml"@) == Virtualization::UML),
        Virtualization::VMware => assert(spec_vm_from_text("vmware"@) == Virtualization::VMware),
        Virtualization::Oracle => assert(spec_vm_from_text("oracle"@) == Virtualization::Oracle),
        Virtualization::MicroSoft => assert(spec_vm_from_text("microsoft"@)
            == Virtualization::MicroSoft),
        Virtualization::ZVM => assert(spec_vm_from_text("zvm"@) == Virtualization::ZVM),
        Virtualization::Parallels => assert(spec_vm_from_text("parallels"@)
            == Virtualization::Parallels),
        Virtualization::Bhyve => assert(spec_vm_from_text("bhyve"@) == Virtualization::Bhyve),
        Virtualization::QNX => assert(spec_vm_from_text("qnx"@) == Virtualization::QNX),
        Virtualization::ACRN => assert(spec_vm_from_text("acrn"@) == Virtualization::ACRN),
        Virtualization::PowerVM => assert(spec_vm_from_text("powervm"@)
            == Virtualization::PowerVM),
        Virtualization::Absent => (),
        Virtualization::Other => (),
    }
}

/// A token outside the known table, the empty string included, parses
/// to `Other`.
pub proof fn lemma_vm_unknown_token_is_other(s: Seq<char>)
    requires
        s != "kvm"@,
        s != "amazon"@,
        s != "qemu"@,
        s != "bochs"@,
        s != "xen"@,
        s != "uml"@,
        s != "vmware"@,
        s != "oracle"@,
        s != "microsoft"@,
        s != "zvm"@,
        s != "parallels"@,
        s != "bhyve"@,
        s != "qnx"@,
        s != "acrn"@,
        s != "powervm"@,
    ensures
        spec_vm_from_text(s) == Virtualization::Other,
{
}

} // verus!
