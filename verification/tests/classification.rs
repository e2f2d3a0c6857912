use virt_detect::container::Container;
use virt_detect::virtualization::{HypervisorIdent, Virtualization};

#[test]
fn vm_display_names() {
    assert_eq!(Virtualization::KVM.as_str(), "KVM");
    assert_eq!(Virtualization::Amazon.as_str(), "Amazon");
    assert_eq!(Virtualization::QEMU.as_str(), "QEMU");
    assert_eq!(Virtualization::Bochs.as_str(), "Bochs");
    assert_eq!(Virtualization::Xen.as_str(), "Xen");
    assert_eq!(Virtualization::UML.as_str(), "UML");
    assert_eq!(Virtualization::VMware.as_str(), "VMware");
    assert_eq!(Virtualization::Oracle.as_str(), "Oracle");
    assert_eq!(Virtualization::MicroSoft.as_str(), "MicroSoft");
    assert_eq!(Virtualization::ZVM.as_str(), "ZVM");
    assert_eq!(Virtualization::Parallels.as_str(), "Parallels");
    assert_eq!(Virtualization::Bhyve.as_str(), "Bhyve");
    assert_eq!(Virtualization::QNX.as_str(), "QNX");
    assert_eq!(Virtualization::ACRN.as_str(), "ACRN");
    assert_eq!(Virtualization::PowerVM.as_str(), "PowerVM");
    assert_eq!(Virtualization::Absent.as_str(), "none");
    assert_eq!(Virtualization::Other.as_str(), "other");
}

#[test]
fn container_display_names() {
    assert_eq!(Container::systemd_nspawn.as_str(), "systemd_nspawn");
    assert_eq!(Container::lxc_libvirt.as_str(), "lxc_libvirt");
    assert_eq!(Container::lxc.as_str(), "lxc");
    assert_eq!(Container::OpenVZ.as_str(), "OpenVZ");
    assert_eq!(Container::Docker.as_str(), "Docker");
    assert_eq!(Container::Podman.as_str(), "Podman");
    assert_eq!(Container::rkt.as_str(), "rkt");
    assert_eq!(Container::WSL.as_str(), "WSL");
    assert_eq!(Container::PRoot.as_str(), "PRoot");
    assert_eq!(Container::pouch.as_str(), "pouch");
    assert_eq!(Container::Absent.as_str(), "none");
    assert_eq!(Container::Other.as_str(), "other");
}

#[test]
fn is_vm_false_only_for_absent() {
    assert!(!Virtualization::Absent.is_vm());
    assert!(Virtualization::Other.is_vm());
    for v in Virtualization::list() {
        assert!(v.is_vm());
    }
}

#[test]
fn is_container_false_only_for_absent() {
    assert!(!Container::Absent.is_container());
    assert!(Container::Other.is_container());
    for c in Container::list() {
        assert!(c.is_container());
    }
}

#[test]
fn vm_list_order() {
    let l = Virtualization::list();
    assert_eq!(l.len(), 15);
    assert_eq!(l[0], Virtualization::KVM);
    assert_eq!(l[1], Virtualization::Amazon);
    assert_eq!(l[14], Virtualization::PowerVM);
    assert!(!l.contains(&Virtualization::Absent));
    assert!(!l.contains(&Virtualization::Other));
}

#[test]
fn container_list_order() {
    let l = Container::list();
    assert_eq!(l.len(), 10);
    assert_eq!(l[0], Container::systemd_nspawn);
    assert_eq!(l[9], Container::pouch);
    assert!(!l.contains(&Container::Absent));
    assert!(!l.contains(&Container::Other));
}

#[test]
fn vm_tokens_round_trip() {
    assert_eq!(Virtualization::from_text("kvm"), Virtualization::KVM);
    assert_eq!(Virtualization::from_text("amazon"), Virtualization::Amazon);
    assert_eq!(Virtualization::from_text("qemu"), Virtualization::QEMU);
    assert_eq!(Virtualization::from_text("bochs"), Virtualization::Bochs);
    assert_eq!(Virtualization::from_text("xen"), Virtualization::Xen);
    assert_eq!(Virtualization::from_text("uml"), Virtualization::UML);
    assert_eq!(Virtualization::from_text("vmware"), Virtualization::VMware);
    assert_eq!(Virtualization::from_text("oracle"), Virtualization::Oracle);
    assert_eq!(Virtualization::from_text("microsoft"), Virtualization::MicroSoft);
    assert_eq!(Virtualization::from_text("zvm"), Virtualization::ZVM);
    assert_eq!(Virtualization::from_text("parallels"), Virtualization::Parallels);
    assert_eq!(Virtualization::from_text("bhyve"), Virtualization::Bhyve);
    assert_eq!(Virtualization::from_text("qnx"), Virtualization::QNX);
    assert_eq!(Virtualization::from_text("acrn"), Virtualization::ACRN);
    assert_eq!(Virtualization::from_text("powervm"), Virtualization::PowerVM);
}

#[test]
fn container_tokens_round_trip() {
    assert_eq!(Container::from_text("lxc"), Container::lxc);
    assert_eq!(Container::from_text("lxc-libvirt"), Container::lxc_libvirt);
    assert_eq!(Container::from_text("systemd-nspawn"), Container::systemd_nspawn);
    assert_eq!(Container::from_text("docker"), Container::Docker);
    assert_eq!(Container::from_text("podman"), Container::Podman);
    assert_eq!(Container::from_text("rkt"), Container::rkt);
    assert_eq!(Container::from_text("wsl"), Container::WSL);
    assert_eq!(Container::from_text("proot"), Container::PRoot);
    assert_eq!(Container::from_text("pouch"), Container::pouch);
}

#[test]
fn unknown_tokens_parse_to_other() {
    assert_eq!(Virtualization::from_text(""), Virtualization::Other);
    assert_eq!(Virtualization::from_text("KVM"), Virtualization::Other);
    assert_eq!(Virtualization::from_text("kvm "), Virtualization::Other);
    assert_eq!(Virtualization::from_text("hyperv"), Virtualization::Other);
    assert_eq!(Container::from_text(""), Container::Other);
    assert_eq!(Container::from_text("Docker"), Container::Other);
    assert_eq!(Container::from_text("docker\n"), Container::Other);
    assert_eq!(Container::from_text("openvz"), Container::Other);
    assert_eq!(Container::from_text("lxv-libvirt"), Container::Other);
}

#[test]
fn display_casing_differs_from_parse_casing() {
    // The display name of a variant is, in general, not a token its own
    // parser accepts: casing is deliberately inconsistent.
    assert_eq!(
        Virtualization::from_text(Virtualization::MicroSoft.as_str()),
        Virtualization::Other
    );
    assert_eq!(Container::from_text(Container::OpenVZ.as_str()), Container::Other);
}

#[test]
fn ident_classification() {
    assert_eq!(Virtualization::from_ident(HypervisorIdent::Xen), Virtualization::Xen);
    assert_eq!(Virtualization::from_ident(HypervisorIdent::VMware), Virtualization::VMware);
    assert_eq!(Virtualization::from_ident(HypervisorIdent::HyperV), Virtualization::MicroSoft);
    assert_eq!(Virtualization::from_ident(HypervisorIdent::KVM), Virtualization::KVM);
    assert_eq!(Virtualization::from_ident(HypervisorIdent::QEMU), Virtualization::QEMU);
    assert_eq!(Virtualization::from_ident(HypervisorIdent::Bhyve), Virtualization::Bhyve);
    assert_eq!(Virtualization::from_ident(HypervisorIdent::QNX), Virtualization::QNX);
    assert_eq!(Virtualization::from_ident(HypervisorIdent::ACRN), Virtualization::ACRN);
    assert_eq!(
        Virtualization::from_ident(HypervisorIdent::Unknown(1, 2, 3)),
        Virtualization::Other
    );
}
