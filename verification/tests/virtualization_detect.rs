use virt_detect::evidence::{Arch, BytesRead, DirRead, IoError, LinesRead, TextRead};
use virt_detect::virtualization::detect::{
    detect_dmi, detect_smbios, detect_xen_dom0, vm, vm_with_cpuid, xen_role_from_bits, VmEvidence,
    SMBIOS, XenFeat,
};
use virt_detect::virtualization::{HypervisorIdent, Virtualization};

fn smbios_blob(vm_bit: bool) -> Vec<u8> {
    let mut d = vec![0u8; 24];
    d[1] = 20;
    if vm_bit {
        d[19] = 1 << 4;
    }
    d
}

#[test]
fn no_evidence_is_none() {
    let ev = VmEvidence::empty(Arch::X86);
    assert_eq!(vm_with_cpuid(&ev, None), Ok(Virtualization::Absent));
}

#[test]
fn amazon_vendor_with_vm_bit_unset_is_none() {
    let mut ev = VmEvidence::empty(Arch::X86);
    ev.dmi_sys_vendor = TextRead::Text("Amazon EC2".to_string());
    ev.smbios_raw = BytesRead::Data(smbios_blob(false));
    assert_eq!(vm_with_cpuid(&ev, None), Ok(Virtualization::Absent));
}

#[test]
fn amazon_vendor_with_vm_bit_set_is_amazon() {
    let mut ev = VmEvidence::empty(Arch::X86);
    ev.dmi_sys_vendor = TextRead::Text("Amazon EC2".to_string());
    ev.smbios_raw = BytesRead::Data(smbios_blob(true));
    assert_eq!(vm_with_cpuid(&ev, None), Ok(Virtualization::Amazon));
}

#[test]
fn vm_bit_set_without_vendor_is_other() {
    let mut ev = VmEvidence::empty(Arch::X86);
    ev.smbios_raw = BytesRead::Data(smbios_blob(true));
    assert_eq!(vm_with_cpuid(&ev, None), Ok(Virtualization::Other));
}

#[test]
fn oracle_vendor_returns_through_live_detection() {
    // Oracle is an unambiguous firmware signal and returns before the
    // CPU-identification step, so even the live entry point is
    // deterministic here.
    let mut ev = VmEvidence::empty(Arch::X86);
    ev.dmi_bios_vendor = TextRead::Text("innotek GmbH".to_string());
    assert_eq!(vm(&ev), Ok(Virtualization::Oracle));
}

#[test]
fn vendor_table_first_match_wins() {
    let mut ev = VmEvidence::empty(Arch::X86);
    ev.dmi_product_name = TextRead::Text("VMware Virtual Platform".to_string());
    assert_eq!(detect_dmi(&ev), Ok(Virtualization::VMware));
    ev.dmi_product_name = TextRead::Text("VMW1234".to_string());
    assert_eq!(detect_dmi(&ev), Ok(Virtualization::VMware));
    ev.dmi_product_name = TextRead::Text("Oracle Corporation".to_string());
    assert_eq!(detect_dmi(&ev), Ok(Virtualization::Oracle));
    ev.dmi_product_name = TextRead::Text("Parallels Virtual Platform".to_string());
    assert_eq!(detect_dmi(&ev), Ok(Virtualization::Parallels));
    ev.dmi_product_name = TextRead::Text("Some Honest Vendor".to_string());
    assert_eq!(detect_dmi(&ev), Ok(Virtualization::Absent));
}

#[test]
fn first_present_vendor_file_decides() {
    let mut ev = VmEvidence::empty(Arch::X86);
    ev.dmi_product_name = TextRead::Text("Standard PC".to_string());
    ev.dmi_sys_vendor = TextRead::Text("QEMU".to_string());
    // The product name is present and matches nothing, so the vendor
    // signal is already decided before the system vendor is consulted.
    assert_eq!(detect_dmi(&ev), Ok(Virtualization::Absent));
}

#[test]
fn dmi_ignored_off_the_x86_and_arm_families() {
    let mut ev = VmEvidence::empty(Arch::S390);
    ev.dmi_sys_vendor = TextRead::Text("Amazon EC2".to_string());
    assert_eq!(vm_with_cpuid(&ev, None), Ok(Virtualization::Absent));
}

#[test]
fn unreadable_vendor_file_fails_detection() {
    let mut ev = VmEvidence::empty(Arch::X86);
    ev.dmi_product_name = TextRead::Unreadable;
    assert_eq!(vm_with_cpuid(&ev, None), Err(IoError));
}

#[test]
fn smbios_short_blob_is_unknown() {
    assert_eq!(detect_smbios(&BytesRead::Missing), Ok(SMBIOS::VM_BIT_UNKNOWN));
    assert_eq!(detect_smbios(&BytesRead::Data(vec![0u8; 10])), Ok(SMBIOS::VM_BIT_UNKNOWN));
    let mut short_header = vec![0u8; 24];
    short_header[1] = 19;
    short_header[19] = 1 << 4;
    assert_eq!(detect_smbios(&BytesRead::Data(short_header)), Ok(SMBIOS::VM_BIT_UNKNOWN));
    assert_eq!(detect_smbios(&BytesRead::Data(smbios_blob(true))), Ok(SMBIOS::VM_BIT_SET));
    assert_eq!(detect_smbios(&BytesRead::Data(smbios_blob(false))), Ok(SMBIOS::VM_BIT_UNSET));
}

#[test]
fn uml_vendor_line_wins() {
    let mut ev = VmEvidence::empty(Arch::X86);
    ev.cpuinfo = LinesRead::Lines(vec![
        "processor\t: 0".to_string(),
        "vendor_id\t: User Mode Linux".to_string(),
    ]);
    assert_eq!(vm_with_cpuid(&ev, None), Ok(Virtualization::UML));
}

#[test]
fn uml_vendor_field_matched_exactly() {
    // Only a vendor field equal to "User Mode Linux" counts: a longer
    // field with that prefix is something else.
    let mut ev = VmEvidence::empty(Arch::X86);
    ev.cpuinfo = LinesRead::Lines(vec!["vendor_id\t: User Mode Linux2".to_string()]);
    assert_eq!(vm_with_cpuid(&ev, None), Ok(Virtualization::Absent));
}

#[test]
fn ordinary_cpuinfo_is_no_evidence() {
    let mut ev = VmEvidence::empty(Arch::X86);
    ev.cpuinfo = LinesRead::Lines(vec![
        "processor\t: 0".to_string(),
        "vendor_id\t: GenuineIntel".to_string(),
    ]);
    assert_eq!(vm_with_cpuid(&ev, None), Ok(Virtualization::Absent));
}

#[test]
fn cpuid_specific_identity_returns() {
    let ev = VmEvidence::empty(Arch::X86);
    assert_eq!(
        vm_with_cpuid(&ev, Some(HypervisorIdent::HyperV)),
        Ok(Virtualization::MicroSoft)
    );
    assert_eq!(vm_with_cpuid(&ev, Some(HypervisorIdent::KVM)), Ok(Virtualization::KVM));
}

#[test]
fn cpuid_unknown_identity_resolves_to_other() {
    let ev = VmEvidence::empty(Arch::X86);
    assert_eq!(
        vm_with_cpuid(&ev, Some(HypervisorIdent::Unknown(7, 8, 9))),
        Ok(Virtualization::Other)
    );
}

#[test]
fn cpuid_consulted_on_x86_only() {
    let ev = VmEvidence::empty(Arch::Arm);
    assert_eq!(vm_with_cpuid(&ev, Some(HypervisorIdent::KVM)), Ok(Virtualization::Absent));
}

#[test]
fn cpuid_beats_pending_xen_firmware_signal() {
    let mut ev = VmEvidence::empty(Arch::X86);
    ev.dmi_sys_vendor = TextRead::Text("Xen".to_string());
    assert_eq!(
        vm_with_cpuid(&ev, Some(HypervisorIdent::KVM)),
        Ok(Virtualization::KVM)
    );
}

#[test]
fn xen_feature_mask_hex_marks_dom0() {
    let mut ev = VmEvidence::empty(Arch::X86);
    ev.dmi_sys_vendor = TextRead::Text("Xen".to_string());
    ev.xen_features = TextRead::Text("0x800".to_string());
    assert_eq!(vm_with_cpuid(&ev, None), Ok(Virtualization::Absent));
}

#[test]
fn xen_feature_mask_decimal_marks_dom0() {
    let mut ev = VmEvidence::empty(Arch::X86);
    ev.dmi_sys_vendor = TextRead::Text("Xen".to_string());
    ev.xen_features = TextRead::Text("2048".to_string());
    assert_eq!(detect_xen_dom0(&ev), Ok(XenFeat::Dom0));
}

#[test]
fn xen_capabilities_control_d_marks_dom0() {
    let mut ev = VmEvidence::empty(Arch::X86);
    ev.dmi_sys_vendor = TextRead::Text("Xen".to_string());
    ev.xen_features = TextRead::Text("0".to_string());
    ev.xen_capabilities = TextRead::Text("control_d".to_string());
    assert_eq!(vm_with_cpuid(&ev, None), Ok(Virtualization::Absent));
    ev.xen_capabilities = TextRead::Text("control_d,extra".to_string());
    assert_eq!(vm_with_cpuid(&ev, None), Ok(Virtualization::Absent));
    // The capabilities line is read raw, so its trailing newline is
    // stripped before the token test.
    ev.xen_capabilities = TextRead::Text("control_d\n".to_string());
    assert_eq!(vm_with_cpuid(&ev, None), Ok(Virtualization::Absent));
}

#[test]
fn negative_feature_mask_is_unparsable() {
    // A minus-signed bitmask denotes no unsigned value: the role falls
    // back to the capabilities file.
    let mut ev = VmEvidence::empty(Arch::X86);
    ev.dmi_sys_vendor = TextRead::Text("Xen".to_string());
    ev.xen_features = TextRead::Text("-1".to_string());
    assert_eq!(detect_xen_dom0(&ev), Ok(XenFeat::Undetermined));
    ev.xen_features = TextRead::Text("  -0x800\n".to_string());
    ev.xen_capabilities = TextRead::Text("control_d".to_string());
    assert_eq!(detect_xen_dom0(&ev), Ok(XenFeat::Dom0));
}

#[test]
fn xen_domu_keeps_the_xen_answer() {
    let mut ev = VmEvidence::empty(Arch::X86);
    ev.dmi_sys_vendor = TextRead::Text("Xen".to_string());
    ev.xen_features = TextRead::Text("0".to_string());
    ev.xen_capabilities = TextRead::Text("nothing_special".to_string());
    assert_eq!(vm_with_cpuid(&ev, None), Ok(Virtualization::Xen));
}

#[test]
fn xen_role_from_parsed_bits() {
    assert_eq!(xen_role_from_bits(Some(0x800), &TextRead::Missing), Ok(XenFeat::Dom0));
    assert_eq!(xen_role_from_bits(Some(0xfff), &TextRead::Missing), Ok(XenFeat::Dom0));
    assert_eq!(xen_role_from_bits(Some(0), &TextRead::Missing), Ok(XenFeat::Undetermined));
    assert_eq!(xen_role_from_bits(None, &TextRead::Missing), Ok(XenFeat::Undetermined));
    assert_eq!(
        xen_role_from_bits(None, &TextRead::Text("control_d".to_string())),
        Ok(XenFeat::Dom0)
    );
    assert_eq!(xen_role_from_bits(None, &TextRead::Unreadable), Err(IoError));
}

#[test]
fn capabilities_fallback_without_feature_file() {
    // The Dom0 override needs no feature-bitmask file: the capabilities
    // token alone marks the privileged domain.
    let mut ev = VmEvidence::empty(Arch::X86);
    ev.dmi_sys_vendor = TextRead::Text("Xen".to_string());
    ev.xen_capabilities = TextRead::Text("control_d".to_string());
    assert_eq!(detect_xen_dom0(&ev), Ok(XenFeat::Dom0));
    assert_eq!(vm_with_cpuid(&ev, None), Ok(Virtualization::Absent));
}

#[test]
fn xen_device_node_names_xen() {
    let mut ev = VmEvidence::empty(Arch::X86);
    ev.xen_dev_present = true;
    assert_eq!(vm_with_cpuid(&ev, None), Ok(Virtualization::Xen));
}

#[test]
fn hypervisor_type_xen_line() {
    let mut ev = VmEvidence::empty(Arch::X86);
    ev.hypervisor_type = TextRead::Text("xen\n".to_string());
    assert_eq!(vm_with_cpuid(&ev, None), Ok(Virtualization::Xen));
}

#[test]
fn hypervisor_type_other_content_resolves_to_other() {
    let mut ev = VmEvidence::empty(Arch::X86);
    ev.hypervisor_type = TextRead::Text("vmware\n".to_string());
    assert_eq!(vm_with_cpuid(&ev, None), Ok(Virtualization::Other));
}

#[test]
fn device_tree_compatible_strings() {
    let mut ev = VmEvidence::empty(Arch::Arm);
    ev.dt_compatible = TextRead::Text("linux,kvm\n".to_string());
    assert_eq!(vm_with_cpuid(&ev, None), Ok(Virtualization::KVM));
    ev.dt_compatible = TextRead::Text("xen\n".to_string());
    assert_eq!(vm_with_cpuid(&ev, None), Ok(Virtualization::Xen));
    ev.dt_compatible = TextRead::Text("vmware\n".to_string());
    assert_eq!(vm_with_cpuid(&ev, None), Ok(Virtualization::VMware));
    ev.dt_compatible = TextRead::Text("mystery\n".to_string());
    assert_eq!(vm_with_cpuid(&ev, None), Ok(Virtualization::Other));
}

#[test]
fn device_tree_ignored_on_x86() {
    let mut ev = VmEvidence::empty(Arch::X86);
    ev.dt_compatible = TextRead::Text("linux,kvm\n".to_string());
    assert_eq!(vm_with_cpuid(&ev, None), Ok(Virtualization::Absent));
}

#[test]
fn device_tree_powervm_trio() {
    let mut ev = VmEvidence::empty(Arch::PowerPc);
    ev.dt_partition_name_present = true;
    ev.dt_hmc_managed_present = true;
    ev.dt_qemu_graphic_width_present = true;
    assert_eq!(vm_with_cpuid(&ev, None), Ok(Virtualization::PowerVM));
    ev.dt_hmc_managed_present = false;
    assert_eq!(vm_with_cpuid(&ev, None), Ok(Virtualization::Absent));
}

#[test]
fn device_tree_firmware_entry_names_qemu() {
    let mut ev = VmEvidence::empty(Arch::Arm);
    ev.dt_root = DirRead::Entries(vec![
        "/proc/device-tree/chosen".to_string(),
        "/proc/device-tree/fw-ctf@0".to_string(),
    ]);
    assert_eq!(vm_with_cpuid(&ev, None), Ok(Virtualization::QEMU));
    ev.dt_root = DirRead::Entries(vec!["/proc/device-tree/chosen".to_string()]);
    assert_eq!(vm_with_cpuid(&ev, None), Ok(Virtualization::Absent));
}

#[test]
fn zvm_control_program_line() {
    let mut ev = VmEvidence::empty(Arch::S390);
    ev.sysinfo = LinesRead::Lines(vec![
        "Manufacturer:         IBM".to_string(),
        "VM00 Control Program: z/VM    7.2.0".to_string(),
    ]);
    assert_eq!(vm_with_cpuid(&ev, None), Ok(Virtualization::ZVM));
}

#[test]
fn s390_sysinfo_without_zvm_names_kvm() {
    let mut ev = VmEvidence::empty(Arch::S390);
    ev.sysinfo = LinesRead::Lines(vec!["VM00 Control Program: KVM/Linux".to_string()]);
    assert_eq!(vm_with_cpuid(&ev, None), Ok(Virtualization::KVM));
}

#[test]
fn sysinfo_ignored_off_s390() {
    let mut ev = VmEvidence::empty(Arch::X86);
    ev.sysinfo = LinesRead::Lines(vec!["VM00 Control Program: z/VM 7.2".to_string()]);
    assert_eq!(vm_with_cpuid(&ev, None), Ok(Virtualization::Absent));
}
