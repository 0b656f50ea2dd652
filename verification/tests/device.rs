use supergfxctl::pci_device::get_parent;
use supergfxctl::pci_device::lscpi_dgpu_check;
use supergfxctl::pci_device::probe_is_dgpu;
use supergfxctl::pci_device::rescan_pci_bus;
use supergfxctl::pci_device::vfio_driver_ops;
use supergfxctl::pci_device::Device;
use supergfxctl::pci_device::DiscreetGpu;
use supergfxctl::pci_device::DriverAction;
use supergfxctl::pci_device::GfxPower;
use supergfxctl::pci_device::GfxVendor;
use supergfxctl::pci_device::HotplugState;
use supergfxctl::pci_device::PciProbe;
use supergfxctl::pci_device::RuntimePowerManagement;
use supergfxctl::special_asus::AsusGfxState;

fn device(name: &str, is_dgpu: bool, bound: bool) -> Device {
    Device {
        dev_path: format!("/sys/bus/pci/devices/{}", name),
        hotplug_path: if is_dgpu {
            Some(format!("/sys/bus/pci/slots/1/power"))
        } else {
            None
        },
        vendor: GfxVendor::Nvidia,
        is_dgpu,
        name: String::from(name),
        pci_id: String::from("10DE:25A0"),
        driver_path: if bound {
            Some(String::from("/sys/bus/pci/drivers/nvidia"))
        } else {
            None
        },
    }
}

fn registry(devices: Vec<Device>) -> DiscreetGpu {
    DiscreetGpu::new(devices, &AsusGfxState::absent())
}

fn probe(sysname: &str, pci_id: &str, class: &str) -> PciProbe {
    PciProbe {
        sysname: String::from(sysname),
        pci_id: String::from(pci_id),
        pci_class: String::from(class),
        syspath: format!("/sys/bus/pci/devices/{}", sysname),
        displays: Vec::new(),
        hwmon_has_in1_input: None,
        model_label: None,
        lspci_label: String::new(),
        slot_power_path: None,
        driver_path: None,
    }
}

#[test]
fn unbind_remove_walks_devices_in_reverse() {
    let gpu = registry(vec![
        device("0000:01:00.0", true, true),
        device("0000:01:00.1", false, true),
        device("0000:01:00.2", false, true),
    ]);
    let writes = gpu.unbind_remove().unwrap();
    let paths: Vec<String> = writes.iter().map(|w| w.path.clone()).collect();
    assert_eq!(
        paths,
        vec![
            String::from("/sys/bus/pci/drivers/nvidia/unbind"),
            String::from("/sys/bus/pci/drivers/nvidia/unbind"),
            String::from("/sys/bus/pci/drivers/nvidia/unbind"),
            String::from("/sys/bus/pci/devices/0000:01:00.2/remove"),
            String::from("/sys/bus/pci/devices/0000:01:00.1/remove"),
            String::from("/sys/bus/pci/devices/0000:01:00.0/remove"),
        ]
    );
    // The unbind data carries the kernel names, latest function first
    let data: Vec<String> = writes.iter().take(3).map(|w| w.data.clone()).collect();
    assert_eq!(
        data,
        vec![
            String::from("0000:01:00.2"),
            String::from("0000:01:00.1"),
            String::from("0000:01:00.0"),
        ]
    );
}

#[test]
fn unbind_skips_devices_without_a_driver() {
    let gpu = registry(vec![
        device("0000:01:00.0", true, true),
        device("0000:01:00.1", false, false),
    ]);
    let writes = gpu.unbind().unwrap();
    assert_eq!(writes.len(), 1);
    assert_eq!(writes[0].data, "0000:01:00.0");
}

#[test]
fn unbind_without_vendor_is_not_supported() {
    let gpu = registry(vec![device_with_vendor(GfxVendor::Unknown)]);
    assert!(matches!(
        gpu.unbind(),
        Err(supergfxctl::error::GfxError::NotSupported(_))
    ));
}

fn device_with_vendor(vendor: GfxVendor) -> Device {
    let mut d = device("0000:01:00.0", true, true);
    d.vendor = vendor;
    d
}

#[test]
fn registry_tracks_the_last_dgpu() {
    let gpu = registry(vec![
        device("0000:01:00.0", false, true),
        device("0000:01:00.1", true, true),
    ]);
    assert_eq!(gpu.dgpu_index, 1);
    assert_eq!(gpu.vendor(), GfxVendor::Nvidia);
    assert!(gpu.is_nvidia());
    assert!(!gpu.is_amd());
    assert!(!gpu.is_intel());
    assert_eq!(gpu.devices().len(), 2);
}

#[test]
fn empty_registry_reports_asus_acpi_state() {
    let mut asus = AsusGfxState::absent();
    asus.dgpu_disable_exists = true;
    asus.dgpu_disabled = true;
    let gpu = DiscreetGpu::new(Vec::new(), &asus);
    assert_eq!(gpu.vendor(), GfxVendor::AsusDgpuDisabled);

    let mut asus = AsusGfxState::absent();
    asus.gpu_mux_exists = true;
    asus.gpu_mux_discreet = true;
    let gpu = DiscreetGpu::new(Vec::new(), &asus);
    assert_eq!(gpu.vendor(), GfxVendor::Nvidia);

    let gpu = DiscreetGpu::new(Vec::new(), &AsusGfxState::absent());
    assert_eq!(gpu.vendor(), GfxVendor::Unknown);
}

#[test]
fn runtime_status_reads_the_dgpu_node() {
    let gpu = registry(vec![device("0000:01:00.0", true, true)]);
    let asus = AsusGfxState::absent();
    assert_eq!(
        gpu.get_runtime_status(&asus, Some("suspended\n")).unwrap(),
        GfxPower::Suspended
    );
    assert_eq!(gpu.get_runtime_status(&asus, None).unwrap(), GfxPower::Off);
    let empty = DiscreetGpu::new(Vec::new(), &asus);
    assert!(empty.get_runtime_status(&asus, None).is_err());
}

#[test]
fn set_runtime_pm_writes_each_power_control() {
    let gpu = registry(vec![
        device("0000:01:00.0", true, true),
        device("0000:01:00.1", false, true),
    ]);
    let writes = gpu.set_runtime_pm(RuntimePowerManagement::Auto).unwrap();
    assert_eq!(writes.len(), 2);
    assert_eq!(
        writes[0].path,
        "/sys/bus/pci/devices/0000:01:00.0/power/control"
    );
    assert_eq!(writes[0].data, "auto");
    assert_eq!(
        writes[1].path,
        "/sys/bus/pci/devices/0000:01:00.1/power/control"
    );
}

#[test]
fn set_hotplug_targets_the_dgpu_slot() {
    let gpu = registry(vec![
        device("0000:01:00.1", false, true),
        device("0000:01:00.0", true, true),
    ]);
    let w = gpu.set_hotplug(HotplugState::Off).unwrap();
    assert_eq!(w.path, "/sys/bus/pci/slots/1/power");
    assert_eq!(w.data, "0");
    let w = gpu.set_hotplug(HotplugState::On).unwrap();
    assert_eq!(w.data, "1");
}

#[test]
fn nvidia_driver_ops_load_in_order_remove_in_reverse() {
    let gpu = registry(vec![device("0000:01:00.0", true, true)]);
    let load = gpu.do_driver_action(DriverAction::Load);
    let names: Vec<&str> = load.iter().map(|o| o.module.as_str()).collect();
    assert_eq!(names, vec!["nvidia_drm", "nvidia_modeset", "nvidia_uvm", "nvidia"]);
    let remove = gpu.do_driver_action(DriverAction::Remove);
    let names: Vec<&str> = remove.iter().map(|o| o.module.as_str()).collect();
    assert_eq!(names, vec!["nvidia", "nvidia_uvm", "nvidia_modeset", "nvidia_drm"]);
    let amd = registry(vec![device_with_vendor(GfxVendor::Amd)]);
    assert!(amd.do_driver_action(DriverAction::Load).is_empty());
}

#[test]
fn vfio_ops_load_one_remove_all() {
    let load = vfio_driver_ops(DriverAction::Load);
    assert_eq!(load.len(), 1);
    assert_eq!(load[0].module, "vfio-pci");
    let remove = vfio_driver_ops(DriverAction::Remove);
    let names: Vec<&str> = remove.iter().map(|o| o.module.as_str()).collect();
    assert_eq!(names, vec!["vfio_pci", "vfio_iommu_type1", "vfio"]);
}

#[test]
fn rescan_write_targets_the_bus() {
    let w = rescan_pci_bus();
    assert_eq!(w.path, "/sys/bus/pci/rescan");
    assert_eq!(w.data, "1");
}

#[test]
fn needs_rediscovery_when_no_dgpu_is_tracked() {
    let gpu = registry(vec![device("0000:01:00.0", false, true)]);
    assert!(gpu.needs_rediscovery());
    let gpu = registry(Vec::new());
    assert!(gpu.needs_rediscovery());
    let gpu = registry(vec![device("0000:01:00.0", true, true)]);
    assert!(!gpu.needs_rediscovery());
}

#[test]
fn send_detach_event_writes_the_card_uevent() {
    let gpu = registry(vec![device("0000:01:00.0", true, true)]);
    let w = gpu
        .send_detach_event("/sys/class/drm/card1")
        .unwrap();
    assert_eq!(w.path, "/sys/class/drm/card1/uevent");
    assert_eq!(w.data, "remove");
    let none = registry(vec![device("0000:01:00.0", false, true)]);
    assert!(none.send_detach_event("/sys/class/drm/card1").is_none());
}

#[test]
fn device_write_plans_use_their_paths() {
    let d = device("0000:01:00.0", true, true);
    let w = d.remove();
    assert_eq!(w.path, "/sys/bus/pci/devices/0000:01:00.0/remove");
    assert_eq!(w.data, "1");
    let w = d.unbind().unwrap();
    assert_eq!(w.path, "/sys/bus/pci/drivers/nvidia/unbind");
    assert_eq!(w.data, "0000:01:00.0");
    let unbound = device("0000:01:00.0", true, false);
    assert!(unbound.unbind().is_none());
    let w = d.set_runtime_pm(RuntimePowerManagement::Off);
    assert_eq!(w.path, "/sys/bus/pci/devices/0000:01:00.0/power/control");
    assert_eq!(w.data, "off");
    let w = d.set_hotplug(HotplugState::On).unwrap();
    assert_eq!(w.path, "/sys/bus/pci/slots/1/power");
    assert_eq!(w.data, "1");
}

#[test]
fn power_parse_accepts_case_and_whitespace() {
    assert_eq!(GfxPower::from_name("active\n"), GfxPower::Active);
    assert_eq!(GfxPower::from_name("  Suspended "), GfxPower::Suspended);
    assert_eq!(GfxPower::from_name("OFF"), GfxPower::Off);
    assert_eq!(GfxPower::from_name("dgpu_disabled"), GfxPower::AsusDisabled);
    assert_eq!(GfxPower::from_name("asus_mux_discreet"), GfxPower::AsusMuxDiscreet);
    assert_eq!(GfxPower::from_name("resuming"), GfxPower::Unknown);
    assert_eq!(GfxPower::from_name(""), GfxPower::Unknown);
}

#[test]
fn hotplug_parse_only_one_is_on() {
    assert_eq!(HotplugState::from_name("1\n"), HotplugState::On);
    assert_eq!(HotplugState::from_name("0"), HotplugState::Off);
    assert_eq!(HotplugState::from_name("anything"), HotplugState::Off);
}

#[test]
fn vendor_from_ids() {
    assert_eq!(GfxVendor::from(0x10DEu16), GfxVendor::Nvidia);
    assert_eq!(GfxVendor::from(0x1002u16), GfxVendor::Amd);
    assert_eq!(GfxVendor::from(0x8086u16), GfxVendor::Intel);
    assert_eq!(GfxVendor::from(0x1234u16), GfxVendor::Unknown);
    assert_eq!(GfxVendor::from_id_str("10DE"), GfxVendor::Nvidia);
    assert_eq!(GfxVendor::from_id_str("0x1002"), GfxVendor::Amd);
    assert_eq!(GfxVendor::from_id_str("8086"), GfxVendor::Intel);
    assert_eq!(GfxVendor::from_id_str("ffff"), GfxVendor::Unknown);
}

#[test]
fn dgpu_label_fragments() {
    assert!(lscpi_dgpu_check("NVIDIA Corporation GA107M [GeForce RTX 3050 Mobile]"));
    assert!(lscpi_dgpu_check("Advanced Micro Devices [AMD/ATI] Navi"));
    assert!(lscpi_dgpu_check("Radeon RX 6800M"));
    assert!(lscpi_dgpu_check("Quadro T2000"));
    assert!(lscpi_dgpu_check("T1200 Laptop GPU"));
    assert!(!lscpi_dgpu_check("Intel Corporation UHD Graphics"));
    assert!(!lscpi_dgpu_check(""));
}

#[test]
fn parent_strips_function_digits() {
    assert_eq!(get_parent("0000:01:00.0"), "0000:01:00");
    assert_eq!(get_parent("0000:01:00.1"), "0000:01:00");
    assert_eq!(get_parent("0000:01:00"), "0000:01:");
}

#[test]
fn classify_by_class_without_edp() {
    let p = probe("0000:01:00.0", "10DE:25A0", "30000");
    assert!(probe_is_dgpu(&p));
    let mut igpu = probe("0000:00:02.0", "8086:46A6", "30000");
    igpu.displays.push(String::from("eDP-1"));
    assert!(!probe_is_dgpu(&igpu));
}

#[test]
fn classify_amd_by_hwmon_probe() {
    let mut p = probe("0000:03:00.0", "1002:73DF", "38000");
    p.hwmon_has_in1_input = Some(false);
    assert!(probe_is_dgpu(&p));
    p.hwmon_has_in1_input = Some(true);
    assert!(!probe_is_dgpu(&p));
}

#[test]
fn classify_by_model_label_as_last_resort() {
    let mut p = probe("0000:01:00.0", "10DE:25A0", "38000");
    p.model_label = Some(String::from("GA107M [GeForce RTX 3050 Mobile]"));
    assert!(probe_is_dgpu(&p));
    p.model_label = None;
    p.lspci_label = String::from("GeForce RTX 3050");
    assert!(probe_is_dgpu(&p));
    p.lspci_label = String::from("some bridge");
    assert!(!probe_is_dgpu(&p));
}

#[test]
fn find_groups_dgpu_with_its_functions_and_stops_outside() {
    let dgpu = probe("0000:01:00.0", "10DE:25A0", "30000");
    let audio = probe("0000:01:00.1", "10DE:2291", "40300");
    let mut outside = probe("0000:02:00.0", "1002:1638", "30000");
    outside.displays.push(String::from("eDP-1"));
    outside.hwmon_has_in1_input = Some(true);
    let devices = Device::find(&vec![dgpu, audio, outside]).unwrap();
    assert_eq!(devices.len(), 2);
    assert!(devices[0].is_dgpu());
    assert_eq!(devices[0].name, "0000:01:00.0");
    assert!(!devices[1].is_dgpu());
    assert_eq!(devices[1].name, "0000:01:00.1");
    assert_eq!(devices[0].vendor(), GfxVendor::Nvidia);
    assert_eq!(devices[0].pci_id(), "10DE:25A0");
}

#[test]
fn find_without_any_dgpu_is_an_error() {
    let mut igpu = probe("0000:00:02.0", "1002:1638", "30000");
    igpu.displays.push(String::from("eDP-1"));
    igpu.hwmon_has_in1_input = Some(true);
    let r = Device::find(&vec![igpu]);
    assert!(matches!(r, Err(supergfxctl::error::GfxError::DgpuNotFound)));
    let r = Device::find(&Vec::new());
    assert!(matches!(r, Err(supergfxctl::error::GfxError::DgpuNotFound)));
}
