//! Verified device models for a virtual machine monitor.

pub mod bytes;
pub mod gic;
pub mod pci_address;
pub mod pcie;
pub mod pcie_port;
pub mod pcie_rp;
pub mod text;
pub mod virtio;
pub mod block_common;
pub mod block_worker;
pub mod block;
pub mod block_async;
pub mod irq_route;
pub mod kvm_irqchip;
pub mod hvf;
pub mod ac97_regs;
pub mod ac97_bus_master;
pub mod ac97;
pub mod vfio_pci;
pub mod virtio_pci_device;
pub mod gdbreply;
pub mod gdbstub;
pub mod vhost_user_blk;
pub mod balloon;
pub mod passthrough_fs;
pub mod future_slab;
pub mod gpu_display;
pub mod pci_hotplug;
pub mod acpi;
pub mod disk_ops;
pub mod fixture;
pub mod fuzz_input;
pub mod net;
pub mod snd;
pub mod vhost_user_backend;
pub mod vsock;
