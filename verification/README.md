# vmm_devices

Device models of a virtual machine monitor, verified with Verus. What a device
decides is a function with a contract; what it asks of the host (reading a file,
signalling an event, mapping memory) is handed back as a value, and the host's
answer comes in as an argument.

Interrupts
: `gic`, `hvf` (a GICv3 in software), `irq_route`, `kvm_irqchip` (chips that share
  their work with the kernel)

PCI
: `pci_address`, `pcie`, `pcie_port`, `pcie_rp` (ports with hot plug),
  `pci_hotplug` (devices that are plugged), `vfio_pci` (devices of the host),
  `virtio_pci_device` (the transport of virtio devices), `ac97`, `ac97_regs`,
  `ac97_bus_master` (sound)

Virtio
: `virtio`, `block`, `block_async`, `block_common`, `block_worker`, `balloon`,
  `net`, `snd`, `vsock`, `passthrough_fs`, `vhost_user_blk`, `vhost_user_backend`

Debugger
: `gdbreply`, `gdbstub`

Display
: `gpu_display`

Others
: `future_slab`, `disk_ops`, `acpi`, `fixture`, `fuzz_input`, and the helpers
  `bytes` and `text`

Laws that relate several functions are public proof functions at the end of the
module they are about. `app/` holds what talks to the host: files, directories,
futures, sockets and command lines.
