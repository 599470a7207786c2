# vmm_aarch64

Architecture support for running aarch64 micro virtual machines on KVM, written in
[Verus](https://github.com/verus-lang/verus): what the library does is stated in the contracts of
its functions and proved.

| module | what it holds |
| --- | --- |
| `layout`, `memory`, `regions` | the guest physical memory layout, guest memory as a list of regions, and where DRAM, the kernel, the device tree and an initrd go |
| `cpu_template`, `features` | CPU templates, the initialization features of the vCPUs and the boot mode that they select |
| `regs`, `saved_counters` | saved vCPU registers, and how the counters in them are moved back to the pause point of a snapshot |
| `counter_io`, `counter` | the VM-wide generic-counter domain: its states, its offset, and what a guest sees of time |
| `restore_operations`, `lifecycle` | the order in which vCPUs, devices and the counter are paused, resumed and restored |
| `kvm`, `errno` | numbers and answers of KVM and of the operating system |
| `clidr_registers`, `clidr` | the cache level register of the guest |
| `boot` | the steps of configuring a system for booting Linux |
| `vm` | a virtual machine, its interrupt controller and its snapshot state |
| `error` | the errors of all of these |

Facts that hold of the library as a whole are proof functions whose names start with `law_`, at the
end of the module that they are about. A few of them:

- a restored guest continues at the counter at which it was paused
  (`vm::law_a_restored_guest_continues_where_it_was_paused`);
- a pause is invisible to the guest (`counter::law_a_pause_is_invisible`);
- a faulted counter stays faulted and refuses every request (`counter::law_a_fault_is_final`);
- the memory of a guest never overlaps the 64-bit MMIO gap (`regions::law_ranges_avoid_the_gap`).

Operations on KVM, on files and on mapped memory are handed to the library as functions, or as
implementations of `counter_io::CounterIo`. Where such an operation can be called more than once, it
is held by a log (`CounterLog`, `ClidrRegisters`, `RestoreOperations`) through which every call goes,
and the contracts say which calls are made, in which order and how often. An operation that is handed
over for one call may be called only where its own contract permits it, and the contracts of
`lifecycle` ask for no more than that those before it have succeeded. `app/` has the operations and
the types that are serialized or displayed; `tests/` has the tests.
