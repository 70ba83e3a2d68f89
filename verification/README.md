# embclox

A verified core for small x86_64 kernels that run under QEMU and Hyper-V: the
hardware abstraction (PCI, local APIC, interrupt vectors, per-CPU state,
alarms, application processors), Hyper-V's VMBus and its synthetic network
adapter, an e1000 and a tulip driver, the driver registry with its probe loop,
and the boot order of the kernels.

`src/` is the library. Every function in it is verified with Verus. It does not
touch hardware:

- Registers are reached through `regs::RegisterAccess`, by way of
  `regs::Traced`, so that a contract can say which accesses are made and in
  which order.
- Conversations with the host (VMBus and NetVSC bring-up, waiting for a message,
  booting, echoing) are state machines: each says what is to be done next, and
  goes on from what came of it. The laws about whole conversations stand beside
  the machines.
- What a platform does for a driver goes through `driver::drivers::NicHost`, by
  way of `Hosted`, which records it for the contracts.

`app/` is ordinary Rust around the library: ports, MSRs, device memory,
interrupt handlers, the bootloader's responses, and the embassy executor and
network stack. The parts of a machine that differ from board to board come in
through the traits in `app/board.rs`.

`tests/` runs the library on register files and hosts that only exist in memory.

A few functions of other crates are called from verified code through wrappers
whose contracts are taken on trust: `spin::Once`, `heapless::Vec`,
`core::task::Waker`, `String::push`, equality of strings, and the `cpuid`
instruction. Each wrapper says what it claims.
