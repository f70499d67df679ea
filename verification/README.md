# nvme_driver

A verified NVM Express driver core for the zCore kernel.

- `src/queue.rs`: submission/completion queue bookkeeping (`NvmeQueue`).
- `src/dev.rs`: the device with its admin and I/O queues (`NvmeDev`).
- `src/driver.rs`: the `Provider` services of the kernel and the admin queue DMA memory (`Nvme`).
- `src/interface.rs`: controller registers, commands, the admin queue setup and the block interface
  (`NvmeInterface`). Block I/O runs in steps: `write_block` hands back the Write command and its
  payload, `read_command` the Read command, and `read_block` takes what the controller transferred;
  `app/` moves the bytes and rings the doorbells.
- `src/layout.rs`: the byte layout of the commands.
- `app/`: kernel glue that is not verified: the C ABI of the kernel, the volatile
  queue memory and the register writes themselves.
