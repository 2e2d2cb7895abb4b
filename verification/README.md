# rust_td

Verified core of a TDX (Trust Domain Extensions) shim and payload.

- `src/ipl.rs`: EFI page/size conversion, the processor's physical address width from
  CPUID answers, the working memory size, and the choice of payload loader.
- `src/mp.rs`: the plan of pages to accept for a memory range, chunk by chunk.
- `src/tcg.rs`: the PCR to RTMR mapping, SHA-384 measurement (through `ring`) and the
  TCG event header.
- `src/tdx.rs`: operands of each TDCALL/TDVMCALL request and the meaning of the statuses.
- `src/payload.rs`: where the payload heap lies.

`app/` holds the unverified glue: the TDCALL/TDVMCALL assembly entry points, CPUID,
logging, the heap allocator, and traits for the firmware's own HOB, firmware-volume and
image-loader code.
