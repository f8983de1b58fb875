# lower_triangular_correlate

Fuses elementwise tensor operations into a row-wise lower-triangular correlation kernel.
The decisions and the kernel's loops are written and proved in Verus; the device, the traces
that record operations and the floating-point arithmetic belong to the host. The loops that
run on the device are those of `app/kernel.rs`, written for the device compiler and not
verified; `src/kernel.rs` holds the same loops with their proof.

- `src/ir.rs`, `src/settings.rs`: what the decisions read of operations and traces.
- `src/fuser.rs`: which operations join the kernel. For each operation the fuser gives
  commands for the two traces of the host and takes the answers.
- `src/optimization.rs`: the fused operation, its launches, its fallback, its saved form.
- `src/kernel.rs`: one unit of the kernel, over any arithmetic.
- `src/laws.rs`: what holds across these parts.
- `app/`: the host side: the fusion runtime's trait, the device client, the device kernel.

One function of `src/` is trusted: `wider_address_type` calls `cubecl`.
