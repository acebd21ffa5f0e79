# hda_nostd

A driver for Intel High Definition Audio controllers whose decisions are proved
with Verus against their contracts.

The library never touches the hardware itself. Every procedure that talks to the
controller is a value: a register script (`script::Instr`) or a state machine
that asks for one access (`script::HwOp`) at a time and takes back the value
read. The caller performs the accesses; `app/` does so on a memory-mapped
controller.

## Layout

| Path | What it holds |
|------|---------------|
| `src/registers.rs` | Register offsets and bit fields, stream descriptor offsets |
| `src/script.rs` | Hardware accesses, register scripts and the machine that runs them |
| `src/codec.rs` | Verb encoding, CORB/RIRB ring state, verb exchanges, scripts that send verbs |
| `src/widget.rs` | Widget types, pin configuration, codec discovery and widget probing, output path search |
| `src/stream.rs` | Stream formats, BDL entries, stream programming, PCM buffers, tone generator |
| `src/driver.rs` | Controller capabilities, reset, output path selection, playback plans, volume |
| `src/init.rs` | The whole controller bring-up as one state machine |
| `tests/` | Tests, among them a simulated controller that runs a bring-up and a playback |
| `app/lib.rs` | MMIO and DMA accesses, and the loops that drive the machines on real hardware |

## Using it

```rust,ignore
let mut ctrl = unsafe { app::init_controller(bar0) }.expect("HDA init failed");
if let Some(mut out) = ctrl.output() {
    unsafe { app::beep(&mut out, 440, 500) }.ok();
}
```
