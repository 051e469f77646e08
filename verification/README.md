# no_graphics

An explicit graphics API on Vulkan, with its decisions verified by Verus.

- `src/` is the library. It decides which memory a resource gets, what is recorded and submitted,
  when a command context can be used again, how a swapchain is replaced, and when what is no longer
  needed can be destroyed. It makes no Vulkan call: operations return the calls to make and take the
  driver's answers as plain values. Handles are `u64`, result codes `i32`, and floating-point
  numbers stand by their bits.
- `app/` makes the calls. It opens Vulkan through `ash`, presents to windows of `winit`, and hands
  the answers back to the library. Calls of extensions that `ash` has no bindings for come in
  through the trait `Extensions`.
- `tests/` runs the library on concrete values and holds its constants against those of `ash`.

Where to start reading in `src/`: `device.rs`, `frame.rs` and `shutdown.rs` hold the operations of a
device; `commands.rs`, `deferred.rs`, `present.rs` and `swapchain.rs` hold the models that their
contracts speak of; `inspect.rs`, `probe.rs`, `setup.rs` and `replace.rs` are sequences of questions
to the driver.
