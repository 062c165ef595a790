# vulkan_setup

The setup decisions of a Vulkan renderer, verified with Verus.

- `src/` is the library: the device check and choice of the physical device
  (`device`), the instance plan (`initialization`), the camera steps that held
  keys call for (`input`), buffer sizes (`memory`), name lists (`names`), and the
  trusted wrappers around `vulkanalia` (`vulkan`).
- `app/` makes the Vulkan, window and input calls, converts the driver's answers
  into the library's plain values, and holds the floating-point camera.
- `tests/` runs the library on concrete values.
