# auto-launcher

Launching applications at login, on Linux, macOS and Windows, verified with Verus.

The library decides what an operation does and leaves the doing to its caller. `enable`, `disable`
and the questions (`is_enabled`, `is_registration_owned`, `get_registered_app_path`) give a step,
such as reading a file or setting a registry value. The method that goes with the step takes the
host's answer and gives the next step, until one says how the operation ended.

- `src/linux.rs`, `src/macos.rs`, `src/windows.rs`: an `AutoLaunch` for each platform.
- `src/linux_laws.rs`, `src/macos_laws.rs`, `src/windows_laws.rs`: what is proved of its operations
  together.
- `src/host.rs`, `src/property_list.rs`: paths, the home directory, decoding, property lists.
- `src/text.rs`: lines, words and fields.
- `src/error.rs`: what can go wrong.
- `app/`: carries the steps out.

What is believed without proof is marked `external_body` or `assume_specification`, with a comment
that says what is claimed.
