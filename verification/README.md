# tracked_devices

Bookkeeping of the tracked devices (headset, controllers, generic trackers) that
an OpenVR application sees when its input comes from an OpenXR runtime, verified
with Verus.

- `src/vr.rs`, `src/hand.rs`, `src/profiles.rs`, `src/xdev.rs`, `src/pose.rs`: the
  values that devices are described with
- `src/device.rs`: one tracked device: its pose cache, connection and properties
- `src/list.rs`: the list of devices, and how generic trackers enter it
- `src/input.rs`: the questions that OpenVR asks by device index or by hand
- `src/laws.rs`: what holds across several calls
- `app/`: the OpenXR calls, locks and floating-point conversions around it
- `tests/`: the library on concrete values

Whatever only the runtime can tell is handed to the library as a function that the
caller supplies; the contracts say what it is asked and what is made of its reply.
