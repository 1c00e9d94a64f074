# volumecontrol

Volume control for audio output devices, with a PulseAudio (`linux`), a
CoreAudio (`macos`) and a WASAPI (`wasapi`) backend behind one
`AudioDevice` interface.

- `src/` is the verified library. Each backend's device type answers every
  operation of the interface with `AudioError::Unsupported` when no platform
  service is linked in. Beside it stand the backend's decisions, each with a
  contract: reading CoreAudio object identifiers from their decimal text and
  back, opening a device by identifier or as the default, the name search and
  the device listing (`macos`), the wide string of an endpoint identifier, the
  case-insensitive name search, the volume clamp, the Win32 mute values and
  the meaning of each COM failure (`wasapi`), and devices made from sink
  snapshots (`linux`).
- `app/` holds the WASAPI driver: the COM calls, the floating-point volume
  scale, and an `AudioDevice` implementation that hands every decision to the
  library.
- `tests/` runs the library on concrete values.
