# audio_latency_tester

A tool that plays a short sample the moment a trigger key is pressed, to
measure the audio output latency of a Linux machine (ALSA or PipeWire).

- `src/` is the verified library:
  - `actor`: the commands an audio actor receives;
  - `config`: configuration values, with the checks on sample rates
    (through the `resampler` crate) and key names (through `evdev`);
  - `sample::fileloader`: which WAV files are accepted, damaged frames,
    the resampling decision;
  - `audio::playback`: the playback engine driven by the message loop and
    the output callback, with its laws;
  - `audio::alsa`, `audio::pipewire`: buffer sizes, the `node.latency`
    text written and read back, chunk sizes;
  - `trigger::evdev`: key presses to `Play` commands;
  - `error`: error values.
- `app/` is the program: configuration file, WAV decoding to `f32`,
  resampling, the cpal and PipeWire streams, the input device loop.
- `tests/` exercise the library on concrete values.
