# scrcap

A screen capture crate for Windows, macOS and Linux, whose decisions are verified with Verus.

A capture is a configuration and a stream of frames. Between the two stand the calls into the
platform, and around them everything that has to be decided or computed: what a configuration asks
for, how a capture is set up and taken down again, which frames a cap on the frame rate lets
through, and how the buffers of the platform become frames. The library in `src/` holds the latter
as functions and state machines on plain values, each with a contract that Verus proves. The calls
themselves are in `app/`, which performs what the library asks for and reports what came of it.

## Layout

- `src/config.rs`, `src/error.rs`, `src/format.rs`, `src/frame.rs`: configuration, errors, formats
  and frames.
- `src/fps.rs`: the cap on the frame rate, with the laws it keeps: what gets through never exceeds
  the cap, a slower source loses nothing, a faster source is not thinned out below the cap, and
  timestamps that never go back still do not.
- `src/util.rs`: taking the padding off rows.
- `src/linux/`: the conversation with the ScreenCast portal, and the streams of PipeWire.
- `src/macos/`: setting up a stream of ScreenCaptureKit, and its samples.
- `src/windows/`: setting up Windows.Graphics.Capture, hiding windows from it, and the packets of
  WASAPI.
- `src/pattern.rs`: finding a window by its title, with the regex crate.
- `src/dummy.rs`: a capture of noise, with the rand crate.
- `src/scrframe/`: frames for encoders that name formats by their ffmpeg ids.
- `src/muxed/`: capture with video and audio over one channel, in such frames.
- `src/text.rs`: numbers in error messages.
- `tests/`: tests of the library.
- `app/`: the capture itself, on the platform it is built for.

## What is trusted

Verus proves the contracts of the library from those of the functions it calls outside itself.
These are believed: `regex::Regex::new` (but nothing of which patterns exceed its limit on the size
of a compiled regex) and `is_match`, `SmallRng::from_seed` and `random` of the rand crate (which
seed a generator has and that bytes are drawn from it, but nothing of its numbers), `String::push`
and `String::from_utf16_lossy` of std. Each says in its doc comment what it claims.
