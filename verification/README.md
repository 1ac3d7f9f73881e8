# ffav

Handles, flag sets and error decoding for the FFmpeg libraries, verified
with Verus.

- `src/` is the verified library. It knows every FFmpeg object by the
  address of its C struct and decides what FFmpeg's answers mean: which
  status codes are errors and which `AvError` each stands for
  (`AvError::from`, `check_status`, `check_non_negative`), when an
  allocation or lookup failed (`from_raw`), which stream an index names
  (`AvFormatContext::stream`), where a codec's list of pixel formats ends
  (`codec::push_pix_fmt`), when a frame-rate guess is no guess, how a format
  context is released (`ContextType::format_release`), and which flags a
  bit pattern holds (the `*Flags` types).
- `app/` makes the FFmpeg calls through the FFmpeg C bindings: extension
  traits give the handles their methods, `Guard` releases objects, and its
  `AvError` shows the messages of `ffav::AvError::message` and carries the
  `std::io::Error` of system errors.
- `tests/` runs the library on concrete values.
