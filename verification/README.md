# wavelet_audio

Audio analysis with generalized Morse wavelets, split in two:

- `src/` is the verified library (Verus). It holds the integer and text
  decisions of the tool: which uploads the scalogram
  service accepts and how each failure is answered (`service`, `audio`),
  which directory entries are audio files, how a file name splits into stem
  and extension, which track of a container is decoded and what metadata a
  stream reports (`source`), the transform configuration (`transform`), the
  normalization metrics (`wavelet`), and the text helpers they share (`text`).
- `app/` is the program around it (the scalogram service's gRPC shell is
  not part of it: its types come from a protocol file this project lacks): the command line, directory listing and
  container decoding with symphonia, the floating-point wavelet formulas, and
  the calls into the embedded Python interpreter.

`tests/` runs the library on concrete values.
