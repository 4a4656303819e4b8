# libraw_rs

A binding to [LibRaw](https://www.libraw.org/), the library that reads and
develops camera RAW files, whose decisions are proved correct.

- `src/` is the verified library. It maps LibRaw's error codes to `Error` and
  gives each error its text; holds the output parameters with their defaults
  and chainable setters; holds the metadata records and reads their C text
  fields; holds in-memory images; decides the outcome of LibRaw's image and
  thumbnail calls; and runs the plans of calls behind the high-level operations
  (open, develop, convert to TIFF), stopping at the first call that fails.
  Floating-point values are held as their IEEE-754 bit patterns.
- `app/` is the part that talks to LibRaw's C library: the context that owns
  LibRaw's state, every C call, callbacks, file output, `f32`/`f64` views of
  the floating-point fields, and an error type with `Display` and
  `std::error::Error`. Its `sys` module needs the type definitions of
  LibRaw's headers for the nested structures it does not spell out.
- `tests/` exercises the library on concrete values.
