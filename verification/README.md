# linux_screenshot

Screenshots of a Linux desktop, taken through GNOME Shell's D-Bus service and, where
that fails, through the XDG desktop portal. An area that GNOME Shell does not take is
cut out of a screenshot of the full screen.

`src/` is a library verified with Verus:

- `area`: validation of areas, and clipping them to an image
- `png_header`: the size in the header of a PNG file
- `image`, `crop`: cropping pixels and PNG files
- `capture`: screenshots as data URLs, and cropping them
- `payload`: the base64 text inside data URLs
- `uri`, `naming`, `text`: file URIs, temporary names, numerals
- `attempt`: the outcome of one attempt at a screenshot, and its error
- `flow`: the steps of a whole run
- `codec`: the calls into the `png` and `base64` crates, with what is trusted of them

`app/` holds the D-Bus calls and the file access. It runs the steps that `flow` asks for.
