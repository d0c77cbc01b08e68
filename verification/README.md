# HDR Merge Master

A desktop and command-line tool that merges bracketed exposures into HDR images
and tone maps them to JPEG, driving RawTherapee, align_image_stack, Blender,
Luminance HDR and OpenCV.

The crate is a verified library with a thin program around it:

- `src/` holds the logic, proved with Verus: bracket detection from EXIF
  exposure settings, the ordering of scanned files, the partition of a folder
  into bracket sets and the account of a processing run, the choice of tools
  and their command lines, the names of the files written, the settings form,
  the batch window's state and the text helpers they rest on.
- `tests/` exercises the library on concrete values.
- `app/` is the program: command-line parsing, configuration files, directory
  walks, running the external tools and threads, the floating point image and
  exposure arithmetic, and the iced user interface.
