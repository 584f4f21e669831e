# web_canvas

The canvas that a window has on a web page, as verified decisions.

- `src/` is the library, written in Verus. A `Canvas` is plain state. Its operations return the
  commands that are to be carried out on the page, and take what was read from the page as
  arguments. The `*laws` modules state what holds of several operations together.
- `app/` holds the page. It carries the commands out with `web-sys` and listens to real events.
- `tests/` runs the library.
