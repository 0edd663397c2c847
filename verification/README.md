# spider_window

The decisions behind the window of a web application: which addresses stay inside it and
which go to the system browser, which pop ups and downloads there are, what a site may use
and what is remembered of the user's answers, what the page is told about the browser, and
how the window looks and comes back.

- `src/` is the library. Every function states its result in full and is verified with
  Verus. `address.rs` calls the `url` crate; what is taken on trust of that call stands above
  it.
- `tests/` runs the library.
- `app/` is the GTK window that carries out what the library decides. The store of apps is
  handed to it through the `Apps` trait.
