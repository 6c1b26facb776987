# console

A web console for an mkube cluster and for the stormd process managers on its nodes.

- `src/` is the verified library (Verus):
  - `ui/` renders every page of the console as an HTML document: `layout` builds the frame
    (title, stylesheet, navigation bar, scripts), `style` holds the stylesheet and the
    browser-side helpers, and one module per section renders its pages. `ui/laws` proves
    what holds across the pages.
  - `client/` describes the requests made of the mkube and stormd REST APIs (method, URL,
    body, how the reply is read) and the error messages for failed requests, along with the
    objects that the APIs return.
  - `state` holds what the page handlers share and the health reply; `text` holds the text
    operations that the rest is built on.
- `app/` is the web server: command line, routes, sending the requests over HTTP and
  decoding the JSON replies.
- `tests/` runs the library on concrete values.
