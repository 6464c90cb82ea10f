# tachys

Routing and server-side HTML rendering, with their behaviour stated in
`requires`/`ensures` contracts and proved by Verus.

- `src/` is the verified library:
  - `matching`, `route2`: route patterns matched against a path one character
    at a time (`StaticSegment`, `ParamSegment`, `WildcardSegment`, and tuples
    of them matched in sequence, stated once for any number of parts by
    `matching::sequence`);
  - `route`: route definitions, path patterns matched one `/`-separated
    segment at a time (`RoutePath`, and tuples of them matched in sequence,
    stated once for any number of parts by `route::path_sequence`), parameter
    lists (`ParamsMap`), and choosing among alternative routes;
  - `dynamic_matching`: route paths given as text, such as `/blog/:id/*rest`;
  - `location`: where the current URL comes from (`RequestUrl` parses with the
    `url` crate; `UrlSnapshot` holds a URL read elsewhere, such as the
    browser's);
  - `router`: picks the route that matches the whole path of the location, or
    a fallback, and writes its HTML;
  - `view`, `html`: views and elements written as HTML text, templates, and the
    fixed-size template buffers;
  - `hydration`: the decisions of attaching views to nodes already in the page
    and of updating mounted views;
  - `ssr`: the decisions of an HTML stream whose pieces wait on futures;
  - `async_views`: views that wait on a future.
- `app/` holds what runs around it: the loop that polls the stream's futures,
  reading the browser's location, the shared cursor and position that carry
  out hydration, and the HTML of type-erased views.
- `tests/` exercises the library on concrete values.
