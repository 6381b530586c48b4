# koji

The verified core of the Kōji map server.

- `src/` is the verified library:
  - `geometry`: `[lat, lon]` points, closed rings and GeoJSON geometry values;
  - `feature`: features, their property lists, and features built from point
    lists, named-field points and Poracle geofences;
  - `multi_struct`: conversions of lists of rings;
  - `decimal`: reading and writing `u32` as decimal text;
  - `area`: scanner routes of stored areas and the plan for saving features
    as areas;
  - `spawnpoint`, `property`, `raw_data`: the decisions of the spawnpoint
    queries, the property queries and the raw-data routes;
  - `clusters`: choosing among point clusters.
- `app/` is the server around it: the database, HTTP, GeoJSON values and the
  floating-point projection of points. Coordinates are doubles there and their
  bit patterns in the library.
- `tests/` runs the library on concrete values.
