# h264-syntax-dump

Syntax-table descriptions of parsed H.264 structures: access unit delimiters,
sequence and picture parameter sets, SPS extensions, subset SPSs, SEI payloads
and slice headers, each laid out as its syntax table in ISO/IEC 14496-10.

- `src/` is the verified library. Each `*Describe` wrapper turns a structure,
  held as plain values, into the ordered events of its syntax table (a
  `SyntaxLog`). Every `describe` states the exact event sequence it returns and
  that the sequence is well nested; the scaling-list deltas are proved to
  decode back to the list they were computed from.
- `app/` implements `mpeg_syntax_dump::SyntaxDescribe` for the structures that
  `h264_reader` parses: it converts them to the library's values and plays the
  library's events into any `SyntaxWrite` renderer.
- `tests/` parses real bitstreams with `h264_reader`, renders the descriptions
  as plain text and checks them.
