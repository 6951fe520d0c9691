# bible_io_references

A Bible reference library written in Verus: its functions carry
`requires`/`ensures` contracts that Verus proves (the `FromStr`, `From` and
standard-library wrapper items state theirs through their traits or as trusted
specifications).

The bundled book-name data is English: English names, compact codes and
common abbreviations. Parsing is supported in English and in automatic mode;
an explicit request for another language is refused as unsupported unless the
parser was given custom aliases for it, and formatting in another language
falls back to the English names.

It parses verses, ranges and richer passages (`John 3:16,18-20; Acts 2`),
normalizes Unicode reference syntax, formats references and passages, reads
and writes OSIS and USFM identifiers, and finds references in prose.

## Layout

- `src/book.rs` — the 83 books, their names and identifiers, and lookups.
- `src/reference.rs` — verses, inclusive ranges and their invariants.
- `src/normalize.rs` — reference-syntax normalization with UTF-8 span mapping.
- `src/grammar.rs`, `src/parser.rs`, `src/bundled.rs` — the reference grammar,
  book-name resolution and the configurable parser.
- `src/passage.rs` — book, chapter, verse-selection and sequence passages.
- `src/formatter.rs` — localized display of references and passages.
- `src/identifiers.rs` — OSIS and USFM serialization and strict parsing.
- `src/bundled_keys.rs`, `src/display_round_trip.rs` — the lookup keys of
  the bundled aliases, and reading a reference back from its display text.
- `src/extractor.rs` — reference extraction, replacement and Markdown links.
- `src/language.rs`, `src/error.rs`, `src/text.rs` — languages, errors and
  text utilities.
- `src/cli.rs` — the decisions and renderings of the command-line program.
- `app/main.rs` — the command-line program: arguments, files and streams.

## Proved properties

Besides each function's contract, the library proves, among others:

- every valid reference is read back from its own display text by the
  default parser (`display_round_trip::lemma_display_parses_back`), which
  rests on the bundled alias keys naming one book each
  (`bundled_keys::lemma_full_name_key_unique`);
- every valid reference is read back from its own OSIS and USFM identifier
  (`identifiers::lemma_osis_round_trip`, `identifiers::lemma_usfm_round_trip`);
- each book is found again from its identifiers and, in any letter case, its
  abbreviation (`book::lemma_find_identifiers`, `book::lemma_find_abbreviation`);
- normalization and white-space collapsing are idempotent, normalization
  leaves ASCII text alone, and parsing input that was normalized beforehand
  changes nothing (`normalize::lemma_normalize_idempotent`,
  `normalize::lemma_collapse_idempotent`,
  `normalize::lemma_parsing_form_idempotent`,
  `parser::lemma_parse_after_normalize`,
  `parser::lemma_parse_after_parsing_form`);
- OSIS and USFM book lookup is exact and case-sensitive
  (`book::lemma_identifier_lookup_exact`);
- normalization drops every listed mark and never grows the UTF-8 text
  (`normalize::lemma_normalize_shape`); collapsed text has no edge or doubled
  white space and keeps the other scalars in order
  (`normalize::lemma_collapse_shape`); the source spans of the kept
  scalars tile the input (`normalize::lemma_kept_spans_tile`);
- detected languages hold no duplicate and are exactly the selected
  candidates' languages (`parser::lemma_detected_languages`);
- book resolution selects a least candidate: custom aliases first, then
  language priority, then canonical book order
  (`parser::lemma_resolve_selects_least`);
- the default formatter writes references as `to_string` does
  (`formatter::lemma_default_reference_display`);
- replacing each extracted match by its own text gives back the source
  (`extractor::lemma_splice_own_texts`).

## Running

`tests/` holds the test suite; `app/` builds the `bible-io-references`
command, which reads a passage from its arguments or one per line with
`--batch` or `--input FILE`, and writes text, JSON, OSIS or USFM.
