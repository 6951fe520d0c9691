use std::fmt;

use bible_io_references::extractor::{MAX_LOOKAROUND, MIN_LOOKAROUND};
use bible_io_references::{PassageMatch, ReferenceExtractor};

fn source_texts(matches: &[PassageMatch]) -> Vec<&str> {
    matches.iter().map(PassageMatch::source_text).collect()
}

#[test]
fn prefers_complete_lists_and_sequences_over_fragments() {
    let source = "Study John 3:16,18-20; Acts 2:1-4 today.";
    let matches = ReferenceExtractor::new().extract(source);

    assert_eq!(matches.len(), 1);
    assert_eq!(matches[0].source_text(), "John 3:16,18-20; Acts 2:1-4");
    assert_eq!(matches[0].passage().to_string(), matches[0].source_text());
}

#[test]
fn suppresses_common_words_but_keeps_capitalized_books() {
    let prose = "At 12:30, please mark 3:16; the job 2:4 is queued.";
    assert!(ReferenceExtractor::new().extract(prose).is_empty());

    let references = ReferenceExtractor::new().extract("Read Mark 3:16 and Job 2:4.");
    assert_eq!(source_texts(&references), ["Mark 3:16", "Job 2:4"]);
}

#[test]
fn bare_books_are_opt_in() {
    let source = "Read Mark and Job.";
    assert!(ReferenceExtractor::new().extract(source).is_empty());

    let matches = ReferenceExtractor::new()
        .with_include_bare_books(true)
        .extract(source);
    assert_eq!(source_texts(&matches), ["Mark", "Job"]);
}

#[test]
fn validates_lookaround_configuration() {
    assert!(
        ReferenceExtractor::builder()
            .max_lookbehind(0)
            .build()
            .is_err()
    );
    assert!(
        ReferenceExtractor::builder()
            .max_lookahead(MAX_LOOKAROUND + 1)
            .build()
            .is_err()
    );
    let extractor = ReferenceExtractor::builder()
        .max_lookbehind(MIN_LOOKAROUND)
        .max_lookahead(MAX_LOOKAROUND)
        .build()
        .unwrap();
    assert_eq!(extractor.max_lookbehind(), MIN_LOOKAROUND);
    assert_eq!(extractor.max_lookahead(), MAX_LOOKAROUND);
}

#[test]
fn replacement_is_one_pass_and_preserves_unmatched_text() {
    let source = "Read John 3:16 once.";
    let mut calls = 0;
    let replaced = ReferenceExtractor::new().replace_matches(source, |_| {
        calls += 1;
        "Acts 1:1 and Mark 2:2".to_owned()
    });

    assert_eq!(calls, 1);
    assert_eq!(replaced, "Read Acts 1:1 and Mark 2:2 once.");
}

#[test]
fn markdown_linkification_escapes_labels_and_destinations() {
    struct Destination;
    impl fmt::Display for Destination {
        fn fmt(&self, output: &mut fmt::Formatter<'_>) -> fmt::Result {
            output.write_str("https://example.test/(passage)?q=John+3")
        }
    }

    let mut uri_calls = 0;
    let result = ReferenceExtractor::new().linkify_markdown_with_label(
        "Read John 3:16.",
        |_| {
            uri_calls += 1;
            Destination.to_string()
        },
        |_| "[John]".to_owned(),
    );

    assert_eq!(uri_calls, 1);
    assert_eq!(
        result,
        "Read [\\[John\\]](https://example.test/%28passage%29?q=John+3)."
    );
}
