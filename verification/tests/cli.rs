use bible_io_references::cli::{
    batch_input, exit_status, json_string, parse_input, parse_options, parse_output_format,
    passage_json, reference_json, report, requests_help, requests_version, single_input,
    usage_text, verse_json, OutputFormat, DATA_ERROR, SUCCESS, USAGE_ERROR,
};
use bible_io_references::{Book, Passage, PassageParser, Reference, VerseRange, VerseRef};

/// Drive the library as the command-line program does, over text input.
fn run(arguments: &[&str], input: &str) -> (u8, String, String) {
    let arguments = arguments
        .iter()
        .map(|argument| (*argument).to_owned())
        .collect::<Vec<_>>();
    let mut output = String::new();
    let mut errors = String::new();
    if requests_help(&arguments) {
        output.push_str(&usage_text());
        return (SUCCESS, output, errors);
    }
    let options = match parse_options(&arguments) {
        Ok(options) => options,
        Err(message) => {
            errors.push_str(&message);
            errors.push('\n');
            errors.push_str(&usage_text());
            return (USAGE_ERROR, output, errors);
        }
    };
    let parser = PassageParser::new();
    let mut had_failure = false;
    if options.batch {
        for (index, raw_line) in input.split_inclusive('\n').enumerate() {
            let Some(line) = batch_input(raw_line) else {
                continue;
            };
            let outcome = parse_input(&parser, &line, options.language);
            let written = report(&outcome, &line, Some(index + 1), &options);
            had_failure |= written.failed;
            if written.to_errors {
                errors.push_str(&written.text);
            } else {
                output.push_str(&written.text);
            }
        }
    } else {
        let line = single_input(&options);
        let outcome = parse_input(&parser, &line, options.language);
        let written = report(&outcome, &line, None, &options);
        had_failure = written.failed;
        if written.to_errors {
            errors.push_str(&written.text);
        } else {
            output.push_str(&written.text);
        }
    }
    (exit_status(had_failure), output, errors)
}

fn arguments(values: &[&str]) -> Vec<String> {
    values.iter().map(|value| (*value).to_owned()).collect()
}

#[test]
fn renders_machine_identifiers() {
    let (code, output, _) = run(&["--format=osis", "John 3:16-4:1"], "");
    assert_eq!(code, SUCCESS);
    assert_eq!(output, "John.3.16-John.4.1\n");

    let (code, output, _) = run(&["-f", "usfm", "John 3:16,18-20"], "");
    assert_eq!(code, SUCCESS);
    assert_eq!(output, "JHN 3:16,18-20\n");
}

#[test]
fn preserves_narrow_and_rich_json_shapes() {
    let (code, output, errors) = run(&["--format=json", "John", "3:16"], "");
    assert_eq!(code, SUCCESS);
    assert!(errors.is_empty());
    assert_eq!(
        output,
        "{\"type\":\"verse\",\"book\":\"jo\",\"chapter\":3,\"verse\":16}\n"
    );

    let (code, output, _) = run(&["--format", "json", "John 3"], "");
    assert_eq!(code, SUCCESS);
    assert_eq!(
        output,
        "{\"type\":\"chapter\",\"book\":\"jo\",\"startChapter\":3,\"endChapter\":null}\n"
    );
}

#[test]
fn batch_continues_after_errors_and_ignores_blank_lines() {
    let (code, output, errors) = run(&["--batch"], "John 3:16\n\nNotABook 1:1\nActs 2:1-4\n");
    assert_eq!(code, DATA_ERROR);
    assert_eq!(output, "John 3:16\nActs 2:1-4\n");
    assert!(errors.contains("Line 3: Unable to parse"));
    assert!(errors.contains("(unknown_book)"));
}

#[test]
fn batch_json_emits_one_object_per_nonblank_line() {
    let (code, output, errors) = run(
        &["--batch", "--format=json"],
        "John\n\nNotABook 1:1\nJohn 3:16,18\n",
    );
    assert_eq!(code, DATA_ERROR);
    assert!(errors.is_empty());
    let records = output.lines().collect::<Vec<_>>();
    assert_eq!(records.len(), 3);
    assert_eq!(
        records[0],
        "{\"line\":1,\"input\":\"John\",\"ok\":true,\"passage\":{\"type\":\"book\",\"book\":\"jo\"}}"
    );
    assert!(records[1].starts_with(
        "{\"line\":3,\"input\":\"NotABook 1:1\",\"ok\":false,\"error\":{\"code\":\"unknown_book\","
    ));
    assert!(records[2].starts_with(
        "{\"line\":4,\"input\":\"John 3:16,18\",\"ok\":true,\"passage\":{\"type\":\"verses\","
    ));
}

#[test]
fn json_diagnostics_escape_untrusted_input() {
    let (code, output, errors) = run(&["--format=json", "bad\"book 1:1"], "");
    assert_eq!(code, DATA_ERROR);
    assert!(errors.is_empty());
    assert!(output.starts_with("{\"input\":\"bad\\\"book 1:1\",\"ok\":false,"));
}

#[test]
fn rejects_bad_option_combinations_with_usage_exit() {
    for arguments in [
        &["--batch", "--input", "references.txt"][..],
        &["--batch", "John 3:16"][..],
        &["--format", "yaml", "John 3:16"][..],
        &["--language", "el", "John 3:16"][..],
    ] {
        let (code, _, errors) = run(arguments, "");
        assert_eq!(code, USAGE_ERROR, "{arguments:?}");
        assert!(errors.contains("Usage:"), "{arguments:?}");
    }
}

#[test]
fn help_is_requested_anywhere_and_lists_exit_codes() {
    let (code, output, errors) = run(&["--help"], "");
    assert_eq!(code, SUCCESS);
    assert!(output.contains("Exit codes: 0 success"));
    assert!(errors.is_empty());
    assert!(requests_help(&arguments(&["John", "-h"])));
    assert!(!requests_help(&arguments(&["John 3:16"])));
    assert!(requests_version(&arguments(&["--format", "json", "-V"])));
    assert!(!requests_version(&arguments(&["-v"])));
}

#[test]
fn option_errors_name_the_offending_argument() {
    let message = |values: &[&str]| parse_options(&arguments(values)).err().unwrap();
    assert_eq!(message(&[]), "A Bible reference is required.");
    assert_eq!(message(&["-l"]), "Missing value for -l.");
    assert_eq!(message(&["--format"]), "Missing value for --format.");
    assert_eq!(message(&["--input="]), "Missing value for --input.");
    assert_eq!(message(&["--bogus", "John"]), "Unknown option: --bogus");
    assert_eq!(
        message(&["--format=xml", "John"]),
        "Unsupported format \"xml\". Use text, json, osis, or usfm."
    );
    assert_eq!(
        message(&["--language", "klingon", "John"]),
        "unknown language: klingon"
    );
    assert_eq!(
        message(&["--language=", "John"]),
        "language must be a non-empty string"
    );
    assert_eq!(
        message(&["--language", "el", "John"]),
        "Language \"el\" has no registered parser data."
    );
    assert_eq!(
        message(&["--batch", "--input", "f.txt"]),
        "--batch and --input cannot be used together."
    );
    assert_eq!(
        message(&["--input=f.txt", "John"]),
        "A positional reference cannot be combined with batch input."
    );
}

#[test]
fn options_collect_words_and_settings() {
    let options = parse_options(&arguments(&["-f", "osis", "John", "3:16", "--language=en"])).unwrap();
    assert_eq!(options.output_format, OutputFormat::Osis);
    assert_eq!(options.language, Some(bible_io_references::Language::English));
    assert!(!options.batch);
    assert_eq!(options.input_path, None);
    assert_eq!(single_input(&options), "John 3:16");

    let options = parse_options(&arguments(&["--input=refs.txt", "--format", "text"])).unwrap();
    assert_eq!(options.input_path.as_deref(), Some("refs.txt"));
    assert_eq!(options.output_format, OutputFormat::Text);
    assert_eq!(parse_output_format("usfm"), Ok(OutputFormat::Usfm));
    assert!(parse_output_format("USFM").is_err());
}

#[test]
fn json_strings_escape_quotes_controls_and_line_separators() {
    assert_eq!(json_string("plain"), "\"plain\"");
    assert_eq!(
        json_string("a\"b\\c\nd\te\u{1}\u{1f}\u{8}\u{c}\r\u{2028}\u{2029}é"),
        "\"a\\\"b\\\\c\\nd\\te\\u0001\\u001f\\b\\f\\r\\u2028\\u2029é\""
    );
}

#[test]
fn json_objects_spell_references_and_passages() {
    let start = VerseRef::new(Book::John, 3, 16).unwrap();
    let end = VerseRef::new(Book::Acts, 1, 2).unwrap();
    assert_eq!(
        verse_json(start),
        "{\"type\":\"verse\",\"book\":\"jo\",\"chapter\":3,\"verse\":16}"
    );
    let range = Reference::Range(VerseRange::new(start, end).unwrap());
    assert_eq!(
        reference_json(range),
        "{\"type\":\"range\",\"start\":{\"type\":\"verse\",\"book\":\"jo\",\"chapter\":3,\"verse\":16},\"end\":{\"type\":\"verse\",\"book\":\"act\",\"chapter\":1,\"verse\":2}}"
    );
    let passage: Passage = "John 3:16,18; Acts 2".parse().unwrap();
    assert_eq!(
        passage_json(&passage),
        "{\"type\":\"sequence\",\"passages\":[{\"type\":\"verses\",\"selections\":[{\"type\":\"verse\",\"book\":\"jo\",\"chapter\":3,\"verse\":16},{\"type\":\"verse\",\"book\":\"jo\",\"chapter\":3,\"verse\":18}]},{\"type\":\"chapter\",\"book\":\"act\",\"startChapter\":2,\"endChapter\":null}]}"
    );
}

#[test]
fn single_inputs_report_text_and_diagnostics() {
    let (code, output, errors) = run(&["John 3:16,18-20; Acts 2"], "");
    assert_eq!(code, SUCCESS);
    assert_eq!(output, "John 3:16,18-20; Acts 2\n");
    assert!(errors.is_empty());

    let (code, output, errors) = run(&["NotABook", "1:1"], "");
    assert_eq!(code, DATA_ERROR);
    assert!(output.is_empty());
    assert!(errors.starts_with("Unable to parse \"NotABook 1:1\" (unknown_book).\n"));
    assert!(errors.ends_with('\n'));
    assert_eq!(batch_input("  \t "), None);
    assert_eq!(batch_input("  John 3:16 \n").as_deref(), Some("John 3:16"));
}

#[test]
fn parses_single_rich_passages_and_localizes_text() {
    let (code, output, errors) = run(&["John 3:16,18-20; Acts 2"], "");
    assert_eq!(code, SUCCESS);
    assert_eq!(output, "John 3:16,18-20; Acts 2\n");
    assert!(errors.is_empty());
}
