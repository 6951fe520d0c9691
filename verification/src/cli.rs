//! The command-line front end's decisions and renderings: option parsing,
//! the text, JSON, OSIS and USFM renderings of a parsed passage, and the
//! diagnostics for rejected input. Reading input and writing output is left
//! to the program that drives these functions.
use vstd::prelude::*;

use crate::book::{spec_abbreviation, Book};
use crate::language::{spec_code, spec_parse_language, spec_parsing_supported, Language};
use crate::error::{spec_kind_code, ParseError};
use crate::formatter::{passage_display, ReferenceFormatter};
use crate::identifiers::{osis_passage, usfm_passage, MachineIdentifiers};
use crate::parser::{ok_value, spec_parse};
use crate::passage::{lemma_passage_models, passage_value, spec_parse_passage, Passage, PassageModel, PassageParser, PassageSequence};
use crate::reference::{Reference, VerseRef};
use crate::text::{chars_eq, chars_of, debug_quote, decimal, digits_value, is_number, lemma_decimal, extend_str, push_decimal, push_decimal_usize, slice_chars, str_debug, string_of, trim, trim_chars};

verus! {

// ---------------------------------------------------------------------------
// JSON
// ---------------------------------------------------------------------------

/// The lowercase hexadecimal digit for `d < 16`.
pub open spec fn hex_digit(d: u32) -> char {
    if d < 10 {
        (('0' as u32) + d) as char
    } else {
        (('a' as u32) + d - 10) as char
    }
}

/// The JSON spelling of one scalar inside a string literal.
pub open spec fn json_char(c: char) -> Seq<char> {
    if c == '"' {
        seq!['\\', '"']
    } else if c == '\\' {
        seq!['\\', '\\']
    } else if c == '\u{08}' {
        seq!['\\', 'b']
    } else if c == '\u{0c}' {
        seq!['\\', 'f']
    } else if c == '\n' {
        seq!['\\', 'n']
    } else if c == '\r' {
        seq!['\\', 'r']
    } else if c == '\t' {
        seq!['\\', 't']
    } else if c == '\u{2028}' {
        seq!['\\', 'u', '2', '0', '2', '8']
    } else if c == '\u{2029}' {
        seq!['\\', 'u', '2', '0', '2', '9']
    } else if (c as u32) <= 0x1f {
        seq!['\\', 'u', '0', '0', hex_digit((c as u32) / 16), hex_digit((c as u32) % 16)]
    } else {
        seq![c]
    }
}

/// The escaped scalars of a JSON string literal.
pub open spec fn json_chars(s: Seq<char>) -> Seq<char>
    decreases s.len(),
{
    if s.len() == 0 {
        seq![]
    } else {
        json_chars(s.drop_last()) + json_char(s.last())
    }
}

/// A JSON string literal holding `s`.
pub open spec fn json_text(s: Seq<char>) -> Seq<char> {
    seq!['"'] + json_chars(s) + seq!['"']
}

/// Append the JSON spelling of one scalar.
fn push_json_char(out: &mut Vec<char>, c: char)
    ensures
        final(out)@ == old(out)@ + json_char(c),
{
    if c == '"' {
        extend_str(out, "\\\"");
        proof {
            reveal_strlit("\\\"");
        }
    } else if c == '\\' {
        extend_str(out, "\\\\");
        proof {
            reveal_strlit("\\\\");
        }
    } else if c == '\u{08}' {
        extend_str(out, "\\b");
        proof {
            reveal_strlit("\\b");
        }
    } else if c == '\u{0c}' {
        extend_str(out, "\\f");
        proof {
            reveal_strlit("\\f");
        }
    } else if c == '\n' {
        extend_str(out, "\\n");
        proof {
            reveal_strlit("\\n");
        }
    } else if c == '\r' {
        extend_str(out, "\\r");
        proof {
            reveal_strlit("\\r");
        }
    } else if c == '\t' {
        extend_str(out, "\\t");
        proof {
            reveal_strlit("\\t");
        }
    } else if c == '\u{2028}' {
        extend_str(out, "\\u2028");
        proof {
            reveal_strlit("\\u2028");
        }
    } else if c == '\u{2029}' {
        extend_str(out, "\\u2029");
        proof {
            reveal_strlit("\\u2029");
        }
    } else if (c as u32) <= 0x1f {
        let v: u32 = c as u32;
        extend_str(out, "\\u00");
        proof {
            reveal_strlit("\\u00");
        }
        out.push(hex_char(v / 16));
        out.push(hex_char(v % 16));
    } else {
        out.push(c);
    }
}

/// The lowercase hexadecimal digit for `d < 16`.
fn hex_char(d: u32) -> (c: char)
    requires
        d < 16,
    ensures
        c == hex_digit(d),
{
    if d < 10 {
        ((d as u8) + 48u8) as char
    } else {
        ((d as u8) + 87u8) as char
    }
}

/// A JSON string literal holding `value`, escaping quotes, backslashes,
/// control characters and the two Unicode line separators.
pub fn json_string(value: &str) -> (r: String)
    ensures
        r@ == json_text(value@),
{
    let chars = crate::text::chars_of(value);
    let mut out: Vec<char> = Vec::new();
    out.push('"');
    for i in 0..chars.len()
        invariant
            out@ == seq!['"'] + json_chars(chars@.take(i as int)),
    {
        assert(chars@.take(i + 1).drop_last() == chars@.take(i as int));
        assert(chars@.take(i + 1).last() == chars@[i as int]);
        push_json_char(&mut out, chars[i]);
    }
    assert(chars@.take(chars@.len() as int) == chars@);
    out.push('"');
    string_of(out.as_slice())
}

/// `{"type":"verse","book":…,"chapter":…,"verse":…}`, with the book's
/// compact abbreviation.
pub open spec fn verse_json_text(v: VerseRef) -> Seq<char> {
    "{\"type\":\"verse\",\"book\":"@ + json_text(spec_abbreviation(v.spec_book()))
        + ",\"chapter\":"@ + decimal(v.spec_chapter() as nat) + ",\"verse\":"@ + decimal(
        v.spec_verse() as nat,
    ) + "}"@
}

/// A verse object, or `{"type":"range","start":…,"end":…}`.
pub open spec fn reference_json_text(r: Reference) -> Seq<char> {
    match r {
        Reference::Verse(v) => verse_json_text(v),
        Reference::Range(g) => "{\"type\":\"range\",\"start\":"@ + verse_json_text(g.spec_start())
            + ",\"end\":"@ + verse_json_text(g.spec_end()) + "}"@,
    }
}

/// The first `k` reference objects joined by commas.
pub open spec fn references_json_text(rs: Seq<Reference>, k: int) -> Seq<char>
    decreases k,
{
    if k <= 0 {
        seq![]
    } else if k == 1 {
        reference_json_text(rs[0])
    } else {
        references_json_text(rs, k - 1) + ","@ + reference_json_text(rs[k - 1])
    }
}

/// The JSON object of a passage: book, chapter, verse-selection or sequence.
pub open spec fn passage_json_text(m: PassageModel) -> Seq<char>
    decreases m,
{
    match m {
        PassageModel::Book(b) => "{\"type\":\"book\",\"book\":"@ + json_text(spec_abbreviation(b))
            + "}"@,
        PassageModel::Chapter(b, start, end) => "{\"type\":\"chapter\",\"book\":"@ + json_text(
            spec_abbreviation(b),
        ) + ",\"startChapter\":"@ + decimal(start as nat) + ",\"endChapter\":"@ + match end {
            Some(e) => decimal(e as nat),
            None => "null"@,
        } + "}"@,
        PassageModel::Verses(rs) => "{\"type\":\"verses\",\"selections\":["@
            + references_json_text(rs, rs.len() as int) + "]}"@,
        PassageModel::Sequence(ps) => "{\"type\":\"sequence\",\"passages\":["@ + passages_json_text(
            ps,
        ) + "]}"@,
    }
}

/// Passage objects joined by commas.
pub open spec fn passages_json_text(ps: Seq<PassageModel>) -> Seq<char>
    decreases ps,
{
    if ps.len() == 0 {
        seq![]
    } else if ps.len() == 1 {
        passage_json_text(ps[0])
    } else {
        passages_json_text(ps.drop_last()) + ","@ + passage_json_text(ps.last())
    }
}

/// Append the object of a verse.
fn write_verse_json(v: VerseRef, out: &mut Vec<char>)
    ensures
        final(out)@ == old(out)@ + verse_json_text(v),
{
    extend_str(out, "{\"type\":\"verse\",\"book\":");
    let book = json_string(v.book().abbreviation());
    extend_str(out, book.as_str());
    extend_str(out, ",\"chapter\":");
    push_decimal(out, v.chapter() as u32);
    extend_str(out, ",\"verse\":");
    push_decimal(out, v.verse() as u32);
    extend_str(out, "}");
}

/// Append the object of a reference.
fn write_reference_json(r: Reference, out: &mut Vec<char>)
    ensures
        final(out)@ == old(out)@ + reference_json_text(r),
{
    match r {
        Reference::Verse(v) => write_verse_json(v, out),
        Reference::Range(g) => {
            extend_str(out, "{\"type\":\"range\",\"start\":");
            write_verse_json(g.start(), out);
            extend_str(out, ",\"end\":");
            write_verse_json(g.end(), out);
            extend_str(out, "}");
        },
    }
}

/// The JSON object of a verse or a range.
pub fn reference_json(reference: Reference) -> (r: String)
    ensures
        r@ == reference_json_text(reference),
{
    let mut out: Vec<char> = Vec::new();
    write_reference_json(reference, &mut out);
    string_of(out.as_slice())
}

/// The JSON object of one verse.
pub fn verse_json(verse: VerseRef) -> (r: String)
    ensures
        r@ == verse_json_text(verse),
{
    let mut out: Vec<char> = Vec::new();
    write_verse_json(verse, &mut out);
    string_of(out.as_slice())
}

/// Append the objects of selections joined by commas.
fn write_references_json(rs: &[Reference], out: &mut Vec<char>)
    ensures
        final(out)@ == old(out)@ + references_json_text(rs@, rs@.len() as int),
{
    let ghost base = out@;
    for i in 0..rs.len()
        invariant
            out@ == base + references_json_text(rs@, i as int),
    {
        if i > 0 {
            extend_str(out, ",");
        }
        write_reference_json(rs[i], out);
    }
}

/// Append the object of a passage.
fn write_passage_json(p: &Passage, out: &mut Vec<char>)
    ensures
        final(out)@ == old(out)@ + passage_json_text(p@),
    decreases p@,
{
    match p.as_book() {
        Some(b) => {
            extend_str(out, "{\"type\":\"book\",\"book\":");
            let name = json_string(b.book().abbreviation());
            extend_str(out, name.as_str());
            extend_str(out, "}");
            return;
        },
        None => {},
    }
    match p.as_chapter() {
        Some(c) => {
            extend_str(out, "{\"type\":\"chapter\",\"book\":");
            let name = json_string(c.book().abbreviation());
            extend_str(out, name.as_str());
            extend_str(out, ",\"startChapter\":");
            push_decimal(out, c.start_chapter() as u32);
            extend_str(out, ",\"endChapter\":");
            match c.end_chapter() {
                Some(e) => push_decimal(out, e as u32),
                None => extend_str(out, "null"),
            }
            extend_str(out, "}");
            return;
        },
        None => {},
    }
    match p.as_verses() {
        Some(v) => {
            extend_str(out, "{\"type\":\"verses\",\"selections\":[");
            write_references_json(v.selections(), out);
            extend_str(out, "]}");
            return;
        },
        None => {},
    }
    match p.as_sequence() {
        Some(s) => {
            extend_str(out, "{\"type\":\"sequence\",\"passages\":[");
            write_passages_json(s, out);
            extend_str(out, "]}");
        },
        None => {},
    }
}

/// Append the objects of a sequence's passages joined by commas.
fn write_passages_json(s: &PassageSequence, out: &mut Vec<char>)
    ensures
        final(out)@ == old(out)@ + passages_json_text(s@),
    decreases s@,
{
    let ps = s.passages();
    let ghost base = out@;
    let ghost models = s@;
    proof {
        lemma_passage_models(ps@);
    }
    for i in 0..ps.len()
        invariant
            models == s@,
            models.len() == ps@.len(),
            forall|j: int| 0 <= j < ps@.len() ==> models[j] == (#[trigger] ps@[j])@,
            out@ == base + passages_json_text(models.take(i as int)),
    {
        assert(models.take(i + 1).drop_last() == models.take(i as int));
        if i > 0 {
            extend_str(out, ",");
        } else {
            assert(models.take(i as int).len() == 0);
        }
        assert(models.take(i + 1).last() == ps@[i as int]@);
        write_passage_json(&ps[i], out);
    }
    assert(models.take(models.len() as int) == models);
}

/// The JSON object of a passage.
pub fn passage_json(passage: &Passage) -> (r: String)
    ensures
        r@ == passage_json_text(passage@),
{
    let mut out: Vec<char> = Vec::new();
    write_passage_json(passage, &mut out);
    string_of(out.as_slice())
}

// ---------------------------------------------------------------------------
// Options
// ---------------------------------------------------------------------------

/// Successful exit status.
pub const SUCCESS: u8 = 0;

/// Exit status for a usage error.
pub const USAGE_ERROR: u8 = 64;

/// Exit status when some input could not be parsed.
pub const DATA_ERROR: u8 = 65;

/// Exit status when input could not be read or output could not be written.
pub const NO_INPUT_ERROR: u8 = 66;

/// How a parsed passage is rendered.
#[derive(Clone, Copy, Debug, PartialEq, Eq, Structural)]
pub enum OutputFormat {
    /// Localized display text.
    Text,
    /// A JSON object.
    Json,
    /// An OSIS identifier.
    Osis,
    /// A USFM identifier.
    Usfm,
}

/// The format named by an option value, or the message that rejects it.
pub open spec fn spec_output_format(value: Seq<char>) -> Result<OutputFormat, Seq<char>> {
    if value == "text"@ {
        Ok(OutputFormat::Text)
    } else if value == "json"@ {
        Ok(OutputFormat::Json)
    } else if value == "osis"@ {
        Ok(OutputFormat::Osis)
    } else if value == "usfm"@ {
        Ok(OutputFormat::Usfm)
    } else {
        Err("Unsupported format "@ + str_debug(value) + ". Use text, json, osis, or usfm."@)
    }
}

/// Parse an output format name: `text`, `json`, `osis` or `usfm`, exactly.
pub fn parse_output_format(value: &str) -> (r: Result<OutputFormat, String>)
    ensures
        match r {
            Ok(f) => spec_output_format(value@) == Ok::<OutputFormat, Seq<char>>(f),
            Err(m) => spec_output_format(value@) == Err::<OutputFormat, Seq<char>>(m@),
        },
{
    let v = chars_of(value);
    if str_is(v.as_slice(), "text") {
        Ok(OutputFormat::Text)
    } else if str_is(v.as_slice(), "json") {
        Ok(OutputFormat::Json)
    } else if str_is(v.as_slice(), "osis") {
        Ok(OutputFormat::Osis)
    } else if str_is(v.as_slice(), "usfm") {
        Ok(OutputFormat::Usfm)
    } else {
        let mut m = "Unsupported format ".to_owned();
        let quoted = debug_quote(value);
        m.append(quoted.as_str());
        m.append(". Use text, json, osis, or usfm.");
        Err(m)
    }
}

impl core::str::FromStr for OutputFormat {
    type Err = String;

    fn from_str(value: &str) -> (r: Result<OutputFormat, String>)
        ensures
            match r {
                Ok(f) => spec_output_format(value@) == Ok::<OutputFormat, Seq<char>>(f),
                Err(m) => spec_output_format(value@) == Err::<OutputFormat, Seq<char>>(m@),
            },
    {
        parse_output_format(value)
    }
}

/// Whether the scalars `s` spell `t`.
fn str_is(s: &[char], t: &str) -> (r: bool)
    ensures
        r == (s@ == t@),
{
    let tc = chars_of(t);
    chars_eq(s, tc.as_slice())
}

/// Whether the scalars `s` begin with `t`.
fn has_prefix(s: &[char], t: &str) -> (r: bool)
    ensures
        r == (t@.len() <= s@.len() && s@.take(t@.len() as int) == t@),
{
    let tc = chars_of(t);
    if tc.len() > s.len() {
        return false;
    }
    let head = slice_chars(s, 0, tc.len());
    chars_eq(head.as_slice(), tc.as_slice())
}

/// The command-line options as values.
pub struct OptionsModel {
    /// The explicit book-name language, if any.
    pub language: Option<Language>,
    /// The rendering.
    pub output_format: OutputFormat,
    /// Whether passages are read one per line from standard input.
    pub batch: bool,
    /// The file passages are read from, one per line, if any.
    pub input_path: Option<Seq<char>>,
    /// The words of a single passage given on the command line.
    pub input_parts: Seq<Seq<char>>,
}

/// The options before any argument is read.
pub open spec fn initial_options() -> OptionsModel {
    OptionsModel {
        language: None,
        output_format: OutputFormat::Text,
        batch: false,
        input_path: None,
        input_parts: seq![],
    }
}

/// The language named by an option value, or the message that rejects it.
pub open spec fn language_value(value: Seq<char>) -> Result<Language, Seq<char>> {
    match spec_parse_language(value) {
        Some(l) => Ok(l),
        None => Err(
            if trim(value).len() == 0 {
                "language must be a non-empty string"@
            } else {
                "unknown language: "@ + value
            },
        ),
    }
}

/// `Missing value for OPTION.`
pub open spec fn missing_value(option: Seq<char>) -> Seq<char> {
    "Missing value for "@ + option + "."@
}

/// Reading the arguments from position `i` on, each option updating `acc`;
/// anything not starting with `-` is a word of the passage.
pub open spec fn scan_options(args: Seq<Seq<char>>, i: int, acc: OptionsModel) -> Result<
    OptionsModel,
    Seq<char>,
>
    decreases args.len() - i,
{
    if i < 0 || i >= args.len() {
        Ok(acc)
    } else {
        let a = args[i];
        if a == "--language"@ || a == "-l"@ {
            if i + 1 >= args.len() {
                Err(missing_value(a))
            } else {
                match language_value(args[i + 1]) {
                    Err(m) => Err(m),
                    Ok(l) => scan_options(args, i + 2, OptionsModel { language: Some(l), ..acc }),
                }
            }
        } else if a == "--format"@ || a == "-f"@ {
            if i + 1 >= args.len() {
                Err(missing_value(a))
            } else {
                match spec_output_format(args[i + 1]) {
                    Err(m) => Err(m),
                    Ok(f) => scan_options(args, i + 2, OptionsModel { output_format: f, ..acc }),
                }
            }
        } else if a == "--batch"@ || a == "-b"@ {
            scan_options(args, i + 1, OptionsModel { batch: true, ..acc })
        } else if a == "--input"@ || a == "-i"@ {
            if i + 1 >= args.len() {
                Err(missing_value(a))
            } else {
                scan_options(args, i + 2, OptionsModel { input_path: Some(args[i + 1]), ..acc })
            }
        } else if "--language="@.len() <= a.len() && a.take(11) == "--language="@ {
            match language_value(a.skip(11)) {
                Err(m) => Err(m),
                Ok(l) => scan_options(args, i + 1, OptionsModel { language: Some(l), ..acc }),
            }
        } else if "--format="@.len() <= a.len() && a.take(9) == "--format="@ {
            match spec_output_format(a.skip(9)) {
                Err(m) => Err(m),
                Ok(f) => scan_options(args, i + 1, OptionsModel { output_format: f, ..acc }),
            }
        } else if "--input="@.len() <= a.len() && a.take(8) == "--input="@ {
            if a.len() == 8 {
                Err("Missing value for --input."@)
            } else {
                scan_options(args, i + 1, OptionsModel { input_path: Some(a.skip(8)), ..acc })
            }
        } else if a.len() > 0 && a[0] == '-' {
            Err("Unknown option: "@ + a)
        } else {
            scan_options(args, i + 1, OptionsModel { input_parts: acc.input_parts.push(a), ..acc })
        }
    }
}

/// The checks made once every argument is read.
pub open spec fn checked_options(o: OptionsModel) -> Result<OptionsModel, Seq<char>> {
    let from_file = o.input_path is Some;
    if o.language matches Some(l) && !spec_parsing_supported(l) {
        Err("Language "@ + str_debug(spec_code(o.language->0)) + " has no registered parser data."@)
    } else if o.batch && from_file {
        Err("--batch and --input cannot be used together."@)
    } else if (o.batch || from_file) && o.input_parts.len() > 0 {
        Err("A positional reference cannot be combined with batch input."@)
    } else if !(o.batch || from_file) && o.input_parts.len() == 0 {
        Err("A Bible reference is required."@)
    } else {
        Ok(o)
    }
}

/// Options from command-line arguments, or the message of a usage error.
pub open spec fn spec_options(args: Seq<Seq<char>>) -> Result<OptionsModel, Seq<char>> {
    match scan_options(args, 0, initial_options()) {
        Err(m) => Err(m),
        Ok(o) => checked_options(o),
    }
}

/// The views of a sequence of strings.
pub open spec fn arg_views(args: Seq<String>) -> Seq<Seq<char>> {
    args.map_values(|a: String| a@)
}

/// Command-line options.
pub struct CliOptions {
    /// The explicit book-name language, if any.
    pub language: Option<Language>,
    /// The rendering.
    pub output_format: OutputFormat,
    /// Whether passages are read one per line from standard input.
    pub batch: bool,
    /// The file passages are read from, one per line, if any.
    pub input_path: Option<String>,
    /// The words of a single passage given on the command line.
    pub input_parts: Vec<String>,
}

impl View for CliOptions {
    type V = OptionsModel;

    open spec fn view(&self) -> OptionsModel {
        OptionsModel {
            language: self.language,
            output_format: self.output_format,
            batch: self.batch,
            input_path: match self.input_path {
                Some(p) => Some(p@),
                None => None,
            },
            input_parts: arg_views(self.input_parts@),
        }
    }
}

/// The language named by an option value, or the message that rejects it.
fn parse_language_value(value: &[char]) -> (r: Result<Language, String>)
    ensures
        match r {
            Ok(l) => language_value(value@) == Ok::<Language, Seq<char>>(l),
            Err(m) => language_value(value@) == Err::<Language, Seq<char>>(m@),
        },
{
    let text = string_of(value);
    match Language::parse_identifier(text.as_str()) {
        Ok(l) => Ok(l),
        Err(e) => Err(e.to_string()),
    }
}

/// `Missing value for OPTION.`
fn missing_value_message(option: &str) -> (r: String)
    ensures
        r@ == missing_value(option@),
{
    let mut m = "Missing value for ".to_owned();
    m.append(option);
    m.append(".");
    m
}

/// Read command-line options, without the program name.
pub fn parse_options(arguments: &[String]) -> (r: Result<CliOptions, String>)
    ensures
        match r {
            Ok(o) => spec_options(arg_views(arguments@)) == Ok::<OptionsModel, Seq<char>>(o@),
            Err(m) => spec_options(arg_views(arguments@)) == Err::<OptionsModel, Seq<char>>(m@),
        },
{
    let ghost args = arg_views(arguments@);
    let mut options = CliOptions {
        language: None,
        output_format: OutputFormat::Text,
        batch: false,
        input_path: None,
        input_parts: Vec::new(),
    };
    assert(options@.input_parts =~= Seq::<Seq<char>>::empty());
    let mut index: usize = 0;
    while index < arguments.len()
        invariant
            args == arg_views(arguments@),
            index <= arguments@.len(),
            scan_options(args, 0, initial_options()) == scan_options(args, index as int, options@),
        decreases arguments.len() - index,
    {
        let argument = &arguments[index];
        let a = chars_of(argument.as_str());
        proof {
            reveal_strlit("--language=");
            reveal_strlit("--format=");
            reveal_strlit("--input=");
        }
        assert(a@ == args[index as int]);
        if str_is(a.as_slice(), "--language") || str_is(a.as_slice(), "-l") {
            if index + 1 >= arguments.len() {
                return Err(missing_value_message(argument.as_str()));
            }
            let value = chars_of(arguments[index + 1].as_str());
            assert(value@ == args[index + 1]);
            match parse_language_value(value.as_slice()) {
                Ok(l) => {
                    options.language = Some(l);
                },
                Err(m) => return Err(m),
            }
            index += 2;
        } else if str_is(a.as_slice(), "--format") || str_is(a.as_slice(), "-f") {
            if index + 1 >= arguments.len() {
                return Err(missing_value_message(argument.as_str()));
            }
            match parse_output_format(arguments[index + 1].as_str()) {
                Ok(f) => {
                    options.output_format = f;
                },
                Err(m) => return Err(m),
            }
            index += 2;
        } else if str_is(a.as_slice(), "--batch") || str_is(a.as_slice(), "-b") {
            options.batch = true;
            index += 1;
        } else if str_is(a.as_slice(), "--input") || str_is(a.as_slice(), "-i") {
            if index + 1 >= arguments.len() {
                return Err(missing_value_message(argument.as_str()));
            }
            options.input_path = Some(arguments[index + 1].as_str().to_owned());
            index += 2;
        } else if has_prefix(a.as_slice(), "--language=") {
            let value = slice_chars(a.as_slice(), 11, a.len());
            assert(value@ == a@.skip(11));
            match parse_language_value(value.as_slice()) {
                Ok(l) => {
                    options.language = Some(l);
                },
                Err(m) => return Err(m),
            }
            index += 1;
        } else if has_prefix(a.as_slice(), "--format=") {
            let value = string_of(slice_chars(a.as_slice(), 9, a.len()).as_slice());
            assert(value@ == a@.skip(9));
            match parse_output_format(value.as_str()) {
                Ok(f) => {
                    options.output_format = f;
                },
                Err(m) => return Err(m),
            }
            index += 1;
        } else if has_prefix(a.as_slice(), "--input=") {
            if a.len() == 8 {
                return Err("Missing value for --input.".to_owned());
            }
            let value = string_of(slice_chars(a.as_slice(), 8, a.len()).as_slice());
            assert(value@ == a@.skip(8));
            options.input_path = Some(value);
            index += 1;
        } else if a.len() > 0 && a[0] == '-' {
            let mut m = "Unknown option: ".to_owned();
            m.append(argument.as_str());
            return Err(m);
        } else {
            let ghost before = options@;
            options.input_parts.push(argument.as_str().to_owned());
            assert(options@.input_parts =~= before.input_parts.push(args[index as int]));
            index += 1;
        }
    }
    let from_file = options.input_path.is_some();
    match options.language {
        Some(l) => {
            if !l.is_parsing_supported() {
                let mut m = "Language ".to_owned();
                let quoted = debug_quote(l.code());
                m.append(quoted.as_str());
                m.append(" has no registered parser data.");
                return Err(m);
            }
        },
        None => {},
    }
    if options.batch && from_file {
        return Err("--batch and --input cannot be used together.".to_owned());
    }
    let is_batch = options.batch || from_file;
    if is_batch && options.input_parts.len() > 0 {
        return Err("A positional reference cannot be combined with batch input.".to_owned());
    }
    if !is_batch && options.input_parts.len() == 0 {
        return Err("A Bible reference is required.".to_owned());
    }
    Ok(options)
}

/// Whether some argument is exactly one of two spellings.
pub open spec fn requests(args: Seq<Seq<char>>, long: Seq<char>, short: Seq<char>) -> bool {
    exists|i: int| 0 <= i < args.len() && (args[i] == long || args[i] == short)
}

/// Whether some argument is `long` or `short`.
fn any_argument_is(arguments: &[String], long: &str, short: &str) -> (r: bool)
    ensures
        r == requests(arg_views(arguments@), long@, short@),
{
    let ghost args = arg_views(arguments@);
    for i in 0..arguments.len()
        invariant
            args == arg_views(arguments@),
            forall|j: int| 0 <= j < i ==> !(args[j] == long@ || args[j] == short@),
    {
        let a = chars_of(arguments[i].as_str());
        assert(a@ == args[i as int]);
        if str_is(a.as_slice(), long) || str_is(a.as_slice(), short) {
            return true;
        }
    }
    false
}

/// Whether help was requested with `--help` or `-h`, anywhere among the
/// arguments.
pub fn requests_help(arguments: &[String]) -> (r: bool)
    ensures
        r == requests(arg_views(arguments@), "--help"@, "-h"@),
{
    any_argument_is(arguments, "--help", "-h")
}

/// Whether the version was requested with `--version` or `-V`, anywhere
/// among the arguments.
pub fn requests_version(arguments: &[String]) -> (r: bool)
    ensures
        r == requests(arg_views(arguments@), "--version"@, "-V"@),
{
    any_argument_is(arguments, "--version", "-V")
}

/// The usage text, line by line.
pub open spec fn usage_spec() -> Seq<char> {
    "Usage:\n  bible-io-references [--language CODE] [--format text|json|osis|usfm] \"John 3:16\"\n  bible-io-references [--language CODE] [--format text|json|osis|usfm] --batch\n  bible-io-references [--language CODE] [--format text|json|osis|usfm] --input FILE\n\nBatch input is UTF-8 with one passage per nonblank line.\nJSON batch output is JSON Lines, including per-line errors.\nExit codes: 0 success, 64 usage, 65 parse failure, 66 input error.\n"@
}

/// The usage text.
pub fn usage_text() -> (r: String)
    ensures
        r@ == usage_spec(),
{
    "Usage:\n  bible-io-references [--language CODE] [--format text|json|osis|usfm] \"John 3:16\"\n  bible-io-references [--language CODE] [--format text|json|osis|usfm] --batch\n  bible-io-references [--language CODE] [--format text|json|osis|usfm] --input FILE\n\nBatch input is UTF-8 with one passage per nonblank line.\nJSON batch output is JSON Lines, including per-line errors.\nExit codes: 0 success, 64 usage, 65 parse failure, 66 input error.\n".to_owned()
}

// ---------------------------------------------------------------------------
// Parsing and reporting one input
// ---------------------------------------------------------------------------

/// A parsed passage and, when the same input is also a single verse or
/// range, that reference.
pub struct ParsedInput {
    /// The passage.
    pub passage: Passage,
    /// The input read as one verse or range, if it is one.
    pub narrow_reference: Option<Reference>,
}

/// The parsing language: the explicit one, or automatic detection.
pub open spec fn parse_language_of(language: Option<Language>) -> Language {
    match language {
        Some(l) => l,
        None => Language::Auto,
    }
}

/// Parse one input as a passage, and also as a single reference.
pub fn parse_input(parser: &PassageParser, input: &str, language: Option<Language>) -> (r: Result<
    ParsedInput,
    ParseError,
>)
    ensures
        match r {
            Ok(p) => passage_value(spec_parse_passage(parser@, input@, parse_language_of(language)))
                == Ok::<PassageModel, crate::error::ErrorModel>(p.passage@) && p.narrow_reference
                == ok_value(spec_parse(parser@.parser, input@, parse_language_of(language))),
            Err(e) => passage_value(spec_parse_passage(parser@, input@, parse_language_of(language)))
                == Err::<PassageModel, crate::error::ErrorModel>(e.model()),
        },
{
    let l = match language {
        Some(l) => l,
        None => Language::Auto,
    };
    let passage = match parser.parse_with_language(input, l) {
        Ok(p) => p,
        Err(e) => return Err(e),
    };
    let narrow_reference = parser.reference_parser().try_parse_with_language(input, l);
    Ok(ParsedInput { passage, narrow_reference })
}

/// The rendering of a parsed passage: localized text (English when no
/// language was given), the JSON of the single reference when there is one
/// and of the passage otherwise, or an identifier.
pub open spec fn rendered(m: PassageModel, narrow: Option<Reference>, o: OptionsModel) -> Seq<char> {
    match o.output_format {
        OutputFormat::Text => passage_display(
            ReferenceFormatter::spec_for_language(
                match o.language {
                    Some(l) => l,
                    None => Language::English,
                },
            ),
            m,
        ),
        OutputFormat::Json => match narrow {
            Some(r) => reference_json_text(r),
            None => passage_json_text(m),
        },
        OutputFormat::Osis => osis_passage(m),
        OutputFormat::Usfm => usfm_passage(m),
    }
}

/// Render a parsed passage as the options ask.
pub fn render(parsed: &ParsedInput, options: &CliOptions) -> (r: String)
    ensures
        r@ == rendered(parsed.passage@, parsed.narrow_reference, options@),
{
    match options.output_format {
        OutputFormat::Text => {
            let l = match options.language {
                Some(l) => l,
                None => Language::English,
            };
            ReferenceFormatter::for_language(l).format_passage(&parsed.passage).to_string()
        },
        OutputFormat::Json => match parsed.narrow_reference {
            Some(r) => reference_json(r),
            None => passage_json(&parsed.passage),
        },
        OutputFormat::Osis => parsed.passage.osis_identifier(),
        OutputFormat::Usfm => parsed.passage.usfm_identifier(),
    }
}

/// `{"line":N,"input":…,"ok":true,…}` with the reference or the passage.
pub open spec fn batch_success_text(line: usize, input: Seq<char>, m: PassageModel, narrow: Option<
    Reference,
>) -> Seq<char> {
    "{\"line\":"@ + decimal(line as nat) + ",\"input\":"@ + json_text(input) + ",\"ok\":true,"@
        + match narrow {
        Some(r) => "\"reference\":"@ + reference_json_text(r),
        None => "\"passage\":"@ + passage_json_text(m),
    } + "}"@
}

/// `{"line":N,"input":…,"ok":false,"error":{"code":…,"details":…}}`, the
/// line only in batch mode.
pub open spec fn error_json_text(input: Seq<char>, e: ParseError, line: Option<usize>) -> Seq<char> {
    "{"@ + match line {
        Some(n) => "\"line\":"@ + decimal(n as nat) + ","@,
        None => Seq::<char>::empty(),
    } + "\"input\":"@ + json_text(input) + ",\"ok\":false,\"error\":{\"code\":"@ + json_text(
        spec_kind_code(e.spec_kind()),
    ) + ",\"details\":"@ + json_text(e.spec_details()) + "}}"@
}

/// `Unable to parse "INPUT" (CODE).` and the details, each on a line of
/// its own, after `Line N: ` in batch mode.
pub open spec fn diagnostic_text(input: Seq<char>, e: ParseError, line: Option<usize>) -> Seq<char> {
    (match line {
        Some(n) => "Line "@ + decimal(n as nat) + ": "@,
        None => Seq::<char>::empty(),
    }) + "Unable to parse "@ + str_debug(input) + " ("@ + spec_kind_code(e.spec_kind()) + ")."@
        + seq!['\n'] + e.spec_details() + seq!['\n']
}

/// What is written for one input, where, and whether it failed.
pub struct Report {
    /// The text, with its line break.
    pub text: String,
    /// Whether the text goes to the error stream.
    pub to_errors: bool,
    /// Whether the input was rejected.
    pub failed: bool,
}

/// Decide what is written for one input: `line` is the line number in
/// batch mode and `None` for a single input. JSON mode writes errors as JSON
/// to the output stream; text modes write diagnostics to the error stream.
pub fn report(outcome: &Result<ParsedInput, ParseError>, input: &str, line: Option<usize>, options: &CliOptions) -> (r: Report)
    ensures
        match outcome {
            Ok(p) => !r.failed && !r.to_errors && r.text@ == (match line {
                Some(n) => if options@.output_format == OutputFormat::Json {
                    batch_success_text(n, input@, p.passage@, p.narrow_reference)
                } else {
                    rendered(p.passage@, p.narrow_reference, options@)
                },
                None => rendered(p.passage@, p.narrow_reference, options@),
            }) + seq!['\n'],
            Err(e) => r.failed && if options@.output_format == OutputFormat::Json {
                !r.to_errors && r.text@ == error_json_text(input@, *e, line) + seq!['\n']
            } else {
                r.to_errors && r.text@ == diagnostic_text(input@, *e, line)
            },
        },
{
    let mut out: Vec<char> = Vec::new();
    match outcome {
        Ok(p) => {
            let json_line = match line {
                Some(_) => options.output_format == OutputFormat::Json,
                None => false,
            };
            if json_line {
                let n = line.unwrap();
                extend_str(&mut out, "{\"line\":");
                push_decimal_usize(&mut out, n);
                extend_str(&mut out, ",\"input\":");
                let quoted = json_string(input);
                extend_str(&mut out, quoted.as_str());
                extend_str(&mut out, ",\"ok\":true,");
                match p.narrow_reference {
                    Some(r) => {
                        extend_str(&mut out, "\"reference\":");
                        write_reference_json(r, &mut out);
                    },
                    None => {
                        extend_str(&mut out, "\"passage\":");
                        write_passage_json(&p.passage, &mut out);
                    },
                }
                extend_str(&mut out, "}");
            } else {
                let text = render(p, options);
                extend_str(&mut out, text.as_str());
            }
            out.push('\n');
            Report { text: string_of(out.as_slice()), to_errors: false, failed: false }
        },
        Err(e) => {
            if options.output_format == OutputFormat::Json {
                extend_str(&mut out, "{");
                match line {
                    Some(n) => {
                        extend_str(&mut out, "\"line\":");
                        push_decimal_usize(&mut out, n);
                        extend_str(&mut out, ",");
                    },
                    None => {},
                }
                extend_str(&mut out, "\"input\":");
                let quoted = json_string(input);
                extend_str(&mut out, quoted.as_str());
                extend_str(&mut out, ",\"ok\":false,\"error\":{\"code\":");
                let code = json_string(e.code());
                extend_str(&mut out, code.as_str());
                extend_str(&mut out, ",\"details\":");
                let details = json_string(e.details());
                extend_str(&mut out, details.as_str());
                extend_str(&mut out, "}}");
                out.push('\n');
                Report { text: string_of(out.as_slice()), to_errors: false, failed: true }
            } else {
                match line {
                    Some(n) => {
                        extend_str(&mut out, "Line ");
                        push_decimal_usize(&mut out, n);
                        extend_str(&mut out, ": ");
                    },
                    None => {},
                }
                extend_str(&mut out, "Unable to parse ");
                let quoted = debug_quote(input);
                extend_str(&mut out, quoted.as_str());
                extend_str(&mut out, " (");
                extend_str(&mut out, e.code());
                extend_str(&mut out, ").");
                out.push('\n');
                extend_str(&mut out, e.details());
                out.push('\n');
                Report { text: string_of(out.as_slice()), to_errors: true, failed: true }
            }
        },
    }
}

/// The passage on one line of batch input: the line trimmed of white space,
/// or `None` for a blank line.
pub fn batch_input(raw_line: &str) -> (r: Option<String>)
    ensures
        match r {
            Some(s) => s@ == trim(raw_line@) && s@.len() > 0,
            None => trim(raw_line@).len() == 0,
        },
{
    let chars = chars_of(raw_line);
    let trimmed = trim_chars(chars.as_slice());
    if trimmed.len() == 0 {
        None
    } else {
        Some(string_of(trimmed.as_slice()))
    }
}

/// The exit status after a run: parse failures give `DATA_ERROR`.
pub fn exit_status(had_failure: bool) -> (r: u8)
    ensures
        r == (if had_failure { DATA_ERROR } else { SUCCESS }),
{
    if had_failure {
        DATA_ERROR
    } else {
        SUCCESS
    }
}

/// Words joined by single spaces.
pub open spec fn spaced(words: Seq<Seq<char>>) -> Seq<char>
    decreases words.len(),
{
    if words.len() == 0 {
        seq![]
    } else if words.len() == 1 {
        words[0]
    } else {
        spaced(words.drop_last()) + seq![' '] + words.last()
    }
}

/// The single passage given on the command line: its words joined by
/// spaces.
pub fn single_input(options: &CliOptions) -> (r: String)
    ensures
        r@ == spaced(options@.input_parts),
{
    let parts = &options.input_parts;
    let ghost words = options@.input_parts;
    let mut out: Vec<char> = Vec::new();
    for i in 0..parts.len()
        invariant
            words == arg_views(parts@),
            out@ == spaced(words.take(i as int)),
    {
        assert(words.take(i + 1).drop_last() == words.take(i as int));
        assert(words.take(i + 1).last() == parts@[i as int]@);
        if i > 0 {
            out.push(' ');
        } else {
            assert(words.take(0).len() == 0);
        }
        extend_str(&mut out, parts[i].as_str());
    }
    assert(words.take(words.len() as int) == words);
    string_of(out.as_slice())
}

/// The JSON object of a chapter passage ends with its chapters: the
/// `startChapter` member holds the decimal of the first chapter and the
/// `endChapter` member the decimal of the last chapter, or `null` when the
/// passage is one chapter; each decimal reads back as that chapter.
pub proof fn lemma_chapter_json_members(book: Book, start: u16, end: Option<u16>)
    ensures
        ({
            let end_value = match end {
                Some(e) => decimal(e as nat),
                None => "null"@,
            };
            &&& passage_json_text(PassageModel::Chapter(book, start, end)) == "{\"type\":\"chapter\",\"book\":"@
                + json_text(spec_abbreviation(book)) + ",\"startChapter\":"@ + decimal(start as nat)
                + ",\"endChapter\":"@ + end_value + "}"@
            &&& digits_value(decimal(start as nat)) == start
            &&& (end matches Some(e) ==> digits_value(end_value) == e && is_number(end_value))
        }),
{
    lemma_decimal(start as nat);
    if let Some(e) = end {
        lemma_decimal(e as nat);
    }
}

/// The JSON object of a verse names its book's code and holds the decimals
/// of its own chapter and verse, which read back as them; a range object
/// holds the objects of its own start and end, in that order.
pub proof fn lemma_reference_json_members(r: Reference)
    ensures
        match r {
            Reference::Verse(v) => reference_json_text(r) == "{\"type\":\"verse\",\"book\":"@
                + json_text(spec_abbreviation(v.spec_book())) + ",\"chapter\":"@ + decimal(
                v.spec_chapter() as nat,
            ) + ",\"verse\":"@ + decimal(v.spec_verse() as nat) + "}"@ && digits_value(
                decimal(v.spec_chapter() as nat),
            ) == v.spec_chapter() && digits_value(decimal(v.spec_verse() as nat)) == v.spec_verse(),
            Reference::Range(g) => reference_json_text(r) == "{\"type\":\"range\",\"start\":"@
                + reference_json_text(Reference::Verse(g.spec_start())) + ",\"end\":"@
                + reference_json_text(Reference::Verse(g.spec_end())) + "}"@,
        },
{
    if let Reference::Verse(v) = r {
        lemma_decimal(v.spec_chapter() as nat);
        lemma_decimal(v.spec_verse() as nat);
    }
}

} // verus!
