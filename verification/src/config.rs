//! Configuration documents.
//!
//! A document is a `serde_json::Value`. The library never looks inside
//! one: it hands documents to `serde_json` to be written out and read back,
//! and speaks of them through the text they are written as.

use vstd::prelude::*;

verus! {

/// `serde_json::Value`, a JSON document. Nothing inside it is visible
/// here.
#[verifier::external_type_specification]
#[verifier::external_body]
pub struct ExValue(serde_json::Value);

/// `serde_json::Error`, what reading or writing JSON fails with. Nothing
/// inside it is visible here.
#[verifier::external_type_specification]
#[verifier::external_body]
pub struct ExJsonError(serde_json::Error);

/// What `serde_json::to_string_pretty` makes of a document: its indented
/// JSON text, or the error that stopped the writing.
pub uninterp spec fn pretty_text(doc: serde_json::Value) -> Result<Seq<char>, serde_json::Error>;

/// What `serde_json::from_str` makes of a text: the document it holds, or
/// the error that says where the text stops being JSON.
pub uninterp spec fn parsed(text: Seq<char>) -> Result<serde_json::Value, serde_json::Error>;

/// What `serde_json::Error::is_io` answers: whether the error is the
/// failure of a stream and not a complaint about JSON.
pub uninterp spec fn is_io_error(error: serde_json::Error) -> bool;

/// What a `serde_json::Error` that is no failure of a stream displays as:
/// the wording of its kind, with the line and the column where it has them.
pub uninterp spec fn error_text(error: serde_json::Error) -> Seq<char>;

/// The empty document: the object without members, which is the one that
/// is written as `{}`.
pub open spec fn is_empty_document(doc: serde_json::Value) -> bool {
    pretty_text(doc) == Ok::<Seq<char>, serde_json::Error>("{}"@)
}

/// `serde_json::to_string_pretty`, on a document. The outcome depends on
/// the document alone: members are written in the order of their names,
/// numbers in their shortest form.
#[verifier::external_body]
fn write_pretty(doc: &serde_json::Value) -> (r: Result<String, serde_json::Error>)
    ensures
        match r {
            Ok(text) => pretty_text(*doc) == Ok::<Seq<char>, serde_json::Error>(text@),
            Err(error) => pretty_text(*doc) == Err::<Seq<char>, serde_json::Error>(error),
        },
{
    serde_json::to_string_pretty(doc)
}

/// `serde_json::from_str`, reading a document. The outcome depends on the
/// text alone.
#[verifier::external_body]
fn read_document(text: &str) -> (r: Result<serde_json::Value, serde_json::Error>)
    ensures
        r == parsed(text@),
{
    serde_json::from_str(text)
}

/// `serde_json::Error::is_io`.
#[verifier::external_body]
fn is_stream_failure(error: &serde_json::Error) -> (b: bool)
    ensures
        b == is_io_error(*error),
{
    error.is_io()
}

/// The `Display` text of a `serde_json::Error`. It is asked only of an
/// error that is no failure of a stream: the text of such an error is made
/// of the error alone, while a stream's failure is worded by the system.
#[verifier::external_body]
fn describe(error: &serde_json::Error) -> (text: String)
    requires
        !is_io_error(*error),
    ensures
        text@ == error_text(*error),
{
    error.to_string()
}

/// `serde_json::Value::Object` around `serde_json::Map::new()`: the
/// document without members, which is written as `{}`.
#[verifier::external_body]
fn empty_object() -> (doc: serde_json::Value)
    ensures
        is_empty_document(doc),
{
    serde_json::Value::Object(serde_json::Map::new())
}

/// A loaded document as contracts speak of it.
pub open spec fn document_view_of(r: Result<serde_json::Value, String>) -> Result<
    serde_json::Value,
    Seq<char>,
> {
    match r {
        Ok(doc) => Ok(doc),
        Err(message) => Err(message@),
    }
}

/// A written text as contracts speak of it.
pub open spec fn text_view_of(r: Result<String, String>) -> Result<Seq<char>, Seq<char>> {
    match r {
        Ok(text) => Ok(text@),
        Err(message) => Err(message@),
    }
}

/// What is said of an error: its own text, or `I/O error` for the failure
/// of a stream.
pub open spec fn error_detail(error: serde_json::Error) -> Seq<char> {
    if is_io_error(error) {
        "I/O error"@
    } else {
        error_text(error)
    }
}

/// Words an error.
fn detail_of(error: &serde_json::Error) -> (text: String)
    ensures
        text@ == error_detail(*error),
{
    if is_stream_failure(error) {
        "I/O error".to_owned()
    } else {
        describe(error)
    }
}

/// What loading gives for a file that was read: the document, or the
/// parser's complaint behind `Failed to parse config: `.
pub open spec fn load_outcome(parse: Result<serde_json::Value, serde_json::Error>) -> Result<
    serde_json::Value,
    Seq<char>,
> {
    match parse {
        Ok(doc) => Ok(doc),
        Err(error) => Err("Failed to parse config: "@ + error_detail(error)),
    }
}

/// What saving hands to the file system: the document's text, or the
/// writer's complaint behind `Failed to serialize config: `.
pub open spec fn save_outcome(written: Result<Seq<char>, serde_json::Error>) -> Result<
    Seq<char>,
    Seq<char>,
> {
    match written {
        Ok(text) => Ok(text),
        Err(error) => Err("Failed to serialize config: "@ + error_detail(error)),
    }
}

/// Turns what the parser made of a configuration file into what loading
/// returns.
pub fn config_from_parse(parse: Result<serde_json::Value, serde_json::Error>) -> (r: Result<
    serde_json::Value,
    String,
>)
    ensures
        document_view_of(r) == load_outcome(parse),
{
    match parse {
        Ok(doc) => Ok(doc),
        Err(error) => {
            let mut message = "Failed to parse config: ".to_owned();
            let detail = detail_of(&error);
            message.append(detail.as_str());
            Err(message)
        },
    }
}

/// Turns what the writer made of a document into what saving writes.
pub fn text_from_write(written: Result<String, serde_json::Error>) -> (r: Result<String, String>)
    ensures
        text_view_of(r) == save_outcome(
            match written {
                Ok(text) => Ok(text@),
                Err(error) => Err(error),
            },
        ),
{
    match written {
        Ok(text) => Ok(text),
        Err(error) => {
            let mut message = "Failed to serialize config: ".to_owned();
            let detail = detail_of(&error);
            message.append(detail.as_str());
            Err(message)
        },
    }
}

/// Makes the document of a configuration out of what its file holds.
/// Where there is no file yet, `content` is `None` and the document is the
/// empty one, written `{}`: a first load needs no save before it. Else the
/// content is parsed, and text that is no JSON is reported.
pub fn decode_config(content: Option<&str>) -> (r: Result<serde_json::Value, String>)
    ensures
        match content {
            None => r matches Ok(doc) && is_empty_document(doc),
            Some(text) => document_view_of(r) == load_outcome(parsed(text@)),
        },
{
    match content {
        None => Ok(empty_object()),
        Some(text) => config_from_parse(read_document(text)),
    }
}

/// Writes a document out as the indented JSON text that its file is to
/// hold.
pub fn encode_config(config: &serde_json::Value) -> (r: Result<String, String>)
    ensures
        text_view_of(r) == save_outcome(pretty_text(*config)),
{
    text_from_write(write_pretty(config))
}

/// Saving a document and loading what was saved gives the document back,
/// for every document that `serde_json` reads back as it wrote it: the
/// library puts nothing between the writing and the reading.
pub proof fn law_saved_document_loads(doc: serde_json::Value)
    requires
        pretty_text(doc) matches Ok(text) && parsed(text) == Ok::<
            serde_json::Value,
            serde_json::Error,
        >(doc),
    ensures
        save_outcome(pretty_text(doc)) matches Ok(text) && load_outcome(parsed(text)) == Ok::<
            serde_json::Value,
            Seq<char>,
        >(doc),
{
}

} // verus!
