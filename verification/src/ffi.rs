//! The engine's side of the interface, as plain values.
//!
//! The engine writes its results into records of its own: numeric codes,
//! byte strings, flags. This module holds the codes, the closed sets they
//! stand for, and an image of each record that carries exactly the fields the
//! typed model is computed from. Whoever drives the engine copies its records
//! into these images, one field for one field.

use vstd::prelude::*;

verus! {

/// No error is produced.
pub const YAML_NO_ERROR: u32 = 0;

/// Cannot allocate or reallocate a block of memory.
pub const YAML_MEMORY_ERROR: u32 = 1;

/// Cannot read or decode the input stream.
pub const YAML_READER_ERROR: u32 = 2;

/// Cannot scan the input stream.
pub const YAML_SCANNER_ERROR: u32 = 3;

/// Cannot parse the input stream.
pub const YAML_PARSER_ERROR: u32 = 4;

/// Cannot compose a document.
pub const YAML_COMPOSER_ERROR: u32 = 5;

/// Cannot write to the output stream.
pub const YAML_WRITER_ERROR: u32 = 6;

/// Cannot emit a stream.
pub const YAML_EMITTER_ERROR: u32 = 7;

/// An empty event.
pub const YAML_NO_EVENT: u32 = 0;

/// A STREAM-START event.
pub const YAML_STREAM_START_EVENT: u32 = 1;

/// A STREAM-END event.
pub const YAML_STREAM_END_EVENT: u32 = 2;

/// A DOCUMENT-START event.
pub const YAML_DOCUMENT_START_EVENT: u32 = 3;

/// A DOCUMENT-END event.
pub const YAML_DOCUMENT_END_EVENT: u32 = 4;

/// An ALIAS event.
pub const YAML_ALIAS_EVENT: u32 = 5;

/// A SCALAR event.
pub const YAML_SCALAR_EVENT: u32 = 6;

/// A SEQUENCE-START event.
pub const YAML_SEQUENCE_START_EVENT: u32 = 7;

/// A SEQUENCE-END event.
pub const YAML_SEQUENCE_END_EVENT: u32 = 8;

/// A MAPPING-START event.
pub const YAML_MAPPING_START_EVENT: u32 = 9;

/// A MAPPING-END event.
pub const YAML_MAPPING_END_EVENT: u32 = 10;

/// The encoding of a stream.
#[derive(Clone, Copy, Debug, PartialEq, Eq, Structural)]
pub enum YamlEncoding {
    /// The engine chooses.
    YamlAnyEncoding,
    YamlUtf8Encoding,
    /// UTF-16, little endian, with a byte order mark.
    YamlUtf16LeEncoding,
    /// UTF-16, big endian, with a byte order mark.
    YamlUtf16BeEncoding,
}

/// The encoding that a code of the engine stands for.
pub open spec fn encoding_of_code(code: u32) -> Option<YamlEncoding> {
    if code == 0 {
        Some(YamlEncoding::YamlAnyEncoding)
    } else if code == 1 {
        Some(YamlEncoding::YamlUtf8Encoding)
    } else if code == 2 {
        Some(YamlEncoding::YamlUtf16LeEncoding)
    } else if code == 3 {
        Some(YamlEncoding::YamlUtf16BeEncoding)
    } else {
        None
    }
}

impl YamlEncoding {
    /// Reads an encoding code; `None` for a code that stands for no encoding.
    pub fn from_code(code: u32) -> (encoding: Option<YamlEncoding>)
        ensures
            encoding == encoding_of_code(code),
    {
        match code {
            0 => Some(YamlEncoding::YamlAnyEncoding),
            1 => Some(YamlEncoding::YamlUtf8Encoding),
            2 => Some(YamlEncoding::YamlUtf16LeEncoding),
            3 => Some(YamlEncoding::YamlUtf16BeEncoding),
            _ => None,
        }
    }
}

/// The surface syntax of a scalar.
#[derive(Clone, Copy, Debug, PartialEq, Eq, Structural)]
pub enum YamlScalarStyle {
    YamlPlainScalarStyle,
    YamlSingleQuotedScalarStyle,
    YamlDoubleQuotedScalarStyle,
    YamlLiteralScalarStyle,
    YamlFoldedScalarStyle,
}

/// The scalar style that a code of the engine stands for. Code 0 leaves the
/// choice to an emitter and is no style of a parsed scalar.
pub open spec fn scalar_style_of_code(code: u32) -> Option<YamlScalarStyle> {
    if code == 1 {
        Some(YamlScalarStyle::YamlPlainScalarStyle)
    } else if code == 2 {
        Some(YamlScalarStyle::YamlSingleQuotedScalarStyle)
    } else if code == 3 {
        Some(YamlScalarStyle::YamlDoubleQuotedScalarStyle)
    } else if code == 4 {
        Some(YamlScalarStyle::YamlLiteralScalarStyle)
    } else if code == 5 {
        Some(YamlScalarStyle::YamlFoldedScalarStyle)
    } else {
        None
    }
}

impl YamlScalarStyle {
    /// Reads a scalar style code; `None` for a code that stands for no style.
    pub fn from_code(code: u32) -> (style: Option<YamlScalarStyle>)
        ensures
            style == scalar_style_of_code(code),
    {
        match code {
            1 => Some(YamlScalarStyle::YamlPlainScalarStyle),
            2 => Some(YamlScalarStyle::YamlSingleQuotedScalarStyle),
            3 => Some(YamlScalarStyle::YamlDoubleQuotedScalarStyle),
            4 => Some(YamlScalarStyle::YamlLiteralScalarStyle),
            5 => Some(YamlScalarStyle::YamlFoldedScalarStyle),
            _ => None,
        }
    }
}

/// The surface syntax of a collection. Sequences and mappings share it.
#[derive(Clone, Copy, Debug, PartialEq, Eq, Structural)]
pub enum YamlSequenceStyle {
    YamlBlockSequenceStyle,
    YamlFlowSequenceStyle,
}

/// The collection style that a code of the engine stands for. Code 0 leaves
/// the choice to an emitter and is no style of a parsed collection.
pub open spec fn sequence_style_of_code(code: u32) -> Option<YamlSequenceStyle> {
    if code == 1 {
        Some(YamlSequenceStyle::YamlBlockSequenceStyle)
    } else if code == 2 {
        Some(YamlSequenceStyle::YamlFlowSequenceStyle)
    } else {
        None
    }
}

impl YamlSequenceStyle {
    /// Reads a collection style code; `None` for a code that stands for no
    /// style.
    pub fn from_code(code: u32) -> (style: Option<YamlSequenceStyle>)
        ensures
            style == sequence_style_of_code(code),
    {
        match code {
            1 => Some(YamlSequenceStyle::YamlBlockSequenceStyle),
            2 => Some(YamlSequenceStyle::YamlFlowSequenceStyle),
            _ => None,
        }
    }
}

/// Image of the engine's position record.
#[allow(non_camel_case_types)]
#[derive(Clone, Copy, Debug, PartialEq, Eq, Structural)]
pub struct yaml_mark_t {
    /// Offset in bytes from the start of the input.
    pub index: usize,
    pub line: usize,
    pub column: usize,
}

/// Image of the engine's `%YAML` directive record.
#[allow(non_camel_case_types)]
#[derive(Clone, Copy, Debug, PartialEq, Eq, Structural)]
pub struct yaml_version_directive_t {
    pub major: i32,
    pub minor: i32,
}

/// Image of the engine's `%TAG` directive record.
#[allow(non_camel_case_types)]
#[derive(Clone, Debug, PartialEq, Eq)]
pub struct yaml_tag_directive_t {
    pub handle: Vec<u8>,
    pub prefix: Vec<u8>,
}

/// Image of the engine's event record.
///
/// The engine keeps the parameters of the different kinds of event in one
/// overlaid area; here each parameter has a field of its own, and
/// `event_type` says which of them count:
///
/// | kind | fields that count |
/// |---|---|
/// | stream start | `encoding` |
/// | document start | `version_directive`, `tag_directives`, `implicit` |
/// | document end | `implicit` |
/// | alias | `anchor` |
/// | scalar | `anchor`, `tag`, `value`, `plain_implicit`, `quoted_implicit`, `style` |
/// | sequence start, mapping start | `anchor`, `tag`, `implicit`, `style` |
///
/// A byte string that the engine left out is `None`.
#[allow(non_camel_case_types)]
#[derive(Clone, Debug, PartialEq, Eq)]
pub struct yaml_event_t {
    pub event_type: u32,
    pub encoding: u32,
    pub version_directive: Option<yaml_version_directive_t>,
    pub tag_directives: Vec<yaml_tag_directive_t>,
    pub implicit: bool,
    pub anchor: Option<Vec<u8>>,
    pub tag: Option<Vec<u8>>,
    pub value: Vec<u8>,
    pub plain_implicit: bool,
    pub quoted_implicit: bool,
    pub style: u32,
}

impl yaml_event_t {
    /// Whether this is the record as it is before the engine has written to
    /// it: an empty event, every field zero or absent.
    pub open spec fn is_new(&self) -> bool {
        &&& self.event_type == YAML_NO_EVENT
        &&& self.encoding == 0
        &&& self.version_directive is None
        &&& self.tag_directives@.len() == 0
        &&& !self.implicit
        &&& self.anchor is None
        &&& self.tag is None
        &&& self.value@.len() == 0
        &&& !self.plain_implicit
        &&& !self.quoted_implicit
        &&& self.style == 0
    }

    /// The record before the engine has written to it.
    pub fn new() -> (event: yaml_event_t)
        ensures
            event.is_new(),
    {
        yaml_event_t {
            event_type: YAML_NO_EVENT,
            encoding: 0,
            version_directive: None,
            tag_directives: Vec::new(),
            implicit: false,
            anchor: None,
            tag: None,
            value: Vec::new(),
            plain_implicit: false,
            quoted_implicit: false,
            style: 0,
        }
    }
}

/// Image of the fields in which the engine's parser record reports its last
/// error.
#[allow(non_camel_case_types)]
#[derive(Clone, Debug, PartialEq, Eq)]
pub struct yaml_parser_t {
    /// Error code.
    pub error: u32,
    /// What went wrong, if the engine said so.
    pub problem: Option<Vec<u8>>,
    /// Offset in bytes of the problem.
    pub problem_offset: usize,
    pub problem_mark: yaml_mark_t,
    /// What the engine was doing, if it said so.
    pub context: Option<Vec<u8>>,
    pub context_mark: yaml_mark_t,
}

impl yaml_parser_t {
    /// Whether this is the record as it is before the engine has written to
    /// it: no error, no text, every position zero.
    pub open spec fn is_new(&self) -> bool {
        &&& self.error == YAML_NO_ERROR
        &&& self.problem is None
        &&& self.problem_offset == 0
        &&& self.problem_mark == (yaml_mark_t { index: 0, line: 0, column: 0 })
        &&& self.context is None
        &&& self.context_mark == (yaml_mark_t { index: 0, line: 0, column: 0 })
    }

    /// The record before the engine has written to it.
    pub fn new() -> (parser: yaml_parser_t)
        ensures
            parser.is_new(),
    {
        yaml_parser_t {
            error: YAML_NO_ERROR,
            problem: None,
            problem_offset: 0,
            problem_mark: yaml_mark_t { index: 0, line: 0, column: 0 },
            context: None,
            context_mark: yaml_mark_t { index: 0, line: 0, column: 0 },
        }
    }
}

/// What one step of the engine left behind: on success the event record that
/// it filled, on failure the error fields of its parser record.
#[derive(Clone, Debug, PartialEq, Eq)]
pub enum YamlParserStep {
    Produced(yaml_event_t),
    Failed(yaml_parser_t),
}

} // verus!
