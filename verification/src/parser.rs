//! Parsers, the stream of events that one yields, and the error model.
//!
//! Nothing here calls the engine. A step of the engine is made by the host,
//! and what the step left behind comes in as a [`YamlParserStep`]; the types
//! of this module decide what that means: an event, or an error with its
//! positions. The same holds for input that is pulled from a reader: the host
//! reads, and [`handle_reader_cb`] decides what the engine is told.

use crate::event::{YamlEvent, YamlEventView};
use crate::ffi::{
    yaml_event_t, yaml_mark_t, yaml_parser_t, YamlParserStep, YAML_COMPOSER_ERROR,
    YAML_EMITTER_ERROR, YAML_MEMORY_ERROR, YAML_NO_ERROR, YAML_PARSER_ERROR, YAML_READER_ERROR,
    YAML_SCANNER_ERROR, YAML_WRITER_ERROR,
};
use crate::text::{decode_optional, text_of, text_view};
use vstd::prelude::*;

verus! {

/// What kind of failure the engine reported.
#[derive(Clone, Copy, Debug, PartialEq, Eq, Structural)]
pub enum YamlErrorType {
    YamlNoError,
    YamlMemoryError,
    YamlReaderError,
    YamlScannerError,
    YamlParserError,
    YamlComposerError,
    YamlWriterError,
    YamlEmitterError,
}

/// The kind of failure that an error code of the engine stands for.
pub open spec fn error_type_of_code(code: u32) -> Option<YamlErrorType> {
    if code == YAML_NO_ERROR {
        Some(YamlErrorType::YamlNoError)
    } else if code == YAML_MEMORY_ERROR {
        Some(YamlErrorType::YamlMemoryError)
    } else if code == YAML_READER_ERROR {
        Some(YamlErrorType::YamlReaderError)
    } else if code == YAML_SCANNER_ERROR {
        Some(YamlErrorType::YamlScannerError)
    } else if code == YAML_PARSER_ERROR {
        Some(YamlErrorType::YamlParserError)
    } else if code == YAML_COMPOSER_ERROR {
        Some(YamlErrorType::YamlComposerError)
    } else if code == YAML_WRITER_ERROR {
        Some(YamlErrorType::YamlWriterError)
    } else if code == YAML_EMITTER_ERROR {
        Some(YamlErrorType::YamlEmitterError)
    } else {
        None
    }
}

impl YamlErrorType {
    /// Reads an error code; `None` for a code that stands for no kind.
    pub fn from_code(code: u32) -> (kind: Option<YamlErrorType>)
        ensures
            kind == error_type_of_code(code),
    {
        match code {
            YAML_NO_ERROR => Some(YamlErrorType::YamlNoError),
            YAML_MEMORY_ERROR => Some(YamlErrorType::YamlMemoryError),
            YAML_READER_ERROR => Some(YamlErrorType::YamlReaderError),
            YAML_SCANNER_ERROR => Some(YamlErrorType::YamlScannerError),
            YAML_PARSER_ERROR => Some(YamlErrorType::YamlParserError),
            YAML_COMPOSER_ERROR => Some(YamlErrorType::YamlComposerError),
            YAML_WRITER_ERROR => Some(YamlErrorType::YamlWriterError),
            YAML_EMITTER_ERROR => Some(YamlErrorType::YamlEmitterError),
            _ => None,
        }
    }
}

/// A position in the source: offset in bytes, line and column.
#[derive(Clone, Copy, Debug, PartialEq, Eq, Structural)]
pub struct YamlMark {
    pub index: usize,
    pub line: usize,
    pub column: usize,
}

impl YamlMark {
    /// The position that the engine's record stands for.
    pub open spec fn of(mark: yaml_mark_t) -> YamlMark {
        YamlMark { index: mark.index, line: mark.line, column: mark.column }
    }

    /// Reads a position out of the engine's record.
    pub fn conv(mark: &yaml_mark_t) -> (m: YamlMark)
        ensures
            m == YamlMark::of(*mark),
    {
        YamlMark { index: mark.index, line: mark.line, column: mark.column }
    }
}

/// A failure of one step of the engine: a copy of what the engine said about
/// it, taken right after the step.
#[derive(Clone, Debug, PartialEq, Eq)]
pub struct YamlError {
    pub kind: YamlErrorType,
    /// What went wrong.
    pub problem: Option<String>,
    /// Offset in bytes of the problem.
    pub byte_offset: usize,
    /// Where the problem is.
    pub problem_mark: YamlMark,
    /// What the engine was doing when it went wrong.
    pub context: Option<String>,
    /// Where that began.
    pub context_mark: YamlMark,
}

/// What an error holds.
pub struct YamlErrorView {
    pub kind: YamlErrorType,
    pub problem: Option<Seq<char>>,
    pub byte_offset: usize,
    pub problem_mark: YamlMark,
    pub context: Option<Seq<char>>,
    pub context_mark: YamlMark,
}

impl View for YamlError {
    type V = YamlErrorView;

    open spec fn view(&self) -> YamlErrorView {
        YamlErrorView {
            kind: self.kind,
            problem: text_view(self.problem),
            byte_offset: self.byte_offset,
            problem_mark: self.problem_mark,
            context: text_view(self.context),
            context_mark: self.context_mark,
        }
    }
}

impl YamlError {
    /// The error that the error fields of the engine's parser record stand
    /// for, when the error code stands for a kind. The problem and the
    /// context are read from their own fields.
    pub open spec fn of(mem: yaml_parser_t) -> YamlErrorView {
        YamlErrorView {
            kind: error_type_of_code(mem.error).unwrap(),
            problem: text_of(mem.problem),
            byte_offset: mem.problem_offset,
            problem_mark: YamlMark::of(mem.problem_mark),
            context: text_of(mem.context),
            context_mark: YamlMark::of(mem.context_mark),
        }
    }
}

impl YamlParserStep {
    /// Whether the step can be read: the event record stands for an event,
    /// or the error code stands for a kind of failure.
    pub open spec fn acceptable(&self) -> bool {
        match *self {
            YamlParserStep::Produced(event) => YamlEvent::loadable(event),
            YamlParserStep::Failed(mem) => error_type_of_code(mem.error) is Some,
        }
    }

    /// What the step means: the event read from the record on success, the
    /// error read from the error fields on failure.
    pub open spec fn outcome(&self) -> Result<YamlEventView, YamlErrorView> {
        match *self {
            YamlParserStep::Produced(event) => Ok(YamlEvent::loaded(event)),
            YamlParserStep::Failed(mem) => Err(YamlError::of(mem)),
        }
    }

    /// Tests whether the step can be read.
    pub fn is_acceptable(&self) -> (b: bool)
        ensures
            b == self.acceptable(),
    {
        match self {
            YamlParserStep::Produced(event) => YamlEvent::can_load(event),
            YamlParserStep::Failed(mem) => YamlErrorType::from_code(mem.error).is_some(),
        }
    }
}

/// What a step of a stream holds.
pub open spec fn step_view(r: Result<YamlEvent, YamlError>) -> Result<
    YamlEventView,
    YamlErrorView,
> {
    match r {
        Ok(evt) => Ok(evt@),
        Err(err) => Err(err@),
    }
}

/// The events of one parser, one per step, in source order. The stream is
/// over, by convention, once it has yielded a stream end or an error; nothing
/// forbids a further step, and none needs anything of the steps before it.
pub struct YamlEventStream<P> {
    pub parser: Box<P>,
}

impl<P: YamlParser> YamlEventStream<P> {
    /// Reads one step of the engine: the event it produced, or the error it
    /// failed with. After a failure the parser holds the error fields of the
    /// step; after a success it holds what it held before.
    pub fn next_event(&mut self, step: YamlParserStep) -> (r: Result<YamlEvent, YamlError>)
        requires
            step.acceptable(),
        ensures
            step_view(r) == step.outcome(),
            step matches YamlParserStep::Produced(_) ==> final(self).parser.base_parser() == old(
                self,
            ).parser.base_parser(),
            step matches YamlParserStep::Failed(mem) ==> final(self).parser.base_parser().parser_mem
                == mem,
    {
        match self.parser.parse_event(step) {
            Some(evt) => Ok(evt),
            None => Err(self.parser.base_parser_ref().get_error()),
        }
    }
}

/// A parser: whatever holds a [`YamlBaseParser`].
pub trait YamlParser: Sized {
    /// The base parser held.
    spec fn base_parser(&self) -> YamlBaseParser;

    /// Lends the base parser. What is done to it is done to the one held.
    fn base_parser_ref(&mut self) -> (base: &mut YamlBaseParser)
        ensures
            *base == old(self).base_parser(),
            final(self).base_parser() == *final(base),
    ;

    /// Reads one step of the engine: the event on success, `None` on failure,
    /// in which case the base parser has taken over the error fields.
    fn parse_event(&mut self, step: YamlParserStep) -> (evt: Option<YamlEvent>)
        requires
            step.acceptable(),
        ensures
            match step {
                YamlParserStep::Produced(event) => {
                    &&& evt matches Some(e)
                    &&& e@ == YamlEvent::loaded(event)
                    &&& final(self).base_parser() == old(self).base_parser()
                },
                YamlParserStep::Failed(mem) => {
                    &&& evt is None
                    &&& final(self).base_parser().parser_mem == mem
                },
            },
    {
        let mut event = yaml_event_t::new();
        if !self.base_parser_ref().parse(step, &mut event) {
            None
        } else {
            Some(YamlEvent::load(&event))
        }
    }

    /// Turns the parser into the stream of its events.
    fn parse(self: Box<Self>) -> (stream: YamlEventStream<Self>)
        ensures
            stream.parser == self,
    {
        YamlEventStream { parser: self }
    }
}

/// Why a read from a byte source failed.
#[derive(Clone, Copy, Debug, PartialEq, Eq, Structural)]
pub enum YamlReadError {
    /// The source has no more bytes.
    EndOfFile,
    /// Anything else.
    OtherIoError,
}

/// What the engine is told after it asked for input: the status it is
/// handed, and the number of bytes written for it, if one is written.
#[derive(Clone, Copy, Debug, PartialEq, Eq)]
pub struct YamlReadReply {
    /// 1 for success, 0 for failure.
    pub status: i32,
    /// The count to store for the engine; `None` leaves it as it is.
    pub size_read: Option<usize>,
}

/// The reply that a read into a buffer of `size` bytes calls for. Bytes read
/// are success with their count; the end of the source is success with no
/// bytes, which the engine takes as the end of the stream; any other failure
/// is failure and stores no count. A count above `size` cannot come from a
/// read into that buffer and is failure too.
pub open spec fn reader_reply(result: Result<usize, YamlReadError>, size: usize) -> YamlReadReply {
    match result {
        Ok(n) => if n <= size {
            YamlReadReply { status: 1, size_read: Some(n) }
        } else {
            YamlReadReply { status: 0, size_read: None }
        },
        Err(YamlReadError::EndOfFile) => YamlReadReply { status: 1, size_read: Some(0) },
        Err(YamlReadError::OtherIoError) => YamlReadReply { status: 0, size_read: None },
    }
}

/// Decides what the engine is told about a read that the host made for it
/// into a buffer of `size` bytes. A successful reply never claims more bytes
/// than the buffer holds.
pub fn handle_reader_cb(result: Result<usize, YamlReadError>, size: usize) -> (reply:
    YamlReadReply)
    ensures
        reply == reader_reply(result, size),
        reply.status == 1 || reply.status == 0,
        reply.status == 1 <==> reply.size_read is Some,
        reply.size_read matches Some(n) ==> n <= size,
{
    match result {
        Ok(n) => {
            if n <= size {
                YamlReadReply { status: 1, size_read: Some(n) }
            } else {
                YamlReadReply { status: 0, size_read: None }
            }
        },
        Err(err) => {
            match err {
                YamlReadError::EndOfFile => YamlReadReply { status: 1, size_read: Some(0) },
                YamlReadError::OtherIoError => YamlReadReply { status: 0, size_read: None },
            }
        },
    }
}

/// The part that all parsers share: the error fields of the engine's parser
/// record, as the last failed step left them.
#[derive(Debug, PartialEq, Eq)]
pub struct YamlBaseParser {
    pub parser_mem: yaml_parser_t,
}

impl YamlBaseParser {
    /// A base parser that has seen no step: no error, no text, every position
    /// zero.
    pub fn new() -> (base: YamlBaseParser)
        ensures
            base.parser_mem.is_new(),
    {
        YamlBaseParser { parser_mem: yaml_parser_t::new() }
    }

    /// Takes in one step of the engine and says whether it succeeded. On
    /// success `event` becomes the record that the engine filled and the
    /// error fields stay; on failure the error fields become those of the
    /// step and `event` stays.
    pub fn parse(&mut self, step: YamlParserStep, event: &mut yaml_event_t) -> (ok: bool)
        ensures
            match step {
                YamlParserStep::Produced(produced) => {
                    &&& ok
                    &&& *final(event) == produced
                    &&& *final(self) == *old(self)
                },
                YamlParserStep::Failed(mem) => {
                    &&& !ok
                    &&& final(self).parser_mem == mem
                    &&& *final(event) == *old(event)
                },
            },
    {
        match step {
            YamlParserStep::Produced(produced) => {
                *event = produced;
                true
            },
            YamlParserStep::Failed(mem) => {
                self.parser_mem = mem;
                false
            },
        }
    }

    /// Whether the error code held stands for a kind of failure.
    pub fn has_known_error(&self) -> (b: bool)
        ensures
            b == (error_type_of_code(self.parser_mem.error) is Some),
    {
        YamlErrorType::from_code(self.parser_mem.error).is_some()
    }

    /// Copies the error fields into an error of its own. After a failed step
    /// this is the error of that step.
    pub fn get_error(&self) -> (err: YamlError)
        requires
            error_type_of_code(self.parser_mem.error) is Some,
        ensures
            err@ == YamlError::of(self.parser_mem),
            err.kind == YamlErrorType::YamlNoError <==> self.parser_mem.error == YAML_NO_ERROR,
    {
        let kind = match YamlErrorType::from_code(self.parser_mem.error) {
            Some(kind) => kind,
            None => vstd::pervasive::unreached(),
        };
        YamlError {
            kind,
            problem: decode_optional(&self.parser_mem.problem),
            byte_offset: self.parser_mem.problem_offset,
            problem_mark: YamlMark::conv(&self.parser_mem.problem_mark),
            context: decode_optional(&self.parser_mem.context),
            context_mark: YamlMark::conv(&self.parser_mem.context_mark),
        }
    }
}

/// A parser whose input is a byte buffer that is already there. It borrows
/// the buffer for as long as it lives, so the buffer outlives every step.
#[derive(Debug)]
pub struct YamlByteParser<'r> {
    pub base_parser: YamlBaseParser,
    pub bytes: &'r [u8],
}

impl<'r> YamlParser for YamlByteParser<'r> {
    open spec fn base_parser(&self) -> YamlBaseParser {
        self.base_parser
    }

    fn base_parser_ref(&mut self) -> (base: &mut YamlBaseParser)
        ensures
            final(self).bytes == old(self).bytes,
    {
        &mut self.base_parser
    }
}

impl<'r> YamlByteParser<'r> {
    /// A parser over `bytes` that has seen no step.
    pub fn init(bytes: &'r [u8]) -> (parser: Box<YamlByteParser<'r>>)
        ensures
            parser.bytes == bytes,
            parser.base_parser.parser_mem.is_new(),
    {
        Box::new(YamlByteParser { base_parser: YamlBaseParser::new(), bytes })
    }
}

/// A parser whose input is pulled from a reader as the engine asks for it.
/// It owns the reader.
#[derive(Debug)]
pub struct YamlIoParser<R> {
    pub base_parser: YamlBaseParser,
    pub reader: R,
}

impl<R> YamlParser for YamlIoParser<R> {
    open spec fn base_parser(&self) -> YamlBaseParser {
        self.base_parser
    }

    fn base_parser_ref(&mut self) -> (base: &mut YamlBaseParser)
        ensures
            final(self).reader == old(self).reader,
    {
        &mut self.base_parser
    }
}

impl<R> YamlIoParser<R> {
    /// A parser over `reader` that has seen no step.
    pub fn init(reader: R) -> (parser: Box<YamlIoParser<R>>)
        ensures
            parser.reader == reader,
            parser.base_parser.parser_mem.is_new(),
    {
        Box::new(YamlIoParser { base_parser: YamlBaseParser::new(), reader })
    }
}

} // verus!
