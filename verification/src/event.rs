//! The typed event model, and how an event is read out of the engine's record.
//!
//! Every event owns its text and bytes: nothing in it refers back to the
//! record it was read from, which the engine reuses on its next step.

use crate::ffi::{
    encoding_of_code, scalar_style_of_code, sequence_style_of_code, yaml_event_t,
    yaml_tag_directive_t, yaml_version_directive_t, YamlEncoding, YamlScalarStyle,
    YamlSequenceStyle, YAML_ALIAS_EVENT, YAML_DOCUMENT_END_EVENT, YAML_DOCUMENT_START_EVENT,
    YAML_MAPPING_END_EVENT, YAML_MAPPING_START_EVENT, YAML_NO_EVENT, YAML_SCALAR_EVENT,
    YAML_SEQUENCE_END_EVENT, YAML_SEQUENCE_START_EVENT, YAML_STREAM_END_EVENT,
    YAML_STREAM_START_EVENT,
};
use crate::text::{decode_optional, decode_required, is_text, text_of, text_view};
use vstd::prelude::*;
use vstd::utf8::*;

verus! {

/// A `%YAML` directive.
#[derive(Clone, Copy, Debug, PartialEq, Eq, Structural)]
pub struct YamlVersionDirective {
    pub major: isize,
    pub minor: isize,
}

/// A `%TAG` directive.
#[derive(Clone, Debug, PartialEq, Eq)]
pub struct YamlTagDirective {
    pub handle: String,
    pub prefix: String,
}

/// What a `%TAG` directive holds.
pub struct YamlTagDirectiveView {
    pub handle: Seq<char>,
    pub prefix: Seq<char>,
}

impl View for YamlTagDirective {
    type V = YamlTagDirectiveView;

    open spec fn view(&self) -> YamlTagDirectiveView {
        YamlTagDirectiveView { handle: self.handle@, prefix: self.prefix@ }
    }
}

/// The parameters of a sequence start, and of a mapping start.
#[derive(Clone, Debug, PartialEq, Eq)]
pub struct YamlSequenceParam {
    pub anchor: Option<String>,
    pub tag: Option<String>,
    /// Whether the tag may be left out.
    pub implicit: bool,
    pub style: YamlSequenceStyle,
}

/// What the parameters of a collection start hold.
pub struct YamlSequenceParamView {
    pub anchor: Option<Seq<char>>,
    pub tag: Option<Seq<char>>,
    pub implicit: bool,
    pub style: YamlSequenceStyle,
}

impl View for YamlSequenceParam {
    type V = YamlSequenceParamView;

    open spec fn view(&self) -> YamlSequenceParamView {
        YamlSequenceParamView {
            anchor: text_view(self.anchor),
            tag: text_view(self.tag),
            implicit: self.implicit,
            style: self.style,
        }
    }
}

/// The parameters of a scalar.
#[derive(Clone, Debug, PartialEq, Eq)]
pub struct YamlScalarParam {
    pub anchor: Option<String>,
    pub tag: Option<String>,
    pub value: Vec<u8>,
    /// Whether the tag may be left out in the plain style.
    pub plain_implicit: bool,
    /// Whether the tag may be left out in any other style.
    pub quoted_implicit: bool,
    pub style: YamlScalarStyle,
}

/// What the parameters of a scalar hold.
pub struct YamlScalarParamView {
    pub anchor: Option<Seq<char>>,
    pub tag: Option<Seq<char>>,
    pub value: Seq<u8>,
    pub plain_implicit: bool,
    pub quoted_implicit: bool,
    pub style: YamlScalarStyle,
}

impl View for YamlScalarParam {
    type V = YamlScalarParamView;

    open spec fn view(&self) -> YamlScalarParamView {
        YamlScalarParamView {
            anchor: text_view(self.anchor),
            tag: text_view(self.tag),
            value: self.value@,
            plain_implicit: self.plain_implicit,
            quoted_implicit: self.quoted_implicit,
            style: self.style,
        }
    }
}

/// One unit of parsed structure.
#[derive(Clone, Debug, PartialEq, Eq)]
pub enum YamlEvent {
    /// The engine produced nothing, and did not fail either.
    YamlNoEvent,
    YamlStreamStartEvent(YamlEncoding),
    YamlStreamEndEvent,
    /// Version directive, tag directives in source order, and whether the
    /// document start marker was left out.
    YamlDocumentStartEvent(Option<YamlVersionDirective>, Vec<YamlTagDirective>, bool),
    /// Whether the document end marker was left out.
    YamlDocumentEndEvent(bool),
    /// The anchor referred to.
    YamlAliasEvent(String),
    YamlScalarEvent(YamlScalarParam),
    YamlSequenceStartEvent(YamlSequenceParam),
    YamlSequenceEndEvent,
    YamlMappingStartEvent(YamlSequenceParam),
    YamlMappingEndEvent,
}

/// What an event holds.
pub enum YamlEventView {
    NoEvent,
    StreamStart(YamlEncoding),
    StreamEnd,
    DocumentStart(Option<YamlVersionDirective>, Seq<YamlTagDirectiveView>, bool),
    DocumentEnd(bool),
    Alias(Seq<char>),
    Scalar(YamlScalarParamView),
    SequenceStart(YamlSequenceParamView),
    SequenceEnd,
    MappingStart(YamlSequenceParamView),
    MappingEnd,
}

impl View for YamlEvent {
    type V = YamlEventView;

    open spec fn view(&self) -> YamlEventView {
        match *self {
            YamlEvent::YamlNoEvent => YamlEventView::NoEvent,
            YamlEvent::YamlStreamStartEvent(encoding) => YamlEventView::StreamStart(encoding),
            YamlEvent::YamlStreamEndEvent => YamlEventView::StreamEnd,
            YamlEvent::YamlDocumentStartEvent(version, tags, implicit) => {
                YamlEventView::DocumentStart(
                    version,
                    tags@.map_values(|d: YamlTagDirective| d@),
                    implicit,
                )
            },
            YamlEvent::YamlDocumentEndEvent(implicit) => YamlEventView::DocumentEnd(implicit),
            YamlEvent::YamlAliasEvent(anchor) => YamlEventView::Alias(anchor@),
            YamlEvent::YamlScalarEvent(param) => YamlEventView::Scalar(param@),
            YamlEvent::YamlSequenceStartEvent(param) => YamlEventView::SequenceStart(param@),
            YamlEvent::YamlSequenceEndEvent => YamlEventView::SequenceEnd,
            YamlEvent::YamlMappingStartEvent(param) => YamlEventView::MappingStart(param@),
            YamlEvent::YamlMappingEndEvent => YamlEventView::MappingEnd,
        }
    }
}

impl YamlEventView {
    /// The code that the engine has for this kind of event.
    pub open spec fn kind(self) -> u32 {
        match self {
            YamlEventView::NoEvent => YAML_NO_EVENT,
            YamlEventView::StreamStart(_) => YAML_STREAM_START_EVENT,
            YamlEventView::StreamEnd => YAML_STREAM_END_EVENT,
            YamlEventView::DocumentStart(_, _, _) => YAML_DOCUMENT_START_EVENT,
            YamlEventView::DocumentEnd(_) => YAML_DOCUMENT_END_EVENT,
            YamlEventView::Alias(_) => YAML_ALIAS_EVENT,
            YamlEventView::Scalar(_) => YAML_SCALAR_EVENT,
            YamlEventView::SequenceStart(_) => YAML_SEQUENCE_START_EVENT,
            YamlEventView::SequenceEnd => YAML_SEQUENCE_END_EVENT,
            YamlEventView::MappingStart(_) => YAML_MAPPING_START_EVENT,
            YamlEventView::MappingEnd => YAML_MAPPING_END_EVENT,
        }
    }
}

/// The `%YAML` directive that the engine's record stands for.
pub open spec fn version_directive_of(raw: Option<yaml_version_directive_t>) -> Option<
    YamlVersionDirective,
> {
    match raw {
        Some(v) => Some(YamlVersionDirective { major: v.major as isize, minor: v.minor as isize }),
        None => None,
    }
}

/// The `%TAG` directive that the engine's record stands for, when both of its
/// byte strings are valid UTF-8.
pub open spec fn tag_directive_of(raw: yaml_tag_directive_t) -> YamlTagDirectiveView {
    YamlTagDirectiveView { handle: decode_utf8(raw.handle@), prefix: decode_utf8(raw.prefix@) }
}

/// Whether both byte strings of a `%TAG` directive record are valid UTF-8.
pub open spec fn tag_directive_is_text(raw: yaml_tag_directive_t) -> bool {
    valid_utf8(raw.handle@) && valid_utf8(raw.prefix@)
}

/// The parameters of a collection start that the engine's record stands for,
/// when its style code stands for a style.
pub open spec fn sequence_param_of(event: yaml_event_t) -> YamlSequenceParamView {
    YamlSequenceParamView {
        anchor: text_of(event.anchor),
        tag: text_of(event.tag),
        implicit: event.implicit,
        style: sequence_style_of_code(event.style).unwrap(),
    }
}

/// The parameters of a scalar that the engine's record stands for, when its
/// style code stands for a style.
pub open spec fn scalar_param_of(event: yaml_event_t) -> YamlScalarParamView {
    YamlScalarParamView {
        anchor: text_of(event.anchor),
        tag: text_of(event.tag),
        value: event.value@,
        plain_implicit: event.plain_implicit,
        quoted_implicit: event.quoted_implicit,
        style: scalar_style_of_code(event.style).unwrap(),
    }
}

impl YamlEvent {
    /// Whether the engine's record stands for an event: its kind is one of
    /// the eleven, each code that counts for that kind stands for a member of
    /// its set, and each text that the kind cannot do without is there and is
    /// valid UTF-8.
    pub open spec fn loadable(event: yaml_event_t) -> bool {
        if event.event_type == YAML_STREAM_START_EVENT {
            encoding_of_code(event.encoding) is Some
        } else if event.event_type == YAML_DOCUMENT_START_EVENT {
            forall|i: int|
                0 <= i < event.tag_directives@.len() ==> tag_directive_is_text(
                    #[trigger] event.tag_directives@[i],
                )
        } else if event.event_type == YAML_ALIAS_EVENT {
            text_of(event.anchor) is Some
        } else if event.event_type == YAML_SCALAR_EVENT {
            scalar_style_of_code(event.style) is Some
        } else if event.event_type == YAML_SEQUENCE_START_EVENT || event.event_type
            == YAML_MAPPING_START_EVENT {
            sequence_style_of_code(event.style) is Some
        } else {
            event.event_type == YAML_NO_EVENT || event.event_type == YAML_STREAM_END_EVENT
                || event.event_type == YAML_DOCUMENT_END_EVENT || event.event_type
                == YAML_SEQUENCE_END_EVENT || event.event_type == YAML_MAPPING_END_EVENT
        }
    }

    /// The event that the engine's record stands for, when it stands for one.
    pub open spec fn loaded(event: yaml_event_t) -> YamlEventView {
        if event.event_type == YAML_STREAM_START_EVENT {
            YamlEventView::StreamStart(encoding_of_code(event.encoding).unwrap())
        } else if event.event_type == YAML_STREAM_END_EVENT {
            YamlEventView::StreamEnd
        } else if event.event_type == YAML_DOCUMENT_START_EVENT {
            YamlEventView::DocumentStart(
                version_directive_of(event.version_directive),
                event.tag_directives@.map_values(|d: yaml_tag_directive_t| tag_directive_of(d)),
                event.implicit,
            )
        } else if event.event_type == YAML_DOCUMENT_END_EVENT {
            YamlEventView::DocumentEnd(event.implicit)
        } else if event.event_type == YAML_ALIAS_EVENT {
            YamlEventView::Alias(text_of(event.anchor).unwrap())
        } else if event.event_type == YAML_SCALAR_EVENT {
            YamlEventView::Scalar(scalar_param_of(event))
        } else if event.event_type == YAML_SEQUENCE_START_EVENT {
            YamlEventView::SequenceStart(sequence_param_of(event))
        } else if event.event_type == YAML_SEQUENCE_END_EVENT {
            YamlEventView::SequenceEnd
        } else if event.event_type == YAML_MAPPING_START_EVENT {
            YamlEventView::MappingStart(sequence_param_of(event))
        } else if event.event_type == YAML_MAPPING_END_EVENT {
            YamlEventView::MappingEnd
        } else {
            YamlEventView::NoEvent
        }
    }

    /// Tests whether the engine's record stands for an event.
    pub fn can_load(event: &yaml_event_t) -> (b: bool)
        ensures
            b == YamlEvent::loadable(*event),
    {
        match event.event_type {
            YAML_STREAM_START_EVENT => YamlEncoding::from_code(event.encoding).is_some(),
            YAML_DOCUMENT_START_EVENT => tag_directives_are_text(&event.tag_directives),
            YAML_ALIAS_EVENT => match &event.anchor {
                Some(anchor) => is_text(anchor),
                None => false,
            },
            YAML_SCALAR_EVENT => YamlScalarStyle::from_code(event.style).is_some(),
            YAML_SEQUENCE_START_EVENT | YAML_MAPPING_START_EVENT => YamlSequenceStyle::from_code(
                event.style,
            ).is_some(),
            YAML_NO_EVENT
            | YAML_STREAM_END_EVENT
            | YAML_DOCUMENT_END_EVENT
            | YAML_SEQUENCE_END_EVENT
            | YAML_MAPPING_END_EVENT => true,
            _ => false,
        }
    }

    /// Reads the event out of the engine's record, copying every text and
    /// byte string that it refers to.
    pub fn load(event: &yaml_event_t) -> (evt: YamlEvent)
        requires
            YamlEvent::loadable(*event),
        ensures
            evt@ == YamlEvent::loaded(*event),
    {
        match event.event_type {
            YAML_STREAM_START_EVENT => {
                match YamlEncoding::from_code(event.encoding) {
                    Some(encoding) => YamlEvent::YamlStreamStartEvent(encoding),
                    None => vstd::pervasive::unreached(),
                }
            },
            YAML_STREAM_END_EVENT => YamlEvent::YamlStreamEndEvent,
            YAML_DOCUMENT_START_EVENT => {
                let version = load_version_directive(&event.version_directive);
                let tags = load_tag_directives(&event.tag_directives);
                YamlEvent::YamlDocumentStartEvent(version, tags, event.implicit)
            },
            YAML_DOCUMENT_END_EVENT => YamlEvent::YamlDocumentEndEvent(event.implicit),
            YAML_ALIAS_EVENT => {
                match &event.anchor {
                    Some(anchor) => YamlEvent::YamlAliasEvent(decode_required(anchor)),
                    None => vstd::pervasive::unreached(),
                }
            },
            YAML_SCALAR_EVENT => YamlEvent::YamlScalarEvent(load_scalar_param(event)),
            YAML_SEQUENCE_START_EVENT => YamlEvent::YamlSequenceStartEvent(
                load_sequence_param(event),
            ),
            YAML_SEQUENCE_END_EVENT => YamlEvent::YamlSequenceEndEvent,
            YAML_MAPPING_START_EVENT => YamlEvent::YamlMappingStartEvent(
                load_sequence_param(event),
            ),
            YAML_MAPPING_END_EVENT => YamlEvent::YamlMappingEndEvent,
            _ => YamlEvent::YamlNoEvent,
        }
    }
}

/// Tests whether every `%TAG` directive record holds valid UTF-8.
fn tag_directives_are_text(raw: &Vec<yaml_tag_directive_t>) -> (b: bool)
    ensures
        b == (forall|i: int| 0 <= i < raw@.len() ==> tag_directive_is_text(#[trigger] raw@[i])),
{
    let mut i: usize = 0;
    while i < raw.len()
        invariant
            i <= raw@.len(),
            forall|j: int| 0 <= j < i ==> tag_directive_is_text(#[trigger] raw@[j]),
        decreases raw@.len() - i,
    {
        if !(is_text(&raw[i].handle) && is_text(&raw[i].prefix)) {
            return false;
        }
        i += 1;
    }
    true
}

fn load_version_directive(raw: &Option<yaml_version_directive_t>) -> (version: Option<
    YamlVersionDirective,
>)
    ensures
        version == version_directive_of(*raw),
{
    match raw {
        Some(v) => Some(YamlVersionDirective { major: v.major as isize, minor: v.minor as isize }),
        None => None,
    }
}

fn load_tag_directives(raw: &Vec<yaml_tag_directive_t>) -> (tags: Vec<YamlTagDirective>)
    requires
        forall|i: int| 0 <= i < raw@.len() ==> tag_directive_is_text(#[trigger] raw@[i]),
    ensures
        tags@.map_values(|d: YamlTagDirective| d@) == raw@.map_values(
            |d: yaml_tag_directive_t| tag_directive_of(d),
        ),
{
    let mut tags: Vec<YamlTagDirective> = Vec::new();
    let mut i: usize = 0;
    while i < raw.len()
        invariant
            i <= raw@.len(),
            tags@.len() == i,
            forall|j: int| 0 <= j < raw@.len() ==> tag_directive_is_text(#[trigger] raw@[j]),
            forall|j: int| 0 <= j < i ==> (#[trigger] tags@[j])@ == tag_directive_of(raw@[j]),
        decreases raw@.len() - i,
    {
        let handle = decode_required(&raw[i].handle);
        let prefix = decode_required(&raw[i].prefix);
        tags.push(YamlTagDirective { handle, prefix });
        i += 1;
    }
    assert(tags@.map_values(|d: YamlTagDirective| d@) =~= raw@.map_values(
        |d: yaml_tag_directive_t| tag_directive_of(d),
    ));
    tags
}

fn load_sequence_param(event: &yaml_event_t) -> (param: YamlSequenceParam)
    requires
        sequence_style_of_code(event.style) is Some,
    ensures
        param@ == sequence_param_of(*event),
{
    let style = match YamlSequenceStyle::from_code(event.style) {
        Some(style) => style,
        None => vstd::pervasive::unreached(),
    };
    YamlSequenceParam {
        anchor: decode_optional(&event.anchor),
        tag: decode_optional(&event.tag),
        implicit: event.implicit,
        style,
    }
}

fn load_scalar_param(event: &yaml_event_t) -> (param: YamlScalarParam)
    requires
        scalar_style_of_code(event.style) is Some,
    ensures
        param@ == scalar_param_of(*event),
{
    let style = match YamlScalarStyle::from_code(event.style) {
        Some(style) => style,
        None => vstd::pervasive::unreached(),
    };
    YamlScalarParam {
        anchor: decode_optional(&event.anchor),
        tag: decode_optional(&event.tag),
        value: event.value.clone(),
        plain_implicit: event.plain_implicit,
        quoted_implicit: event.quoted_implicit,
        style,
    }
}

/// How many of `events` are of the kind with code `kind`.
pub open spec fn count_events(events: Seq<YamlEventView>, kind: u32) -> nat
    decreases events.len(),
{
    if events.len() == 0 {
        0
    } else {
        count_events(events.drop_last(), kind) + if events.last().kind() == kind {
            1nat
        } else {
            0nat
        }
    }
}

/// How many of the engine's records carry the type code `kind`.
pub open spec fn count_records(records: Seq<yaml_event_t>, kind: u32) -> nat
    decreases records.len(),
{
    if records.len() == 0 {
        0
    } else {
        count_records(records.drop_last(), kind) + if records.last().event_type == kind {
            1nat
        } else {
            0nat
        }
    }
}

/// The events that a run of the engine's records stands for, in order.
pub open spec fn loaded_all(records: Seq<yaml_event_t>) -> Seq<YamlEventView> {
    records.map_values(|record: yaml_event_t| YamlEvent::loaded(record))
}

/// Reading keeps the kind: the event read from a record is of the kind that
/// the record's type code names.
pub proof fn lemma_load_keeps_kind(event: yaml_event_t)
    requires
        YamlEvent::loadable(event),
    ensures
        YamlEvent::loaded(event).kind() == event.event_type,
{
}

/// A record that the engine has only cleared, as it does when it is stepped
/// past the end of the stream or past an error, can be read, and reads as no
/// event.
pub proof fn lemma_cleared_record_is_no_event(event: yaml_event_t)
    requires
        event.event_type == YAML_NO_EVENT,
    ensures
        YamlEvent::loadable(event),
        YamlEvent::loaded(event) == YamlEventView::NoEvent,
{
}

/// Reading neither drops nor invents structure: of every kind, the events
/// read from a run of records are as many as the records of that kind. So
/// where the engine's starts and ends pair up, and its stream start and
/// stream end occur once each, the same holds of the events read.
pub proof fn lemma_load_keeps_counts(records: Seq<yaml_event_t>, kind: u32)
    requires
        forall|i: int| 0 <= i < records.len() ==> YamlEvent::loadable(#[trigger] records[i]),
    ensures
        count_events(loaded_all(records), kind) == count_records(records, kind),
    decreases records.len(),
{
    if records.len() > 0 {
        let front = records.drop_last();
        lemma_load_keeps_counts(front, kind);
        lemma_load_keeps_kind(records.last());
        assert(loaded_all(records).drop_last() =~= loaded_all(front));
    }
}

} // verus!
