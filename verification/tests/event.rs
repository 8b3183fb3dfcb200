use yaml::event::{
    YamlEvent, YamlScalarParam, YamlSequenceParam, YamlTagDirective, YamlVersionDirective,
};
use yaml::ffi;
use yaml::ffi::{
    yaml_event_t, yaml_tag_directive_t, yaml_version_directive_t, YamlEncoding, YamlScalarStyle,
    YamlSequenceStyle,
};

fn record(event_type: u32) -> yaml_event_t {
    let mut event = yaml_event_t::new();
    event.event_type = event_type;
    event
}

#[test]
fn test_new_event_record_is_cleared() {
    let event = yaml_event_t::new();
    assert_eq!(ffi::YAML_NO_EVENT, event.event_type);
    assert_eq!(0, event.encoding);
    assert_eq!(None, event.version_directive);
    assert!(event.tag_directives.is_empty());
    assert!(!event.implicit);
    assert_eq!(None, event.anchor);
    assert_eq!(None, event.tag);
    assert!(event.value.is_empty());
    assert!(!event.plain_implicit);
    assert!(!event.quoted_implicit);
    assert_eq!(0, event.style);
    assert!(YamlEvent::can_load(&event));
    assert_eq!(YamlEvent::YamlNoEvent, YamlEvent::load(&event));
}

#[test]
fn test_event_kinds_without_parameters() {
    assert_eq!(YamlEvent::YamlNoEvent, YamlEvent::load(&record(ffi::YAML_NO_EVENT)));
    assert_eq!(YamlEvent::YamlStreamEndEvent, YamlEvent::load(&record(ffi::YAML_STREAM_END_EVENT)));
    assert_eq!(
        YamlEvent::YamlSequenceEndEvent,
        YamlEvent::load(&record(ffi::YAML_SEQUENCE_END_EVENT))
    );
    assert_eq!(
        YamlEvent::YamlMappingEndEvent,
        YamlEvent::load(&record(ffi::YAML_MAPPING_END_EVENT))
    );
}

#[test]
fn test_event_type_codes() {
    assert_eq!(0, ffi::YAML_NO_EVENT);
    assert_eq!(1, ffi::YAML_STREAM_START_EVENT);
    assert_eq!(2, ffi::YAML_STREAM_END_EVENT);
    assert_eq!(3, ffi::YAML_DOCUMENT_START_EVENT);
    assert_eq!(4, ffi::YAML_DOCUMENT_END_EVENT);
    assert_eq!(5, ffi::YAML_ALIAS_EVENT);
    assert_eq!(6, ffi::YAML_SCALAR_EVENT);
    assert_eq!(7, ffi::YAML_SEQUENCE_START_EVENT);
    assert_eq!(8, ffi::YAML_SEQUENCE_END_EVENT);
    assert_eq!(9, ffi::YAML_MAPPING_START_EVENT);
    assert_eq!(10, ffi::YAML_MAPPING_END_EVENT);
}

#[test]
fn test_codes_agree_with_the_engine() {
    assert_eq!(ffi::YAML_NO_EVENT, unsafe_libyaml::YAML_NO_EVENT as u32);
    assert_eq!(ffi::YAML_STREAM_START_EVENT, unsafe_libyaml::YAML_STREAM_START_EVENT as u32);
    assert_eq!(ffi::YAML_STREAM_END_EVENT, unsafe_libyaml::YAML_STREAM_END_EVENT as u32);
    assert_eq!(ffi::YAML_DOCUMENT_START_EVENT, unsafe_libyaml::YAML_DOCUMENT_START_EVENT as u32);
    assert_eq!(ffi::YAML_DOCUMENT_END_EVENT, unsafe_libyaml::YAML_DOCUMENT_END_EVENT as u32);
    assert_eq!(ffi::YAML_ALIAS_EVENT, unsafe_libyaml::YAML_ALIAS_EVENT as u32);
    assert_eq!(ffi::YAML_SCALAR_EVENT, unsafe_libyaml::YAML_SCALAR_EVENT as u32);
    assert_eq!(ffi::YAML_SEQUENCE_START_EVENT, unsafe_libyaml::YAML_SEQUENCE_START_EVENT as u32);
    assert_eq!(ffi::YAML_SEQUENCE_END_EVENT, unsafe_libyaml::YAML_SEQUENCE_END_EVENT as u32);
    assert_eq!(ffi::YAML_MAPPING_START_EVENT, unsafe_libyaml::YAML_MAPPING_START_EVENT as u32);
    assert_eq!(ffi::YAML_MAPPING_END_EVENT, unsafe_libyaml::YAML_MAPPING_END_EVENT as u32);

    assert_eq!(
        Some(YamlEncoding::YamlAnyEncoding),
        YamlEncoding::from_code(unsafe_libyaml::YAML_ANY_ENCODING as u32)
    );
    assert_eq!(
        Some(YamlEncoding::YamlUtf8Encoding),
        YamlEncoding::from_code(unsafe_libyaml::YAML_UTF8_ENCODING as u32)
    );
    assert_eq!(
        Some(YamlEncoding::YamlUtf16LeEncoding),
        YamlEncoding::from_code(unsafe_libyaml::YAML_UTF16LE_ENCODING as u32)
    );
    assert_eq!(
        Some(YamlEncoding::YamlUtf16BeEncoding),
        YamlEncoding::from_code(unsafe_libyaml::YAML_UTF16BE_ENCODING as u32)
    );

    assert_eq!(None, YamlScalarStyle::from_code(unsafe_libyaml::YAML_ANY_SCALAR_STYLE as u32));
    assert_eq!(
        Some(YamlScalarStyle::YamlPlainScalarStyle),
        YamlScalarStyle::from_code(unsafe_libyaml::YAML_PLAIN_SCALAR_STYLE as u32)
    );
    assert_eq!(
        Some(YamlScalarStyle::YamlSingleQuotedScalarStyle),
        YamlScalarStyle::from_code(unsafe_libyaml::YAML_SINGLE_QUOTED_SCALAR_STYLE as u32)
    );
    assert_eq!(
        Some(YamlScalarStyle::YamlDoubleQuotedScalarStyle),
        YamlScalarStyle::from_code(unsafe_libyaml::YAML_DOUBLE_QUOTED_SCALAR_STYLE as u32)
    );
    assert_eq!(
        Some(YamlScalarStyle::YamlLiteralScalarStyle),
        YamlScalarStyle::from_code(unsafe_libyaml::YAML_LITERAL_SCALAR_STYLE as u32)
    );
    assert_eq!(
        Some(YamlScalarStyle::YamlFoldedScalarStyle),
        YamlScalarStyle::from_code(unsafe_libyaml::YAML_FOLDED_SCALAR_STYLE as u32)
    );

    assert_eq!(None, YamlSequenceStyle::from_code(unsafe_libyaml::YAML_ANY_SEQUENCE_STYLE as u32));
    assert_eq!(
        Some(YamlSequenceStyle::YamlBlockSequenceStyle),
        YamlSequenceStyle::from_code(unsafe_libyaml::YAML_BLOCK_SEQUENCE_STYLE as u32)
    );
    assert_eq!(
        Some(YamlSequenceStyle::YamlFlowSequenceStyle),
        YamlSequenceStyle::from_code(unsafe_libyaml::YAML_FLOW_SEQUENCE_STYLE as u32)
    );
    assert_eq!(
        Some(YamlSequenceStyle::YamlBlockSequenceStyle),
        YamlSequenceStyle::from_code(unsafe_libyaml::YAML_BLOCK_MAPPING_STYLE as u32)
    );
    assert_eq!(
        Some(YamlSequenceStyle::YamlFlowSequenceStyle),
        YamlSequenceStyle::from_code(unsafe_libyaml::YAML_FLOW_MAPPING_STYLE as u32)
    );
}

#[test]
fn test_encoding_codes() {
    assert_eq!(Some(YamlEncoding::YamlAnyEncoding), YamlEncoding::from_code(0));
    assert_eq!(Some(YamlEncoding::YamlUtf8Encoding), YamlEncoding::from_code(1));
    assert_eq!(Some(YamlEncoding::YamlUtf16LeEncoding), YamlEncoding::from_code(2));
    assert_eq!(Some(YamlEncoding::YamlUtf16BeEncoding), YamlEncoding::from_code(3));
    assert_eq!(None, YamlEncoding::from_code(4));
    assert_eq!(None, YamlEncoding::from_code(u32::MAX));
}

#[test]
fn test_style_codes() {
    assert_eq!(None, YamlScalarStyle::from_code(0));
    assert_eq!(Some(YamlScalarStyle::YamlPlainScalarStyle), YamlScalarStyle::from_code(1));
    assert_eq!(Some(YamlScalarStyle::YamlSingleQuotedScalarStyle), YamlScalarStyle::from_code(2));
    assert_eq!(Some(YamlScalarStyle::YamlDoubleQuotedScalarStyle), YamlScalarStyle::from_code(3));
    assert_eq!(Some(YamlScalarStyle::YamlLiteralScalarStyle), YamlScalarStyle::from_code(4));
    assert_eq!(Some(YamlScalarStyle::YamlFoldedScalarStyle), YamlScalarStyle::from_code(5));
    assert_eq!(None, YamlScalarStyle::from_code(6));

    assert_eq!(None, YamlSequenceStyle::from_code(0));
    assert_eq!(Some(YamlSequenceStyle::YamlBlockSequenceStyle), YamlSequenceStyle::from_code(1));
    assert_eq!(Some(YamlSequenceStyle::YamlFlowSequenceStyle), YamlSequenceStyle::from_code(2));
    assert_eq!(None, YamlSequenceStyle::from_code(3));
}

#[test]
fn test_stream_start_carries_the_encoding() {
    let mut event = record(ffi::YAML_STREAM_START_EVENT);
    for (code, encoding) in [
        (0, YamlEncoding::YamlAnyEncoding),
        (1, YamlEncoding::YamlUtf8Encoding),
        (2, YamlEncoding::YamlUtf16LeEncoding),
        (3, YamlEncoding::YamlUtf16BeEncoding),
    ] {
        event.encoding = code;
        assert!(YamlEvent::can_load(&event));
        assert_eq!(YamlEvent::YamlStreamStartEvent(encoding), YamlEvent::load(&event));
    }
    event.encoding = 4;
    assert!(!YamlEvent::can_load(&event));
}

#[test]
fn test_document_start_with_directives() {
    let mut event = record(ffi::YAML_DOCUMENT_START_EVENT);
    event.version_directive = Some(yaml_version_directive_t { major: 1, minor: 1 });
    event.tag_directives = vec![
        yaml_tag_directive_t { handle: b"!".to_vec(), prefix: b"!local-".to_vec() },
        yaml_tag_directive_t {
            handle: b"!e!".to_vec(),
            prefix: "tag:example.com,2000:\u{e9}/".as_bytes().to_vec(),
        },
    ];
    event.implicit = false;
    assert!(YamlEvent::can_load(&event));
    assert_eq!(
        YamlEvent::YamlDocumentStartEvent(
            Some(YamlVersionDirective { major: 1, minor: 1 }),
            vec![
                YamlTagDirective { handle: String::from("!"), prefix: String::from("!local-") },
                YamlTagDirective {
                    handle: String::from("!e!"),
                    prefix: String::from("tag:example.com,2000:\u{e9}/"),
                },
            ],
            false
        ),
        YamlEvent::load(&event)
    );
}

#[test]
fn test_document_start_and_end_flags() {
    let mut start = record(ffi::YAML_DOCUMENT_START_EVENT);
    start.implicit = true;
    assert_eq!(YamlEvent::YamlDocumentStartEvent(None, vec![], true), YamlEvent::load(&start));

    let mut end = record(ffi::YAML_DOCUMENT_END_EVENT);
    assert_eq!(YamlEvent::YamlDocumentEndEvent(false), YamlEvent::load(&end));
    end.implicit = true;
    assert_eq!(YamlEvent::YamlDocumentEndEvent(true), YamlEvent::load(&end));
}

#[test]
fn test_document_start_with_a_directive_that_is_not_text() {
    let mut event = record(ffi::YAML_DOCUMENT_START_EVENT);
    event.tag_directives = vec![
        yaml_tag_directive_t { handle: b"!".to_vec(), prefix: b"!local-".to_vec() },
        yaml_tag_directive_t { handle: b"!e!".to_vec(), prefix: vec![0xff, 0xfe] },
    ];
    assert!(!YamlEvent::can_load(&event));

    event.tag_directives[1] =
        yaml_tag_directive_t { handle: vec![0xc3], prefix: b"tag:".to_vec() };
    assert!(!YamlEvent::can_load(&event));

    event.tag_directives[1] =
        yaml_tag_directive_t { handle: b"!e!".to_vec(), prefix: b"tag:".to_vec() };
    assert!(YamlEvent::can_load(&event));
}

#[test]
fn test_alias_carries_the_anchor() {
    let mut event = record(ffi::YAML_ALIAS_EVENT);
    event.anchor = Some("anc\u{130}".as_bytes().to_vec());
    assert!(YamlEvent::can_load(&event));
    assert_eq!(YamlEvent::YamlAliasEvent(String::from("anc\u{130}")), YamlEvent::load(&event));
}

#[test]
fn test_alias_without_a_readable_anchor() {
    let mut event = record(ffi::YAML_ALIAS_EVENT);
    assert!(!YamlEvent::can_load(&event));
    event.anchor = Some(vec![b'a', 0x80]);
    assert!(!YamlEvent::can_load(&event));
}

#[test]
fn test_scalar_with_anchor_and_tag() {
    let mut event = record(ffi::YAML_SCALAR_EVENT);
    event.anchor = Some(b"a1".to_vec());
    event.tag = Some(b"tag:yaml.org,2002:str".to_vec());
    event.value = vec![0x66, 0x6f, 0x6f, 0x00, 0xff];
    event.plain_implicit = false;
    event.quoted_implicit = false;
    event.style = 4;
    assert!(YamlEvent::can_load(&event));
    assert_eq!(
        YamlEvent::YamlScalarEvent(YamlScalarParam {
            anchor: Some(String::from("a1")),
            tag: Some(String::from("tag:yaml.org,2002:str")),
            value: vec![0x66, 0x6f, 0x6f, 0x00, 0xff],
            plain_implicit: false,
            quoted_implicit: false,
            style: YamlScalarStyle::YamlLiteralScalarStyle,
        }),
        YamlEvent::load(&event)
    );
}

#[test]
fn test_scalar_styles() {
    let mut event = record(ffi::YAML_SCALAR_EVENT);
    for (code, style) in [
        (1, YamlScalarStyle::YamlPlainScalarStyle),
        (2, YamlScalarStyle::YamlSingleQuotedScalarStyle),
        (3, YamlScalarStyle::YamlDoubleQuotedScalarStyle),
        (4, YamlScalarStyle::YamlLiteralScalarStyle),
        (5, YamlScalarStyle::YamlFoldedScalarStyle),
    ] {
        event.style = code;
        match YamlEvent::load(&event) {
            YamlEvent::YamlScalarEvent(param) => assert_eq!(style, param.style),
            other => panic!("{:?}", other),
        }
    }
    event.style = 0;
    assert!(!YamlEvent::can_load(&event));
    event.style = 6;
    assert!(!YamlEvent::can_load(&event));
}

#[test]
fn test_scalar_text_that_is_not_utf8_counts_as_absent() {
    let mut event = record(ffi::YAML_SCALAR_EVENT);
    event.anchor = Some(vec![0xe2, 0x82]);
    event.tag = Some(vec![0xed, 0xa0, 0x80]);
    event.value = b"v".to_vec();
    event.plain_implicit = true;
    event.style = 1;
    assert!(YamlEvent::can_load(&event));
    assert_eq!(
        YamlEvent::YamlScalarEvent(YamlScalarParam {
            anchor: None,
            tag: None,
            value: b"v".to_vec(),
            plain_implicit: true,
            quoted_implicit: false,
            style: YamlScalarStyle::YamlPlainScalarStyle,
        }),
        YamlEvent::load(&event)
    );
}

#[test]
fn test_sequence_and_mapping_start() {
    let mut event = record(ffi::YAML_SEQUENCE_START_EVENT);
    event.anchor = Some(b"list".to_vec());
    event.tag = Some(b"!!seq".to_vec());
    event.implicit = false;
    event.style = 1;
    let param = YamlSequenceParam {
        anchor: Some(String::from("list")),
        tag: Some(String::from("!!seq")),
        implicit: false,
        style: YamlSequenceStyle::YamlBlockSequenceStyle,
    };
    assert_eq!(YamlEvent::YamlSequenceStartEvent(param.clone()), YamlEvent::load(&event));

    event.event_type = ffi::YAML_MAPPING_START_EVENT;
    assert_eq!(YamlEvent::YamlMappingStartEvent(param), YamlEvent::load(&event));

    event.style = 0;
    assert!(!YamlEvent::can_load(&event));
    event.event_type = ffi::YAML_SEQUENCE_START_EVENT;
    assert!(!YamlEvent::can_load(&event));
    event.style = 3;
    assert!(!YamlEvent::can_load(&event));
}

#[test]
fn test_fields_of_other_kinds_do_not_count() {
    let mut event = record(ffi::YAML_SEQUENCE_END_EVENT);
    event.encoding = 9;
    event.style = 9;
    event.anchor = Some(vec![0xff]);
    event.value = b"left over".to_vec();
    event.tag_directives = vec![yaml_tag_directive_t { handle: vec![0xff], prefix: vec![0xff] }];
    assert!(YamlEvent::can_load(&event));
    assert_eq!(YamlEvent::YamlSequenceEndEvent, YamlEvent::load(&event));
}

#[test]
fn test_unknown_event_type_cannot_be_loaded() {
    assert!(!YamlEvent::can_load(&record(11)));
    assert!(!YamlEvent::can_load(&record(u32::MAX)));
}

#[test]
fn test_event_owns_its_data() {
    let mut event = record(ffi::YAML_SCALAR_EVENT);
    event.anchor = Some(b"a".to_vec());
    event.value = b"first".to_vec();
    event.plain_implicit = true;
    event.style = 1;
    let loaded = YamlEvent::load(&event);

    event.anchor = Some(b"b".to_vec());
    event.value = b"second".to_vec();
    match loaded {
        YamlEvent::YamlScalarEvent(param) => {
            assert_eq!(Some(String::from("a")), param.anchor);
            assert_eq!(b"first".to_vec(), param.value);
        }
        other => panic!("{:?}", other),
    }
}
