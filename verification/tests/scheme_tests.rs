use itermcolors_rs::{ColorScheme, Dict, DictEntry, Error, Real, Value};
use itermcolors_rs::color::SRGB;

fn real_of(x: f64) -> Value {
    Value::Real(Real { bits: x.to_bits() })
}

fn string_of(s: &str) -> Value {
    Value::String(s.to_string())
}

fn entry(key: &str, value: Value) -> DictEntry {
    DictEntry { key: key.to_string(), value }
}

fn srgb_dict(r: f64, g: f64, b: f64) -> Value {
    Value::Dictionary(Dict {
        entries: vec![
            entry("Color Space", string_of("sRGB")),
            entry("Red Component", real_of(r)),
            entry("Green Component", real_of(g)),
            entry("Blue Component", real_of(b)),
        ],
    })
}

/// A well-formed document: all 16 ANSI slots and all 7 specials.
fn good_document() -> Dict {
    let mut entries = Vec::new();
    for i in 0..16 {
        entries.push(entry(&format!("Ansi {} Color", i), srgb_dict(0.0, 0.0, 0.0)));
    }
    entries.push(entry("Background Color", srgb_dict(0.0, 0.0, 0.0)));
    entries.push(entry("Bold Color", srgb_dict(0.25, 0.5, 0.75)));
    entries.push(entry("Cursor Color", srgb_dict(0.1, 0.2, 0.3)));
    entries.push(entry("Cursor Text Color", srgb_dict(0.9, 0.9, 0.9)));
    entries.push(entry("Foreground Color", srgb_dict(1.0, 1.0, 1.0)));
    entries.push(entry("Selected Text Color", srgb_dict(1.0, 1.0, 1.0)));
    entries.push(entry("Selection Color", srgb_dict(0.0, 0.0, 0.0)));
    Dict { entries }
}

#[test]
fn well_formed_document_renders_end_to_end() {
    let d = good_document();
    let scheme = ColorScheme::from_dictionary(&d).expect("extraction should succeed");
    let out = scheme.to_kitty();
    let mut expected = String::new();
    expected.push_str("foreground #ffffff\n");
    expected.push_str("background #000000\n");
    expected.push_str("selection_foreground #ffffff\n");
    expected.push_str("selection_background #000000\n");
    for i in 0..16 {
        if i < 10 {
            expected.push_str(&format!("color{}  #000000\n", i));
        } else {
            expected.push_str(&format!("color{} #000000\n", i));
        }
    }
    assert_eq!(out, expected);
    assert_eq!(out.lines().count(), 20);
}

#[test]
fn extraction_is_deterministic() {
    let s1 = ColorScheme::from_dictionary(&good_document()).unwrap();
    let s2 = ColorScheme::from_dictionary(&good_document()).unwrap();
    assert_eq!(s1.to_kitty(), s2.to_kitty());
}

#[test]
fn missing_ansi_key_fails_with_that_key() {
    for missing in [0usize, 7, 15] {
        let mut d = good_document();
        let key = format!("Ansi {} Color", missing);
        d.entries.retain(|e| e.key != key);
        match ColorScheme::from_dictionary(&d) {
            Err(Error::MissingKey(k)) => assert_eq!(k, key),
            other => panic!("expected MissingKey, got {:?}", other),
        }
    }
}

#[test]
fn unknown_color_space_fails_scheme_construction() {
    let mut d = good_document();
    d.entries.retain(|e| e.key != "Background Color");
    d.entries.push(entry(
        "Background Color",
        Value::Dictionary(Dict {
            entries: vec![
                entry("Color Space", string_of("displayP3")),
                entry("Red Component", real_of(0.5)),
                entry("Green Component", real_of(0.5)),
                entry("Blue Component", real_of(0.5)),
            ],
        }),
    ));
    match ColorScheme::from_dictionary(&d) {
        Err(Error::UnknownColorSpace(name)) => assert_eq!(name, "displayP3"),
        other => panic!("expected UnknownColorSpace, got {:?}", other),
    }
}

#[test]
fn wrong_component_type_fails_with_invalid_type() {
    let mut d = good_document();
    d.entries.retain(|e| e.key != "Ansi 0 Color");
    d.entries.insert(
        0,
        entry(
            "Ansi 0 Color",
            Value::Dictionary(Dict {
                entries: vec![
                    entry("Color Space", string_of("sRGB")),
                    entry("Red Component", string_of("1.0")),
                    entry("Green Component", real_of(0.0)),
                    entry("Blue Component", real_of(0.0)),
                ],
            }),
        ),
    );
    match ColorScheme::from_dictionary(&d) {
        Err(Error::InvalidType { expected, actual }) => {
            assert_eq!(expected, "Real");
            assert_eq!(actual, "String");
        }
        other => panic!("expected InvalidType, got {:?}", other),
    }
}

#[test]
fn srgb_extraction_rejects_mismatched_space_label() {
    let cd = Dict {
        entries: vec![
            entry("Color Space", string_of("displayP3")),
            entry("Red Component", real_of(0.5)),
            entry("Green Component", real_of(0.5)),
            entry("Blue Component", real_of(0.5)),
        ],
    };
    match SRGB::from_dictionary(&cd) {
        Err(Error::InvalidColorSpace { expected, actual }) => {
            assert_eq!(expected, "sRGB");
            assert_eq!(actual, "displayP3");
        }
        other => panic!("expected InvalidColorSpace, got {:?}", other),
    }
}

#[test]
fn missing_color_space_key_fails() {
    let cd = Dict { entries: vec![entry("Red Component", real_of(0.5))] };
    match SRGB::from_dictionary(&cd) {
        Err(Error::MissingKey(k)) => assert_eq!(k, "Color Space"),
        other => panic!("expected MissingKey, got {:?}", other),
    }
}

#[test]
fn color_entry_must_be_a_dictionary() {
    let mut d = good_document();
    d.entries.retain(|e| e.key != "Ansi 3 Color");
    d.entries.push(entry("Ansi 3 Color", string_of("not a dict")));
    match ColorScheme::from_dictionary(&d) {
        Err(Error::InvalidType { expected, actual }) => {
            assert_eq!(expected, "Dictionary");
            assert_eq!(actual, "String");
        }
        other => panic!("expected InvalidType, got {:?}", other),
    }
}

#[test]
fn lookup_takes_the_first_of_equal_keys() {
    let d = Dict {
        entries: vec![entry("k", string_of("first")), entry("k", string_of("second"))],
    };
    match d.get_r(&"k".to_string()) {
        Ok(Value::String(s)) => assert_eq!(s, "first"),
        other => panic!("expected the first binding, got {:?}", other),
    }
}

#[test]
fn out_of_range_channels_clamp_in_rendered_text() {
    let mut d = good_document();
    d.entries.retain(|e| e.key != "Foreground Color");
    d.entries.push(entry("Foreground Color", srgb_dict(-0.5, 1.5, 0.5)));
    let scheme = ColorScheme::from_dictionary(&d).unwrap();
    let out = scheme.to_kitty();
    assert!(out.starts_with("foreground #00ff80\n"));
}

#[test]
fn error_messages_name_what_failed() {
    assert_eq!(
        Error::MissingKey("Ansi 4 Color".to_string()).message(),
        "Dictionary did not contain key: Ansi 4 Color"
    );
    assert_eq!(
        Error::InvalidType { expected: "Real".to_string(), actual: "String".to_string() }
            .message(),
        "Expected value of type Real, but found value of type String"
    );
    assert_eq!(
        Error::InvalidColorSpace { expected: "sRGB".to_string(), actual: "displayP3".to_string() }
            .message(),
        "Expected color space sRGB, but found displayP3"
    );
    assert_eq!(
        Error::UnknownColorSpace("displayP3".to_string()).message(),
        "Unknown color space displayP3"
    );
    assert_eq!(
        Error::DocumentParseError("bad header".to_string()).message(),
        "PList parsing error: bad header"
    );
}
