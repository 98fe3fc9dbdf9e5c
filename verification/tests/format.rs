use jsonformat::Indentation;

#[test]
fn echoes_primitive() {
    let json = "1.35\n";
    assert_eq!(json, jsonformat::format(json, Indentation::TwoSpace));
}

#[test]
fn ignore_whitespace_in_string() {
    let json = "\" hallo \"\n";
    assert_eq!(json, jsonformat::format(json, Indentation::TwoSpace));
}

#[test]
fn remove_leading_whitespace() {
    let json = "   0";
    let expected = "0\n";
    assert_eq!(expected, jsonformat::format(json, Indentation::TwoSpace));
}

#[test]
fn handle_escaped_strings() {
    let json = "  \" hallo \\\" \" ";
    let expected = "\" hallo \\\" \"\n";
    assert_eq!(expected, jsonformat::format(json, Indentation::TwoSpace));
}

#[test]
fn simple_object() {
    let json = "{\"a\":0}";
    let expected = "{
  \"a\": 0
}
";
    assert_eq!(expected, jsonformat::format(json, Indentation::TwoSpace));
}

#[test]
fn simple_array() {
    let json = "[1,2,null]";
    let expected = "[
  1,
  2,
  null
]
";
    assert_eq!(expected, jsonformat::format(json, Indentation::TwoSpace));
}

#[test]
fn array_of_object() {
    let json = "[{\"a\": 0}, {}, {\"a\": null}]";
    let expected = "[
  {
    \"a\": 0
  },
  {},
  {
    \"a\": null
  }
]
";

    assert_eq!(expected, jsonformat::format(json, Indentation::TwoSpace));
}

#[test]
fn already_formatted() {
    let expected = "[
  {
    \"a\": 0
  },
  {},
  {
    \"a\": null
  }
]
";

    assert_eq!(expected, jsonformat::format(expected, Indentation::TwoSpace));
}

#[test]
fn empty_object_collapses() {
    assert_eq!("{}\n", jsonformat::format("{}", Indentation::TwoSpace));
}

#[test]
fn empty_array_collapses() {
    assert_eq!("[]\n", jsonformat::format("[]", Indentation::TwoSpace));
}

#[test]
fn four_space_indentation() {
    let expected = "{\n    \"a\": 0\n}\n";
    assert_eq!(expected, jsonformat::format("{\"a\":0}", Indentation::FourSpace));
}

#[test]
fn tab_indentation() {
    let expected = "{\n\t\"a\": 0\n}\n";
    assert_eq!(expected, jsonformat::format("{\"a\":0}", Indentation::Tab));
}

#[test]
fn custom_indentation_repeats_per_level() {
    let expected = "[\n123456[\n1234561234561\n123456]\n]\n";
    assert_eq!(expected, jsonformat::format("[[1]]", Indentation::Custom("123456")));
}

#[test]
fn custom_empty_indentation() {
    let expected = "[\n1,\n2\n]\n";
    assert_eq!(expected, jsonformat::format("[1,2]", Indentation::Custom("")));
}

#[test]
fn default_indentation_is_two_space() {
    assert_eq!(Indentation::default(), Indentation::TwoSpace);
    let json = "{\"a\":0}";
    assert_eq!(
        jsonformat::format(json, Indentation::default()),
        jsonformat::format(json, Indentation::TwoSpace)
    );
}

#[test]
fn whitespace_outside_strings_is_insignificant() {
    let dense = "{\"a\":[1,2]}";
    let airy = "  {\t\"a\" :\n [ 1 ,\n 2 ] }  ";
    assert_eq!(
        jsonformat::format(dense, Indentation::TwoSpace),
        jsonformat::format(airy, Indentation::TwoSpace)
    );
}

#[test]
fn formatting_is_idempotent() {
    let json = "[{\"a \\\" b\": 0}, {}, [1,2,null], \"x\"]";
    let once = jsonformat::format(json, Indentation::TwoSpace);
    let twice = jsonformat::format(&once, Indentation::TwoSpace);
    assert_eq!(once, twice);
}

#[test]
fn unbalanced_closers_do_not_underflow() {
    // malformed input: best-effort output, depth saturates at zero
    let out = jsonformat::format("}]", Indentation::TwoSpace);
    assert_eq!("\n}\n]\n", out);
}
