use std::fmt;

use tool_agent::extract::{FromContext, State, Yaml};
use tool_agent::format::{Describe, Format, FormatPart, ToolDescription};
use tool_agent::handler::{fold_result, surface, Handler, HandlerService, Tool};
use tool_agent::pipe::Pipe;
use tool_agent::registry::{unbox, Toolbox};

struct Shout(String);

impl fmt::Display for Shout {
    fn fmt(&self, f: &mut fmt::Formatter<'_>) -> fmt::Result {
        f.write_str(&format!("{}!", self.0))
    }
}

impl Describe for Shout {
    fn describe() -> Format {
        Format::new(vec![FormatPart::new("result", "The text, louder")])
    }
}

#[derive(Debug, PartialEq)]
struct Refused(String);

impl fmt::Display for Refused {
    fn fmt(&self, f: &mut fmt::Formatter<'_>) -> fmt::Result {
        f.write_str(&format!("refused: {}", self.0))
    }
}

struct Number(u32);

impl Describe for Number {
    fn describe() -> Format {
        Format::new(vec![FormatPart::new("number", "A whole number")])
    }
}

impl<S> FromContext<S> for Number {
    type Failure = String;

    fn from_context(message: &str, _state: S) -> Result<Self, String> {
        match message.trim().parse::<u32>() {
            Ok(n) => Ok(Number(n)),
            Err(_) => Err(format!("not a number: {}", message)),
        }
    }
}

struct Word(String);

impl Describe for Word {
    fn describe() -> Format {
        Format::new(vec![
            FormatPart::new("word", "One word"),
            FormatPart::new("language", "Its language"),
        ])
    }
}

impl<S> FromContext<S> for Word {
    type Failure = Refused;

    fn from_context(message: &str, _state: S) -> Result<Self, Refused> {
        if message.contains(' ') {
            Err(Refused("more than one word".to_string()))
        } else {
            Ok(Word(message.to_string()))
        }
    }
}

fn keys(format: &Format) -> Vec<(String, String)> {
    format.parts.iter().map(|p| (p.key.clone(), p.purpose.clone())).collect()
}

fn pair(k: &str, p: &str) -> (String, String) {
    (k.to_string(), p.to_string())
}

#[test]
fn format_part_holds_key_and_purpose() {
    let part = FormatPart::new("id", "Unique identifier");
    assert_eq!(part.key, "id");
    assert_eq!(part.purpose, "Unique identifier");
    let copy = part.clone();
    assert_eq!(copy.key, "id");
    assert_eq!(copy.purpose, "Unique identifier");
}

#[test]
fn format_keeps_parts_in_order() {
    let format = Format::new(vec![FormatPart::new("b", "second"), FormatPart::new("a", "first")]);
    assert_eq!(keys(&format), vec![pair("b", "second"), pair("a", "first")]);
    assert!(format.has_unique_keys());
    assert_eq!(keys(&format.duplicate()), keys(&format));
    assert!(Format::new(vec![]).has_unique_keys());
}

#[test]
fn format_with_a_repeated_key_is_not_well_formed() {
    let format = Format::new(vec![
        FormatPart::new("a", "first"),
        FormatPart::new("b", "second"),
        FormatPart::new("a", "third"),
    ]);
    assert!(!format.has_unique_keys());
    assert_eq!(format.parts.len(), 3);
}

#[test]
fn declared_format_has_one_part_for_each_field() {
    let fields = vec![
        FormatPart::new("id", "Unique struct identifier"),
        FormatPart::new("name", "Name of the struct"),
    ];
    let first = Format::declare(fields.clone()).unwrap();
    let second = Format::declare(fields).unwrap();
    assert_eq!(first.parts.len(), 2);
    assert_eq!(keys(&first), vec![pair("id", "Unique struct identifier"), pair("name", "Name of the struct")]);
    assert_eq!(keys(&first), keys(&second));
    assert!(Format::declare(vec![FormatPart::new("x", "1"), FormatPart::new("x", "2")]).is_none());
    assert_eq!(Format::declare(vec![]).unwrap().parts.len(), 0);
}

#[test]
fn envelope_and_result_forward_the_shape() {
    assert_eq!(keys(&<Yaml<Word> as Describe>::describe()), keys(&Word::describe()));
    assert_eq!(keys(&<Result<Word, Refused> as Describe>::describe()), keys(&Word::describe()));
    assert_eq!(
        keys(&<Result<Yaml<Number>, String> as Describe>::describe()),
        vec![pair("number", "A whole number")]
    );
}

#[test]
fn tool_description_holds_what_it_was_given() {
    let d = ToolDescription::new(
        "echo",
        "Repeats",
        "Use when unsure",
        Word::describe(),
        Shout::describe(),
    );
    assert_eq!(d.name, "echo");
    assert_eq!(d.description, "Repeats");
    assert_eq!(d.description_context, "Use when unsure");
    assert_eq!(keys(&d.input_format), keys(&Word::describe()));
    assert_eq!(keys(&d.output_format), keys(&Shout::describe()));
    let copy = d.duplicate();
    assert_eq!(copy.name, "echo");
    assert_eq!(keys(&copy.input_format), keys(&Word::describe()));
}

#[test]
fn state_extractor_ignores_the_request() {
    match <State<u32> as FromContext<u32>>::from_context("anything", 7) {
        Ok(State(n)) => assert_eq!(n, 7),
        Err(_) => panic!("the state extractor cannot fail"),
    }
}

#[test]
fn yaml_envelope_wraps_what_was_read() {
    let read: Result<u32, serde_yaml::Error> = serde_yaml::from_str("41");
    match Yaml::from_parsed(read) {
        Ok(Yaml(n)) => assert_eq!(n, 41),
        Err(_) => panic!("expected a value"),
    }
    let bad: Result<u32, serde_yaml::Error> = serde_yaml::from_str("[1, 2");
    let message = serde_yaml::from_str::<u32>("[1, 2").unwrap_err().to_string();
    match Yaml::from_parsed(bad) {
        Ok(_) => panic!("expected an error"),
        Err(e) => assert_eq!(e.to_string(), message),
    }
}

#[test]
fn tuple_extractors_use_the_same_text_and_state() {
    match <(State<u32>, Number) as FromContext<u32>>::from_context(" 12 ", 3) {
        Ok((State(s), Number(n))) => assert_eq!((s, n), (3, 12)),
        Err(e) => panic!("{}", e),
    }
    match <(Number, Word) as FromContext<u32>>::from_context("a b", 3) {
        Ok(_) => panic!("expected a failure"),
        Err(e) => assert_eq!(e, "not a number: a b"),
    }
    match <(Word, Number) as FromContext<u32>>::from_context("a b", 3) {
        Ok(_) => panic!("expected a failure"),
        Err(e) => assert_eq!(e, "refused: more than one word"),
    }
    match <(Word,) as FromContext<()>>::from_context("solo", ()) {
        Ok((Word(w),)) => assert_eq!(w, "solo"),
        Err(e) => panic!("{}", e),
    }
    match <(Word,) as FromContext<()>>::from_context("not solo", ()) {
        Ok(_) => panic!("expected a failure"),
        Err(e) => assert_eq!(e, "refused: more than one word"),
    }
}

#[test]
fn fold_result_shows_values_and_boxes_errors() {
    assert_eq!(fold_result::<Shout, Refused>(Ok(Shout("hey".to_string()))), Ok("hey!".to_string()));
    assert_eq!(
        fold_result::<Shout, Refused>(Err(Refused("no".to_string()))),
        Err(Box::new(Refused("no".to_string())))
    );
}

#[test]
fn surface_turns_failures_into_text() {
    assert_eq!(surface::<Refused>(Ok("fine".to_string())), Ok("fine".to_string()));
    assert_eq!(
        surface::<Refused>(Err(Box::new(Refused("no".to_string())))),
        Ok("refused: no".to_string())
    );
}

#[test]
fn handler_without_arguments() {
    let f = || -> Result<Shout, Refused> { Ok(Shout("ready".to_string())) };
    assert_eq!(Handler::<(), u8>::call(&f, "ignored".to_string(), 0u8), Ok("ready!".to_string()));
    let service = Handler::<(), u8>::with_state(f, 0u8);
    assert_eq!(service.call("x".to_string()), Ok("ready!".to_string()));
    let d = service.description();
    assert_eq!(d.name, "");
    assert_eq!(d.description, "");
    assert_eq!(d.input_format.parts.len(), 0);
    assert_eq!(keys(&d.output_format), keys(&Shout::describe()));
}

#[test]
fn handler_with_one_argument() {
    let f = |Number(n): Number| -> Result<Shout, Refused> {
        if n < 10 {
            Ok(Shout(format!("{}", n * 2)))
        } else {
            Err(Refused(format!("{} is too large", n)))
        }
    };
    assert_eq!(Handler::<(Number,), ()>::call(&f, "4".to_string(), ()), Ok("8!".to_string()));
    assert_eq!(
        Handler::<(Number,), ()>::call(&f, "four".to_string(), ()),
        Ok("not a number: four".to_string())
    );
    assert_eq!(
        Handler::<(Number,), ()>::call(&f, "40".to_string(), ()),
        Err(Box::new(Refused("40 is too large".to_string())))
    );
    let service = Handler::<(Number,), ()>::with_state(f, ());
    assert_eq!(service.call("4".to_string()), Ok("8!".to_string()));
    assert_eq!(service.call("four".to_string()), Ok("not a number: four".to_string()));
    assert_eq!(service.call("40".to_string()), Ok("refused: 40 is too large".to_string()));
    let d = service.description();
    assert_eq!(keys(&d.input_format), keys(&Number::describe()));
    assert_eq!(keys(&d.output_format), keys(&Shout::describe()));
}

#[test]
fn handler_with_state_and_argument() {
    let f = |State(base): State<u32>, Number(n): Number| -> Result<Shout, Refused> {
        Ok(Shout(format!("{}", base + n)))
    };
    let service = f.with_state(100u32).named("add", "Adds to the base");
    assert_eq!(service.call("5".to_string()), Ok("105!".to_string()));
    assert_eq!(service.call("7".to_string()), Ok("107!".to_string()));
    assert_eq!(service.call("x".to_string()), Ok("not a number: x".to_string()));
    let d = service.description();
    assert_eq!(d.name, "add");
    assert_eq!(d.description, "Adds to the base");
    assert_eq!(d.description_context, "");
    assert_eq!(keys(&d.input_format), keys(&Number::describe()));
    assert_eq!(keys(&d.output_format), keys(&Shout::describe()));
}

#[test]
fn first_failing_argument_ends_the_call() {
    let f = |Word(w): Word, Number(n): Number| -> Result<Shout, Refused> {
        Ok(Shout(format!("{}{}", w, n)))
    };
    assert_eq!(
        Handler::<(Word, Number), ()>::call(&f, "a b".to_string(), ()),
        Ok("refused: more than one word".to_string())
    );
    assert_eq!(
        Handler::<(Word, Number), ()>::call(&f, "ab".to_string(), ()),
        Ok("not a number: ab".to_string())
    );
    let g = |Number(n): Number, Number(m): Number| -> Result<Shout, Refused> {
        Ok(Shout(format!("{}", n + m)))
    };
    assert_eq!(
        Handler::<(Number, Number), ()>::call(&g, "21".to_string(), ()),
        Ok("42!".to_string())
    );
}

#[test]
fn new_service_has_no_name() {
    let f = |Number(n): Number| -> Result<Shout, Refused> { Ok(Shout(n.to_string())) };
    let service: HandlerService<_, (Number,), (), Refused> =
        HandlerService::new(f, (), Word::describe(), Number::describe());
    let d = service.description();
    assert_eq!(d.name, "");
    assert_eq!(d.description, "");
    assert_eq!(keys(&d.input_format), keys(&Word::describe()));
    assert_eq!(keys(&d.output_format), keys(&Number::describe()));
    assert_eq!(service.call("3".to_string()), Ok("3!".to_string()));
}

fn risky(Number(n): Number) -> Result<String, Refused> {
    if n > 18 {
        Ok(format!("adult {}", n))
    } else {
        Err(Refused("not above 18".to_string()))
    }
}

fn recover(first: Result<String, Refused>) -> Result<Shout, Refused> {
    match first {
        Ok(text) => Ok(Shout(format!("ok<{}>", text))),
        Err(e) => Ok(Shout(format!("recovered<{}>", e.0))),
    }
}

#[test]
fn pipe_hands_a_failure_to_the_secondary_step() {
    let piped = Pipe::<(Number,), Result<String, Refused>>::pipe(risky, recover);
    let service = Handler::<(Number,), ()>::with_state(piped, ());
    assert_eq!(service.call("7".to_string()), Ok("recovered<not above 18>!".to_string()));
}

#[test]
fn pipe_hands_a_success_to_the_secondary_step() {
    let piped = Pipe::<(Number,), Result<String, Refused>>::pipe(risky, recover);
    let service = Handler::<(Number,), ()>::with_state(piped, ());
    assert_eq!(service.call("30".to_string()), Ok("ok<adult 30>!".to_string()));
    assert_eq!(service.call("thirty".to_string()), Ok("not a number: thirty".to_string()));
    let d = service.description();
    assert_eq!(keys(&d.input_format), keys(&Number::describe()));
    assert_eq!(keys(&d.output_format), keys(&Shout::describe()));
}

#[test]
fn pipe_of_two_arguments_and_a_failing_secondary_step() {
    let first = |State(limit): State<u32>, Number(n): Number| -> Result<u32, Refused> {
        if n <= limit {
            Ok(n)
        } else {
            Err(Refused(format!("{} is over {}", n, limit)))
        }
    };
    let second = |r: Result<u32, Refused>| -> Result<Shout, Refused> {
        match r {
            Ok(n) => Ok(Shout(n.to_string())),
            Err(e) => Err(Refused(format!("gave up, {}", e.0))),
        }
    };
    let piped = Pipe::<(State<u32>, Number), Result<u32, Refused>>::pipe(first, second);
    assert_eq!(
        Handler::<(State<u32>, Number), u32>::call(&piped, "9".to_string(), 10),
        Ok("9!".to_string())
    );
    assert_eq!(
        Handler::<(State<u32>, Number), u32>::call(&piped, "11".to_string(), 10),
        Err(Box::new(Refused("gave up, 11 is over 10".to_string())))
    );
    let service = Handler::<(State<u32>, Number), u32>::with_state(piped, 10);
    assert_eq!(service.call("11".to_string()), Ok("refused: gave up, 11 is over 10".to_string()));
    assert_eq!(service.call("?".to_string()), Ok("not a number: ?".to_string()));
}

struct Fixed {
    name: &'static str,
    fails: bool,
}

impl Tool<Refused> for Fixed {
    fn call(&self, message: String) -> Result<String, Box<Refused>> {
        if self.fails {
            Err(Box::new(Refused(message)))
        } else {
            Ok(format!("{} heard {}", self.name, message))
        }
    }

    fn description(&self) -> ToolDescription {
        ToolDescription::new(
            self.name,
            "Says what it heard",
            "",
            Word::describe(),
            Shout::describe(),
        )
    }
}

#[test]
fn unbox_keeps_text_and_error() {
    assert_eq!(unbox::<Refused>(Ok("a".to_string())), Ok("a".to_string()));
    assert_eq!(unbox(Err(Box::new(Refused("b".to_string())))), Err(Refused("b".to_string())));
}

#[test]
fn invoking_an_unknown_tool_is_not_found() {
    let mut tools: Toolbox<Fixed, Refused> = Toolbox::new();
    assert_eq!(tools.invoke("X", "hello"), None);
    tools.add_tool(Fixed { name: "Y", fails: false });
    assert_eq!(tools.invoke("X", "hello"), None);
    assert_eq!(tools.invoke("y", "hello"), None);
    assert_eq!(tools.invoke("", "hello"), None);
}

#[test]
fn invoking_a_tool_hands_its_reply_on() {
    let mut tools: Toolbox<Fixed, Refused> = Toolbox::new();
    tools.add_tool(Fixed { name: "first", fails: false });
    tools.add_tool(Fixed { name: "second", fails: true });
    assert_eq!(tools.invoke("first", "hello"), Some(Ok("first heard hello".to_string())));
    assert_eq!(tools.invoke("second", "hello"), Some(Err(Refused("hello".to_string()))));
}

#[test]
fn registering_a_name_again_replaces_the_tool_in_place() {
    let mut tools: Toolbox<Fixed, Refused> = Toolbox::new();
    tools.add_tool(Fixed { name: "a", fails: true });
    tools.add_tool(Fixed { name: "b", fails: false });
    tools.add_tool(Fixed { name: "a", fails: false });
    assert_eq!(tools.invoke("a", "x"), Some(Ok("a heard x".to_string())));
    let text = tools.describe().unwrap();
    let a = text.find("name: a").unwrap();
    let b = text.find("name: b").unwrap();
    assert!(a < b);
    assert_eq!(text.matches("- name:").count(), 2);
}

#[test]
fn boxed_tools_of_different_kinds_share_a_registry() {
    let add = |State(base): State<u32>, Number(n): Number| -> Result<Shout, Refused> {
        Ok(Shout(format!("{}", base + n)))
    };
    let mut tools: Toolbox<Box<dyn Tool<Refused>>, Refused> = Toolbox::new();
    tools.add_tool(Box::new(add.with_state(1u32).named("add", "Adds one")));
    tools.add_tool(Box::new(Fixed { name: "fixed", fails: false }));
    assert_eq!(tools.invoke("add", "41"), Some(Ok("42!".to_string())));
    assert_eq!(tools.invoke("add", "no"), Some(Ok("not a number: no".to_string())));
    assert_eq!(tools.invoke("fixed", "this"), Some(Ok("fixed heard this".to_string())));
    assert_eq!(tools.invoke("missing", "this"), None);
}

#[test]
fn registry_describes_its_tools_as_yaml_in_registration_order() {
    let add = |State(base): State<u32>, Number(n): Number| -> Result<Shout, Refused> {
        Ok(Shout(format!("{}", base + n)))
    };
    let mut tools: Toolbox<Box<dyn Tool<Refused>>, Refused> = Toolbox::new();
    assert_eq!(tools.describe().unwrap(), "[]\n");
    tools.add_tool(Box::new(Fixed { name: "zeta", fails: false }));
    tools.add_tool(Box::new(add.with_state(1u32).named("add", "Adds one: carefully")));
    let expected = "\
- name: zeta
  description: Says what it heard
  description_context: ''
  input_format:
    word: One word
    language: Its language
  output_format:
    result: The text, louder
- name: add
  description: 'Adds one: carefully'
  description_context: ''
  input_format:
    number: A whole number
  output_format:
    result: The text, louder
";
    assert_eq!(tools.describe().unwrap(), expected);
}

#[test]
fn described_yaml_reads_back_as_the_descriptions() {
    let mut tools: Toolbox<Fixed, Refused> = Toolbox::new();
    tools.add_tool(Fixed { name: "zeta", fails: false });
    let text = tools.describe().unwrap();
    let value: serde_yaml::Value = serde_yaml::from_str(&text).unwrap();
    let list = value.as_sequence().unwrap();
    assert_eq!(list.len(), 1);
    let entry = list[0].as_mapping().unwrap();
    let names: Vec<&str> = entry.keys().map(|k| k.as_str().unwrap()).collect();
    assert_eq!(names, vec!["name", "description", "description_context", "input_format", "output_format"]);
    assert_eq!(entry.get("name").unwrap().as_str(), Some("zeta"));
    let input = entry.get("input_format").unwrap().as_mapping().unwrap();
    let fields: Vec<(&str, &str)> =
        input.iter().map(|(k, v)| (k.as_str().unwrap(), v.as_str().unwrap())).collect();
    assert_eq!(fields, vec![("word", "One word"), ("language", "Its language")]);
}

#[test]
fn handler_with_three_and_four_arguments() {
    let three = |State(base): State<u32>, Word(w): Word, Number(n): Number| -> Result<Shout, Refused> {
        Ok(Shout(format!("{}{}{}", base, w, n)))
    };
    assert_eq!(
        Handler::<(State<u32>, Word, Number), u32>::call(&three, "7".to_string(), 1),
        Ok("177!".to_string())
    );
    assert_eq!(
        Handler::<(State<u32>, Word, Number), u32>::call(&three, "a b".to_string(), 1),
        Ok("refused: more than one word".to_string())
    );
    assert_eq!(
        Handler::<(State<u32>, Word, Number), u32>::call(&three, "ab".to_string(), 1),
        Ok("not a number: ab".to_string())
    );
    let four = |Number(k): Number, State(base): State<u32>, Word(w): Word, Number(n): Number| -> Result<Shout, Refused> {
        if k == 0 {
            Err(Refused("zero".to_string()))
        } else {
            Ok(Shout(format!("{}{}{}{}", k, base, w, n)))
        }
    };
    let service = four.with_state(5u32).named("four", "Takes four");
    assert_eq!(service.call("3".to_string()), Ok("3533!".to_string()));
    assert_eq!(service.call("0".to_string()), Ok("refused: zero".to_string()));
    assert_eq!(service.call("x y".to_string()), Ok("not a number: x y".to_string()));
    let d = service.description();
    assert_eq!(keys(&d.input_format), keys(&Number::describe()));
}

#[test]
fn tuple_extractors_of_three_and_four() {
    match <(Number, State<u8>, Number) as FromContext<u8>>::from_context("5", 9) {
        Ok((Number(a), State(s), Number(b))) => assert_eq!((a, s, b), (5, 9, 5)),
        Err(e) => panic!("{}", e),
    }
    match <(Word, Number, State<u8>) as FromContext<u8>>::from_context("a b", 9) {
        Ok(_) => panic!("expected a failure"),
        Err(e) => assert_eq!(e, "refused: more than one word"),
    }
    match <(State<u8>, Word, Word, Number) as FromContext<u8>>::from_context("word", 9) {
        Ok(_) => panic!("expected a failure"),
        Err(e) => assert_eq!(e, "not a number: word"),
    }
    match <(State<u8>, Word, Word, State<u8>) as FromContext<u8>>::from_context("word", 9) {
        Ok((State(a), Word(b), Word(c), State(d))) => {
            assert_eq!((a, b.as_str(), c.as_str(), d), (9, "word", "word", 9))
        }
        Err(e) => panic!("{}", e),
    }
}

#[test]
fn pipe_of_three_arguments() {
    let first = |State(limit): State<u32>, Number(n): Number, Number(m): Number| -> Result<u32, Refused> {
        if n + m <= limit {
            Ok(n + m)
        } else {
            Err(Refused("over".to_string()))
        }
    };
    let second = |r: Result<u32, Refused>| -> Result<Shout, Refused> {
        match r {
            Ok(n) => Ok(Shout(format!("sum {}", n))),
            Err(e) => Ok(Shout(format!("no sum, {}", e.0))),
        }
    };
    let piped = Pipe::<(State<u32>, Number, Number), Result<u32, Refused>>::pipe(first, second);
    let service = Handler::<(State<u32>, Number, Number), u32>::with_state(piped, 10);
    assert_eq!(service.call("4".to_string()), Ok("sum 8!".to_string()));
    assert_eq!(service.call("6".to_string()), Ok("no sum, over!".to_string()));
    assert_eq!(service.call("six".to_string()), Ok("not a number: six".to_string()));
}

#[test]
fn format_part_from_a_pair() {
    let part: FormatPart = ("id", "Unique identifier").into();
    assert_eq!(part.key, "id");
    assert_eq!(part.purpose, "Unique identifier");
    let part = FormatPart::from(("a".to_string(), "b"));
    assert_eq!((part.key.as_str(), part.purpose.as_str()), ("a", "b"));
    let format: Format = vec![part, FormatPart::new("c", "d")].into();
    assert_eq!(keys(&format), vec![pair("a", "b"), pair("c", "d")]);
}

fn text(s: &str) -> serde_yaml::Value {
    serde_yaml::Value::String(s.to_string())
}

fn table(entries: Vec<(&str, serde_yaml::Value)>) -> serde_yaml::Value {
    let mut m = serde_yaml::Mapping::new();
    for (k, v) in entries {
        m.insert(text(k), v);
    }
    serde_yaml::Value::Mapping(m)
}

#[test]
fn format_value_is_a_mapping_from_key_to_purpose() {
    let value = tool_agent::yaml::format_value(&Word::describe());
    let expected = table(vec![("word", text("One word")), ("language", text("Its language"))]);
    assert_eq!(value, expected);
    assert_eq!(
        serde_yaml::to_string(&value).unwrap(),
        "word: One word\nlanguage: Its language\n"
    );
    assert_eq!(tool_agent::yaml::format_value(&Format::new(vec![])), table(vec![]));
}

#[test]
fn description_value_names_the_five_fields_in_order() {
    let d = ToolDescription::new("echo", "Repeats", "When unsure", Number::describe(), Shout::describe());
    let value = tool_agent::yaml::description_value(&d);
    let expected = table(vec![
        ("name", text("echo")),
        ("description", text("Repeats")),
        ("description_context", text("When unsure")),
        ("input_format", table(vec![("number", text("A whole number"))])),
        ("output_format", table(vec![("result", text("The text, louder"))])),
    ]);
    assert_eq!(value, expected);
    let list = tool_agent::yaml::descriptions_value(&vec![d.duplicate(), d]);
    assert_eq!(list, serde_yaml::Value::Sequence(vec![expected.clone(), expected]));
    assert_eq!(tool_agent::yaml::descriptions_text(&vec![]).unwrap(), "[]\n");
}
