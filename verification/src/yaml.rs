//! Rendering descriptions as YAML text: the library builds the document as
//! a tree of values, and the YAML library writes it out.

use crate::format::{Fields, Format, ToolDescription, ToolDescriptionView};
use vstd::prelude::*;
use vstd::string::*;

verus! {

/// `serde_yaml::Value`, a YAML document in memory. Nothing is known of a
/// value but what `node_of` says it holds.
#[verifier::external_type_specification]
#[verifier::external_body]
pub struct ExValue(serde_yaml::Value);

/// `serde_yaml::Error`, the YAML library's error. It is carried through as
/// it is.
#[verifier::external_type_specification]
#[verifier::external_body]
pub struct ExYamlError(serde_yaml::Error);

/// What a YAML value holds: a string, a sequence of values, a mapping as
/// its entries in order, or any other scalar under an encoding of its own.
pub enum YamlNode {
    Text(Seq<char>),
    List(Seq<YamlNode>),
    Table(Seq<(YamlNode, YamlNode)>),
    Scalar(Seq<char>),
}

/// What the value `v` holds. The constructors below say what the values
/// they build hold; of other values nothing is said.
pub uninterp spec fn node_of(v: serde_yaml::Value) -> YamlNode;

/// What `serde_yaml::to_string` makes of a value that holds `node`: the
/// YAML text that it writes, or nothing where it returns an error. The
/// outcome depends on nothing but what the value holds: a mapping is
/// written in the order of its entries, and no setting or state enters
/// into it.
pub uninterp spec fn yaml_text(node: YamlNode) -> Option<Seq<char>>;

/// `r` is the outcome `written` as a result: the text where there is one,
/// and an error where there is none.
pub open spec fn hands_on(r: Result<String, serde_yaml::Error>, written: Option<Seq<char>>) -> bool {
    match written {
        Some(text) => r matches Ok(s) && s@ == text,
        None => r is Err,
    }
}

/// The entries of a mapping with the given string keys and values.
pub open spec fn table_entries(keys: Seq<String>, values: Seq<serde_yaml::Value>) -> Seq<
    (YamlNode, YamlNode),
> {
    Seq::new(keys.len(), |i: int| (YamlNode::Text(keys[i]@), node_of(values[i])))
}

/// No two of `keys` hold the same text.
pub open spec fn distinct(keys: Seq<String>) -> bool {
    forall|i: int, j: int| 0 <= i < j < keys.len() ==> (#[trigger] keys[i])@ != (#[trigger] keys[j])@
}

/// `serde_yaml::Value::String`: the value that holds the string `s`.
#[verifier::external_body]
fn text_value(s: &str) -> (v: serde_yaml::Value)
    ensures
        node_of(v) == YamlNode::Text(s@),
{
    serde_yaml::Value::String(s.to_owned())
}

/// `serde_yaml::Value::Sequence`: the value that holds `items` in order.
#[verifier::external_body]
fn list_value(items: Vec<serde_yaml::Value>) -> (v: serde_yaml::Value)
    ensures
        node_of(v) == YamlNode::List(items@.map_values(|x: serde_yaml::Value| node_of(x))),
{
    serde_yaml::Value::Sequence(items)
}

/// `serde_yaml::Mapping::from_iter` under `serde_yaml::Value::Mapping`: the
/// mapping that binds each key, as a string, to the value at the same
/// position. A mapping keeps its entries in the order in which they came;
/// a key that came twice would be kept once, so the keys are to differ.
#[verifier::external_body]
fn table_value(keys: Vec<String>, values: Vec<serde_yaml::Value>) -> (v: serde_yaml::Value)
    requires
        keys@.len() == values@.len(),
        distinct(keys@),
    ensures
        node_of(v) == YamlNode::Table(table_entries(keys@, values@)),
{
    let strings = keys.into_iter().map(serde_yaml::Value::String);
    serde_yaml::Value::Mapping(strings.zip(values).collect())
}

/// `serde_yaml::to_string`: the YAML text of `v`, or the library's error.
/// Which of the two it is, and the text, depend on nothing but what `v`
/// holds.
#[verifier::external_body]
fn value_to_string(v: &serde_yaml::Value) -> (r: Result<String, serde_yaml::Error>)
    ensures
        hands_on(r, yaml_text(node_of(*v))),
{
    serde_yaml::to_string(v)
}

/// The mapping from key to purpose that stands for a format.
pub open spec fn format_node(fields: Fields) -> YamlNode {
    YamlNode::Table(
        Seq::new(
            fields.len(),
            |i: int| (YamlNode::Text(fields[i].0), YamlNode::Text(fields[i].1)),
        ),
    )
}

/// The mapping that stands for the description of one tool.
pub open spec fn description_node(d: ToolDescriptionView) -> YamlNode {
    YamlNode::Table(
        seq![
            (YamlNode::Text("name"@), YamlNode::Text(d.name)),
            (YamlNode::Text("description"@), YamlNode::Text(d.description)),
            (YamlNode::Text("description_context"@), YamlNode::Text(d.description_context)),
            (YamlNode::Text("input_format"@), format_node(d.input_format)),
            (YamlNode::Text("output_format"@), format_node(d.output_format)),
        ],
    )
}

/// The sequence that stands for the descriptions of several tools.
pub open spec fn descriptions_node(ds: Seq<ToolDescriptionView>) -> YamlNode {
    YamlNode::List(ds.map_values(|d: ToolDescriptionView| description_node(d)))
}

/// The YAML value of a format: a mapping from each key to its purpose, in
/// the order of the parts.
pub fn format_value(format: &Format) -> (v: serde_yaml::Value)
    requires
        format.wf(),
    ensures
        node_of(v) == format_node(format@),
{
    let mut keys: Vec<String> = Vec::new();
    let mut values: Vec<serde_yaml::Value> = Vec::new();
    let n: usize = format.parts.len();
    let mut i: usize = 0;
    while i < n
        invariant
            n == format.parts@.len(),
            i <= n,
            keys@.len() == i,
            values@.len() == i,
            forall|k: int| 0 <= k < i ==> (#[trigger] keys@[k])@ == format@[k].0,
            forall|k: int|
                0 <= k < i ==> node_of(#[trigger] values@[k]) == YamlNode::Text(format@[k].1),
        decreases n - i,
    {
        keys.push(format.parts[i].key.clone());
        values.push(text_value(format.parts[i].purpose.as_str()));
        i += 1;
    }
    proof {
        assert forall|a: int, b: int| 0 <= a < b < keys@.len() implies (#[trigger] keys@[a])@ != (
        #[trigger] keys@[b])@ by {
            assert(format@[a].0 != format@[b].0);
        }
        assert(table_entries(keys@, values@) =~= format_node(format@)->Table_0);
    }
    table_value(keys, values)
}

/// The YAML value of a tool's description: its three texts and its two
/// formats under the names of their fields.
pub fn description_value(d: &ToolDescription) -> (v: serde_yaml::Value)
    requires
        d.input_format.wf(),
        d.output_format.wf(),
    ensures
        node_of(v) == description_node(d@),
{
    let mut keys: Vec<String> = Vec::new();
    let mut values: Vec<serde_yaml::Value> = Vec::new();
    keys.push("name".to_owned());
    values.push(text_value(d.name.as_str()));
    keys.push("description".to_owned());
    values.push(text_value(d.description.as_str()));
    keys.push("description_context".to_owned());
    values.push(text_value(d.description_context.as_str()));
    keys.push("input_format".to_owned());
    values.push(format_value(&d.input_format));
    keys.push("output_format".to_owned());
    values.push(format_value(&d.output_format));
    proof {
        reveal_strlit("name");
        reveal_strlit("description");
        reveal_strlit("description_context");
        reveal_strlit("input_format");
        reveal_strlit("output_format");
        assert(keys@[0]@.len() == 4);
        assert(keys@[1]@.len() == 11);
        assert(keys@[2]@.len() == 19);
        assert(keys@[3]@.len() == 12);
        assert(keys@[4]@.len() == 13);
        assert(table_entries(keys@, values@) =~= description_node(d@)->Table_0);
    }
    table_value(keys, values)
}

/// The YAML value of a list of tool descriptions: the sequence of their
/// values, in their order.
pub fn descriptions_value(ds: &Vec<ToolDescription>) -> (v: serde_yaml::Value)
    requires
        forall|i: int|
            0 <= i < ds@.len() ==> (#[trigger] ds@[i]).input_format.wf() && ds@[i].output_format.wf(),
    ensures
        node_of(v) == descriptions_node(ds@.map_values(|d: ToolDescription| d@)),
{
    let mut items: Vec<serde_yaml::Value> = Vec::new();
    let n: usize = ds.len();
    let mut i: usize = 0;
    while i < n
        invariant
            n == ds@.len(),
            i <= n,
            items@.len() == i,
            forall|k: int|
                0 <= k < ds@.len() ==> (#[trigger] ds@[k]).input_format.wf()
                    && ds@[k].output_format.wf(),
            forall|k: int| 0 <= k < i ==> node_of(#[trigger] items@[k]) == description_node(ds@[k]@),
        decreases n - i,
    {
        items.push(description_value(&ds[i]));
        i += 1;
    }
    proof {
        assert(items@.map_values(|x: serde_yaml::Value| node_of(x)) =~= ds@.map_values(
            |d: ToolDescription| d@,
        ).map_values(|d: ToolDescriptionView| description_node(d)));
    }
    list_value(items)
}

/// The YAML text of a list of tool descriptions, in their order: what the
/// YAML library writes for their value. It fails exactly where the YAML
/// library returns an error for that value.
pub fn descriptions_text(ds: &Vec<ToolDescription>) -> (r: Result<String, serde_yaml::Error>)
    requires
        forall|i: int|
            0 <= i < ds@.len() ==> (#[trigger] ds@[i]).input_format.wf() && ds@[i].output_format.wf(),
    ensures
        hands_on(r, yaml_text(descriptions_node(ds@.map_values(|d: ToolDescription| d@)))),
{
    let list = descriptions_value(ds);
    value_to_string(&list)
}

} // verus!
