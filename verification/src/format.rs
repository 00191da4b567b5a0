//! The self-describing shape of what a tool accepts and returns: a list of
//! named fields, each with the purpose it serves.

use crate::decision::same_text;
use vstd::prelude::*;
use vstd::std_specs::convert::{FromSpecImpl, IntoSpec};
use vstd::string::*;

verus! {

/// The fields of a shape in order, each as its key and its purpose.
pub type Fields = Seq<(Seq<char>, Seq<char>)>;

/// One named field and what it is for.
#[derive(Debug)]
pub struct FormatPart {
    pub key: String,
    pub purpose: String,
}

impl View for FormatPart {
    type V = (Seq<char>, Seq<char>);

    open spec fn view(&self) -> (Seq<char>, Seq<char>) {
        (self.key@, self.purpose@)
    }
}

impl FormatPart {
    /// The field `key`, which serves `purpose`.
    pub fn new(key: &str, purpose: &str) -> (r: Self)
        ensures
            r@ == (key@, purpose@),
    {
        FormatPart { key: key.to_owned(), purpose: purpose.to_owned() }
    }
}

impl<K: Into<String>, P: Into<String>> From<(K, P)> for FormatPart {
    /// The part whose key and purpose are the two components as strings.
    fn from(pair: (K, P)) -> (r: Self) {
        let (k, p) = pair;
        let key: String = k.into();
        let purpose: String = p.into();
        FormatPart { key, purpose }
    }
}

impl<K: Into<String>, P: Into<String>> FromSpecImpl<(K, P)> for FormatPart {
    open spec fn obeys_from_spec() -> bool {
        <K as IntoSpec<String>>::obeys_into_spec() && <P as IntoSpec<String>>::obeys_into_spec()
    }

    open spec fn from_spec(pair: (K, P)) -> Self {
        FormatPart { key: pair.0.into_spec(), purpose: pair.1.into_spec() }
    }
}

impl Clone for FormatPart {
    fn clone(&self) -> (r: Self)
        ensures
            r@ == self@,
    {
        FormatPart { key: self.key.clone(), purpose: self.purpose.clone() }
    }
}

/// The fields that a list of parts stands for, as pairs of key and purpose.
pub open spec fn fields_of(parts: Seq<FormatPart>) -> Fields {
    parts.map_values(|p: FormatPart| p@)
}

/// No key occurs twice among `fields`.
pub open spec fn unique_keys(fields: Fields) -> bool {
    forall|i: int, j: int|
        0 <= i < j < fields.len() ==> (#[trigger] fields[i]).0 != (#[trigger] fields[j]).0
}

/// The shape of a tool's input or output: its fields in order.
#[derive(Debug)]
pub struct Format {
    pub parts: Vec<FormatPart>,
}

impl View for Format {
    type V = Fields;

    open spec fn view(&self) -> Fields {
        fields_of(self.parts@)
    }
}

impl Format {
    /// A format is well formed when no two of its parts share a key.
    pub open spec fn wf(&self) -> bool {
        unique_keys(self@)
    }

    /// The format with the given parts, in their order.
    pub fn new(parts: Vec<FormatPart>) -> (r: Self)
        ensures
            r.parts == parts,
            r@ == fields_of(parts@),
    {
        Format { parts }
    }

    /// The format of a type whose fields are `parts`, one part for each
    /// field in the order given, or nothing where two fields share a key.
    pub fn declare(parts: Vec<FormatPart>) -> (r: Option<Self>)
        ensures
            r is Some <==> unique_keys(fields_of(parts@)),
            r matches Some(f) ==> f.parts == parts && f.wf(),
    {
        let format = Format::new(parts);
        if format.has_unique_keys() {
            Some(format)
        } else {
            None
        }
    }

    /// Whether `key` is the key of one of the first `upto` parts.
    fn key_among(&self, key: &str, upto: usize) -> (r: bool)
        requires
            upto <= self.parts@.len(),
        ensures
            r == exists|i: int| 0 <= i < upto && (#[trigger] self@[i]).0 == key@,
    {
        let mut i: usize = 0;
        while i < upto
            invariant
                i <= upto <= self.parts@.len(),
                forall|k: int| 0 <= k < i ==> (#[trigger] self@[k]).0 != key@,
            decreases upto - i,
        {
            if same_text(self.parts[i].key.as_str(), key) {
                proof {
                    assert(self@[i as int].0 == key@);
                }
                return true;
            }
            i += 1;
        }
        false
    }

    /// Whether the format is well formed.
    pub fn has_unique_keys(&self) -> (r: bool)
        ensures
            r == self.wf(),
    {
        let n: usize = self.parts.len();
        let mut j: usize = 0;
        while j < n
            invariant
                n == self.parts@.len(),
                j <= n,
                forall|a: int, b: int|
                    0 <= a < b < j ==> (#[trigger] self@[a]).0 != (#[trigger] self@[b]).0,
            decreases n - j,
        {
            if self.key_among(self.parts[j].key.as_str(), j) {
                proof {
                    let i = choose|i: int| 0 <= i < j && (#[trigger] self@[i]).0 == self@[j as int].0;
                    assert(self@[i].0 == self@[j as int].0);
                }
                return false;
            }
            j += 1;
        }
        true
    }

    /// A copy of this format.
    pub fn duplicate(&self) -> (r: Self)
        ensures
            r@ == self@,
    {
        let mut parts: Vec<FormatPart> = Vec::new();
        let n: usize = self.parts.len();
        let mut i: usize = 0;
        while i < n
            invariant
                n == self.parts@.len(),
                i <= n,
                parts@.len() == i,
                forall|k: int| 0 <= k < i ==> (#[trigger] parts@[k])@ == self.parts@[k]@,
            decreases n - i,
        {
            parts.push(self.parts[i].clone());
            i += 1;
        }
        proof {
            assert(fields_of(parts@) =~= self@);
        }
        Format { parts }
    }
}

impl From<Vec<FormatPart>> for Format {
    /// The format with the given parts.
    fn from(parts: Vec<FormatPart>) -> (r: Self) {
        Format::new(parts)
    }
}

impl FromSpecImpl<Vec<FormatPart>> for Format {
    open spec fn obeys_from_spec() -> bool {
        true
    }

    open spec fn from_spec(parts: Vec<FormatPart>) -> Self {
        Format { parts }
    }
}

/// A format that was declared from `fields` has exactly as many parts as
/// there are fields, each with the key and purpose of its field, and no key
/// twice; and it is the same however often it is asked for.
pub proof fn declared_format_matches_fields(fields: Seq<FormatPart>, first: Format, second: Format)
    requires
        first.parts@ == fields,
        second.parts@ == fields,
        first.wf(),
    ensures
        first@.len() == fields.len(),
        forall|i: int| 0 <= i < fields.len() ==> #[trigger] first@[i] == fields[i]@,
        forall|i: int, j: int|
            0 <= i < j < fields.len() ==> (#[trigger] first@[i]).0 != (#[trigger] first@[j]).0,
        second@ == first@,
{
}

/// A type whose shape on the wire is known without any value of it.
pub trait Describe {
    /// What an implementation promises of its fields beyond their keys being
    /// distinct. Unless an implementation says more, nothing is promised.
    open spec fn describes(fields: Fields) -> bool {
        true
    }

    /// The fields of the type, with no key twice.
    fn describe() -> (f: Format)
        ensures
            f.wf(),
            Self::describes(f@),
    ;
}

/// What a registry tells the model about one tool.
#[derive(Debug)]
pub struct ToolDescription {
    pub name: String,
    pub description: String,
    pub description_context: String,
    pub input_format: Format,
    pub output_format: Format,
}

pub struct ToolDescriptionView {
    pub name: Seq<char>,
    pub description: Seq<char>,
    pub description_context: Seq<char>,
    pub input_format: Fields,
    pub output_format: Fields,
}

impl View for ToolDescription {
    type V = ToolDescriptionView;

    open spec fn view(&self) -> ToolDescriptionView {
        ToolDescriptionView {
            name: self.name@,
            description: self.description@,
            description_context: self.description_context@,
            input_format: self.input_format@,
            output_format: self.output_format@,
        }
    }
}

impl ToolDescription {
    /// A copy of this description.
    pub fn duplicate(&self) -> (r: Self)
        ensures
            r@ == self@,
    {
        ToolDescription {
            name: self.name.clone(),
            description: self.description.clone(),
            description_context: self.description_context.clone(),
            input_format: self.input_format.duplicate(),
            output_format: self.output_format.duplicate(),
        }
    }

    /// The description of the tool `name`.
    pub fn new(
        name: &str,
        description: &str,
        description_context: &str,
        input_format: Format,
        output_format: Format,
    ) -> (r: Self)
        ensures
            r@ == (ToolDescriptionView {
                name: name@,
                description: description@,
                description_context: description_context@,
                input_format: input_format@,
                output_format: output_format@,
            }),
    {
        ToolDescription {
            name: name.to_owned(),
            description: description.to_owned(),
            description_context: description_context.to_owned(),
            input_format,
            output_format,
        }
    }
}

} // verus!
