//! The registry of tools: each under its name, in the order of registration.

use crate::decision::same_text;
use crate::format::{ToolDescription, ToolDescriptionView};
use crate::handler::Tool;
use core::marker::PhantomData;
use crate::yaml::{descriptions_node, descriptions_text, hands_on, yaml_text};
use vstd::prelude::*;
use vstd::string::*;

verus! {

/// What a registry returns for the reply of a tool: the same text or error,
/// the error out of its box.
pub open spec fn unboxed<E>(inner: Result<String, Box<E>>, r: Result<String, E>) -> bool {
    match inner {
        Ok(text) => r == Ok::<String, E>(text),
        Err(e) => r == Err::<String, E>(*e),
    }
}

/// The reply of a tool with its error out of the box.
pub fn unbox<E>(inner: Result<String, Box<E>>) -> (r: Result<String, E>)
    ensures
        unboxed(inner, r),
{
    match inner {
        Ok(text) => Ok(text),
        Err(e) => Err(*e),
    }
}

/// A registered tool with the description it gave of itself.
pub struct ToolEntry<T> {
    pub description: ToolDescription,
    pub tool: T,
}

/// A collection of tools, each registered under the name that its
/// description gives.
pub struct Toolbox<T, E> {
    tools: Vec<ToolEntry<T>>,
    _marker: PhantomData<E>,
}

impl<E, T: Tool<E>> Toolbox<T, E> {
    /// The registered tools with their descriptions, in the order of registration.
    pub closed spec fn entries(&self) -> Seq<ToolEntry<T>> {
        self.tools@
    }

    /// The number of registered tools.
    pub open spec fn count(&self) -> int {
        self.entries().len() as int
    }

    /// The name of the tool at position `i`.
    pub open spec fn name_at(&self, i: int) -> Seq<char> {
        self.entries()[i].description.name@
    }

    /// The descriptions of the registered tools, in the order of registration.
    pub open spec fn descriptions(&self) -> Seq<ToolDescriptionView> {
        self.entries().map_values(|e: ToolEntry<T>| e.description@)
    }

    /// A tool is registered under `name`.
    pub open spec fn has_tool(&self, name: Seq<char>) -> bool {
        exists|i: int| 0 <= i < self.count() && #[trigger] self.name_at(i) == name
    }

    /// The position of the tool registered under `name`.
    pub open spec fn index_of(&self, name: Seq<char>) -> int {
        choose|i: int| 0 <= i < self.count() && #[trigger] self.name_at(i) == name
    }

    /// Every name is taken once, every tool may be called, and every
    /// description is one that its tool gave.
    pub open spec fn wf(&self) -> bool {
        &&& forall|i: int, j: int|
            0 <= i < j < self.count() ==> #[trigger] self.name_at(i) != #[trigger] self.name_at(j)
        &&& forall|i: int|
            0 <= i < self.count() ==> {
                let e = #[trigger] self.entries()[i];
                &&& e.tool.ready()
                &&& e.tool.described(e.description@)
                &&& e.description.input_format.wf()
                &&& e.description.output_format.wf()
            }
    }

    /// The empty registry.
    pub fn new() -> (r: Self)
        ensures
            r.wf(),
            r.count() == 0,
    {
        Toolbox { tools: Vec::new(), _marker: PhantomData }
    }

    /// The position of the tool registered under `name`.
    fn position(&self, name: &str) -> (r: Option<usize>)
        ensures
            r is Some <==> self.has_tool(name@),
            r matches Some(i) ==> i < self.count() && self.name_at(i as int) == name@,
    {
        let n: usize = self.tools.len();
        let mut i: usize = 0;
        while i < n
            invariant
                n == self.count(),
                i <= n,
                forall|k: int| 0 <= k < i ==> #[trigger] self.name_at(k) != name@,
            decreases n - i,
        {
            if same_text(self.tools[i].description.name.as_str(), name) {
                proof {
                    assert(self.name_at(i as int) == name@);
                }
                return Some(i);
            }
            i += 1;
        }
        None
    }

    /// Registers `tool` under the name that its description gives. A tool
    /// that was registered under that name before is replaced, in its place;
    /// otherwise the tool comes last.
    pub fn add_tool(&mut self, tool: T)
        requires
            old(self).wf(),
            tool.ready(),
        ensures
            final(self).wf(),
            exists|i: int|
                {
                    &&& 0 <= i < final(self).count()
                    &&& (#[trigger] final(self).entries()[i]).tool == tool
                    &&& tool.described(final(self).entries()[i].description@)
                    &&& if old(self).has_tool(final(self).name_at(i)) {
                        &&& i < old(self).count()
                        &&& old(self).name_at(i) == final(self).name_at(i)
                        &&& final(self).entries() == old(self).entries().update(
                            i,
                            final(self).entries()[i],
                        )
                    } else {
                        final(self).entries() == old(self).entries().push(final(self).entries()[i])
                    }
                },
    {
        let description = tool.description();
        let found = self.position(description.name.as_str());
        let ghost before = self.entries();
        let entry = ToolEntry { description, tool };
        match found {
            Some(i) => {
                self.tools.set(i, entry);
                proof {
                    assert(self.entries() == before.update(i as int, entry));
                    assert(self.entries()[i as int] == entry);
                    assert forall|k: int| 0 <= k < self.count() implies #[trigger] self.name_at(k)
                        == old(self).name_at(k) by {}
                }
            },
            None => {
                self.tools.push(entry);
                proof {
                    let i = before.len() as int;
                    assert(self.entries() == before.push(entry));
                    assert(self.entries()[i] == entry);
                    assert forall|k: int| 0 <= k < i implies #[trigger] self.name_at(k) == old(
                        self,
                    ).name_at(k) by {}
                }
            },
        }
    }

    /// Calls the tool registered under `name` with `message` and hands its
    /// reply on as it is. Where no tool has that name, nothing is called.
    pub fn invoke(&self, name: &str, message: &str) -> (r: Option<Result<String, E>>)
        requires
            self.wf(),
        ensures
            r is None <==> !self.has_tool(name@),
            r matches Some(x) ==> exists|inner: Result<String, Box<E>>| #[trigger]
                self.entries()[self.index_of(name@)].tool.replies(message@, inner) && unboxed(
                    inner,
                    x,
                ),
    {
        match self.position(name) {
            Some(i) => {
                let inner = self.tools[i].tool.call(message.to_owned());
                proof {
                    let k = self.index_of(name@);
                    if k < i {
                        assert(self.name_at(k) != self.name_at(i as int));
                    } else if i < k {
                        assert(self.name_at(i as int) != self.name_at(k));
                    }
                }
                Some(unbox(inner))
            },
            None => None,
        }
    }

    /// The descriptions of all registered tools as one YAML text, in the
    /// order of registration. It fails exactly where the YAML library
    /// returns an error for the descriptions.
    pub fn describe(&self) -> (r: Result<String, serde_yaml::Error>)
        requires
            self.wf(),
        ensures
            hands_on(r, yaml_text(descriptions_node(self.descriptions()))),
    {
        let mut ds: Vec<ToolDescription> = Vec::new();
        let n: usize = self.tools.len();
        let mut i: usize = 0;
        while i < n
            invariant
                self.wf(),
                n == self.count(),
                i <= n,
                ds@.len() == i,
                forall|k: int|
                    0 <= k < i ==> {
                        &&& (#[trigger] ds@[k])@ == self.entries()[k].description@
                        &&& ds@[k].input_format.wf()
                        &&& ds@[k].output_format.wf()
                    },
            decreases n - i,
        {
            proof {
                let e = self.entries()[i as int];
                assert(e.description.input_format.wf());
            }
            ds.push(self.tools[i].description.duplicate());
            i += 1;
        }
        proof {
            assert(ds@.map_values(|d: ToolDescription| d@) =~= self.descriptions());
        }
        descriptions_text(&ds)
    }
}

} // verus!
