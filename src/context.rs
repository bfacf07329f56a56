//! The state shared by every contributor of one documentation pass: the
//! table of named component schemas and the configuration.
use vstd::prelude::*;
use crate::openapi::{SchemaRef, SchemaView};

verus! {

/// What the schema resolver reports for one type: its component name, if
/// the type is named, its JSON schema as text, and its description.
#[derive(Clone, Debug, PartialEq, Eq)]
pub struct SchemaSource {
    pub name: Option<String>,
    pub schema: String,
    pub description: Option<String>,
}

/// A named component schema.
#[derive(Clone, Debug, PartialEq, Eq)]
pub struct Component {
    pub name: String,
    pub schema: String,
}

/// The generation context: component schemas by name, and the status
/// that stands for "no content".
#[derive(Clone, Debug)]
pub struct GenContext {
    pub components: Vec<Component>,
    pub no_content_status: u16,
}

pub struct GenContextView {
    pub components: Seq<(Seq<char>, Seq<char>)>,
    pub no_content_status: u16,
}

/// Whether a component of that name is in the table.
pub open spec fn has_component(cs: Seq<(Seq<char>, Seq<char>)>, name: Seq<char>) -> bool {
    exists|i: int| 0 <= i < cs.len() && (#[trigger] cs[i]).0 == name
}

/// Component names are unique.
pub open spec fn names_unique(cs: Seq<(Seq<char>, Seq<char>)>) -> bool {
    forall|i: int, j: int|
        0 <= i < cs.len() && 0 <= j < cs.len() && i != j ==> (#[trigger] cs[i]).0 != (#[trigger] cs[j]).0
}

/// The context after resolving `s`, and the reference to its schema: a named
/// schema is registered once and referred to by name; an unnamed one is
/// written out in place.
pub open spec fn schema_effect(c: GenContextView, s: SchemaSource) -> (GenContextView, SchemaView) {
    match s.name {
        Some(n) => {
            let c2 = if has_component(c.components, n@) {
                c
            } else {
                GenContextView { components: c.components.push((n@, s.schema@)), ..c }
            };
            (c2, SchemaView::Component(n@))
        },
        None => (c, SchemaView::Inline(s.schema@)),
    }
}

impl GenContext {
    pub open spec fn view(&self) -> GenContextView {
        GenContextView {
            components: self.components@.map_values(|c: Component| (c.name@, c.schema@)),
            no_content_status: self.no_content_status,
        }
    }

    pub open spec fn wf(&self) -> bool {
        names_unique(self@.components)
    }

    /// A context with no components.
    pub fn new(no_content_status: u16) -> (r: GenContext)
        ensures
            r.wf(),
            r@.components.len() == 0,
            r@.no_content_status == no_content_status,
    {
        GenContext { components: Vec::new(), no_content_status }
    }

    /// Whether no two components share a name.
    pub fn is_well_formed(&self) -> (r: bool)
        ensures
            r == self.wf(),
    {
        let n = self.components.len();
        let mut i: usize = 0;
        while i < n
            invariant
                n == self.components@.len(),
                i <= n,
                forall|a: int, b: int|
                    0 <= a < i && 0 <= b < n && a != b ==> (#[trigger] self@.components[a]).0
                        != (#[trigger] self@.components[b]).0,
            decreases n - i,
        {
            let mut j: usize = 0;
            while j < n
                invariant
                    n == self.components@.len(),
                    i < n,
                    j <= n,
                    forall|b: int| 0 <= b < j && b != i ==> self@.components[i as int].0 != (#[trigger] self@.components[b]).0,
                decreases n - j,
            {
                if j != i && self.components[i].name == self.components[j].name {
                    assert(self@.components[i as int].0 == self@.components[j as int].0);
                    return false;
                }
                j += 1;
            }
            i += 1;
        }
        true
    }

    /// The number of registered components.
    pub fn component_count(&self) -> (r: usize)
        ensures
            r == self@.components.len(),
    {
        self.components.len()
    }

    /// The position of the component called `name`, if there is one.
    fn find_component(&self, name: &String) -> (r: Option<usize>)
        ensures
            match r {
                Some(i) => i < self@.components.len() && self@.components[i as int].0 == name@,
                None => !has_component(self@.components, name@),
            },
    {
        let mut i: usize = 0;
        while i < self.components.len()
            invariant
                i <= self.components@.len(),
                forall|j: int| 0 <= j < i ==> (#[trigger] self@.components[j]).0 != name@,
            decreases self.components@.len() - i,
        {
            if self.components[i].name == *name {
                return Some(i);
            }
            i += 1;
        }
        None
    }

    /// The schema registered under `name`, if any.
    pub fn resolve(&self, name: &String) -> (r: Option<String>)
        requires
            self.wf(),
        ensures
            match r {
                Some(s) => exists|i: int|
                    0 <= i < self@.components.len() && self@.components[i] == (name@, s@),
                None => !has_component(self@.components, name@),
            },
    {
        match self.find_component(name) {
            Some(i) => Some(self.components[i].schema.clone()),
            None => None,
        }
    }

    /// Resolves the schema of a type, registering it as a component the first
    /// time a named type is seen.
    pub fn schema_for(&mut self, source: &SchemaSource) -> (r: SchemaRef)
        requires
            old(self).wf(),
        ensures
            final(self).wf(),
            (final(self)@, r@) == schema_effect(old(self)@, *source),
    {
        match &source.name {
            None => SchemaRef::Inline(source.schema.clone()),
            Some(n) => {
                if self.find_component(n).is_none() {
                    let ghost before = self@.components;
                    self.components.push(Component { name: n.clone(), schema: source.schema.clone() });
                    assert(self@.components =~= before.push((n@, source.schema@)));
                }
                SchemaRef::Component(n.clone())
            },
        }
    }
}

/// Resolving the same type twice gives the same reference, and the second
/// resolution leaves the component table as the first left it.
pub proof fn lemma_schema_for_idempotent(c: GenContextView, s: SchemaSource)
    ensures
        schema_effect(schema_effect(c, s).0, s).1 == schema_effect(c, s).1,
        schema_effect(schema_effect(c, s).0, s).0 == schema_effect(c, s).0,
{
    if let Some(n) = s.name {
        let c1 = schema_effect(c, s).0;
        if !has_component(c.components, n@) {
            assert(c1.components[c.components.len() as int].0 == n@);
        }
        assert(has_component(c1.components, n@));
    }
}

} // verus!
