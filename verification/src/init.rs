//! A concrete typed pipeline specification: a list of named, typed vertex
//! attributes the caller requires, linked by name against a program's
//! reflected interface.

use vstd::prelude::*;

use crate::pso::{AttributeDesc, Descriptor, InitError, PipelineInit};
use crate::resources::{AttributeVarView, Format, ProgramInfo};

verus! {

/// One vertex attribute a typed specification requires: the shader input
/// name it must bind to, and the data format the caller will supply.
#[derive(Clone, PartialEq, Debug)]
pub struct VertexImport {
    pub name: String,
    pub format: Format,
}

/// The mathematical value of a [`VertexImport`].
pub struct VertexImportView {
    pub name: Seq<char>,
    pub format: Format,
}

impl View for VertexImport {
    type V = VertexImportView;

    open spec fn view(&self) -> VertexImportView {
        VertexImportView { name: self.name@, format: self.format }
    }
}

/// A typed pipeline specification: the vertex attributes the pipeline
/// requires, in binding order.
#[derive(Clone, PartialEq, Debug)]
pub struct SimpleInit {
    pub imports: Vec<VertexImport>,
}

/// Binding metadata produced by linking a [`SimpleInit`]: the resolved
/// descriptor slot of each import, in the specification's order.
#[derive(Clone, PartialEq, Debug)]
pub struct SimpleMeta {
    pub slots: Vec<u8>,
}

impl View for SimpleMeta {
    type V = Seq<u8>;

    open spec fn view(&self) -> Seq<u8> {
        self.slots@
    }
}

/// The first reflected attribute bearing the given name, if any.
pub open spec fn find_attribute(attributes: Seq<AttributeVarView>, name: Seq<char>) -> Option<
    AttributeVarView,
>
    decreases attributes.len(),
{
    if attributes.len() == 0 {
        None
    } else if attributes[0].name == name {
        Some(attributes[0])
    } else {
        find_attribute(attributes.drop_first(), name)
    }
}

/// When no reflected attribute bears the name, nothing is found.
pub proof fn lemma_find_attribute_none(attributes: Seq<AttributeVarView>, name: Seq<char>)
    requires
        forall|k: int| 0 <= k < attributes.len() ==> attributes[k].name != name,
    ensures
        find_attribute(attributes, name) is None,
    decreases attributes.len(),
{
    if attributes.len() > 0 {
        assert(forall|k: int|
            0 <= k < attributes.drop_first().len() ==> attributes.drop_first()[k] == attributes[k
                + 1]);
        lemma_find_attribute_none(attributes.drop_first(), name);
    }
}

/// When position `j` bears the name and no earlier position does, the search
/// finds exactly the attribute at `j`.
pub proof fn lemma_find_attribute_found(
    attributes: Seq<AttributeVarView>,
    name: Seq<char>,
    j: int,
)
    requires
        0 <= j < attributes.len(),
        attributes[j].name == name,
        forall|k: int| 0 <= k < j ==> attributes[k].name != name,
    ensures
        find_attribute(attributes, name) == Some(attributes[j]),
    decreases j,
{
    if j > 0 {
        assert(forall|k: int|
            0 <= k < attributes.drop_first().len() ==> attributes.drop_first()[k] == attributes[k
                + 1]);
        lemma_find_attribute_found(attributes.drop_first(), name, j - 1);
    }
}

impl SimpleInit {
    /// Resolution of the imports from position `i` on against the reflected
    /// attributes: the slots they bind to, in order, or the first name or
    /// format mismatch found.
    pub open spec fn resolve_from(&self, attributes: Seq<AttributeVarView>, i: int) -> Result<
        Seq<AttributeDesc>,
        InitError,
    >
        decreases self.imports@.len() - i,
    {
        if i < 0 || i >= self.imports@.len() {
            Ok(Seq::empty())
        } else {
            let imp = self.imports@[i];
            match find_attribute(attributes, imp@.name) {
                None => Err(InitError::Missing(imp.name)),
                Some(var) => if var.format != imp@.format {
                    Err(InitError::Mismatch(imp.name))
                } else {
                    match self.resolve_from(attributes, i + 1) {
                        Err(e) => Err(e),
                        Ok(rest) => Ok(
                            seq![AttributeDesc { slot: var.slot, format: var.format }] + rest,
                        ),
                    }
                },
            }
        }
    }
}

/// An error at or after position `i` makes the whole resolution fail: no
/// earlier position can turn it into a success.
pub proof fn lemma_resolve_err_propagates(
    init: SimpleInit,
    attributes: Seq<AttributeVarView>,
    j: int,
    i: int,
)
    requires
        0 <= j <= i < init.imports@.len(),
        init.resolve_from(attributes, i) is Err,
    ensures
        init.resolve_from(attributes, j) is Err,
    decreases i - j,
{
    if j < i {
        lemma_resolve_err_propagates(init, attributes, j + 1, i);
    }
}

/// A specification that references an attribute name absent from the
/// program's reflected interface cannot link: the outcome is an error.
pub proof fn lemma_missing_import_fails(
    init: SimpleInit,
    attributes: Seq<AttributeVarView>,
    i: int,
)
    requires
        0 <= i < init.imports@.len(),
        forall|k: int| 0 <= k < attributes.len() ==> attributes[k].name != init.imports@[i]@.name,
    ensures
        init.link_outcome(attributes) is Err,
{
    lemma_find_attribute_none(attributes, init.imports@[i]@.name);
    lemma_resolve_err_propagates(init, attributes, 0, i);
}

/// The position of the first reflected attribute bearing `name`, searching in
/// slot order.
fn find_attribute_index(info: &ProgramInfo, name: &String) -> (r: Option<usize>)
    ensures
        match r {
            Some(j) => {
                &&& j < info.attributes@.len()
                &&& find_attribute(info@, name@) == Some(info@[j as int])
            },
            None => find_attribute(info@, name@) is None,
        },
{
    let mut j: usize = 0;
    while j < info.attributes.len()
        invariant
            j <= info.attributes@.len(),
            forall|k: int| 0 <= k < j ==> info@[k].name != name@,
        decreases info.attributes@.len() - j,
    {
        if info.attributes[j].name == *name {
            proof {
                lemma_find_attribute_found(info@, name@, j as int);
            }
            return Some(j);
        }
        j += 1;
    }
    proof {
        lemma_find_attribute_none(info@, name@);
    }
    None
}

impl PipelineInit for SimpleInit {
    type Meta = SimpleMeta;

    /// The resolved slot of each import in order, or the first mismatch.
    open spec fn link_outcome(&self, attributes: Seq<AttributeVarView>) -> Result<
        Seq<u8>,
        InitError,
    > {
        match self.resolve_from(attributes, 0) {
            Ok(descs) => Ok(descs.map_values(|d: AttributeDesc| d.slot)),
            Err(e) => Err(e),
        }
    }

    /// The attribute slots a successful link fills, in the specification's
    /// order.
    open spec fn linked_attributes(&self, attributes: Seq<AttributeVarView>) -> Seq<
        AttributeDesc,
    > {
        match self.resolve_from(attributes, 0) {
            Ok(descs) => descs,
            Err(_) => Seq::empty(),
        }
    }

    fn link_to(&self, descriptor: &mut Descriptor, info: &ProgramInfo) -> (r: Result<
        SimpleMeta,
        InitError,
    >) {
        let mut slots: Vec<u8> = Vec::new();
        let mut descs: Vec<AttributeDesc> = Vec::new();
        let n = self.imports.len();
        proof {
            if self.resolve_from(info@, 0) is Ok {
                assert(descs@ + self.resolve_from(info@, 0)->Ok_0 =~= self.resolve_from(
                    info@,
                    0,
                )->Ok_0);
            }
        }
        for i in 0..n
            invariant
                n == self.imports@.len(),
                self.resolve_from(info@, 0) == (match self.resolve_from(info@, i as int) {
                    Ok(rest) => Ok::<Seq<AttributeDesc>, InitError>(descs@ + rest),
                    Err(e) => Err::<Seq<AttributeDesc>, InitError>(e),
                }),
                slots@.len() == descs@.len(),
                forall|k: int| 0 <= k < descs@.len() ==> slots@[k] == descs@[k].slot,
        {
            let imp = &self.imports[i];
            let var_index = match find_attribute_index(info, &imp.name) {
                Some(j) => j,
                None => { return Err(InitError::Missing(imp.name.clone())); },
            };
            let var = &info.attributes[var_index];
            if var.format != imp.format {
                return Err(InitError::Mismatch(imp.name.clone()));
            }
            let ghost descs_old = descs@;
            slots.push(var.slot);
            descs.push(AttributeDesc { slot: var.slot, format: var.format });
            proof {
                let d = AttributeDesc {
                    slot: info@[var_index as int].slot,
                    format: info@[var_index as int].format,
                };
                assert(descs@ =~= descs_old + seq![d]);
                if self.resolve_from(info@, i + 1) is Ok {
                    let rest = self.resolve_from(info@, i + 1)->Ok_0;
                    assert(descs_old + (seq![d] + rest) =~= (descs_old + seq![d]) + rest);
                }
            }
        }
        let meta = SimpleMeta { slots };
        proof {
            assert(descs@ + Seq::<AttributeDesc>::empty() =~= descs@);
            assert(meta@ =~= descs@.map_values(|d: AttributeDesc| d.slot));
        }
        descriptor.attributes.append(&mut descs);
        Ok(meta)
    }
}

} // verus!
