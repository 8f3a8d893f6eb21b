//! Metadata shared by the two observation resources: the stable name under
//! which a resource is upserted, and the namespace it lives in.

use vstd::prelude::*;

verus! {

/// Object metadata of a namespaced resource.
#[derive(Clone, Debug)]
pub struct ResourceMeta {
    pub name: Option<String>,
    pub namespace: Option<String>,
}

impl ResourceMeta {
    /// Builds metadata from a resource name and a namespace.
    pub fn new(name: String, namespace: String) -> (r: ResourceMeta)
        ensures
            r.name == Some(name),
            r.namespace == Some(namespace),
    {
        ResourceMeta { name: Some(name), namespace: Some(namespace) }
    }

    /// The name, or the empty string where none is set; mirrors how a
    /// resource read back from the store is validated.
    pub fn name_or_empty(&self) -> (r: &str)
        ensures
            match self.name {
                Some(n) => r@ == n@,
                None => r@ == Seq::<char>::empty(),
            },
    {
        proof {
            reveal_strlit("");
            assert(""@ =~= Seq::<char>::empty());
        }
        match &self.name {
            Some(n) => n.as_str(),
            None => "",
        }
    }
}

} // verus!
