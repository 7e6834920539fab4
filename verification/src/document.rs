//! A plain-value model of the parts of a parsed GraphQL document that the
//! middleware reads: per operation, whether it is a `query`, and the names of
//! its top-level field selections.  The caller that owns the real parsed
//! document converts it to this model before asking about introspection.

use vstd::prelude::*;

verus! {

/// One selection at the top level of an operation's selection set.  Only
/// field selections matter here; fragment spreads and inline fragments are
/// grouped under `Other`.
#[derive(Clone, Debug)]
pub enum SelectionModel {
    Field { name: String },
    Other,
}

/// One operation of a parsed document.
#[derive(Clone, Debug)]
pub struct OperationModel {
    /// True for a `query` operation, false for mutations and subscriptions.
    pub is_query: bool,
    /// The operation's top-level selections, in document order.
    pub selections: Vec<SelectionModel>,
}

/// The parts of a successfully parsed document that the middleware reads.
#[derive(Clone, Debug)]
pub struct DocumentModel {
    pub operations: Vec<OperationModel>,
}

/// Whether a selection is a field selection named exactly `__schema`.
pub open spec fn is_schema_field(s: SelectionModel) -> bool {
    s matches SelectionModel::Field { name } && name@ == "__schema"@
}

/// Whether an operation is a `query` that selects the introspection root
/// field at its top level.
pub open spec fn operation_requests_schema(op: OperationModel) -> bool {
    op.is_query && exists|i: int|
        0 <= i < op.selections@.len() && is_schema_field(#[trigger] op.selections@[i])
}

/// Whether any operation of the document asks the schema about itself.
pub open spec fn document_is_schema(d: DocumentModel) -> bool {
    exists|i: int|
        0 <= i < d.operations@.len() && operation_requests_schema(#[trigger] d.operations@[i])
}

impl OperationModel {
    /// Whether this operation is a `query` whose top level selects
    /// `__schema`.
    pub fn requests_schema(&self) -> (b: bool)
        ensures
            b == operation_requests_schema(*self),
    {
        if !self.is_query {
            return false;
        }
        let root_field = String::from_str("__schema");
        let mut j: usize = 0;
        while j < self.selections.len()
            invariant
                j <= self.selections@.len(),
                self.is_query,
                root_field@ == "__schema"@,
                forall|k: int| 0 <= k < j ==> !is_schema_field(#[trigger] self.selections@[k]),
            decreases self.selections@.len() - j,
        {
            match &self.selections[j] {
                SelectionModel::Field { name } => {
                    if *name == root_field {
                        return true;
                    }
                },
                SelectionModel::Other => {},
            }
            j += 1;
        }
        false
    }
}

impl DocumentModel {
    /// Whether any `query` operation of the document selects the
    /// introspection root field at its top level.
    pub fn is_schema_query(&self) -> (b: bool)
        ensures
            b == document_is_schema(*self),
    {
        let mut i: usize = 0;
        while i < self.operations.len()
            invariant
                i <= self.operations@.len(),
                forall|k: int|
                    0 <= k < i ==> !operation_requests_schema(#[trigger] self.operations@[k]),
            decreases self.operations@.len() - i,
        {
            if self.operations[i].requests_schema() {
                return true;
            }
            i += 1;
        }
        false
    }
}

} // verus!
