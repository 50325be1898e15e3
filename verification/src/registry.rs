//! The capability catalog: an immutable list of registered tools, validated
//! at load time (unique names) and served read-only for the process lifetime.

use vstd::prelude::*;

verus! {

/// One registered capability: its unique name, the description shown to the
/// planner, where its sandboxed artifact lives, which exported function the
/// sandbox must call, and the schema (as text) of its invocation arguments.
pub struct ToolRecord {
    pub name: String,
    pub description: String,
    pub binary_path: String,
    pub handler: String,
    pub parameters: String,
}

/// Why a catalog source was rejected at startup.
#[derive(Debug, PartialEq, Eq, Structural)]
pub enum CatalogError {
    /// The source could not be read at all.
    SourceUnreadable,
    /// The source did not describe a valid catalog (including a duplicated
    /// capability name, which would break the catalog's key invariant).
    ParseFailed,
}

/// Some record in `records` carries `name`.
pub open spec fn has_name(records: Seq<ToolRecord>, name: Seq<char>) -> bool {
    exists|i: int| 0 <= i < records.len() && records[i].name@ == name
}

/// No two records share a name: the catalog's key invariant.
pub open spec fn names_unique(records: Seq<ToolRecord>) -> bool {
    forall|i: int, j: int|
        0 <= i < j < records.len() ==> records[i].name@ != records[j].name@
}

/// The catalog of all known capabilities. Built once at startup and never
/// mutated afterwards; concurrent requests share it read-only.
pub struct Registry {
    records: Vec<ToolRecord>,
}

impl Registry {
    /// The registered records, in registration order.
    pub closed spec fn spec_records(&self) -> Seq<ToolRecord> {
        self.records@
    }

    /// Catalog well-formedness: names are unique.
    pub open spec fn wf(&self) -> bool {
        names_unique(self.spec_records())
    }

    /// Validate a parsed catalog source and publish it as the immutable
    /// catalog. Loading succeeds exactly when no capability name is
    /// duplicated; a duplicate rejects the whole source.
    pub fn load(records: Vec<ToolRecord>) -> (r: Result<Registry, CatalogError>)
        ensures
            r is Ok <==> names_unique(records@),
            r matches Ok(reg) ==> reg.spec_records() == records@ && reg.wf(),
            r matches Err(e) ==> e == CatalogError::ParseFailed,
    {
        let n = records.len();
        let mut i: usize = 0;
        while i < n
            invariant
                n == records@.len(),
                i <= n,
                forall|p: int, q: int|
                    0 <= p < i && p < q < n ==> records@[p].name@ != records@[q].name@,
            decreases n - i,
        {
            let mut j: usize = i + 1;
            while j < n
                invariant
                    n == records@.len(),
                    i < j <= n,
                    forall|q: int| i < q < j ==> records@[i as int].name@ != records@[q].name@,
                decreases n - j,
            {
                if records[i].name == records[j].name {
                    return Err(CatalogError::ParseFailed);
                }
                j = j + 1;
            }
            i = i + 1;
        }
        Ok(Registry { records })
    }

    /// How many capabilities are registered.
    pub fn len(&self) -> (n: usize)
        ensures
            n == self.spec_records().len(),
    {
        self.records.len()
    }

    /// The record at a registration position, for walking the catalog.
    pub fn record_at(&self, i: usize) -> (rec: &ToolRecord)
        requires
            i < self.spec_records().len(),
        ensures
            *rec == self.spec_records()[i as int],
    {
        &self.records[i]
    }

    /// Resolve a capability name by exact string match. Returns a registered
    /// record carrying the name if there is one, and `None` otherwise; on a
    /// well-formed catalog the returned record is the unique one registered
    /// under that name.
    pub fn lookup<'a>(&'a self, name: &String) -> (r: Option<&'a ToolRecord>)
        ensures
            r is Some <==> has_name(self.spec_records(), name@),
            r matches Some(rec) ==> rec.name@ == name@ && exists|i: int|
                0 <= i < self.spec_records().len() && self.spec_records()[i] == *rec,
            self.wf() ==> (r matches Some(rec) ==> forall|i: int|
                0 <= i < self.spec_records().len() && self.spec_records()[i].name@ == name@
                    ==> self.spec_records()[i] == *rec),
    {
        let n = self.records.len();
        let mut i: usize = 0;
        while i < n
            invariant
                n == self.spec_records().len(),
                i <= n,
                forall|q: int| 0 <= q < i ==> self.spec_records()[q].name@ != name@,
            decreases n - i,
        {
            if self.records[i].name == *name {
                return Some(&self.records[i]);
            }
            i = i + 1;
        }
        None
    }
}

/// On a loaded (hence well-formed) catalog every registered name resolves,
/// and resolves to exactly the record registered under it: any record that
/// carries the name of the record at position `i` is that record itself.
pub proof fn lemma_registered_name_resolves(reg: Registry, i: int)
    requires
        reg.wf(),
        0 <= i < reg.spec_records().len(),
    ensures
        has_name(reg.spec_records(), reg.spec_records()[i].name@),
        forall|j: int|
            0 <= j < reg.spec_records().len()
                && reg.spec_records()[j].name@ == reg.spec_records()[i].name@
                ==> reg.spec_records()[j] == reg.spec_records()[i],
{
    assert forall|j: int|
        0 <= j < reg.spec_records().len()
            && reg.spec_records()[j].name@ == reg.spec_records()[i].name@
            implies reg.spec_records()[j] == reg.spec_records()[i] by {
        if j < i {
            assert(reg.spec_records()[j].name@ != reg.spec_records()[i].name@);
        } else if i < j {
            assert(reg.spec_records()[i].name@ != reg.spec_records()[j].name@);
        }
    }
}

} // verus!
