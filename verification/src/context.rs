use vstd::prelude::*;

use crate::udf::{fixed_float64_signature, ScalarFunctionSpec};

verus! {

broadcast use vstd::string::group_string_axioms;

/// Appending a name to a name sequence adds exactly that name to the set of
/// names the sequence holds.
proof fn lemma_push_updates_name_set(s: Seq<Seq<char>>, x: Seq<char>)
    ensures
        s.push(x).to_set() == s.to_set().insert(x),
{
    assert forall|y: Seq<char>| s.push(x).to_set().contains(y) implies s.to_set().insert(
        x,
    ).contains(y) by {
        let i = choose|i: int| 0 <= i < s.push(x).len() && s.push(x)[i] == y;
        if i < s.len() {
            assert(s[i] == y);
        }
    }
    assert forall|y: Seq<char>| s.to_set().insert(x).contains(y) implies s.push(x).to_set().contains(
        y,
    ) by {
        if s.to_set().contains(y) {
            let i = choose|i: int| 0 <= i < s.len() && s[i] == y;
            assert(s.push(x)[i] == y);
        } else {
            assert(s.push(x)[s.len() as int] == x);
        }
    }
    assert(s.push(x).to_set() =~= s.to_set().insert(x));
}

/// The registration state of one execution context: the names of the
/// registered tables and the registry of bridged scalar functions.
///
/// The engine that plans and executes queries against these registrations
/// is an external collaborator; unverified glue code keeps the engine's own
/// catalog in step with this record, which is the authority for what
/// `tables` reports. A context is exclusively owned by one caller at a
/// time; registrations are not safe to issue concurrently.
#[derive(Debug)]
pub struct ExecutionContext {
    pub tables: Vec<String>,
    pub udfs: Vec<ScalarFunctionSpec>,
}

impl ExecutionContext {
    /// Each table name and each function name is registered at most once,
    /// and every registry entry carries the fixed scalar-function
    /// signature.
    pub open spec fn wf(&self) -> bool {
        (forall|i: int, j: int|
            0 <= i < j < self.tables@.len() ==> (#[trigger] self.tables@[i])@ != (
            #[trigger] self.tables@[j])@) && (forall|i: int, j: int|
            0 <= i < j < self.udfs@.len() ==> (#[trigger] self.udfs@[i]).name@ != (
            #[trigger] self.udfs@[j]).name@) && (forall|i: int|
            0 <= i < self.udfs@.len() ==> (#[trigger] self.udfs@[i]).has_fixed_signature())
    }

    /// The set of registered table names.
    pub open spec fn table_set(&self) -> Set<Seq<char>> {
        self.tables@.map_values(|s: String| s@).to_set()
    }

    /// The set of registered scalar-function names.
    pub open spec fn udf_names(&self) -> Set<Seq<char>> {
        self.udfs@.map_values(|s: ScalarFunctionSpec| s.name@).to_set()
    }

    /// A fresh context has no tables and no functions registered.
    pub fn new() -> (ctx: Self)
        ensures
            ctx.wf(),
            ctx.tables@.len() == 0,
            ctx.udfs@.len() == 0,
    {
        ExecutionContext { tables: Vec::new(), udfs: Vec::new() }
    }

    /// Index of the registered table with this name, if any.
    fn find_table(&self, name: &String) -> (r: Option<usize>)
        ensures
            match r {
                Some(i) => i < self.tables@.len() && self.tables@[i as int]@ == name@,
                None => forall|i: int| 0 <= i < self.tables@.len() ==> (#[trigger] self.tables@[i])@ != name@,
            },
    {
        let mut j: usize = 0;
        while j < self.tables.len()
            invariant
                j <= self.tables@.len(),
                forall|i: int| 0 <= i < j ==> (#[trigger] self.tables@[i])@ != name@,
            decreases self.tables@.len() - j,
        {
            let s = &self.tables[j];
            if s.eq(name) {
                return Some(j);
            }
            j += 1;
        }
        None
    }

    /// Record the registration of a table under `name` (the engine's own
    /// ingestion of the backing file is the external collaborator's work).
    ///
    /// Re-registering an already registered name replaces that
    /// registration: the set of table names afterwards is exactly the set
    /// before with `name` added, whether or not it was already present.
    pub fn register_parquet(&mut self, name: &str)
        requires
            old(self).wf(),
        ensures
            final(self).wf(),
            final(self).table_set() == old(self).table_set().insert(name@),
            final(self).udfs@ == old(self).udfs@,
    {
        let owned: String = name.to_string();
        match self.find_table(&owned) {
            Some(_) => {
                proof {
                    let m = self.tables@.map_values(|s: String| s@);
                    assert(m.contains(name@)) by {
                        let i = choose|i: int|
                            0 <= i < self.tables@.len() && self.tables@[i]@ == name@;
                        assert(m[i] == name@);
                    }
                    assert(self.table_set() =~= old(self).table_set().insert(name@));
                }
            },
            None => {
                let ghost pre = self.tables@;
                self.tables.push(owned);
                proof {
                    let m_old = pre.map_values(|s: String| s@);
                    let m_new = self.tables@.map_values(|s: String| s@);
                    assert(m_new =~= m_old.push(name@));
                    lemma_push_updates_name_set(m_old, name@);
                }
            },
        }
    }

    /// The registered table names, one entry per name.
    pub fn tables(&self) -> (r: Vec<String>)
        ensures
            r@ == self.tables@,
            r@.map_values(|s: String| s@).to_set() == self.table_set(),
    {
        let mut r: Vec<String> = Vec::new();
        let mut j: usize = 0;
        while j < self.tables.len()
            invariant
                j <= self.tables@.len(),
                r@ == self.tables@.subrange(0, j as int),
            decreases self.tables@.len() - j,
        {
            let s = &self.tables[j];
            r.push(s.clone());
            j += 1;
        }
        proof {
            assert(r@ =~= self.tables@);
        }
        r
    }

    /// Index of the registered scalar function with this name, if any.
    fn find_udf(&self, name: &String) -> (r: Option<usize>)
        ensures
            match r {
                Some(i) => i < self.udfs@.len() && self.udfs@[i as int].name@ == name@,
                None => forall|i: int|
                    0 <= i < self.udfs@.len() ==> (#[trigger] self.udfs@[i]).name@ != name@,
            },
    {
        let mut j: usize = 0;
        while j < self.udfs.len()
            invariant
                j <= self.udfs@.len(),
                forall|i: int| 0 <= i < j ==> (#[trigger] self.udfs@[i]).name@ != name@,
            decreases self.udfs@.len() - j,
        {
            let s = &self.udfs[j].name;
            if s.eq(name) {
                return Some(j);
            }
            j += 1;
        }
        None
    }

    /// Store a scalar function under `name` in the function registry, with
    /// the fixed signature (one nullable 64-bit floating-point field "n" in,
    /// 64-bit floating-point out). The callable bound to the name is held by
    /// the unverified glue that drives `invoke`; it is not validated here.
    ///
    /// Re-registering an already registered name replaces that entry.
    pub fn register_udf(&mut self, name: &str)
        requires
            old(self).wf(),
        ensures
            final(self).wf(),
            final(self).udf_names() == old(self).udf_names().insert(name@),
            final(self).tables@ == old(self).tables@,
    {
        let owned: String = name.to_string();
        match self.find_udf(&owned) {
            Some(_) => {
                proof {
                    let m = self.udfs@.map_values(|s: ScalarFunctionSpec| s.name@);
                    assert(m.contains(name@)) by {
                        let i = choose|i: int|
                            0 <= i < self.udfs@.len() && self.udfs@[i].name@ == name@;
                        assert(m[i] == name@);
                    }
                    assert(self.udf_names() =~= old(self).udf_names().insert(name@));
                }
            },
            None => {
                let ghost pre = self.udfs@;
                let entry = fixed_float64_signature(owned);
                self.udfs.push(entry);
                proof {
                    let m_old = pre.map_values(|s: ScalarFunctionSpec| s.name@);
                    let m_new = self.udfs@.map_values(|s: ScalarFunctionSpec| s.name@);
                    assert(m_new =~= m_old.push(name@));
                    lemma_push_updates_name_set(m_old, name@);
                }
            },
        }
    }
}

/// Law: registering a table changes the reported name set by exactly that
/// one name. After a registration that took the set from `before` to
/// `after`, the reported set contains the new name, still contains every
/// previously registered name, and contains nothing else.
pub proof fn lemma_registration_reports_exactly(
    before: Set<Seq<char>>,
    after: Set<Seq<char>>,
    name: Seq<char>,
)
    requires
        after == before.insert(name),
    ensures
        after.contains(name),
        forall|t: Seq<char>| before.contains(t) ==> after.contains(t),
        forall|t: Seq<char>| #[trigger] after.contains(t) ==> before.contains(t) || t == name,
{
}

} // verus!
