//! The class registry: an append-only table from discriminant string to a
//! registered type identity, fully populated at startup and consulted by
//! callers of the open strategy to confirm that a discriminant is known.
use vstd::prelude::*;

verus! {

/// What a discriminant resolves to in a table of registrations: the
/// identity registered first for it, if any.
pub open spec fn reg_lookup(es: Seq<(String, String)>, k: Seq<char>) -> Option<String>
    decreases es.len(),
{
    if es.len() == 0 {
        None
    } else {
        match reg_lookup(es.drop_last(), k) {
            Some(v) => Some(v),
            None => if es.last().0@ == k {
                Some(es.last().1)
            } else {
                None
            },
        }
    }
}

/// A resolution found in a prefix of the registrations stands for the whole
/// table: registration is append-only and the first one wins.
pub proof fn lemma_reg_extend(es: Seq<(String, String)>, n: int, k: Seq<char>)
    requires
        0 <= n <= es.len(),
        reg_lookup(es.subrange(0, n), k) is Some,
    ensures
        reg_lookup(es, k) == reg_lookup(es.subrange(0, n), k),
    decreases es.len(),
{
    if n == es.len() {
        assert(es.subrange(0, n) =~= es);
    } else {
        let g = es.drop_last();
        assert(g.subrange(0, n) =~= es.subrange(0, n));
        lemma_reg_extend(g, n, k);
    }
}

/// The process-wide table mapping a discriminant string to a type identity.
pub struct ClassRegistry {
    entries: Vec<(String, String)>,
}

impl View for ClassRegistry {
    type V = Seq<(String, String)>;

    closed spec fn view(&self) -> Seq<(String, String)> {
        self.entries@
    }
}

impl ClassRegistry {
    /// An empty registry.
    pub fn new() -> (r: ClassRegistry)
        ensures
            r@ == Seq::<(String, String)>::empty(),
    {
        ClassRegistry { entries: Vec::new() }
    }

    /// Append one registration. Later registrations of the same
    /// discriminant never shadow the first.
    pub fn register(&mut self, discriminant: String, identity: String)
        ensures
            final(self)@ == old(self)@.push((discriminant, identity)),
    {
        self.entries.push((discriminant, identity));
    }

    /// Resolve a discriminant: the identity registered first for it, empty
    /// if the discriminant is unrecognized — which is not an error by
    /// itself.
    #[verifier::loop_isolation(false)]
    pub fn lookup(&self, discriminant: &str) -> (r: Option<&String>)
        ensures
            r matches Some(v) ==> reg_lookup(self@, discriminant@) == Some(*v),
            r is None ==> reg_lookup(self@, discriminant@) is None,
    {
        let mut i: usize = 0;
        while i < self.entries.len()
            invariant
                i <= self.entries.len(),
                reg_lookup(self@.subrange(0, i as int), discriminant@) is None,
            decreases self.entries.len() - i,
        {
            if crate::value::str_eq(self.entries[i].0.as_str(), discriminant) {
                proof {
                    let sub = self@.subrange(0, i as int + 1);
                    assert(sub.drop_last() =~= self@.subrange(0, i as int));
                    assert(sub.last() == self@[i as int]);
                    assert(reg_lookup(sub, discriminant@) == Some(self@[i as int].1));
                    lemma_reg_extend(self@, i as int + 1, discriminant@);
                }
                return Some(&self.entries[i].1);
            }
            proof {
                let sub = self@.subrange(0, i as int + 1);
                assert(sub.drop_last() =~= self@.subrange(0, i as int));
                assert(sub.last() == self@[i as int]);
            }
            i = i + 1;
        }
        proof {
            assert(self@.subrange(0, self@.len() as int) =~= self@);
        }
        None
    }
}

/// Law: registering a discriminant that already resolves to the same
/// identity changes no resolution — registration is idempotent in effect.
pub proof fn lemma_register_idempotent(es: Seq<(String, String)>, e: (String, String))
    requires
        reg_lookup(es, e.0@) == Some(e.1),
    ensures
        forall|k: Seq<char>| #[trigger] reg_lookup(es.push(e), k) == reg_lookup(es, k),
{
    assert forall|k: Seq<char>| #[trigger] reg_lookup(es.push(e), k) == reg_lookup(es, k) by {
        assert(es.push(e).drop_last() =~= es);
        assert(es.push(e).last() == e);
    }
}

/// Law: the order of two registrations with different discriminants does
/// not matter to any resolution.
pub proof fn lemma_register_commute(
    es: Seq<(String, String)>,
    e1: (String, String),
    e2: (String, String),
)
    requires
        e1.0@ != e2.0@,
    ensures
        forall|k: Seq<char>|
            #[trigger] reg_lookup(es.push(e1).push(e2), k) == reg_lookup(es.push(e2).push(e1), k),
{
    assert forall|k: Seq<char>|
        #[trigger] reg_lookup(es.push(e1).push(e2), k) == reg_lookup(es.push(e2).push(e1), k) by {
        reveal_with_fuel(reg_lookup, 3);
        assert(es.push(e1).push(e2).drop_last() =~= es.push(e1));
        assert(es.push(e2).push(e1).drop_last() =~= es.push(e2));
        assert(es.push(e1).drop_last() =~= es);
        assert(es.push(e2).drop_last() =~= es);
        assert(es.push(e1).push(e2).last() == e2);
        assert(es.push(e2).push(e1).last() == e1);
        assert(es.push(e1).last() == e1);
        assert(es.push(e2).last() == e2);
    }
}

/// The registry a process populates at startup for the known build shapes.
pub fn default_build_registry() -> (r: ClassRegistry)
    ensures
        r@.len() == 6,
        r@[0].0@ == "hudson.model.FreeStyleBuild"@ && r@[0].1@ == "FreeStyleBuild"@,
        r@[1].0@ == "org.jenkinsci.plugins.workflow.job.WorkflowRun"@ && r@[1].1@
            == "WorkflowRun"@,
        r@[2].0@ == "hudson.matrix.MatrixBuild"@ && r@[2].1@ == "MatrixBuild"@,
        r@[3].0@ == "hudson.matrix.MatrixRun"@ && r@[3].1@ == "MatrixRun"@,
        r@[4].0@ == "hudson.maven.MavenModuleSetBuild"@ && r@[4].1@ == "MavenModuleSetBuild"@,
        r@[5].0@ == "hudson.maven.MavenBuild"@ && r@[5].1@ == "MavenBuild"@,
{
    let mut r = ClassRegistry::new();
    r.register("hudson.model.FreeStyleBuild".to_owned(), "FreeStyleBuild".to_owned());
    r.register(
        "org.jenkinsci.plugins.workflow.job.WorkflowRun".to_owned(),
        "WorkflowRun".to_owned(),
    );
    r.register("hudson.matrix.MatrixBuild".to_owned(), "MatrixBuild".to_owned());
    r.register("hudson.matrix.MatrixRun".to_owned(), "MatrixRun".to_owned());
    r.register("hudson.maven.MavenModuleSetBuild".to_owned(), "MavenModuleSetBuild".to_owned());
    r.register("hudson.maven.MavenBuild".to_owned(), "MavenBuild".to_owned());
    r
}

} // verus!
