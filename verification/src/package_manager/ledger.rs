//! The ledger of what the GitHub connector has installed: one record per
//! package. It is the connector's only lasting state; the caller loads it
//! before an operation and writes it back whole after one that changed it.

use crate::text::str_eq;
use vstd::prelude::*;

verus! {

/// What was installed for one package.
#[derive(Debug, Clone)]
pub struct InstalledPackage {
    /// The installed version.
    pub version: String,
    /// The connector that installed it.
    pub source: String,
    /// The directory that holds the package's files.
    pub install_path: String,
    /// The links that were published for its executables.
    pub symlinks: Vec<String>,
}

/// What an `InstalledPackage` denotes.
pub struct InstalledPackageView {
    pub version: Seq<char>,
    pub source: Seq<char>,
    pub install_path: Seq<char>,
    pub symlinks: Seq<Seq<char>>,
}

impl View for InstalledPackage {
    type V = InstalledPackageView;

    open spec fn view(&self) -> InstalledPackageView {
        InstalledPackageView {
            version: self.version@,
            source: self.source@,
            install_path: self.install_path@,
            symlinks: self.symlinks.deep_view(),
        }
    }
}

/// One line of the ledger: a package and what was installed for it.
#[derive(Debug, Clone)]
pub struct Record {
    pub name: String,
    pub package: InstalledPackage,
}

/// What a `Record` denotes.
pub struct RecordView {
    pub name: Seq<char>,
    pub package: InstalledPackageView,
}

impl View for Record {
    type V = RecordView;

    open spec fn view(&self) -> RecordView {
        RecordView { name: self.name@, package: self.package@ }
    }
}

/// What each element of `records` denotes.
pub open spec fn record_views(records: Seq<Record>) -> Seq<RecordView> {
    Seq::new(records.len(), |i: int| records[i]@)
}

/// The mapping that `records` stand for; of two records for one package the
/// later counts.
pub open spec fn ledger_of(records: Seq<RecordView>) -> Map<Seq<char>, InstalledPackageView>
    decreases records.len(),
{
    if records.len() == 0 {
        Map::empty()
    } else {
        ledger_of(records.drop_last()).insert(records.last().name, records.last().package)
    }
}

/// Whether no package has two records.
pub open spec fn distinct(records: Seq<RecordView>) -> bool {
    forall|i: int, j: int|
        0 <= i < j < records.len() ==> (#[trigger] records[i]).name != (#[trigger] records[j]).name
}

/// A package without a record is not in the mapping.
pub proof fn lemma_absent(records: Seq<RecordView>, name: Seq<char>)
    requires
        forall|i: int| 0 <= i < records.len() ==> (#[trigger] records[i]).name != name,
    ensures
        !ledger_of(records).contains_key(name),
    decreases records.len(),
{
    if records.len() > 0 {
        let init = records.drop_last();
        assert forall|i: int| 0 <= i < init.len() implies (#[trigger] init[i]).name != name by {
            assert(init[i] == records[i]);
        }
        lemma_absent(init, name);
        assert(records.last() == records[records.len() - 1]);
    }
}

/// Among distinct records, the one for a package is what the mapping holds
/// for it.
pub proof fn lemma_present(records: Seq<RecordView>, at: int)
    requires
        distinct(records),
        0 <= at < records.len(),
    ensures
        ledger_of(records).contains_key(records[at].name),
        ledger_of(records)[records[at].name] == records[at].package,
    decreases records.len(),
{
    let init = records.drop_last();
    if at < records.len() - 1 {
        assert forall|i: int, j: int| 0 <= i < j < init.len() implies (#[trigger] init[i]).name != (
        #[trigger] init[j]).name by {
            assert(init[i] == records[i]);
            assert(init[j] == records[j]);
        }
        assert(init[at] == records[at]);
        lemma_present(init, at);
        assert(records.last() == records[records.len() - 1]);
    }
}

/// Among distinct records, taking one out removes its package from the
/// mapping and leaves the rest.
pub proof fn lemma_removed(records: Seq<RecordView>, at: int)
    requires
        distinct(records),
        0 <= at < records.len(),
    ensures
        ledger_of(records.remove(at)) == ledger_of(records).remove(records[at].name),
        distinct(records.remove(at)),
    decreases records.len(),
{
    let init = records.drop_last();
    let gone = records.remove(at);
    assert forall|i: int, j: int| 0 <= i < j < gone.len() implies (#[trigger] gone[i]).name != (
    #[trigger] gone[j]).name by {
        let a = if i < at { i } else { i + 1 };
        let b = if j < at { j } else { j + 1 };
        assert(gone[i] == records[a]);
        assert(gone[j] == records[b]);
    }
    assert forall|i: int, j: int| 0 <= i < j < init.len() implies (#[trigger] init[i]).name != (
    #[trigger] init[j]).name by {
        assert(init[i] == records[i]);
        assert(init[j] == records[j]);
    }
    if at == records.len() - 1 {
        assert(gone =~= init);
        assert forall|i: int| 0 <= i < init.len() implies (#[trigger] init[i]).name
            != records[at].name by {
            assert(init[i] == records[i]);
        }
        lemma_absent(init, records[at].name);
        assert(ledger_of(records).remove(records[at].name) =~= ledger_of(init));
    } else {
        assert(init[at] == records[at]);
        lemma_removed(init, at);
        assert(gone.drop_last() =~= init.remove(at));
        assert(gone.last() == records.last());
        assert(records.last() == records[records.len() - 1]);
        assert(records.last().name != records[at].name);
        assert(ledger_of(gone) =~= ledger_of(records).remove(records[at].name));
    }
}

/// The ledger: which packages the GitHub connector has installed, and where.
#[derive(Debug)]
pub struct InstallState {
    packages: Vec<Record>,
}

impl View for InstallState {
    type V = Map<Seq<char>, InstalledPackageView>;

    closed spec fn view(&self) -> Map<Seq<char>, InstalledPackageView> {
        ledger_of(record_views(self.packages@))
    }
}

impl InstallState {
    #[verifier::type_invariant]
    spec fn one_record_each(self) -> bool {
        distinct(record_views(self.packages@))
    }

    /// The ledger of a host on which nothing was installed.
    pub fn new() -> (out: Self)
        ensures
            out@ == Map::<Seq<char>, InstalledPackageView>::empty(),
    {
        InstallState { packages: Vec::new() }
    }

    fn index_of(&self, name: &str) -> (at: Option<usize>)
        ensures
            match at {
                Some(i) => i < self.packages.len() && self.packages@[i as int].name@ == name@,
                None => forall|i: int|
                    0 <= i < self.packages.len() ==> (#[trigger] self.packages@[i]).name@ != name@,
            },
    {
        let mut i: usize = 0;
        while i < self.packages.len()
            invariant
                i <= self.packages.len(),
                forall|j: int| 0 <= j < i ==> (#[trigger] self.packages@[j]).name@ != name@,
            decreases self.packages.len() - i,
        {
            if str_eq(self.packages[i].name.as_str(), name) {
                return Some(i);
            }
            i += 1;
        }
        None
    }

    /// The record of `name`, if the package is installed.
    pub fn get(&self, name: &str) -> (out: Option<&InstalledPackage>)
        ensures
            match out {
                Some(package) => self@.contains_key(name@) && self@[name@] == package@,
                None => !self@.contains_key(name@),
            },
    {
        let ghost records = record_views(self.packages@);
        match self.index_of(name) {
            Some(i) => {
                proof {
                    use_type_invariant(self);
                    lemma_present(records, i as int);
                }
                Some(&self.packages[i].package)
            },
            None => {
                proof {
                    assert forall|i: int| 0 <= i < records.len() implies (#[trigger] records[i]).name
                        != name@ by {
                        assert(records[i] == self.packages@[i]@);
                    }
                    lemma_absent(records, name@);
                }
                None
            },
        }
    }

    /// Takes the record of `name` out of the ledger and hands it back; `None`
    /// where the package is not installed, and the ledger stays as it is.
    pub fn remove(&mut self, name: &str) -> (out: Option<InstalledPackage>)
        ensures
            final(self)@ == old(self)@.remove(name@),
            match out {
                Some(package) => old(self)@.contains_key(name@) && old(self)@[name@] == package@,
                None => !old(self)@.contains_key(name@),
            },
    {
        let ghost records = record_views(self.packages@);
        match self.index_of(name) {
            Some(i) => {
                proof {
                    use_type_invariant(&*self);
                    lemma_present(records, i as int);
                    lemma_removed(records, i as int);
                    assert(record_views(self.packages@.remove(i as int)) =~= records.remove(
                        i as int,
                    ));
                }
                let mut taken: Vec<Record> = Vec::new();
                core::mem::swap(&mut self.packages, &mut taken);
                let record = taken.remove(i);
                self.packages = taken;
                Some(record.package)
            },
            None => {
                proof {
                    assert forall|i: int| 0 <= i < records.len() implies (#[trigger] records[i]).name
                        != name@ by {
                        assert(records[i] == self.packages@[i]@);
                    }
                    lemma_absent(records, name@);
                    assert(self@.remove(name@) =~= self@);
                }
                None
            },
        }
    }

    /// Records `package` for `name`, in place of what was recorded before.
    pub fn insert(&mut self, name: String, package: InstalledPackage)
        ensures
            final(self)@ == old(self)@.insert(name@, package@),
    {
        let ghost before = self@;
        let _ = self.remove(name.as_str());
        let ghost records = record_views(self.packages@);
        let record = Record { name, package };
        let ghost added = record@;
        proof {
            use_type_invariant(&*self);
            assert(!self@.contains_key(added.name));
            assert forall|i: int| 0 <= i < records.len() implies (#[trigger] records[i]).name
                != added.name by {
                if records[i].name == added.name {
                    lemma_present(records, i);
                }
            }
            let grown = records.push(added);
            assert(grown.drop_last() =~= records);
            assert(record_views(self.packages@.push(record)) =~= grown);
            assert(before.remove(added.name).insert(added.name, added.package) =~= before.insert(
                added.name,
                added.package,
            ));
        }
        let mut taken: Vec<Record> = Vec::new();
        core::mem::swap(&mut self.packages, &mut taken);
        taken.push(record);
        self.packages = taken;
    }

    /// The records, each package once, in no particular order.
    pub fn records(&self) -> (out: &[Record])
        ensures
            distinct(record_views(out@)),
            ledger_of(record_views(out@)) == self@,
    {
        proof {
            use_type_invariant(self);
        }
        self.packages.as_slice()
    }
}

} // verus!
