//! The packages that a run is given and the metadata records that the index
//! keeps of them.

use vstd::prelude::*;
use crate::text::{texts_of, clone_texts};

verus! {

/// What a dependency is needed for.
#[derive(Clone, Copy, Debug, PartialEq, Eq, Structural)]
pub enum DependencyKind {
    Normal,
    Build,
    Development,
}

/// A dependency of a package, as the resolver hands it over.
#[derive(Clone, Debug)]
pub struct DependencyDescriptor {
    pub name: String,
    pub req: String,
    pub features: Vec<String>,
    pub optional: bool,
    pub default_features: bool,
    pub target: Option<String>,
    pub kind: DependencyKind,
}

/// A feature of a package and the features that it switches on.
#[derive(Clone, Debug)]
pub struct Feature {
    pub name: String,
    pub enables: Vec<String>,
}

/// The features of a package, each name once, in the order in which the
/// names were first inserted.
#[derive(Clone, Debug)]
pub struct FeatureTable {
    entries: Vec<Feature>,
}

/// Where the cache keeps the archives of a package's source: the host name
/// of the source and the short hash of its identity.
#[derive(Clone, Debug)]
pub struct CacheSource {
    pub host: String,
    pub short_hash: String,
}

/// A resolved package.
#[derive(Clone, Debug)]
pub struct PackageDescriptor {
    pub name: String,
    pub version: String,
    pub dependencies: Vec<DependencyDescriptor>,
    pub features: FeatureTable,
    pub source: CacheSource,
}

/// A dependency as an index record holds it.
#[derive(Clone, Debug)]
pub struct RegistryDependency {
    pub name: String,
    pub req: String,
    pub features: Vec<String>,
    pub optional: bool,
    pub default_features: bool,
    pub target: Option<String>,
    pub kind: String,
}

/// The index record of one version of a package.
#[derive(Clone, Debug)]
pub struct RegistryPackage {
    pub name: String,
    pub vers: String,
    pub deps: Vec<RegistryDependency>,
    pub features: FeatureTable,
    pub cksum: String,
    pub yanked: Option<bool>,
}

/// A dependency as plain values.
pub struct DependencyModel {
    pub name: Seq<char>,
    pub req: Seq<char>,
    pub features: Seq<Seq<char>>,
    pub optional: bool,
    pub default_features: bool,
    pub target: Option<Seq<char>>,
    pub kind: DependencyKind,
}

/// A feature as plain values.
pub struct FeatureModel {
    pub name: Seq<char>,
    pub enables: Seq<Seq<char>>,
}

/// A package as plain values.
pub struct PackageModel {
    pub name: Seq<char>,
    pub version: Seq<char>,
    pub dependencies: Seq<DependencyModel>,
    pub features: Seq<FeatureModel>,
    pub host: Seq<char>,
    pub short_hash: Seq<char>,
}

/// The record of a dependency as plain values.
pub struct RecordDependencyModel {
    pub name: Seq<char>,
    pub req: Seq<char>,
    pub features: Seq<Seq<char>>,
    pub optional: bool,
    pub default_features: bool,
    pub target: Option<Seq<char>>,
    pub kind: Seq<char>,
}

/// A record as plain values.
pub struct RecordModel {
    pub name: Seq<char>,
    pub vers: Seq<char>,
    pub deps: Seq<RecordDependencyModel>,
    pub features: Seq<FeatureModel>,
    pub cksum: Seq<char>,
    pub yanked: Option<bool>,
}

/// The text of a string that may be absent.
pub open spec fn optional_text(value: Option<String>) -> Option<Seq<char>> {
    match value {
        Some(text) => Some(text@),
        None => None,
    }
}

impl View for DependencyDescriptor {
    type V = DependencyModel;

    open spec fn view(&self) -> DependencyModel {
        DependencyModel {
            name: self.name@,
            req: self.req@,
            features: texts_of(self.features@),
            optional: self.optional,
            default_features: self.default_features,
            target: optional_text(self.target),
            kind: self.kind,
        }
    }
}

impl View for Feature {
    type V = FeatureModel;

    open spec fn view(&self) -> FeatureModel {
        FeatureModel { name: self.name@, enables: texts_of(self.enables@) }
    }
}

impl View for FeatureTable {
    type V = Seq<FeatureModel>;

    closed spec fn view(&self) -> Seq<FeatureModel> {
        Seq::new(self.entries@.len(), |i: int| self.entries@[i]@)
    }
}

/// The dependencies of a list as plain values.
pub open spec fn dependency_models(items: Seq<DependencyDescriptor>) -> Seq<DependencyModel> {
    Seq::new(items.len(), |i: int| items[i]@)
}

impl View for PackageDescriptor {
    type V = PackageModel;

    open spec fn view(&self) -> PackageModel {
        PackageModel {
            name: self.name@,
            version: self.version@,
            dependencies: dependency_models(self.dependencies@),
            features: self.features@,
            host: self.source.host@,
            short_hash: self.source.short_hash@,
        }
    }
}

impl View for RegistryDependency {
    type V = RecordDependencyModel;

    open spec fn view(&self) -> RecordDependencyModel {
        RecordDependencyModel {
            name: self.name@,
            req: self.req@,
            features: texts_of(self.features@),
            optional: self.optional,
            default_features: self.default_features,
            target: optional_text(self.target),
            kind: self.kind@,
        }
    }
}

/// The dependencies of a record as plain values.
pub open spec fn record_dependency_models(items: Seq<RegistryDependency>) -> Seq<
    RecordDependencyModel,
> {
    Seq::new(items.len(), |i: int| items[i]@)
}

impl View for RegistryPackage {
    type V = RecordModel;

    open spec fn view(&self) -> RecordModel {
        RecordModel {
            name: self.name@,
            vers: self.vers@,
            deps: record_dependency_models(self.deps@),
            features: self.features@,
            cksum: self.cksum@,
            yanked: self.yanked,
        }
    }
}

/// No name stands twice in `features`.
pub open spec fn names_distinct(features: Seq<FeatureModel>) -> bool {
    forall|i: int, j: int|
        0 <= i < j < features.len() ==> (#[trigger] features[i]).name != (
        #[trigger] features[j]).name
}

/// `name` stands nowhere in `features`.
pub open spec fn name_absent(features: Seq<FeatureModel>, name: Seq<char>) -> bool {
    forall|i: int| 0 <= i < features.len() ==> (#[trigger] features[i]).name != name
}

/// The text that stands for a dependency kind in an index record.
pub open spec fn kind_text(kind: DependencyKind) -> Seq<char> {
    match kind {
        DependencyKind::Normal => "normal"@,
        DependencyKind::Build => "build"@,
        DependencyKind::Development => "dev"@,
    }
}

/// The record of a dependency: the descriptor with its kind spelled out.
pub open spec fn record_dependency(dependency: DependencyModel) -> RecordDependencyModel {
    RecordDependencyModel {
        name: dependency.name,
        req: dependency.req,
        features: dependency.features,
        optional: dependency.optional,
        default_features: dependency.default_features,
        target: dependency.target,
        kind: kind_text(dependency.kind),
    }
}

/// The record of a package whose archive has the checksum `cksum`: never
/// yanked, the features as the package has them.
pub open spec fn record_of(package: PackageModel, cksum: Seq<char>) -> RecordModel {
    RecordModel {
        name: package.name,
        vers: package.version,
        deps: Seq::new(
            package.dependencies.len(),
            |i: int| record_dependency(package.dependencies[i]),
        ),
        features: package.features,
        cksum,
        yanked: Some(false),
    }
}

/// Renders a dependency kind as the index spells it.
pub fn kind_name(kind: DependencyKind) -> (name: String)
    ensures
        name@ == kind_text(kind),
{
    match kind {
        DependencyKind::Normal => "normal".to_owned(),
        DependencyKind::Build => "build".to_owned(),
        DependencyKind::Development => "dev".to_owned(),
    }
}

/// Copies a string that may be absent.
pub fn clone_optional(value: &Option<String>) -> (copy: Option<String>)
    ensures
        optional_text(copy) == optional_text(*value),
{
    match value {
        Some(text) => Some(text.clone()),
        None => None,
    }
}

impl FeatureTable {
    /// Every name stands once.
    pub open spec fn wf(&self) -> bool {
        names_distinct(self@)
    }

    /// A table without features.
    pub fn new() -> (table: FeatureTable)
        ensures
            table@ == Seq::<FeatureModel>::empty(),
            table.wf(),
    {
        let table = FeatureTable { entries: Vec::new() };
        assert(table@ =~= Seq::<FeatureModel>::empty());
        table
    }

    /// The number of features.
    pub fn len(&self) -> (len: usize)
        ensures
            len == self@.len(),
    {
        self.entries.len()
    }

    /// The feature at `index`, in the order of the table.
    pub fn get(&self, index: usize) -> (feature: &Feature)
        requires
            index < self@.len(),
        ensures
            feature@ == self@[index as int],
    {
        &self.entries[index]
    }

    /// Sets what the feature `name` switches on. A name that the table holds
    /// keeps its place and gets the new list; a new name goes to the end.
    pub fn insert(&mut self, name: String, enables: Vec<String>)
        requires
            old(self).wf(),
        ensures
            final(self).wf(),
            final(self)@.len() == if name_absent(old(self)@, name@) {
                old(self)@.len() + 1
            } else {
                old(self)@.len()
            },
            name_absent(old(self)@, name@) ==> final(self)@ == old(self)@.push(
                FeatureModel { name: name@, enables: texts_of(enables@) },
            ),
            forall|at: int|
                0 <= at < old(self)@.len() && (#[trigger] old(self)@[at]).name == name@
                    ==> final(self)@ == old(self)@.update(
                    at,
                    FeatureModel { name: name@, enables: texts_of(enables@) },
                ),
    {
        let ghost before = self@;
        let ghost entry = FeatureModel { name: name@, enables: texts_of(enables@) };
        let mut i: usize = 0;
        while i < self.entries.len()
            invariant
                i <= self.entries.len(),
                self@ == before,
                before == old(self)@,
                names_distinct(before),
                entry == (FeatureModel { name: name@, enables: texts_of(enables@) }),
                forall|k: int| 0 <= k < i ==> (#[trigger] before[k]).name != name@,
            decreases self.entries.len() - i,
        {
            assert(before[i as int] == self.entries@[i as int]@);
            if self.entries[i].name == name {
                let ghost entries = self.entries@;
                self.entries.set(i, Feature { name, enables });
                assert(self.entries@ == entries.update(i as int, self.entries@[i as int]));
                assert(self.entries@[i as int]@ == entry);
                assert forall|k: int| 0 <= k < before.len() implies self@[k] == before.update(
                    i as int,
                    entry,
                )[k] by {
                    if k != i {
                        assert(self.entries@[k] == entries[k]);
                        assert(before[k] == entries[k]@);
                    }
                }
                assert(self@ =~= before.update(i as int, entry));
                assert forall|a: int, b: int| 0 <= a < b < self@.len() implies (
                #[trigger] self@[a]).name != (#[trigger] self@[b]).name by {
                    assert(before[a].name != before[b].name);
                }
                assert forall|at: int|
                    0 <= at < before.len() && (#[trigger] before[at]).name
                        == entry.name implies self@ == before.update(at, entry) by {
                    if at < i {
                        assert(before[at].name != entry.name);
                    } else if at > i {
                        assert(before[i as int].name != before[at].name);
                    }
                }
                return ;
            }
            i += 1;
        }
        self.entries.push(Feature { name, enables });
        assert(self@ =~= before.push(entry));
        assert forall|a: int, b: int| 0 <= a < b < self@.len() implies (#[trigger] self@[a]).name
            != (#[trigger] self@[b]).name by {
            if b < before.len() {
                assert(before[a].name != before[b].name);
            } else {
                assert(before[a].name != entry.name);
            }
        }
    }

    /// A copy of the table.
    pub fn copy(&self) -> (copy: FeatureTable)
        ensures
            copy@ == self@,
            copy.wf() == self.wf(),
    {
        let mut entries: Vec<Feature> = Vec::new();
        let mut i: usize = 0;
        while i < self.entries.len()
            invariant
                i <= self.entries.len(),
                entries.len() == i,
                forall|k: int| 0 <= k < i ==> entries@[k]@ == self.entries@[k]@,
            decreases self.entries.len() - i,
        {
            let feature = &self.entries[i];
            entries.push(
                Feature { name: feature.name.clone(), enables: clone_texts(&feature.enables) },
            );
            i += 1;
        }
        let copy = FeatureTable { entries };
        assert(copy@ =~= self@);
        copy
    }
}

impl RegistryDependency {
    /// The record of the dependency `dependency`.
    pub fn from_descriptor(dependency: &DependencyDescriptor) -> (record: RegistryDependency)
        ensures
            record@ == record_dependency(dependency@),
    {
        RegistryDependency {
            name: dependency.name.clone(),
            req: dependency.req.clone(),
            features: clone_texts(&dependency.features),
            optional: dependency.optional,
            default_features: dependency.default_features,
            target: clone_optional(&dependency.target),
            kind: kind_name(dependency.kind),
        }
    }
}

impl RegistryPackage {
    /// The record of `package`, whose archive has the checksum `cksum`.
    pub fn new(package: &PackageDescriptor, cksum: String) -> (record: RegistryPackage)
        ensures
            record@ == record_of(package@, cksum@),
    {
        let mut deps: Vec<RegistryDependency> = Vec::new();
        let mut i: usize = 0;
        while i < package.dependencies.len()
            invariant
                i <= package.dependencies.len(),
                deps.len() == i,
                forall|k: int|
                    0 <= k < i ==> deps@[k]@ == record_dependency(package.dependencies@[k]@),
            decreases package.dependencies.len() - i,
        {
            deps.push(RegistryDependency::from_descriptor(&package.dependencies[i]));
            i += 1;
        }
        let record = RegistryPackage {
            name: package.name.clone(),
            vers: package.version.clone(),
            deps,
            features: package.features.copy(),
            cksum,
            yanked: Some(false),
        };
        assert(record@.deps =~= record_of(package@, cksum@).deps);
        record
    }
}

} // verus!
