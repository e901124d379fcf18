//! The shared database of declarations and what the passes work on.

use crate::cpp_data::CppItemData;
use crate::cpp_ffi_data::CppFfiFunction;
use crate::cpp_type::CppPath;
use crate::rust_info::RustItemKind;
use vstd::prelude::*;
use vstd::string::*;

verus! {

/// Where a declaration of the database came from.
#[derive(Debug, Clone, PartialEq, Eq)]
pub enum DatabaseItemSource {
    /// It was read from a header of the native library.
    CppParser { include_file: String },
    ImplicitDestructor,
    TemplateInstantiation,
    NamespaceInfering,
    QtSignalArguments,
}

/// One declaration with everything derived from it so far.
#[derive(Debug, Clone, PartialEq, Eq)]
pub struct DatabaseItem {
    /// The declaration as the front end delivered it.
    pub cpp_data: CppItemData,
    pub source: DatabaseItemSource,
    /// The foreign functions generated for it, once a pass has done so.
    pub ffi_items: Option<Vec<CppFfiFunction>>,
    /// The generated item, once a pass has made one.
    pub rust_item: Option<RustItemKind>,
}

/// The declarations of one crate.
#[derive(Debug, Clone, PartialEq, Eq)]
pub struct Database {
    pub crate_name: String,
    pub items: Vec<DatabaseItem>,
}

impl Database {
    /// A database without declarations.
    pub fn empty(crate_name: String) -> (r: Database)
        ensures
            r.crate_name == crate_name,
            r.items@.len() == 0,
    {
        Database { crate_name, items: Vec::new() }
    }

    /// The declarations of the database.
    pub fn cpp_items(&self) -> (r: &Vec<DatabaseItem>)
        ensures
            *r == self.items,
    {
        &self.items
    }

    /// Appends a declaration that nothing has been derived from yet.
    pub fn add_cpp_data(&mut self, source: DatabaseItemSource, cpp_data: CppItemData)
        ensures
            final(self).crate_name == old(self).crate_name,
            final(self).items@ == old(self).items@.push(
                DatabaseItem { cpp_data, source, ffi_items: None, rust_item: None },
            ),
    {
        self.items.push(DatabaseItem { cpp_data, source, ffi_items: None, rust_item: None });
    }
}

/// The limits the allocation place advisor works with.
#[derive(Debug, Clone, Copy, PartialEq, Eq, Structural)]
pub struct AllocationPlaceThresholds {
    /// How often a class has to be seen before its use says anything.
    pub min_sample_count: u64,
    /// The largest share of uses outside a pointer that a heap-only class may
    /// have, as the numerator of a fraction.
    pub max_value_share_numerator: u32,
    /// The denominator of that fraction.
    pub max_value_share_denominator: u32,
}

impl Default for AllocationPlaceThresholds {
    /// Five sightings, and three tenths.
    fn default() -> (r: Self)
        ensures
            r.min_sample_count == 5,
            r.max_value_share_numerator == 3,
            r.max_value_share_denominator == 10,
    {
        AllocationPlaceThresholds {
            min_sample_count: 5,
            max_value_share_numerator: 3,
            max_value_share_denominator: 10,
        }
    }
}

/// What the user has configured.
#[derive(Debug, Clone, PartialEq, Eq)]
pub struct Config {
    /// The classes whose values may live anywhere.
    pub movable_types: Vec<CppPath>,
    pub allocation_place_thresholds: AllocationPlaceThresholds,
}

impl Config {
    /// A configuration that names no movable class and keeps the default
    /// limits.
    pub fn new() -> (r: Config)
        ensures
            r.movable_types@.len() == 0,
            r.allocation_place_thresholds.min_sample_count == 5,
            r.allocation_place_thresholds.max_value_share_numerator == 3,
            r.allocation_place_thresholds.max_value_share_denominator == 10,
    {
        Config {
            movable_types: Vec::new(),
            allocation_place_thresholds: AllocationPlaceThresholds {
                min_sample_count: 5,
                max_value_share_numerator: 3,
                max_value_share_denominator: 10,
            },
        }
    }

    /// The classes whose values may live anywhere.
    pub fn movable_types(&self) -> (r: &Vec<CppPath>)
        ensures
            *r == self.movable_types,
    {
        &self.movable_types
    }

    /// Whether `path` is one of the configured movable classes.
    pub open spec fn names_movable(self, path: Seq<Seq<char>>) -> bool {
        exists|i: int| 0 <= i < self.movable_types.len() && (#[trigger] self.movable_types[i])@ == path
    }

    /// Whether `path` is one of the configured movable classes.
    pub fn is_movable_type(&self, path: &CppPath) -> (r: bool)
        ensures
            r == self.names_movable(path@),
    {
        let mut i: usize = 0;
        while i < self.movable_types.len()
            invariant
                i <= self.movable_types.len(),
                forall|j: int| 0 <= j < i ==> (#[trigger] self.movable_types[j])@ != path@,
            decreases self.movable_types.len() - i,
        {
            if self.movable_types[i].same_as(path) {
                return true;
            }
            i += 1;
        }
        false
    }
}

/// What a pass works on: the database being built, the databases of the
/// crates it depends on, and the configuration.
#[derive(Debug, Clone, PartialEq, Eq)]
pub struct ProcessorData {
    pub config: Config,
    pub current_database: Database,
    pub dep_databases: Vec<Database>,
}

/// The declarations of `databases` in the order of the databases.
pub open spec fn items_of(databases: Seq<Database>) -> Seq<DatabaseItem>
    decreases databases.len(),
{
    if databases.len() == 0 {
        Seq::empty()
    } else {
        items_of(databases.drop_last()) + databases.last().items@
    }
}

/// The items a sequence of references leads to.
pub open spec fn deref_items(items: Seq<&DatabaseItem>) -> Seq<DatabaseItem> {
    Seq::new(items.len(), |i: int| *items[i])
}

impl ProcessorData {
    /// Every declaration in sight: those of the current database, then those
    /// of the dependencies.
    pub open spec fn all_items_view(self) -> Seq<DatabaseItem> {
        self.current_database.items@ + items_of(self.dep_databases@)
    }

    /// Every declaration in sight: those of the current database, then those
    /// of the dependencies.
    pub fn all_items(&self) -> (r: Vec<&DatabaseItem>)
        ensures
            deref_items(r@) == self.all_items_view(),
    {
        let mut r: Vec<&DatabaseItem> = Vec::new();
        let mut i: usize = 0;
        while i < self.current_database.items.len()
            invariant
                i <= self.current_database.items.len(),
                deref_items(r@) == self.current_database.items@.subrange(0, i as int),
            decreases self.current_database.items.len() - i,
        {
            let ghost before = r@;
            r.push(&self.current_database.items[i]);
            assert(deref_items(r@) =~= deref_items(before).push(self.current_database.items[i as int]));
            assert(deref_items(r@) =~= self.current_database.items@.subrange(0, i + 1));
            i += 1;
        }
        assert(self.current_database.items@.subrange(0, i as int) =~= self.current_database.items@);
        let mut d: usize = 0;
        while d < self.dep_databases.len()
            invariant
                d <= self.dep_databases.len(),
                deref_items(r@) == self.current_database.items@ + items_of(
                    self.dep_databases@.subrange(0, d as int),
                ),
            decreases self.dep_databases.len() - d,
        {
            let database = &self.dep_databases[d];
            let ghost start = deref_items(r@);
            let mut k: usize = 0;
            while k < database.items.len()
                invariant
                    k <= database.items.len(),
                    deref_items(r@) == start + database.items@.subrange(0, k as int),
                decreases database.items.len() - k,
            {
                let ghost before = r@;
                r.push(&database.items[k]);
                assert(deref_items(r@) =~= deref_items(before).push(database.items[k as int]));
                assert(deref_items(r@) =~= start + database.items@.subrange(0, k + 1));
                k += 1;
            }
            proof {
                assert(database.items@.subrange(0, k as int) =~= database.items@);
                let next = self.dep_databases@.subrange(0, d + 1);
                assert(next.drop_last() =~= self.dep_databases@.subrange(0, d as int));
                assert(next.last() == self.dep_databases@[d as int]);
                assert(deref_items(r@) =~= self.current_database.items@ + items_of(next));
            }
            d += 1;
        }
        assert(self.dep_databases@.subrange(0, d as int) =~= self.dep_databases@);
        r
    }
}

} // verus!
