//! Where the values of a class may live: on the heap only, or anywhere. The
//! configuration decides; the advisor looks at how the declarations use each
//! class and says what it would choose.

use crate::cpp_data::{CppItemData, CppTypeData, CppTypeDataKind};
use crate::cpp_type::{types_view, CppPath, CppPointerLikeTypeKind, CppType, CppTypeModel};
use crate::database::{AllocationPlaceThresholds, Config, DatabaseItem, ProcessorData};
use crate::errors::Error;
use vstd::prelude::*;
use vstd::string::*;

verus! {

/// Why the advisor cannot tell where the values of a class should live.
#[derive(Debug, Clone, Copy, PartialEq, Eq, Structural)]
pub enum IndeterminateReason {
    /// No declaration uses the class.
    NoStats,
    /// The class is used too rarely.
    NotEnoughData,
    /// Too many of its uses are not behind a pointer.
    ManyNonPointers,
}

/// What the advisor says of a class.
#[derive(Debug, Clone, Copy, PartialEq, Eq, Structural)]
pub enum AllocationPlace {
    /// Its values may live anywhere.
    Movable,
    /// Its values live on the heap.
    Immovable,
    /// The uses do not decide it; the user has to.
    Indeterminate(IndeterminateReason),
}

/// How the declarations use a class.
pub struct UseCounts {
    /// Whether one of its member functions is virtual.
    pub has_virtual_methods: bool,
    /// How often it stands behind a pointer.
    pub pointers: nat,
    /// How often it stands anywhere else.
    pub not_pointers: nat,
}

/// The advice for a class with the given uses.
///
/// A class that no declaration uses is left to the user. A class with a
/// virtual method is immovable. A class never seen behind a pointer is
/// movable. Any other class is movable where it was seen often enough and
/// the share of its uses outside pointers is within the limit, and left to
/// the user otherwise.
pub open spec fn classification(stats: Option<UseCounts>, limits: AllocationPlaceThresholds) -> AllocationPlace {
    match stats {
        None => AllocationPlace::Indeterminate(IndeterminateReason::NoStats),
        Some(s) => {
            if s.has_virtual_methods {
                AllocationPlace::Immovable
            } else if s.pointers == 0 {
                AllocationPlace::Movable
            } else if s.pointers + s.not_pointers < limits.min_sample_count {
                AllocationPlace::Indeterminate(IndeterminateReason::NotEnoughData)
            } else if s.not_pointers * limits.max_value_share_denominator
                > limits.max_value_share_numerator * (s.pointers + s.not_pointers) {
                AllocationPlace::Indeterminate(IndeterminateReason::ManyNonPointers)
            } else {
                AllocationPlace::Movable
            }
        },
    }
}

/// A class never seen behind a pointer is movable unless it has a virtual
/// method.
pub proof fn lemma_never_behind_pointer_is_movable(stats: UseCounts, limits: AllocationPlaceThresholds)
    requires
        stats.pointers == 0,
        !stats.has_virtual_methods,
    ensures
        classification(Some(stats), limits) == AllocationPlace::Movable,
{
}

/// A class with a virtual method is immovable, however it is used.
pub proof fn lemma_virtual_is_immovable(stats: UseCounts, limits: AllocationPlaceThresholds)
    requires
        stats.has_virtual_methods,
    ensures
        classification(Some(stats), limits) == AllocationPlace::Immovable,
{
}

/// A class without virtual methods that was seen behind a pointer, but less
/// often than the limit asks, is left to the user.
pub proof fn lemma_rarely_seen_is_indeterminate(stats: UseCounts, limits: AllocationPlaceThresholds)
    requires
        !stats.has_virtual_methods,
        stats.pointers > 0,
        stats.pointers + stats.not_pointers < limits.min_sample_count,
    ensures
        classification(Some(stats), limits) == AllocationPlace::Indeterminate(
            IndeterminateReason::NotEnoughData,
        ),
{
}

/// The counters kept for one class.
#[derive(Debug, PartialEq, Eq)]
pub struct TypeStats {
    pub path: CppPath,
    pub has_virtual_methods: bool,
    pub pointers_count: u64,
    pub not_pointers_count: u64,
}

impl TypeStats {
    /// The counters as numbers.
    pub open spec fn counts(self) -> UseCounts {
        UseCounts {
            has_virtual_methods: self.has_virtual_methods,
            pointers: self.pointers_count as nat,
            not_pointers: self.not_pointers_count as nat,
        }
    }
}

/// The advice for a class with the given counters.
pub fn classify(stats: Option<&TypeStats>, limits: &AllocationPlaceThresholds) -> (r: AllocationPlace)
    ensures
        r == classification(
            match stats {
                Some(s) => Some(s.counts()),
                None => None,
            },
            *limits,
        ),
{
    match stats {
        None => AllocationPlace::Indeterminate(IndeterminateReason::NoStats),
        Some(s) => {
            if s.has_virtual_methods {
                AllocationPlace::Immovable
            } else if s.pointers_count == 0 {
                AllocationPlace::Movable
            } else {
                let total: u128 = s.pointers_count as u128 + s.not_pointers_count as u128;
                if total < limits.min_sample_count as u128 {
                    AllocationPlace::Indeterminate(IndeterminateReason::NotEnoughData)
                } else {
                    let not_pointers: u128 = s.not_pointers_count as u128;
                    let denominator: u128 = limits.max_value_share_denominator as u128;
                    let numerator: u128 = limits.max_value_share_numerator as u128;
                    assert(not_pointers * denominator <= 0xffff_ffff_ffff_ffff * 0xffff_ffff) by (nonlinear_arith)
                        requires
                            not_pointers <= 0xffff_ffff_ffff_ffff,
                            denominator <= 0xffff_ffff,
                    ;
                    assert(numerator * total <= 0xffff_ffff * 0x1_ffff_ffff_ffff_fffe) by (nonlinear_arith)
                        requires
                            numerator <= 0xffff_ffff,
                            total <= 0x1_ffff_ffff_ffff_fffe,
                    ;
                    if not_pointers * denominator > numerator * total {
                        AllocationPlace::Indeterminate(IndeterminateReason::ManyNonPointers)
                    } else {
                        AllocationPlace::Movable
                    }
                }
            }
        },
    }
}

/// The largest number a counter holds; a counter that reaches it stays there.
pub open spec fn counter_limit() -> nat {
    u64::MAX as nat
}

/// `count` more on a counter that stands at `counter`.
pub open spec fn counted(counter: nat, count: nat) -> nat {
    if counter + count > counter_limit() {
        counter_limit()
    } else {
        counter + count
    }
}

/// How often the class `path` is mentioned in `t`, counting the mentions
/// behind a pointer when `behind_pointer` is set and the others when it is
/// not. `under_pointer` says whether `t` itself is the target of a pointer.
/// A reference is no pointer, template arguments are not behind a pointer,
/// and what a function pointer mentions is not counted.
pub open spec fn mentions(t: CppTypeModel, path: Seq<Seq<char>>, under_pointer: bool, behind_pointer: bool) -> nat
    decreases t,
{
    match t {
        CppTypeModel::Class { path: own, template_arguments } => {
            let here: nat = if own == path && under_pointer == behind_pointer {
                1
            } else {
                0
            };
            match template_arguments {
                Some(args) => here + mentions_in(args, path, behind_pointer),
                None => here,
            }
        },
        CppTypeModel::PointerLike { kind, target, .. } => mentions(
            *target,
            path,
            kind == CppPointerLikeTypeKind::Pointer,
            behind_pointer,
        ),
        _ => 0,
    }
}

/// The mentions of the class `path` in the types `ts`, none of which is the
/// target of a pointer.
pub open spec fn mentions_in(ts: Seq<CppTypeModel>, path: Seq<Seq<char>>, behind_pointer: bool) -> nat
    decreases ts,
{
    if ts.len() == 0 {
        0
    } else {
        mentions_in(ts.drop_last(), path, behind_pointer) + mentions(ts.last(), path, false, behind_pointer)
    }
}

/// The mentions of the class `path` in the declaration: in the types a
/// function involves.
pub open spec fn mentions_of_item(item: DatabaseItem, path: Seq<Seq<char>>, behind_pointer: bool) -> nat {
    match item.cpp_data {
        CppItemData::Function(f) => mentions_in(f.involved_types(), path, behind_pointer),
        _ => 0,
    }
}

/// The mentions of the class `path` in all of `items`.
pub open spec fn mentions_of_items(items: Seq<DatabaseItem>, path: Seq<Seq<char>>, behind_pointer: bool) -> nat
    decreases items.len(),
{
    if items.len() == 0 {
        0
    } else {
        mentions_of_items(items.drop_last(), path, behind_pointer) + mentions_of_item(
            items.last(),
            path,
            behind_pointer,
        )
    }
}

/// Whether `item` is a virtual member function of the class `path`.
pub open spec fn is_virtual_member_of(item: DatabaseItem, path: Seq<Seq<char>>) -> bool {
    item.cpp_data matches CppItemData::Function(f) && f.member_of() == Some(path) && f.virtual_member()
}

/// Whether one of `items` is a virtual member function of the class `path`.
pub open spec fn has_virtual_member(items: Seq<DatabaseItem>, path: Seq<Seq<char>>) -> bool {
    exists|i: int| 0 <= i < items.len() && is_virtual_member_of(#[trigger] items[i], path)
}

/// The counters of every class seen so far, one entry for each.
#[derive(Debug, PartialEq, Eq)]
pub struct StatsTable {
    pub entries: Vec<TypeStats>,
}

impl StatsTable {
    /// No class has two entries.
    pub open spec fn well_formed(self) -> bool {
        forall|i: int, j: int|
            0 <= i < self.entries.len() && 0 <= j < self.entries.len() && i != j ==> (
            #[trigger] self.entries[i]).path@ != (#[trigger] self.entries[j]).path@
    }

    /// Whether the class `path` has an entry.
    pub open spec fn knows(self, path: Seq<Seq<char>>) -> bool {
        exists|i: int| 0 <= i < self.entries.len() && (#[trigger] self.entries[i]).path@ == path
    }

    /// The position of the entry of the class `path`.
    pub open spec fn position(self, path: Seq<Seq<char>>) -> int {
        choose|i: int| 0 <= i < self.entries.len() && (#[trigger] self.entries[i]).path@ == path
    }

    /// What the table holds for the class `path`.
    pub open spec fn stats(self, path: Seq<Seq<char>>) -> Option<UseCounts> {
        if self.knows(path) {
            Some(self.entries[self.position(path)].counts())
        } else {
            None
        }
    }

    /// The counter of the class `path` for its mentions behind a pointer, or
    /// for the others.
    pub open spec fn counter(self, path: Seq<Seq<char>>, behind_pointer: bool) -> nat {
        match self.stats(path) {
            Some(s) => if behind_pointer {
                s.pointers
            } else {
                s.not_pointers
            },
            None => 0,
        }
    }

    /// Whether the table has the class `path` down as having a virtual method.
    pub open spec fn marked_virtual(self, path: Seq<Seq<char>>) -> bool {
        self.stats(path) matches Some(s) && s.has_virtual_methods
    }

    /// An empty table.
    pub fn new() -> (r: StatsTable)
        ensures
            r.well_formed(),
            r.entries@.len() == 0,
    {
        StatsTable { entries: Vec::new() }
    }

    /// The position of the entry of the class `path`.
    pub fn find(&self, path: &CppPath) -> (r: Option<usize>)
        requires
            self.well_formed(),
        ensures
            match r {
                Some(i) => self.knows(path@) && i == self.position(path@) && i < self.entries.len(),
                None => !self.knows(path@),
            },
    {
        let mut i: usize = 0;
        while i < self.entries.len()
            invariant
                i <= self.entries.len(),
                self.well_formed(),
                forall|j: int| 0 <= j < i ==> (#[trigger] self.entries[j]).path@ != path@,
            decreases self.entries.len() - i,
        {
            if self.entries[i].path.same_as(path) {
                proof {
                    assert(self.entries[i as int].path@ == path@);
                    let j = self.position(path@);
                    assert(self.entries[j].path@ == path@);
                }
                return Some(i);
            }
            i += 1;
        }
        None
    }

    /// The entry of the class `path`.
    pub fn get(&self, path: &CppPath) -> (r: Option<&TypeStats>)
        requires
            self.well_formed(),
        ensures
            match r {
                Some(s) => s.path@ == path@ && self.stats(path@) == Some(s.counts()),
                None => self.stats(path@) is None,
            },
    {
        match self.find(path) {
            Some(i) => Some(&self.entries[i]),
            None => None,
        }
    }

    /// Counts one mention of the class `path`.
    pub fn note_use(&mut self, path: &CppPath, behind_pointer: bool)
        requires
            old(self).well_formed(),
        ensures
            final(self).well_formed(),
            forall|p: Seq<Seq<char>>, b: bool|
                #![trigger final(self).counter(p, b)]
                final(self).counter(p, b) == counted(
                    old(self).counter(p, b),
                    if p == path@ && b == behind_pointer {
                        1
                    } else {
                        0
                    },
                ),
            forall|p: Seq<Seq<char>>|
                #![trigger final(self).marked_virtual(p)]
                final(self).marked_virtual(p) == old(self).marked_virtual(p),
            forall|p: Seq<Seq<char>>|
                #![trigger final(self).knows(p)]
                final(self).knows(p) == (old(self).knows(p) || p == path@),
    {
        let ghost before = *self;
        match self.find(path) {
            Some(i) => {
                let entry = &self.entries[i];
                let pointers_count = if behind_pointer && entry.pointers_count < u64::MAX {
                    entry.pointers_count + 1
                } else {
                    entry.pointers_count
                };
                let not_pointers_count = if !behind_pointer && entry.not_pointers_count < u64::MAX {
                    entry.not_pointers_count + 1
                } else {
                    entry.not_pointers_count
                };
                let updated = TypeStats {
                    path: entry.path.clone(),
                    has_virtual_methods: entry.has_virtual_methods,
                    pointers_count,
                    not_pointers_count,
                };
                self.entries.set(i, updated);
                proof {
                    lemma_same_paths(before, *self);
                    assert forall|p: Seq<Seq<char>>, b: bool|
                        #![trigger self.counter(p, b)]
                        self.counter(p, b) == counted(
                            before.counter(p, b),
                            if p == path@ && b == behind_pointer {
                                1
                            } else {
                                0
                            },
                        ) by {
                        if before.knows(p) {
                            let k = before.position(p);
                            assert(self.entries[k].path@ == p);
                        }
                    }
                    assert forall|p: Seq<Seq<char>>|
                        #![trigger self.marked_virtual(p)]
                        self.marked_virtual(p) == before.marked_virtual(p) by {
                        if before.knows(p) {
                            let k = before.position(p);
                            assert(self.entries[k].path@ == p);
                        }
                    }
                }
            },
            None => {
                let added = TypeStats {
                    path: path.clone(),
                    has_virtual_methods: false,
                    pointers_count: if behind_pointer {
                        1
                    } else {
                        0
                    },
                    not_pointers_count: if behind_pointer {
                        0
                    } else {
                        1
                    },
                };
                self.entries.push(added);
                proof {
                    lemma_one_more_path(before, *self);
                    let last = self.entries.len() - 1;
                    assert(self.entries[last].path@ == path@);
                    assert forall|p: Seq<Seq<char>>, b: bool|
                        #![trigger self.counter(p, b)]
                        self.counter(p, b) == counted(
                            before.counter(p, b),
                            if p == path@ && b == behind_pointer {
                                1
                            } else {
                                0
                            },
                        ) by {
                        if before.knows(p) {
                            let k = before.position(p);
                            assert(self.entries[k].path@ == p);
                        }
                    }
                    assert forall|p: Seq<Seq<char>>|
                        #![trigger self.marked_virtual(p)]
                        self.marked_virtual(p) == before.marked_virtual(p) by {
                        if before.knows(p) {
                            let k = before.position(p);
                            assert(self.entries[k].path@ == p);
                        }
                    }
                }
            },
        }
    }

    /// Puts the class `path` down as having a virtual method.
    pub fn note_virtual(&mut self, path: &CppPath)
        requires
            old(self).well_formed(),
        ensures
            final(self).well_formed(),
            forall|p: Seq<Seq<char>>, b: bool|
                #![trigger final(self).counter(p, b)]
                final(self).counter(p, b) == old(self).counter(p, b),
            forall|p: Seq<Seq<char>>|
                #![trigger final(self).marked_virtual(p)]
                final(self).marked_virtual(p) == (old(self).marked_virtual(p) || p == path@),
            forall|p: Seq<Seq<char>>|
                #![trigger final(self).knows(p)]
                final(self).knows(p) == (old(self).knows(p) || p == path@),
    {
        let ghost before = *self;
        match self.find(path) {
            Some(i) => {
                let entry = &self.entries[i];
                let updated = TypeStats {
                    path: entry.path.clone(),
                    has_virtual_methods: true,
                    pointers_count: entry.pointers_count,
                    not_pointers_count: entry.not_pointers_count,
                };
                self.entries.set(i, updated);
                proof {
                    lemma_same_paths(before, *self);
                    assert forall|p: Seq<Seq<char>>, b: bool|
                        #![trigger self.counter(p, b)]
                        self.counter(p, b) == before.counter(p, b) by {
                        if before.knows(p) {
                            let k = before.position(p);
                            assert(self.entries[k].path@ == p);
                        }
                    }
                    assert forall|p: Seq<Seq<char>>|
                        #![trigger self.marked_virtual(p)]
                        self.marked_virtual(p) == (before.marked_virtual(p) || p == path@) by {
                        if before.knows(p) {
                            let k = before.position(p);
                            assert(self.entries[k].path@ == p);
                        }
                    }
                }
            },
            None => {
                let added = TypeStats {
                    path: path.clone(),
                    has_virtual_methods: true,
                    pointers_count: 0,
                    not_pointers_count: 0,
                };
                self.entries.push(added);
                proof {
                    lemma_one_more_path(before, *self);
                    let last = self.entries.len() - 1;
                    assert(self.entries[last].path@ == path@);
                    assert forall|p: Seq<Seq<char>>, b: bool|
                        #![trigger self.counter(p, b)]
                        self.counter(p, b) == before.counter(p, b) by {
                        if before.knows(p) {
                            let k = before.position(p);
                            assert(self.entries[k].path@ == p);
                        }
                    }
                    assert forall|p: Seq<Seq<char>>|
                        #![trigger self.marked_virtual(p)]
                        self.marked_virtual(p) == (before.marked_virtual(p) || p == path@) by {
                        if before.knows(p) {
                            let k = before.position(p);
                            assert(self.entries[k].path@ == p);
                        }
                    }
                }
            },
        }
    }
}

/// A table whose entries kept their classes knows the same classes at the
/// same positions.
proof fn lemma_same_paths(before: StatsTable, after: StatsTable)
    requires
        before.well_formed(),
        after.entries.len() == before.entries.len(),
        forall|i: int| 0 <= i < before.entries.len() ==> (#[trigger] after.entries[i]).path@ == before.entries[i].path@,
    ensures
        after.well_formed(),
        forall|p: Seq<Seq<char>>| #![trigger after.knows(p)] after.knows(p) == before.knows(p),
        forall|p: Seq<Seq<char>>|
            #![trigger after.position(p)]
            before.knows(p) ==> after.position(p) == before.position(p),
{
    assert forall|p: Seq<Seq<char>>| #![trigger after.knows(p)] after.knows(p) == before.knows(p) by {
        if after.knows(p) {
            let i = after.position(p);
            assert(before.entries[i].path@ == p);
        }
        if before.knows(p) {
            let i = before.position(p);
            assert(after.entries[i].path@ == p);
        }
    }
    assert forall|p: Seq<Seq<char>>|
        #![trigger after.position(p)]
        before.knows(p) implies after.position(p) == before.position(p) by {
        let i = before.position(p);
        assert(after.entries[i].path@ == p);
        let j = after.position(p);
        assert(before.entries[j].path@ == p);
    }
}

/// A table with one more entry, for a class it did not know, knows that
/// class besides and has the others where they were.
proof fn lemma_one_more_path(before: StatsTable, after: StatsTable)
    requires
        before.well_formed(),
        after.entries.len() == before.entries.len() + 1,
        forall|i: int| 0 <= i < before.entries.len() ==> (#[trigger] after.entries[i]) == before.entries[i],
        !before.knows(after.entries[after.entries.len() - 1].path@),
    ensures
        after.well_formed(),
        forall|p: Seq<Seq<char>>|
            #![trigger after.knows(p)]
            after.knows(p) == (before.knows(p) || p == after.entries[after.entries.len() - 1].path@),
        forall|p: Seq<Seq<char>>|
            #![trigger after.position(p)]
            before.knows(p) ==> after.position(p) == before.position(p),
        after.position(after.entries[after.entries.len() - 1].path@) == after.entries.len() - 1,
{
    let last = after.entries.len() - 1;
    let added = after.entries[last].path@;
    assert forall|i: int, j: int|
        0 <= i < after.entries.len() && 0 <= j < after.entries.len() && i != j implies (
    #[trigger] after.entries[i]).path@ != (#[trigger] after.entries[j]).path@ by {
        if i < last && j < last {
            assert(before.entries[i].path@ != before.entries[j].path@);
        } else if i < last {
            assert(before.entries[i].path@ != added);
        } else {
            assert(before.entries[j].path@ != added);
        }
    }
    assert forall|p: Seq<Seq<char>>|
        #![trigger after.knows(p)]
        after.knows(p) == (before.knows(p) || p == added) by {
        if after.knows(p) {
            let i = after.position(p);
            if i < last {
                assert(before.entries[i].path@ == p);
            }
        }
        if before.knows(p) {
            let i = before.position(p);
            assert(after.entries[i].path@ == p);
        }
        if p == added {
            assert(after.entries[last].path@ == p);
        }
    }
    assert forall|p: Seq<Seq<char>>|
        #![trigger after.position(p)]
        before.knows(p) implies after.position(p) == before.position(p) by {
        let i = before.position(p);
        assert(after.entries[i].path@ == p);
        let j = after.position(p);
        if j < last {
            assert(before.entries[j].path@ == p);
        }
    }
    assert(after.entries[last].path@ == added);
    let k = after.position(added);
    if k < last {
        assert(before.entries[k].path@ == added);
    }
}


/// Whether the class `path` is mentioned in `t` at all.
pub open spec fn is_mentioned(t: CppTypeModel, path: Seq<Seq<char>>, under_pointer: bool) -> bool {
    mentions(t, path, under_pointer, true) + mentions(t, path, under_pointer, false) > 0
}

/// Whether the class `path` is mentioned in one of `ts`.
pub open spec fn is_mentioned_in(ts: Seq<CppTypeModel>, path: Seq<Seq<char>>) -> bool {
    mentions_in(ts, path, true) + mentions_in(ts, path, false) > 0
}

/// Counts the mentions of classes in `types`, none of which is the target of
/// a pointer.
pub fn scan_types(types: &Vec<CppType>, table: &mut StatsTable)
    requires
        old(table).well_formed(),
    ensures
        final(table).well_formed(),
        forall|p: Seq<Seq<char>>, b: bool|
            #![trigger final(table).counter(p, b)]
            final(table).counter(p, b) == counted(
                old(table).counter(p, b),
                mentions_in(types_view(types@), p, b),
            ),
        forall|p: Seq<Seq<char>>|
            #![trigger final(table).marked_virtual(p)]
            final(table).marked_virtual(p) == old(table).marked_virtual(p),
        forall|p: Seq<Seq<char>>|
            #![trigger final(table).knows(p)]
            final(table).knows(p) == (old(table).knows(p) || is_mentioned_in(types_view(types@), p)),
    decreases types,
{
    let ghost start = *table;
    let ghost ts = types_view(types@);
    let mut i: usize = 0;
    while i < types.len()
        invariant
            i <= types.len(),
            ts == types_view(types@),
            table.well_formed(),
            forall|p: Seq<Seq<char>>, b: bool|
                #![trigger table.counter(p, b)]
                table.counter(p, b) == counted(start.counter(p, b), mentions_in(ts.subrange(0, i as int), p, b)),
            forall|p: Seq<Seq<char>>|
                #![trigger table.marked_virtual(p)]
                table.marked_virtual(p) == start.marked_virtual(p),
            forall|p: Seq<Seq<char>>|
                #![trigger table.knows(p)]
                table.knows(p) == (start.knows(p) || is_mentioned_in(ts.subrange(0, i as int), p)),
        decreases types.len() - i,
    {
        let ghost middle = *table;
        proof {
            let next = ts.subrange(0, i + 1);
            assert(next.drop_last() =~= ts.subrange(0, i as int));
            assert(next.last() == types[i as int]@);
        }
        scan_type(&types[i], false, table);
        proof {
            assert forall|p: Seq<Seq<char>>, b: bool|
                #![trigger table.counter(p, b)]
                table.counter(p, b) == counted(start.counter(p, b), mentions_in(ts.subrange(0, i + 1), p, b)) by {
                assert(middle.counter(p, b) == counted(
                    start.counter(p, b),
                    mentions_in(ts.subrange(0, i as int), p, b),
                ));
            }
            assert forall|p: Seq<Seq<char>>|
                #![trigger table.knows(p)]
                table.knows(p) == (start.knows(p) || is_mentioned_in(ts.subrange(0, i + 1), p)) by {
                assert(middle.knows(p) == (start.knows(p) || is_mentioned_in(ts.subrange(0, i as int), p)));
            }
            assert forall|p: Seq<Seq<char>>|
                #![trigger table.marked_virtual(p)]
                table.marked_virtual(p) == start.marked_virtual(p) by {
                assert(middle.marked_virtual(p) == start.marked_virtual(p));
            }
        }
        i += 1;
    }
    assert(ts.subrange(0, i as int) =~= ts);
}

/// Counts the mentions of classes in `cpp_type`. `is_behind_pointer` says
/// whether the type is the target of a pointer.
pub fn scan_type(cpp_type: &CppType, is_behind_pointer: bool, table: &mut StatsTable)
    requires
        old(table).well_formed(),
    ensures
        final(table).well_formed(),
        forall|p: Seq<Seq<char>>, b: bool|
            #![trigger final(table).counter(p, b)]
            final(table).counter(p, b) == counted(
                old(table).counter(p, b),
                mentions(cpp_type@, p, is_behind_pointer, b),
            ),
        forall|p: Seq<Seq<char>>|
            #![trigger final(table).marked_virtual(p)]
            final(table).marked_virtual(p) == old(table).marked_virtual(p),
        forall|p: Seq<Seq<char>>|
            #![trigger final(table).knows(p)]
            final(table).knows(p) == (old(table).knows(p) || is_mentioned(cpp_type@, p, is_behind_pointer)),
    decreases cpp_type,
{
    let ghost start = *table;
    proof {
        cpp_type.lemma_model_children();
    }
    match cpp_type {
        CppType::Class(c) => {
            table.note_use(&c.path, is_behind_pointer);
            let ghost middle = *table;
            if let Some(args) = &c.template_arguments {
                scan_types(args, table);
                proof {
                    assert forall|p: Seq<Seq<char>>, b: bool|
                        #![trigger table.counter(p, b)]
                        table.counter(p, b) == counted(
                            start.counter(p, b),
                            mentions(cpp_type@, p, is_behind_pointer, b),
                        ) by {
                        assert(middle.counter(p, b) == counted(
                            start.counter(p, b),
                            if p == c.path@ && b == is_behind_pointer {
                                1
                            } else {
                                0
                            },
                        ));
                    }
                    assert forall|p: Seq<Seq<char>>|
                        #![trigger table.knows(p)]
                        table.knows(p) == (start.knows(p) || is_mentioned(cpp_type@, p, is_behind_pointer)) by {
                        assert(middle.knows(p) == (start.knows(p) || p == c.path@));
                    }
                    assert forall|p: Seq<Seq<char>>|
                        #![trigger table.marked_virtual(p)]
                        table.marked_virtual(p) == start.marked_virtual(p) by {
                        assert(middle.marked_virtual(p) == start.marked_virtual(p));
                    }
                }
            }
        },
        CppType::PointerLike { kind, target, .. } => {
            let behind = match kind {
                CppPointerLikeTypeKind::Pointer => true,
                CppPointerLikeTypeKind::Reference => false,
            };
            scan_type(target, behind, table);
        },
        _ => {},
    }
}

/// Whether one of the declarations is a virtual member function of the
/// class `path`.
pub fn has_virtual_method(items: &Vec<DatabaseItem>, path: &CppPath) -> (r: bool)
    ensures
        r == has_virtual_member(items@, path@),
{
    let mut i: usize = 0;
    while i < items.len()
        invariant
            i <= items.len(),
            forall|j: int| 0 <= j < i ==> !is_virtual_member_of(#[trigger] items[j], path@),
        decreases items.len() - i,
    {
        let found = match items[i].cpp_data.as_function_ref() {
            Some(f) => {
                match f.class_type() {
                    Some(class_path) => class_path.same_as(path) && f.is_virtual(),
                    None => false,
                }
            },
            None => false,
        };
        if found {
            return true;
        }
        i += 1;
    }
    false
}

/// Whether `item` declares a type at `path`.
pub open spec fn is_declaration_of(item: DatabaseItem, path: Seq<Seq<char>>) -> bool {
    item.cpp_data matches CppItemData::Type(t) && t.path@ == path
}

/// Whether one of `items` declares a type at `path`.
pub open spec fn declares(items: Seq<DatabaseItem>, path: Seq<Seq<char>>) -> bool {
    exists|i: int| 0 <= i < items.len() && is_declaration_of(#[trigger] items[i], path)
}

/// Gathers the counters of every class that the declarations mention or
/// declare with a virtual method.
pub fn collect_stats(items: &Vec<DatabaseItem>) -> (table: StatsTable)
    ensures
        table.well_formed(),
        forall|p: Seq<Seq<char>>, b: bool|
            #![trigger table.counter(p, b)]
            table.counter(p, b) == counted(0, mentions_of_items(items@, p, b)),
        forall|p: Seq<Seq<char>>|
            #![trigger table.marked_virtual(p)]
            table.marked_virtual(p) == (declares(items@, p) && has_virtual_member(items@, p)),
        forall|p: Seq<Seq<char>>|
            #![trigger table.knows(p)]
            table.knows(p) == (table.marked_virtual(p) || mentions_of_items(items@, p, true)
                + mentions_of_items(items@, p, false) > 0),
{
    let mut table = StatsTable::new();
    let mut i: usize = 0;
    while i < items.len()
        invariant
            i <= items.len(),
            table.well_formed(),
            forall|p: Seq<Seq<char>>, b: bool| #![trigger table.counter(p, b)] table.counter(p, b) == 0,
            forall|p: Seq<Seq<char>>|
                #![trigger table.marked_virtual(p)]
                table.marked_virtual(p) == (declares(items@.subrange(0, i as int), p) && has_virtual_member(
                    items@,
                    p,
                )),
            forall|p: Seq<Seq<char>>| #![trigger table.knows(p)] table.knows(p) == table.marked_virtual(p),
        decreases items.len() - i,
    {
        let ghost middle = table;
        let ghost seen = items@.subrange(0, i as int);
        let ghost next = items@.subrange(0, i + 1);
        let mut marked = false;
        if let Some(t) = items[i].cpp_data.as_type_ref() {
            if has_virtual_method(items, &t.path) {
                table.note_virtual(&t.path);
                marked = true;
            }
        }
        proof {
            assert forall|p: Seq<Seq<char>>|
                #![trigger table.marked_virtual(p)]
                table.marked_virtual(p) == (declares(next, p) && has_virtual_member(items@, p)) by {
                assert(middle.marked_virtual(p) == (declares(seen, p) && has_virtual_member(items@, p)));
                if declares(seen, p) {
                    let k = choose|k: int| 0 <= k < seen.len() && is_declaration_of(#[trigger] seen[k], p);
                    assert(next[k] == seen[k]);
                }
                if declares(next, p) {
                    let k = choose|k: int| 0 <= k < next.len() && is_declaration_of(#[trigger] next[k], p);
                    if k < i {
                        assert(seen[k] == next[k]);
                    }
                }
                if is_declaration_of(items[i as int], p) {
                    assert(next[i as int] == items[i as int]);
                }
            }
            assert forall|p: Seq<Seq<char>>, b: bool| #![trigger table.counter(p, b)] table.counter(p, b) == 0 by {
                assert(middle.counter(p, b) == 0);
            }
            assert forall|p: Seq<Seq<char>>| #![trigger table.knows(p)] table.knows(p) == table.marked_virtual(
                p,
            ) by {
                assert(middle.knows(p) == middle.marked_virtual(p));
            }
        }
        i += 1;
    }
    assert(items@.subrange(0, i as int) =~= items@);
    let ghost marked_table = table;
    let mut k: usize = 0;
    while k < items.len()
        invariant
            k <= items.len(),
            table.well_formed(),
            forall|p: Seq<Seq<char>>, b: bool|
                #![trigger table.counter(p, b)]
                table.counter(p, b) == counted(0, mentions_of_items(items@.subrange(0, k as int), p, b)),
            forall|p: Seq<Seq<char>>|
                #![trigger table.marked_virtual(p)]
                table.marked_virtual(p) == (declares(items@, p) && has_virtual_member(items@, p)),
            forall|p: Seq<Seq<char>>|
                #![trigger table.knows(p)]
                table.knows(p) == (table.marked_virtual(p) || mentions_of_items(
                    items@.subrange(0, k as int),
                    p,
                    true,
                ) + mentions_of_items(items@.subrange(0, k as int), p, false) > 0),
        decreases items.len() - k,
    {
        let ghost middle = table;
        let ghost seen = items@.subrange(0, k as int);
        let ghost next = items@.subrange(0, k + 1);
        proof {
            assert(next.drop_last() =~= seen);
            assert(next.last() == items[k as int]);
        }
        if let Some(f) = items[k].cpp_data.as_function_ref() {
            let types = f.all_involved_types();
            scan_types(&types, &mut table);
        }
        proof {
            assert forall|p: Seq<Seq<char>>, b: bool|
                #![trigger table.counter(p, b)]
                table.counter(p, b) == counted(0, mentions_of_items(next, p, b)) by {
                assert(middle.counter(p, b) == counted(0, mentions_of_items(seen, p, b)));
            }
            assert forall|p: Seq<Seq<char>>|
                #![trigger table.marked_virtual(p)]
                table.marked_virtual(p) == (declares(items@, p) && has_virtual_member(items@, p)) by {
                assert(middle.marked_virtual(p) == (declares(items@, p) && has_virtual_member(items@, p)));
            }
            assert forall|p: Seq<Seq<char>>|
                #![trigger table.knows(p)]
                table.knows(p) == (table.marked_virtual(p) || mentions_of_items(next, p, true)
                    + mentions_of_items(next, p, false) > 0) by {
                assert(middle.knows(p) == (middle.marked_virtual(p) || mentions_of_items(seen, p, true)
                    + mentions_of_items(seen, p, false) > 0));
                assert(middle.marked_virtual(p) == (declares(items@, p) && has_virtual_member(items@, p)));
                assert(table.marked_virtual(p) == (declares(items@, p) && has_virtual_member(items@, p)));
            }
        }
        k += 1;
    }
    assert(items@.subrange(0, k as int) =~= items@);
    table
}

/// The declaration with what the configuration says of its class: a class
/// is movable exactly when the configuration names it; anything else stays
/// as it is.
pub open spec fn with_allocation_place(item: DatabaseItem, config: Config) -> DatabaseItem {
    match item.cpp_data {
        CppItemData::Type(t) => if t.kind == CppTypeDataKind::Class {
            DatabaseItem {
                cpp_data: CppItemData::Type(CppTypeData { is_movable: config.names_movable(t.path@), ..t }),
                ..item
            }
        } else {
            item
        },
        _ => item,
    }
}

/// Sets for every class of the current database whether its values may live
/// anywhere: they may exactly when the configuration names the class.
pub fn set_allocation_places(data: &mut ProcessorData) -> (r: Result<(), Error>)
    ensures
        r is Ok,
        final(data).config == old(data).config,
        final(data).dep_databases == old(data).dep_databases,
        final(data).current_database.crate_name == old(data).current_database.crate_name,
        final(data).current_database.items@.len() == old(data).current_database.items@.len(),
        forall|i: int|
            0 <= i < old(data).current_database.items@.len() ==> (
            #[trigger] final(data).current_database.items@[i]) == with_allocation_place(
                old(data).current_database.items@[i],
                old(data).config,
            ),
{
    let ghost start = *data;
    let mut i: usize = 0;
    while i < data.current_database.items.len()
        invariant
            i <= data.current_database.items.len(),
            data.config == start.config,
            data.dep_databases == start.dep_databases,
            data.current_database.crate_name == start.current_database.crate_name,
            data.current_database.items@.len() == start.current_database.items@.len(),
            forall|j: int|
                0 <= j < i ==> (#[trigger] data.current_database.items@[j]) == with_allocation_place(
                    start.current_database.items@[j],
                    start.config,
                ),
            forall|j: int|
                i <= j < data.current_database.items@.len() ==> (#[trigger] data.current_database.items@[j])
                    == start.current_database.items@[j],
        decreases data.current_database.items.len() - i,
    {
        let movable = match &data.current_database.items[i].cpp_data {
            CppItemData::Type(t) => match t.kind {
                CppTypeDataKind::Class => Some(data.config.is_movable_type(&t.path)),
                CppTypeDataKind::Enum => None,
            },
            _ => None,
        };
        if let Some(movable) = movable {
            match &mut data.current_database.items[i].cpp_data {
                CppItemData::Type(t) => {
                    t.is_movable = movable;
                },
                _ => {},
            }
        }
        i += 1;
    }
    Ok(())
}

/// What the advisor says of one class.
#[derive(Debug, PartialEq, Eq)]
pub struct AllocationPlaceSuggestion {
    pub path: CppPath,
    pub place: AllocationPlace,
}

/// The mathematical value of an `AllocationPlaceSuggestion`.
pub struct SuggestionModel {
    pub path: Seq<Seq<char>>,
    pub place: AllocationPlace,
}

impl View for AllocationPlaceSuggestion {
    type V = SuggestionModel;

    open spec fn view(&self) -> SuggestionModel {
        SuggestionModel { path: self.path@, place: self.place }
    }
}

/// The values of a sequence of suggestions.
pub open spec fn suggestions_view(v: Seq<AllocationPlaceSuggestion>) -> Seq<SuggestionModel> {
    Seq::new(v.len(), |i: int| v[i]@)
}

/// How `items` use the class `path`: nothing where they neither mention it
/// nor give it a virtual method, else its counters, each of which stops at
/// the largest number it holds.
pub open spec fn observed_uses(items: Seq<DatabaseItem>, path: Seq<Seq<char>>) -> Option<UseCounts> {
    let pointers = mentions_of_items(items, path, true);
    let not_pointers = mentions_of_items(items, path, false);
    if has_virtual_member(items, path) || pointers + not_pointers > 0 {
        Some(
            UseCounts {
                has_virtual_methods: has_virtual_member(items, path),
                pointers: counted(0, pointers),
                not_pointers: counted(0, not_pointers),
            },
        )
    } else {
        None
    }
}

/// The advice for the classes declared among the first `count` of `items`
/// that the configuration does not name as movable, in their order.
pub open spec fn advice(items: Seq<DatabaseItem>, config: Config, count: nat) -> Seq<SuggestionModel>
    decreases count,
{
    if count == 0 || count > items.len() {
        Seq::empty()
    } else {
        let before = advice(items, config, (count - 1) as nat);
        match items[count - 1].cpp_data {
            CppItemData::Type(t) => if t.kind == CppTypeDataKind::Class && !config.names_movable(t.path@) {
                before.push(
                    SuggestionModel {
                        path: t.path@,
                        place: classification(observed_uses(items, t.path@), config.allocation_place_thresholds),
                    },
                )
            } else {
                before
            },
            _ => before,
        }
    }
}

/// Looks at how the declarations of the current database use each class and
/// says, for every class that the configuration does not name as movable,
/// where its values should live. Nothing is changed: the advice is for the
/// user.
pub fn suggest_allocation_places(data: &ProcessorData) -> (r: Vec<AllocationPlaceSuggestion>)
    ensures
        suggestions_view(r@) == advice(
            data.current_database.items@,
            data.config,
            data.current_database.items@.len(),
        ),
{
    let items = &data.current_database.items;
    let table = collect_stats(items);
    let mut r: Vec<AllocationPlaceSuggestion> = Vec::new();
    let mut i: usize = 0;
    while i < items.len()
        invariant
            i <= items.len(),
            *items == data.current_database.items,
            table.well_formed(),
            forall|p: Seq<Seq<char>>, b: bool|
                #![trigger table.counter(p, b)]
                table.counter(p, b) == counted(0, mentions_of_items(items@, p, b)),
            forall|p: Seq<Seq<char>>|
                #![trigger table.marked_virtual(p)]
                table.marked_virtual(p) == (declares(items@, p) && has_virtual_member(items@, p)),
            forall|p: Seq<Seq<char>>|
                #![trigger table.knows(p)]
                table.knows(p) == (table.marked_virtual(p) || mentions_of_items(items@, p, true)
                    + mentions_of_items(items@, p, false) > 0),
            suggestions_view(r@) == advice(items@, data.config, i as nat),
        decreases items.len() - i,
    {
        if let Some(t) = items[i].cpp_data.as_type_ref() {
            if t.kind.is_class() && !data.config.is_movable_type(&t.path) {
                let ghost p = t.path@;
                let stats = table.get(&t.path);
                let place = classify(stats, &data.config.allocation_place_thresholds);
                proof {
                    assert(declares(items@, p));
                    assert(table.marked_virtual(p) == has_virtual_member(items@, p));
                    assert(table.counter(p, true) == counted(0, mentions_of_items(items@, p, true)));
                    assert(table.counter(p, false) == counted(0, mentions_of_items(items@, p, false)));
                    assert(table.knows(p) == (table.marked_virtual(p) || mentions_of_items(items@, p, true)
                        + mentions_of_items(items@, p, false) > 0));
                    assert(table.stats(p) == observed_uses(items@, p));
                }
                let ghost before = suggestions_view(r@);
                r.push(AllocationPlaceSuggestion { path: t.path.clone(), place });
                assert(suggestions_view(r@) =~= before.push(SuggestionModel { path: p, place }));
            }
        }
        i += 1;
    }
    r
}

} // verus!
