//! The pass that finds out which declarations can be given a generated item:
//! those whose types are all known to the database.

use crate::cpp_data::{CppFunction, CppItemData, CppTypeDataKind};
use crate::cpp_type::{types_view, CppPath, CppType, CppTypeModel, any_contains_template_parameter};
use crate::database::{deref_items, DatabaseItem, ProcessorData};
use crate::errors::{Error, UnresolvedReason};
use crate::processor::ProcessingStep;
use vstd::prelude::*;
use vstd::string::*;

verus! {

/// Whether `item` declares the type at `path` as a type of kind `kind`.
pub open spec fn declares_type(item: DatabaseItem, path: Seq<Seq<char>>, kind: CppTypeDataKind) -> bool {
    item.cpp_data matches CppItemData::Type(t) && t.path@ == path && t.kind == kind
}

/// Whether one of `items` declares the type at `path` as a type of kind
/// `kind`.
pub open spec fn knows_type(items: Seq<DatabaseItem>, path: Seq<Seq<char>>, kind: CppTypeDataKind) -> bool {
    exists|i: int| 0 <= i < items.len() && declares_type(#[trigger] items[i], path, kind)
}

/// What checking one type against the declarations `items` gives.
///
/// A class has to be declared as a class and its template arguments have to
/// be concrete; an enum has to be declared as an enum; a pointer or reference
/// is as good as its target; a function pointer is as good as its return type
/// and its arguments, the first failure counting; a template parameter is
/// never resolved.
pub open spec fn check_type_result(items: Seq<DatabaseItem>, t: CppTypeModel) -> Result<(), Error>
    decreases t,
{
    match t {
        CppTypeModel::Class { path, template_arguments } => {
            if !knows_type(items, path, CppTypeDataKind::Class) {
                Err(Error::UnresolvedReference(UnresolvedReason::ClassNotFound))
            } else if template_arguments matches Some(args) && (exists|i: int|
                0 <= i < args.len() && (#[trigger] args[i]).contains_template_parameter()) {
                Err(Error::UnresolvedReference(UnresolvedReason::TemplateParameter))
            } else {
                Ok(())
            }
        },
        CppTypeModel::Enum { path } => {
            if !knows_type(items, path, CppTypeDataKind::Enum) {
                Err(Error::UnresolvedReference(UnresolvedReason::EnumNotFound))
            } else {
                Ok(())
            }
        },
        CppTypeModel::PointerLike { target, .. } => check_type_result(items, *target),
        CppTypeModel::FunctionPointer { return_type, arguments, .. } => {
            match check_type_result(items, *return_type) {
                Err(e) => Err(e),
                Ok(_) => check_types_result(items, arguments),
            }
        },
        CppTypeModel::TemplateParameter { .. } => Err(
            Error::UnresolvedReference(UnresolvedReason::TemplateParameter),
        ),
        _ => Ok(()),
    }
}

/// What checking the types `ts` one after another gives: the first failure,
/// or success when there is none.
pub open spec fn check_types_result(items: Seq<DatabaseItem>, ts: Seq<CppTypeModel>) -> Result<(), Error>
    decreases ts,
{
    if ts.len() == 0 {
        Ok(())
    } else {
        match check_type_result(items, ts.first()) {
            Err(e) => Err(e),
            Ok(_) => check_types_result(items, ts.drop_first()),
        }
    }
}

/// What checking a declaration gives: the check of every type it mentions.
pub open spec fn resolvable_result(items: Seq<DatabaseItem>, item: CppItemData) -> Result<(), Error> {
    check_types_result(items, item.involved_types())
}

/// Whether one of the declarations declares the type at `path` as a type of
/// kind `kind`.
pub fn has_type(all_items: &[&DatabaseItem], path: &CppPath, kind: CppTypeDataKind) -> (r: bool)
    ensures
        r == knows_type(deref_items(all_items@), path@, kind),
{
    let mut i: usize = 0;
    while i < all_items.len()
        invariant
            i <= all_items.len(),
            forall|j: int| 0 <= j < i ==> !declares_type(#[trigger] deref_items(all_items@)[j], path@, kind),
        decreases all_items.len() - i,
    {
        let found = match all_items[i].cpp_data.as_type_ref() {
            Some(t) => {
                let same_kind = match kind {
                    CppTypeDataKind::Class => t.kind.is_class(),
                    CppTypeDataKind::Enum => t.kind.is_enum(),
                };
                t.path.same_as(path) && same_kind
            },
            None => false,
        };
        assert(found == declares_type(deref_items(all_items@)[i as int], path@, kind));
        if found {
            return true;
        }
        i += 1;
    }
    false
}

/// Checks the types of `types` one after another and stops at the first
/// that fails.
pub fn check_types(all_items: &[&DatabaseItem], types: &Vec<CppType>) -> (r: Result<(), Error>)
    ensures
        r == check_types_result(deref_items(all_items@), types_view(types@)),
    decreases types,
{
    let ghost items = deref_items(all_items@);
    let ghost ts = types_view(types@);
    assert(ts.subrange(0, ts.len() as int) =~= ts);
    let mut i: usize = 0;
    while i < types.len()
        invariant
            i <= types.len(),
            items == deref_items(all_items@),
            ts == types_view(types@),
            check_types_result(items, ts) == check_types_result(items, ts.subrange(i as int, ts.len() as int)),
        decreases types.len() - i,
    {
        let ghost rest = ts.subrange(i as int, ts.len() as int);
        proof {
            assert(rest.first() == types[i as int]@);
            assert(rest.drop_first() =~= ts.subrange(i + 1, ts.len() as int));
        }
        match check_type(all_items, &types[i]) {
            Err(e) => {
                return Err(e);
            },
            Ok(_) => {},
        }
        i += 1;
    }
    Ok(())
}

/// Checks that the database knows everything `cpp_type` mentions.
pub fn check_type(all_items: &[&DatabaseItem], cpp_type: &CppType) -> (r: Result<(), Error>)
    ensures
        r == check_type_result(deref_items(all_items@), cpp_type@),
    decreases cpp_type,
{
    proof {
        cpp_type.lemma_model_children();
    }
    match cpp_type {
        CppType::Class(c) => {
            if !has_type(all_items, &c.path, CppTypeDataKind::Class) {
                return Err(Error::UnresolvedReference(UnresolvedReason::ClassNotFound));
            }
            if let Some(ref template_arguments) = c.template_arguments {
                proof {
                    let given = cpp_type@->Class_template_arguments->0;
                    assert(given == types_view(template_arguments@));
                }
                if any_contains_template_parameter(template_arguments) {
                    return Err(Error::UnresolvedReference(UnresolvedReason::TemplateParameter));
                }
            }
            Ok(())
        },
        CppType::Enum { path } => {
            if !has_type(all_items, path, CppTypeDataKind::Enum) {
                return Err(Error::UnresolvedReference(UnresolvedReason::EnumNotFound));
            }
            Ok(())
        },
        CppType::PointerLike { target, .. } => check_type(all_items, target),
        CppType::FunctionPointer(t) => {
            match check_type(all_items, &t.return_type) {
                Err(e) => Err(e),
                Ok(_) => check_types(all_items, &t.arguments),
            }
        },
        CppType::TemplateParameter { .. } => Err(
            Error::UnresolvedReference(UnresolvedReason::TemplateParameter),
        ),
        _ => Ok(()),
    }
}

/// Checks that the database knows every type the declaration mentions.
pub fn is_cpp_item_resolvable(all_items: &[&DatabaseItem], item: &CppItemData) -> (r: Result<(), Error>)
    ensures
        r == resolvable_result(deref_items(all_items@), *item),
{
    let types = item.all_involved_types();
    check_types(all_items, &types)
}

/// A declaration that the pass had to leave without a generated item.
#[derive(Debug, Clone, Copy, PartialEq, Eq, Structural)]
pub struct SkippedItem {
    /// The position of the declaration in the current database.
    pub index: usize,
    /// Why it was skipped.
    pub error: Error,
}

/// The declarations among the first `count` of `current` that still lack a
/// generated item and cannot be resolved against `all`, in their order.
pub open spec fn skipped_items(all: Seq<DatabaseItem>, current: Seq<DatabaseItem>, count: nat) -> Seq<
    SkippedItem,
>
    decreases count,
{
    if count == 0 || count > current.len() {
        Seq::empty()
    } else {
        let index = (count - 1) as nat;
        let before = skipped_items(all, current, index);
        let item = current[index as int];
        if item.rust_item is None && resolvable_result(all, item.cpp_data) is Err {
            before.push(
                SkippedItem { index: index as usize, error: resolvable_result(all, item.cpp_data)->Err_0 },
            )
        } else {
            before
        }
    }
}

/// Runs the pass: goes through the declarations of the current database that
/// have no generated item yet and reports those that cannot be resolved.
/// A declaration that cannot be resolved does not stop the pass.
pub fn run(data: &ProcessorData) -> (r: Vec<SkippedItem>)
    ensures
        r@ == skipped_items(
            data.all_items_view(),
            data.current_database.items@,
            data.current_database.items@.len(),
        ),
{
    let all_items = data.all_items();
    let mut r: Vec<SkippedItem> = Vec::new();
    let mut i: usize = 0;
    while i < data.current_database.items.len()
        invariant
            i <= data.current_database.items.len(),
            deref_items(all_items@) == data.all_items_view(),
            r@ == skipped_items(data.all_items_view(), data.current_database.items@, i as nat),
        decreases data.current_database.items.len() - i,
    {
        let item = &data.current_database.items[i];
        if item.rust_item.is_none() {
            match is_cpp_item_resolvable(all_items.as_slice(), &item.cpp_data) {
                Ok(_) => {},
                Err(error) => {
                    r.push(SkippedItem { index: i, error });
                },
            }
        }
        i += 1;
    }
    r
}

/// The pass as the pipeline sees it: its name and the passes that have to
/// run before it.
pub fn rust_name_resolver_step() -> (r: ProcessingStep)
    ensures
        r.name@ == "rust_name_resolver"@,
        r.dependencies@.len() == 1,
        r.dependencies@[0]@ == "cpp_checker"@,
{
    let mut dependencies: Vec<String> = Vec::new();
    dependencies.push("cpp_checker".to_owned());
    ProcessingStep::new("rust_name_resolver", dependencies)
}

/// A class that no declaration declares makes every function that takes it
/// unresolvable.
pub proof fn lemma_unknown_class_is_rejected(
    items: Seq<DatabaseItem>,
    ts: Seq<CppTypeModel>,
    k: int,
)
    requires
        0 <= k < ts.len(),
        ts[k] matches CppTypeModel::Class { path, .. } && !knows_type(items, path, CppTypeDataKind::Class),
    ensures
        check_types_result(items, ts) is Err,
    decreases ts.len(),
{
    if k > 0 {
        assert(ts.drop_first()[k - 1] == ts[k]);
        lemma_unknown_class_is_rejected(items, ts.drop_first(), k - 1);
    } else {
        assert(ts.first() == ts[0]);
        assert(check_type_result(items, ts.first()) is Err);
    }
}

/// What the database knows it goes on knowing when declarations are added.
pub proof fn lemma_known_type_stays_known(
    items: Seq<DatabaseItem>,
    more: Seq<DatabaseItem>,
    path: Seq<Seq<char>>,
    kind: CppTypeDataKind,
)
    requires
        knows_type(items, path, kind),
    ensures
        knows_type(items + more, path, kind),
{
    let i = choose|i: int| 0 <= i < items.len() && declares_type(#[trigger] items[i], path, kind);
    assert((items + more)[i] == items[i]);
}

/// A type that resolves goes on resolving when declarations are added.
pub proof fn lemma_resolved_type_stays_resolved(
    items: Seq<DatabaseItem>,
    more: Seq<DatabaseItem>,
    t: CppTypeModel,
)
    requires
        check_type_result(items, t) is Ok,
    ensures
        check_type_result(items + more, t) is Ok,
    decreases t,
{
    match t {
        CppTypeModel::Class { path, .. } => {
            lemma_known_type_stays_known(items, more, path, CppTypeDataKind::Class);
        },
        CppTypeModel::Enum { path } => {
            lemma_known_type_stays_known(items, more, path, CppTypeDataKind::Enum);
        },
        CppTypeModel::PointerLike { target, .. } => {
            lemma_resolved_type_stays_resolved(items, more, *target);
        },
        CppTypeModel::FunctionPointer { return_type, arguments, .. } => {
            lemma_resolved_type_stays_resolved(items, more, *return_type);
            lemma_resolved_types_stay_resolved(items, more, arguments);
        },
        _ => {},
    }
}

/// Types that resolve go on resolving when declarations are added.
pub proof fn lemma_resolved_types_stay_resolved(
    items: Seq<DatabaseItem>,
    more: Seq<DatabaseItem>,
    ts: Seq<CppTypeModel>,
)
    requires
        check_types_result(items, ts) is Ok,
    ensures
        check_types_result(items + more, ts) is Ok,
    decreases ts,
{
    if ts.len() > 0 {
        lemma_resolved_type_stays_resolved(items, more, ts.first());
        lemma_resolved_types_stay_resolved(items, more, ts.drop_first());
    }
}

/// A declaration whose only obstacle is a class that is not declared
/// resolves once a declaration of that class is added: here for a function
/// whose types, but for uses of the class `path` without template arguments,
/// resolve already.
pub proof fn lemma_registering_class_resolves(
    items: Seq<DatabaseItem>,
    declaration: DatabaseItem,
    path: Seq<Seq<char>>,
    ts: Seq<CppTypeModel>,
)
    requires
        declares_type(declaration, path, CppTypeDataKind::Class),
        forall|i: int|
            0 <= i < ts.len() ==> {
                ||| #[trigger] ts[i] == (CppTypeModel::Class { path, template_arguments: None })
                ||| check_type_result(items, ts[i]) is Ok
            },
    ensures
        check_types_result(items.push(declaration), ts) is Ok,
    decreases ts.len(),
{
    let after = items.push(declaration);
    if ts.len() > 0 {
        let first = ts.first();
        assert(first == ts[0]);
        if first == (CppTypeModel::Class { path, template_arguments: None }) {
            assert(declares_type(after[items.len() as int], path, CppTypeDataKind::Class));
            assert(knows_type(after, path, CppTypeDataKind::Class));
            assert(check_type_result(after, first) is Ok);
        } else {
            assert(after =~= items + seq![declaration]);
            lemma_resolved_type_stays_resolved(items, seq![declaration], first);
        }
        assert forall|i: int| 0 <= i < ts.drop_first().len() implies {
            ||| #[trigger] ts.drop_first()[i] == (CppTypeModel::Class { path, template_arguments: None })
            ||| check_type_result(items, ts.drop_first()[i]) is Ok
        } by {
            assert(ts.drop_first()[i] == ts[i + 1]);
        }
        lemma_registering_class_resolves(items, declaration, path, ts.drop_first());
        assert(check_type_result(after, first) is Ok);
    }
}


/// A function with an argument of a class that no declaration declares is
/// not resolvable.
pub proof fn lemma_unregistered_class_rejects_function(items: Seq<DatabaseItem>, f: CppFunction, k: int)
    requires
        0 <= k < f.arguments.len(),
        f.arguments[k].argument_type@ matches CppTypeModel::Class { path, .. } && !knows_type(
            items,
            path,
            CppTypeDataKind::Class,
        ),
    ensures
        resolvable_result(items, CppItemData::Function(f)) is Err,
{
    let ts = f.involved_types();
    assert(ts[k] == f.arguments[k].argument_type@);
    lemma_unknown_class_is_rejected(items, ts, k);
}

/// Once the class is declared, a function that was held up by nothing but
/// uses of that class is resolvable: every type it involves is the class
/// `path` itself or resolved already.
pub proof fn lemma_registration_resolves_function(
    items: Seq<DatabaseItem>,
    declaration: DatabaseItem,
    path: Seq<Seq<char>>,
    f: CppFunction,
)
    requires
        declares_type(declaration, path, CppTypeDataKind::Class),
        forall|i: int|
            0 <= i < f.involved_types().len() ==> {
                ||| #[trigger] f.involved_types()[i] == (CppTypeModel::Class { path, template_arguments: None })
                ||| check_type_result(items, f.involved_types()[i]) is Ok
            },
    ensures
        resolvable_result(items.push(declaration), CppItemData::Function(f)) is Ok,
{
    lemma_registering_class_resolves(items, declaration, path, f.involved_types());
}

} // verus!
