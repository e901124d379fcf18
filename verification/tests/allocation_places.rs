use ritual::cpp_data::{
    CppFunction, CppFunctionArgument, CppFunctionKind, CppFunctionMemberData, CppItemData,
    CppTypeData, CppTypeDataKind, CppVisibility,
};
use ritual::cpp_type::{
    CppBuiltInNumericType, CppClassType, CppFunctionPointerType, CppPath, CppType,
};
use ritual::database::{
    AllocationPlaceThresholds, Config, Database, DatabaseItem, DatabaseItemSource, ProcessorData,
};
use ritual::type_allocation_places::{
    classify, collect_stats, has_virtual_method, scan_type, set_allocation_places,
    suggest_allocation_places, AllocationPlace, AllocationPlaceSuggestion, IndeterminateReason,
    StatsTable, TypeStats,
};

fn path(text: &str) -> CppPath {
    CppPath::from_str_unchecked(text)
}

fn class(name: &str) -> CppType {
    CppType::Class(CppClassType { path: path(name), template_arguments: None })
}

fn template(name: &str, arguments: Vec<CppType>) -> CppType {
    CppType::Class(CppClassType { path: path(name), template_arguments: Some(arguments) })
}

fn item(cpp_data: CppItemData) -> DatabaseItem {
    DatabaseItem { cpp_data, source: DatabaseItemSource::ImplicitDestructor, ffi_items: None, rust_item: None }
}

fn declaration(name: &str, kind: CppTypeDataKind) -> DatabaseItem {
    item(CppItemData::Type(CppTypeData { path: path(name), kind, doc: None, is_movable: false }))
}

fn member(is_virtual: bool) -> CppFunctionMemberData {
    CppFunctionMemberData {
        kind: CppFunctionKind::Regular,
        is_virtual,
        is_pure_virtual: false,
        is_const: true,
        is_static: false,
        visibility: CppVisibility::Public,
        is_signal: false,
        is_slot: false,
    }
}

fn function(
    name: &str,
    member: Option<CppFunctionMemberData>,
    arguments: Vec<CppType>,
    return_type: CppType,
) -> DatabaseItem {
    item(CppItemData::Function(CppFunction {
        path: path(name),
        member,
        operator: None,
        return_type,
        arguments: arguments
            .into_iter()
            .enumerate()
            .map(|(i, argument_type)| CppFunctionArgument {
                name: format!("arg{}", i),
                argument_type,
                has_default_value: false,
            })
            .collect(),
        allows_variadic_arguments: false,
        declaration_code: None,
        doc: None,
    }))
}

fn data(items: Vec<DatabaseItem>, movable: &[&str]) -> ProcessorData {
    let mut config = Config::new();
    config.movable_types = movable.iter().map(|p| path(p)).collect();
    ProcessorData {
        config,
        current_database: Database { crate_name: "lib".to_string(), items },
        dep_databases: vec![],
    }
}

fn stats(has_virtual_methods: bool, pointers_count: u64, not_pointers_count: u64) -> TypeStats {
    TypeStats { path: path("C"), has_virtual_methods, pointers_count, not_pointers_count }
}

fn suggestion(name: &str, place: AllocationPlace) -> AllocationPlaceSuggestion {
    AllocationPlaceSuggestion { path: path(name), place }
}

const NOT_ENOUGH: AllocationPlace = AllocationPlace::Indeterminate(IndeterminateReason::NotEnoughData);
const MANY_VALUES: AllocationPlace = AllocationPlace::Indeterminate(IndeterminateReason::ManyNonPointers);
const NO_STATS: AllocationPlace = AllocationPlace::Indeterminate(IndeterminateReason::NoStats);

#[test]
fn default_limits_are_five_and_three_tenths() {
    let limits = AllocationPlaceThresholds::default();
    assert_eq!(limits.min_sample_count, 5);
    assert_eq!(limits.max_value_share_numerator, 3);
    assert_eq!(limits.max_value_share_denominator, 10);
    assert_eq!(Config::new().allocation_place_thresholds, limits);
    assert!(Config::new().movable_types().is_empty());
}

#[test]
fn classes_are_classified_by_their_use() {
    let limits = AllocationPlaceThresholds::default();
    assert_eq!(classify(None, &limits), NO_STATS);
    // A virtual method decides, whatever the counters say.
    assert_eq!(classify(Some(&stats(true, 0, 0)), &limits), AllocationPlace::Immovable);
    assert_eq!(classify(Some(&stats(true, 0, 100)), &limits), AllocationPlace::Immovable);
    assert_eq!(classify(Some(&stats(true, 100, 0)), &limits), AllocationPlace::Immovable);
    // Never behind a pointer.
    assert_eq!(classify(Some(&stats(false, 0, 0)), &limits), AllocationPlace::Movable);
    assert_eq!(classify(Some(&stats(false, 0, 1)), &limits), AllocationPlace::Movable);
    assert_eq!(classify(Some(&stats(false, 0, u64::MAX)), &limits), AllocationPlace::Movable);
    // Seen behind a pointer, but too rarely.
    assert_eq!(classify(Some(&stats(false, 1, 0)), &limits), NOT_ENOUGH);
    assert_eq!(classify(Some(&stats(false, 4, 0)), &limits), NOT_ENOUGH);
    assert_eq!(classify(Some(&stats(false, 1, 3)), &limits), NOT_ENOUGH);
    // Seen often enough: the share of the uses outside pointers decides.
    assert_eq!(classify(Some(&stats(false, 5, 0)), &limits), AllocationPlace::Movable);
    assert_eq!(classify(Some(&stats(false, 4, 1)), &limits), AllocationPlace::Movable);
    assert_eq!(classify(Some(&stats(false, 7, 3)), &limits), AllocationPlace::Movable);
    assert_eq!(classify(Some(&stats(false, 3, 2)), &limits), MANY_VALUES);
    assert_eq!(classify(Some(&stats(false, 69, 31)), &limits), MANY_VALUES);
    assert_eq!(classify(Some(&stats(false, 70, 30)), &limits), AllocationPlace::Movable);
    assert_eq!(classify(Some(&stats(false, 1, 4)), &limits), MANY_VALUES);
    assert_eq!(classify(Some(&stats(false, u64::MAX, u64::MAX)), &limits), MANY_VALUES);
    assert_eq!(classify(Some(&stats(false, u64::MAX, 0)), &limits), AllocationPlace::Movable);
    // Other limits.
    let strict = AllocationPlaceThresholds {
        min_sample_count: 2,
        max_value_share_numerator: 1,
        max_value_share_denominator: 2,
    };
    assert_eq!(classify(Some(&stats(false, 1, 0)), &strict), NOT_ENOUGH);
    assert_eq!(classify(Some(&stats(false, 1, 1)), &strict), AllocationPlace::Movable);
    assert_eq!(classify(Some(&stats(false, 1, 2)), &strict), MANY_VALUES);
    let extreme = AllocationPlaceThresholds {
        min_sample_count: u64::MAX,
        max_value_share_numerator: u32::MAX,
        max_value_share_denominator: u32::MAX,
    };
    assert_eq!(classify(Some(&stats(false, u64::MAX, u64::MAX)), &extreme), AllocationPlace::Movable);
    assert_eq!(classify(Some(&stats(false, 1, 1)), &extreme), NOT_ENOUGH);
}

#[test]
fn mentions_are_counted() {
    let mut table = StatsTable::new();
    scan_type(&class("A"), false, &mut table);
    scan_type(&CppType::new_pointer(false, class("A")), false, &mut table);
    scan_type(&CppType::new_reference(true, class("A")), true, &mut table);
    scan_type(&CppType::new_pointer(true, CppType::new_pointer(true, class("B"))), false, &mut table);
    scan_type(
        &CppType::new_pointer(false, template("V", vec![class("A"), CppType::new_pointer(false, class("B"))])),
        false,
        &mut table,
    );
    scan_type(&CppType::Void, true, &mut table);
    scan_type(
        &CppType::FunctionPointer(CppFunctionPointerType {
            return_type: Box::new(class("A")),
            arguments: vec![class("B")],
            allows_variadic_arguments: false,
        }),
        false,
        &mut table,
    );
    let a = table.get(&path("A")).unwrap();
    assert_eq!((a.has_virtual_methods, a.pointers_count, a.not_pointers_count), (false, 1, 3));
    let b = table.get(&path("B")).unwrap();
    assert_eq!((b.pointers_count, b.not_pointers_count), (2, 0));
    let v = table.get(&path("V")).unwrap();
    assert_eq!((v.pointers_count, v.not_pointers_count), (1, 0));
    assert!(table.get(&path("C")).is_none());
    assert_eq!(table.entries.len(), 3);
    assert_eq!(table.find(&path("B")), Some(1));

    table.note_virtual(&path("B"));
    table.note_virtual(&path("D"));
    let b = table.get(&path("B")).unwrap();
    assert_eq!((b.has_virtual_methods, b.pointers_count, b.not_pointers_count), (true, 2, 0));
    let d = table.get(&path("D")).unwrap();
    assert_eq!((d.has_virtual_methods, d.pointers_count, d.not_pointers_count), (true, 0, 0));
    assert_eq!(table.entries.len(), 4);
}

#[test]
fn counters_stop_at_their_limit() {
    let mut table = StatsTable {
        entries: vec![TypeStats {
            path: path("A"),
            has_virtual_methods: false,
            pointers_count: u64::MAX,
            not_pointers_count: u64::MAX - 1,
        }],
    };
    table.note_use(&path("A"), true);
    table.note_use(&path("A"), false);
    table.note_use(&path("A"), false);
    let a = table.get(&path("A")).unwrap();
    assert_eq!((a.pointers_count, a.not_pointers_count), (u64::MAX, u64::MAX));
}

#[test]
fn virtual_members_are_found() {
    let items = vec![
        function("A::f", Some(member(false)), vec![], CppType::Void),
        function("B::g", Some(member(true)), vec![], CppType::Void),
        function("C::h", None, vec![], CppType::Void),
        function("free", Some(member(true)), vec![], CppType::Void),
        function("N::D::k", Some(member(true)), vec![], CppType::Void),
    ];
    assert!(!has_virtual_method(&items, &path("A")));
    assert!(has_virtual_method(&items, &path("B")));
    assert!(!has_virtual_method(&items, &path("C")));
    assert!(!has_virtual_method(&items, &path("free")));
    assert!(has_virtual_method(&items, &path("N::D")));
    assert!(!has_virtual_method(&items, &path("D")));
    assert!(!has_virtual_method(&vec![], &path("B")));
}

#[test]
fn stats_are_collected_from_functions() {
    let items = vec![
        declaration("A", CppTypeDataKind::Class),
        declaration("W", CppTypeDataKind::Class),
        function("A::f", Some(member(true)), vec![class("B")], CppType::new_pointer(false, class("B"))),
        function("U::g", Some(member(true)), vec![], CppType::Void),
        function("free", None, vec![CppType::new_reference(true, class("A"))], class("A")),
    ];
    let table = collect_stats(&items);
    let a = table.get(&path("A")).unwrap();
    assert_eq!((a.has_virtual_methods, a.pointers_count, a.not_pointers_count), (true, 0, 2));
    let b = table.get(&path("B")).unwrap();
    assert_eq!((b.has_virtual_methods, b.pointers_count, b.not_pointers_count), (false, 1, 1));
    // A class that is not declared is not marked, and one that nothing uses has no entry.
    assert!(table.get(&path("U")).is_none());
    assert!(table.get(&path("W")).is_none());
}

#[test]
fn advice_is_given_for_every_class_not_configured() {
    let pointer_to = |name: &str| CppType::new_pointer(false, class(name));
    let items = vec![
        declaration("Value", CppTypeDataKind::Class),
        declaration("Configured", CppTypeDataKind::Class),
        declaration("Flag", CppTypeDataKind::Enum),
        declaration("Poly", CppTypeDataKind::Class),
        function("Poly::run", Some(member(true)), vec![class("Value"), class("Value")], class("Poly")),
        declaration("Rare", CppTypeDataKind::Class),
        function("f1", None, vec![pointer_to("Rare"), pointer_to("Heap")], class("Rare")),
        declaration("Heap", CppTypeDataKind::Class),
        function("f2", None, vec![pointer_to("Heap"), pointer_to("Heap")], pointer_to("Heap")),
        function("f3", None, vec![pointer_to("Heap"), pointer_to("Mixed")], class("Heap")),
        declaration("Mixed", CppTypeDataKind::Class),
        function("f4", None, vec![class("Mixed"), class("Mixed")], pointer_to("Mixed")),
        function("f5", None, vec![pointer_to("Mixed"), pointer_to("Configured")], CppType::Void),
        declaration("Unused", CppTypeDataKind::Class),
        function("f6", None, vec![class("Flag"), pointer_to("Flag")], CppType::Void),
    ];
    let data = data(items, &["Configured"]);
    assert_eq!(
        suggest_allocation_places(&data),
        vec![
            suggestion("Value", AllocationPlace::Movable),
            suggestion("Poly", AllocationPlace::Immovable),
            suggestion("Rare", NOT_ENOUGH),
            suggestion("Heap", AllocationPlace::Movable),
            suggestion("Mixed", MANY_VALUES),
            suggestion("Unused", NO_STATS),
        ]
    );
    assert_eq!(suggest_allocation_places(&self::data(vec![], &[])), vec![]);
}

#[test]
fn configuration_sets_the_allocation_places() {
    let mut movable_enum = declaration("Flag", CppTypeDataKind::Enum);
    if let CppItemData::Type(t) = &mut movable_enum.cpp_data {
        t.is_movable = true;
    }
    let mut was_movable = declaration("Was", CppTypeDataKind::Class);
    if let CppItemData::Type(t) = &mut was_movable.cpp_data {
        t.is_movable = true;
    }
    let items = vec![
        declaration("QPoint", CppTypeDataKind::Class),
        declaration("QObject", CppTypeDataKind::Class),
        movable_enum.clone(),
        function("QPoint::x", Some(member(false)), vec![], CppType::BuiltInNumeric(CppBuiltInNumericType::Int)),
        was_movable,
        declaration("N::Inner", CppTypeDataKind::Class),
    ];
    let mut data = data(items.clone(), &["QPoint", "Flag", "N::Inner", "Missing"]);
    let before = data.clone();
    assert_eq!(set_allocation_places(&mut data), Ok(()));
    let is_movable = |i: usize| match &data.current_database.items[i].cpp_data {
        CppItemData::Type(t) => Some(t.is_movable),
        _ => None,
    };
    assert_eq!(is_movable(0), Some(true));
    assert_eq!(is_movable(1), Some(false));
    // What is no class keeps what it had.
    assert_eq!(data.current_database.items[2], movable_enum);
    assert_eq!(data.current_database.items[3], items[3]);
    assert_eq!(is_movable(4), Some(false));
    assert_eq!(is_movable(5), Some(true));
    assert_eq!(data.current_database.items.len(), 6);
    assert_eq!(data.config, before.config);
    assert_eq!(data.dep_databases, before.dep_databases);
    assert_eq!(data.current_database.crate_name, "lib");
    // A second run changes nothing.
    let once = data.clone();
    assert_eq!(set_allocation_places(&mut data), Ok(()));
    assert_eq!(data, once);
}
