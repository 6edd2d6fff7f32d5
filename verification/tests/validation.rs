use tl_check::check::check;
use tl_check::diag::{Ctxt, Diagnostic, DiagnosticKind};
use tl_check::schema::{
    Container, ContainerAttrs, Data, Field, FieldAttrs, Location, SizeHint, Variant, VariantAttrs,
};

fn loc(node: u64) -> Location {
    Location { node }
}

fn diag(node: u64, kind: DiagnosticKind) -> Diagnostic {
    Diagnostic { location: loc(node), kind }
}

fn variant(node: u64, id: Option<u32>, size_hint: Option<SizeHint>) -> Variant {
    Variant {
        name: format!("variant_{}", node),
        attrs: VariantAttrs { id, size_hint },
        fields: Vec::new(),
        location: loc(node),
    }
}

fn field(node: u64, size_hint: Option<SizeHint>) -> Field {
    Field {
        name: format!("field_{}", node),
        ty: String::from("u32"),
        attrs: FieldAttrs { size_hint },
        location: loc(node),
    }
}

fn strukt(node: u64, boxed: bool, id: Option<u32>, fields: Vec<Field>) -> Container {
    Container {
        attrs: ContainerAttrs { id, boxed, size_hint: None },
        data: Data::Struct(fields),
        location: loc(node),
    }
}

fn enumeration(node: u64, boxed: bool, id: Option<u32>, variants: Vec<Variant>) -> Container {
    Container {
        attrs: ContainerAttrs { id, boxed, size_hint: None },
        data: Data::Enum(variants),
        location: loc(node),
    }
}

fn run(container: &Container) -> Vec<Diagnostic> {
    let mut cx = Ctxt::new();
    check(&mut cx, container);
    cx.into_diagnostics()
}

#[test]
fn boxed_struct_without_id_reports_missing_id() {
    let c = strukt(1, true, None, Vec::new());
    assert_eq!(run(&c), vec![diag(1, DiagnosticKind::MissingStructId)]);
}

#[test]
fn bare_struct_with_id_reports_unexpected_id() {
    let c = strukt(2, false, Some(0x1), Vec::new());
    assert_eq!(run(&c), vec![diag(2, DiagnosticKind::UnexpectedStructId)]);
}

#[test]
fn consistent_structs_are_clean() {
    let boxed_with_id = strukt(3, true, Some(0xdead_beef), vec![field(4, None)]);
    assert_eq!(run(&boxed_with_id), Vec::new());
    let bare_without_id = strukt(5, false, None, vec![field(6, None)]);
    assert_eq!(run(&bare_without_id), Vec::new());
}

#[test]
fn enum_with_id_reports_it_once_whatever_the_variants() {
    let variants = vec![
        variant(11, Some(0x10), None),
        variant(12, Some(0x11), None),
    ];
    let c = enumeration(10, true, Some(0x2), variants);
    assert_eq!(run(&c), vec![diag(10, DiagnosticKind::ContainerIdNotAllowed)]);
}

#[test]
fn empty_boxed_enum_is_reported() {
    let c = enumeration(20, true, None, Vec::new());
    assert_eq!(run(&c), vec![diag(20, DiagnosticKind::EmptyBoxedEnum)]);
}

#[test]
fn boxed_enum_flags_only_the_variant_missing_an_id() {
    let variants = vec![variant(31, None, None), variant(32, Some(0x1), None)];
    let c = enumeration(30, true, None, variants);
    assert_eq!(run(&c), vec![diag(31, DiagnosticKind::MissingVariantId)]);
}

#[test]
fn bare_enum_flags_only_the_variant_carrying_an_id() {
    let variants = vec![variant(41, None, None), variant(42, Some(0x1), None)];
    let c = enumeration(40, false, None, variants);
    assert_eq!(run(&c), vec![diag(42, DiagnosticKind::UnexpectedVariantId)]);
}

#[test]
fn explicit_hint_of_three_is_too_small() {
    let c = strukt(50, false, None, vec![field(51, Some(SizeHint::Explicit { value: 3 }))]);
    assert_eq!(run(&c), vec![diag(51, DiagnosticKind::SizeHintTooSmall)]);
}

#[test]
fn explicit_hint_of_six_is_misaligned() {
    let c = strukt(52, false, None, vec![field(53, Some(SizeHint::Explicit { value: 6 }))]);
    assert_eq!(run(&c), vec![diag(53, DiagnosticKind::SizeHintMisaligned)]);
}

#[test]
fn explicit_hint_of_eight_is_accepted() {
    let c = strukt(54, false, None, vec![field(55, Some(SizeHint::Explicit { value: 8 }))]);
    assert_eq!(run(&c), Vec::new());
}

#[test]
fn hint_boundaries_around_the_atomic_unit() {
    let zero = strukt(60, false, None, vec![field(61, Some(SizeHint::Explicit { value: 0 }))]);
    assert_eq!(run(&zero), vec![diag(61, DiagnosticKind::SizeHintTooSmall)]);
    let four = strukt(62, false, None, vec![field(63, Some(SizeHint::Explicit { value: 4 }))]);
    assert_eq!(run(&four), Vec::new());
    let five = strukt(64, false, None, vec![field(65, Some(SizeHint::Explicit { value: 5 }))]);
    assert_eq!(run(&five), vec![diag(65, DiagnosticKind::SizeHintMisaligned)]);
}

#[test]
fn largest_hint_values() {
    let max = strukt(
        66,
        false,
        None,
        vec![field(67, Some(SizeHint::Explicit { value: usize::MAX }))],
    );
    assert_eq!(run(&max), vec![diag(67, DiagnosticKind::SizeHintMisaligned)]);
    let max_aligned = strukt(
        68,
        false,
        None,
        vec![field(69, Some(SizeHint::Explicit { value: usize::MAX - 3 }))],
    );
    assert_eq!(run(&max_aligned), Vec::new());
}

#[test]
fn computed_and_absent_hints_are_never_checked() {
    let c = strukt(
        70,
        false,
        None,
        vec![field(71, Some(SizeHint::Computed)), field(72, None)],
    );
    assert_eq!(run(&c), Vec::new());
}

#[test]
fn container_and_variant_hints_are_checked_too() {
    let mut c = strukt(80, true, Some(0x3), Vec::new());
    c.attrs.size_hint = Some(SizeHint::Explicit { value: 2 });
    assert_eq!(run(&c), vec![diag(80, DiagnosticKind::SizeHintTooSmall)]);

    let variants = vec![variant(91, Some(0x1), Some(SizeHint::Explicit { value: 7 }))];
    let e = enumeration(90, true, None, variants);
    assert_eq!(run(&e), vec![diag(91, DiagnosticKind::SizeHintMisaligned)]);
}

#[test]
fn validation_never_short_circuits() {
    let variants = vec![
        variant(101, None, None),
        variant(102, Some(0x1), Some(SizeHint::Explicit { value: 5 })),
    ];
    let c = enumeration(100, true, None, variants);
    assert_eq!(
        run(&c),
        vec![
            diag(101, DiagnosticKind::MissingVariantId),
            diag(102, DiagnosticKind::SizeHintMisaligned),
        ]
    );
}

#[test]
fn all_rule_sets_accumulate_in_traversal_order() {
    let variants = vec![variant(111, None, Some(SizeHint::Explicit { value: 3 }))];
    let c = enumeration(110, true, Some(0x5), variants);
    assert_eq!(
        run(&c),
        vec![
            diag(110, DiagnosticKind::ContainerIdNotAllowed),
            diag(111, DiagnosticKind::MissingVariantId),
            diag(111, DiagnosticKind::SizeHintTooSmall),
        ]
    );
}

#[test]
fn revalidation_yields_an_identical_sequence() {
    let variants = vec![
        variant(121, None, Some(SizeHint::Explicit { value: 6 })),
        variant(122, Some(0x1), None),
    ];
    let c = enumeration(120, true, Some(0x9), variants);
    let first = run(&c);
    let second = run(&c);
    assert!(!first.is_empty());
    assert_eq!(first, second);
}

#[test]
fn context_reports_cleanliness_and_keeps_order() {
    let mut cx = Ctxt::new();
    assert!(cx.is_clean());
    cx.record(loc(1), DiagnosticKind::SizeHintTooSmall);
    assert!(!cx.is_clean());
    cx.record(loc(1), DiagnosticKind::SizeHintTooSmall);
    let listed = cx.diagnostics().clone();
    assert_eq!(
        listed,
        vec![
            diag(1, DiagnosticKind::SizeHintTooSmall),
            diag(1, DiagnosticKind::SizeHintTooSmall),
        ]
    );
    assert_eq!(cx.into_diagnostics(), listed);
}

#[test]
fn each_kind_renders_its_message() {
    let rendered = [
        (
            DiagnosticKind::ContainerIdNotAllowed,
            "identifier not allowed on an enum container",
        ),
        (
            DiagnosticKind::EmptyBoxedEnum,
            "boxed enum must declare at least one variant",
        ),
        (
            DiagnosticKind::MissingVariantId,
            "constructor identifier required for boxed enum variant",
        ),
        (
            DiagnosticKind::UnexpectedVariantId,
            "constructor identifier not allowed for bare enum variant",
        ),
        (
            DiagnosticKind::MissingStructId,
            "constructor identifier required for boxed struct",
        ),
        (
            DiagnosticKind::UnexpectedStructId,
            "constructor identifier requires boxed representation",
        ),
        (DiagnosticKind::SizeHintTooSmall, "size hint is too small"),
        (
            DiagnosticKind::SizeHintMisaligned,
            "size hint must be aligned to 4 bytes",
        ),
    ];
    for (kind, expected) in rendered {
        assert_eq!(kind.message(), *expected);
    }
}
