//! The validator: pure traversal logic for the boxed/bare consistency rules
//! and the size-hint rules, together with the spec-level description of the
//! exact diagnostic sequence one pass produces.

use crate::diag::{Ctxt, Diagnostic, DiagnosticKind};
use crate::schema::{Container, Data, Field, Location, SizeHint, Variant};
use vstd::prelude::*;

verus! {

/// The diagnostics the size-hint rule yields for one node carrying the
/// given hint: an explicit hint below four bytes is too small, one at or
/// above four that is not a multiple of four is misaligned, and anything
/// else (aligned, computed, or absent) yields nothing.
pub open spec fn hint_diags(location: Location, size_hint: Option<SizeHint>) -> Seq<Diagnostic> {
    match size_hint {
        Option::Some(SizeHint::Explicit { value }) => if value < 4 {
            seq![(Diagnostic { location, kind: DiagnosticKind::SizeHintTooSmall })]
        } else if value % 4 != 0 {
            seq![(Diagnostic { location, kind: DiagnosticKind::SizeHintMisaligned })]
        } else {
            Seq::<Diagnostic>::empty()
        },
        _ => Seq::<Diagnostic>::empty(),
    }
}

/// The diagnostics the boxed/bare rule yields for one enum variant: a
/// variant of a boxed enum must carry a constructor identifier, a variant
/// of a bare enum must not.
pub open spec fn variant_boxed_diags(boxed: bool, v: Variant) -> Seq<Diagnostic> {
    if boxed && v.attrs.id is None {
        seq![(Diagnostic { location: v.location, kind: DiagnosticKind::MissingVariantId })]
    } else if !boxed && v.attrs.id is Some {
        seq![(Diagnostic { location: v.location, kind: DiagnosticKind::UnexpectedVariantId })]
    } else {
        Seq::<Diagnostic>::empty()
    }
}

/// The boxed/bare diagnostics of a whole variant list, in list order. Every
/// variant is checked independently; one non-conforming variant never
/// suppresses the check of another.
pub open spec fn variants_boxed_diags(boxed: bool, vs: Seq<Variant>) -> Seq<Diagnostic>
    decreases vs.len(),
{
    if vs.len() == 0 {
        Seq::<Diagnostic>::empty()
    } else {
        variants_boxed_diags(boxed, vs.drop_last()) + variant_boxed_diags(boxed, vs.last())
    }
}

/// The diagnostics the boxed/bare rule yields at the head of an enum
/// container itself: an enum may not carry a constructor identifier, and a
/// boxed enum must declare at least one variant.
pub open spec fn enum_head_diags(c: Container, vs: Seq<Variant>) -> Seq<Diagnostic> {
    (if c.attrs.id is Some {
        seq![(Diagnostic { location: c.location, kind: DiagnosticKind::ContainerIdNotAllowed })]
    } else {
        Seq::<Diagnostic>::empty()
    }) + (if c.attrs.boxed && vs.len() == 0 {
        seq![(Diagnostic { location: c.location, kind: DiagnosticKind::EmptyBoxedEnum })]
    } else {
        Seq::<Diagnostic>::empty()
    })
}

/// The diagnostics the boxed/bare rule yields for a struct container: a
/// boxed struct must carry a constructor identifier, a bare one must not.
pub open spec fn struct_boxed_diags(c: Container) -> Seq<Diagnostic> {
    if c.attrs.boxed && c.attrs.id is None {
        seq![(Diagnostic { location: c.location, kind: DiagnosticKind::MissingStructId })]
    } else if !c.attrs.boxed && c.attrs.id is Some {
        seq![(Diagnostic { location: c.location, kind: DiagnosticKind::UnexpectedStructId })]
    } else {
        Seq::<Diagnostic>::empty()
    }
}

/// Every diagnostic the boxed/bare rule set yields for one container, in
/// traversal order: container-level findings first, then one entry per
/// non-conforming variant.
pub open spec fn boxed_diags(c: Container) -> Seq<Diagnostic> {
    match c.data {
        Data::Enum(vs) => enum_head_diags(c, vs@) + variants_boxed_diags(c.attrs.boxed, vs@),
        Data::Struct(_) => struct_boxed_diags(c),
    }
}

/// The size-hint diagnostics of a whole variant list, in list order.
pub open spec fn variants_hint_diags(vs: Seq<Variant>) -> Seq<Diagnostic>
    decreases vs.len(),
{
    if vs.len() == 0 {
        Seq::<Diagnostic>::empty()
    } else {
        variants_hint_diags(vs.drop_last()) + hint_diags(
            vs.last().location,
            vs.last().attrs.size_hint,
        )
    }
}

/// The size-hint diagnostics of a whole field list, in list order.
pub open spec fn fields_hint_diags(fs: Seq<Field>) -> Seq<Diagnostic>
    decreases fs.len(),
{
    if fs.len() == 0 {
        Seq::<Diagnostic>::empty()
    } else {
        fields_hint_diags(fs.drop_last()) + hint_diags(
            fs.last().location,
            fs.last().attrs.size_hint,
        )
    }
}

/// Every diagnostic the size-hint rule set yields for one container, in
/// traversal order: the container's own hint first, then the hint of every
/// variant (enum) or of every field (struct).
pub open spec fn size_hint_diags(c: Container) -> Seq<Diagnostic> {
    hint_diags(c.location, c.attrs.size_hint) + match c.data {
        Data::Enum(vs) => variants_hint_diags(vs@),
        Data::Struct(fs) => fields_hint_diags(fs@),
    }
}

/// Every diagnostic one full validation pass reports for `c`, in order:
/// the boxed/bare rule set runs first, then the size-hint rule set, and
/// both always run to completion. The diagnostic context after `check` is
/// empty if and only if this sequence is empty, so this function is the
/// exact meaning of "the schema satisfies every rule".
pub open spec fn validate_diags(c: Container) -> Seq<Diagnostic> {
    boxed_diags(c) + size_hint_diags(c)
}

/// Checks the size hint of one node, recording at most one diagnostic at
/// the node's own location.
pub fn check_size_hint(cx: &mut Ctxt, location: Location, size_hint: &Option<SizeHint>)
    ensures
        final(cx)@ == old(cx)@ + hint_diags(location, *size_hint),
{
    match size_hint {
        Option::Some(SizeHint::Explicit { value }) => {
            if *value < 4 {
                cx.record(location, DiagnosticKind::SizeHintTooSmall);
            } else if *value % 4 != 0 {
                cx.record(location, DiagnosticKind::SizeHintMisaligned);
            }
            proof {
                assert(cx@ =~= old(cx)@ + hint_diags(location, *size_hint));
            }
        },
        _ => {
            proof {
                assert(cx@ =~= old(cx)@ + hint_diags(location, *size_hint));
            }
        },
    }
}

/// Runs the boxed/bare consistency rule set over one container and, for an
/// enum, over every variant, appending exactly the diagnostics that
/// `boxed_diags` describes, in that order.
pub fn check_boxed(cx: &mut Ctxt, container: &Container)
    ensures
        final(cx)@ == old(cx)@ + boxed_diags(*container),
{
    match &container.data {
        Data::Enum(variants) => {
            if container.attrs.id.is_some() {
                cx.record(container.location, DiagnosticKind::ContainerIdNotAllowed);
            }
            if container.attrs.boxed && variants.len() == 0 {
                cx.record(container.location, DiagnosticKind::EmptyBoxedEnum);
            }
            proof {
                assert(cx@ =~= old(cx)@ + enum_head_diags(*container, variants@));
            }
            let ghost head = cx@;
            let boxed = container.attrs.boxed;
            let mut i: usize = 0;
            while i < variants.len()
                invariant
                    i <= variants.len(),
                    cx@ == head + variants_boxed_diags(boxed, variants@.subrange(0, i as int)),
                decreases variants.len() - i,
            {
                let ghost prev = cx@;
                let variant = &variants[i];
                if boxed && variant.attrs.id.is_none() {
                    cx.record(variant.location, DiagnosticKind::MissingVariantId);
                }
                if !boxed && variant.attrs.id.is_some() {
                    cx.record(variant.location, DiagnosticKind::UnexpectedVariantId);
                }
                proof {
                    let pre = variants@.subrange(0, i as int);
                    let cur = variants@.subrange(0, i as int + 1);
                    assert(cur.drop_last() =~= pre);
                    assert(cur.last() == variants@[i as int]);
                    assert(cx@ =~= prev + variant_boxed_diags(boxed, variants@[i as int]));
                    assert(cx@ =~= head + variants_boxed_diags(boxed, cur));
                }
                i = i + 1;
            }
            proof {
                assert(variants@.subrange(0, variants@.len() as int) =~= variants@);
                assert(cx@ =~= old(cx)@ + boxed_diags(*container));
            }
        },
        Data::Struct(_) => {
            if container.attrs.boxed && container.attrs.id.is_none() {
                cx.record(container.location, DiagnosticKind::MissingStructId);
            }
            if !container.attrs.boxed && container.attrs.id.is_some() {
                cx.record(container.location, DiagnosticKind::UnexpectedStructId);
            }
            proof {
                assert(cx@ =~= old(cx)@ + boxed_diags(*container));
            }
        },
    }
}

/// Runs the size-hint rule set over one container and over every nested
/// variant or field, appending exactly the diagnostics that
/// `size_hint_diags` describes, in that order.
pub fn check_size_hints(cx: &mut Ctxt, container: &Container)
    ensures
        final(cx)@ == old(cx)@ + size_hint_diags(*container),
{
    check_size_hint(cx, container.location, &container.attrs.size_hint);
    let ghost head = cx@;
    match &container.data {
        Data::Enum(variants) => {
            let mut i: usize = 0;
            while i < variants.len()
                invariant
                    i <= variants.len(),
                    cx@ == head + variants_hint_diags(variants@.subrange(0, i as int)),
                decreases variants.len() - i,
            {
                let variant = &variants[i];
                check_size_hint(cx, variant.location, &variant.attrs.size_hint);
                proof {
                    let pre = variants@.subrange(0, i as int);
                    let cur = variants@.subrange(0, i as int + 1);
                    assert(cur.drop_last() =~= pre);
                    assert(cur.last() == variants@[i as int]);
                    assert(cx@ =~= head + variants_hint_diags(cur));
                }
                i = i + 1;
            }
            proof {
                assert(variants@.subrange(0, variants@.len() as int) =~= variants@);
                assert(cx@ =~= old(cx)@ + size_hint_diags(*container));
            }
        },
        Data::Struct(fields) => {
            let mut i: usize = 0;
            while i < fields.len()
                invariant
                    i <= fields.len(),
                    cx@ == head + fields_hint_diags(fields@.subrange(0, i as int)),
                decreases fields.len() - i,
            {
                let field = &fields[i];
                check_size_hint(cx, field.location, &field.attrs.size_hint);
                proof {
                    let pre = fields@.subrange(0, i as int);
                    let cur = fields@.subrange(0, i as int + 1);
                    assert(cur.drop_last() =~= pre);
                    assert(cur.last() == fields@[i as int]);
                    assert(cx@ =~= head + fields_hint_diags(cur));
                }
                i = i + 1;
            }
            proof {
                assert(fields@.subrange(0, fields@.len() as int) =~= fields@);
                assert(cx@ =~= old(cx)@ + size_hint_diags(*container));
            }
        },
    }
}

/// The validation entry point: one full pass over a container, running the
/// boxed/bare rule set and then the size-hint rule set, never stopping at
/// the first finding. It appends exactly `validate_diags(*container)` to
/// the context, so the context ends empty if and only if it started empty
/// and the container satisfies every rule.
pub fn check(cx: &mut Ctxt, container: &Container)
    ensures
        final(cx)@ == old(cx)@ + validate_diags(*container),
{
    check_boxed(cx, container);
    check_size_hints(cx, container);
    proof {
        assert(cx@ =~= old(cx)@ + validate_diags(*container));
    }
}

} // verus!
