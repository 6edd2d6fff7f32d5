//! Laws of the validator, stated over the diagnostic sequence that
//! `validate_diags` assigns to a container and proved once and for all.

use crate::check::{
    boxed_diags, enum_head_diags, hint_diags, size_hint_diags, struct_boxed_diags,
    validate_diags, variant_boxed_diags, variants_boxed_diags, variants_hint_diags,
    fields_hint_diags,
};
use crate::diag::{Diagnostic, DiagnosticKind};
use crate::schema::{Container, Data, Field, Location, SizeHint, Variant};
use vstd::prelude::*;

verus! {

/// How many diagnostics of the given kind a sequence holds.
pub open spec fn count_kind(ds: Seq<Diagnostic>, kind: DiagnosticKind) -> nat
    decreases ds.len(),
{
    if ds.len() == 0 {
        0
    } else {
        count_kind(ds.drop_last(), kind) + (if ds.last().kind == kind {
            1nat
        } else {
            0nat
        })
    }
}

/// How many variants of a list lack a constructor identifier.
pub open spec fn variants_without_id(vs: Seq<Variant>) -> nat
    decreases vs.len(),
{
    if vs.len() == 0 {
        0
    } else {
        variants_without_id(vs.drop_last()) + (if vs.last().attrs.id is None {
            1nat
        } else {
            0nat
        })
    }
}

/// How many variants of a list carry a constructor identifier.
pub open spec fn variants_with_id(vs: Seq<Variant>) -> nat
    decreases vs.len(),
{
    if vs.len() == 0 {
        0
    } else {
        variants_with_id(vs.drop_last()) + (if vs.last().attrs.id is Some {
            1nat
        } else {
            0nat
        })
    }
}

proof fn lemma_count_kind_add(a: Seq<Diagnostic>, b: Seq<Diagnostic>, kind: DiagnosticKind)
    ensures
        count_kind(a + b, kind) == count_kind(a, kind) + count_kind(b, kind),
    decreases b.len(),
{
    if b.len() == 0 {
        assert(a + b =~= a);
    } else {
        lemma_count_kind_add(a, b.drop_last(), kind);
        assert((a + b).drop_last() =~= a + b.drop_last());
        assert((a + b).last() == b.last());
    }
}

proof fn lemma_count_kind_singleton(d: Diagnostic, kind: DiagnosticKind)
    ensures
        count_kind(seq![d], kind) == if d.kind == kind {
            1nat
        } else {
            0nat
        },
{
    assert(count_kind(Seq::<Diagnostic>::empty(), kind) == 0);
    assert(seq![d].drop_last() =~= Seq::<Diagnostic>::empty());
    assert(seq![d].last() == d);
}

proof fn lemma_contains_add(x: Seq<Diagnostic>, y: Seq<Diagnostic>, d: Diagnostic)
    requires
        x.contains(d) || y.contains(d),
    ensures
        (x + y).contains(d),
{
    if x.contains(d) {
        let j = choose|j: int| 0 <= j < x.len() && x[j] == d;
        assert((x + y)[j] == d);
    } else {
        let j = choose|j: int| 0 <= j < y.len() && y[j] == d;
        assert((x + y)[x.len() + j] == d);
    }
}

proof fn lemma_hint_count_other(location: Location, size_hint: Option<SizeHint>, kind: DiagnosticKind)
    requires
        kind != DiagnosticKind::SizeHintTooSmall,
        kind != DiagnosticKind::SizeHintMisaligned,
    ensures
        count_kind(hint_diags(location, size_hint), kind) == 0,
{
    match size_hint {
        Option::Some(SizeHint::Explicit { value }) => {
            if value < 4 {
                lemma_count_kind_singleton(
                    Diagnostic { location, kind: DiagnosticKind::SizeHintTooSmall },
                    kind,
                );
            } else if value % 4 != 0 {
                lemma_count_kind_singleton(
                    Diagnostic { location, kind: DiagnosticKind::SizeHintMisaligned },
                    kind,
                );
            }
        },
        _ => {},
    }
}

proof fn lemma_variants_hint_count_other(vs: Seq<Variant>, kind: DiagnosticKind)
    requires
        kind != DiagnosticKind::SizeHintTooSmall,
        kind != DiagnosticKind::SizeHintMisaligned,
    ensures
        count_kind(variants_hint_diags(vs), kind) == 0,
    decreases vs.len(),
{
    if vs.len() != 0 {
        lemma_variants_hint_count_other(vs.drop_last(), kind);
        lemma_hint_count_other(vs.last().location, vs.last().attrs.size_hint, kind);
        lemma_count_kind_add(
            variants_hint_diags(vs.drop_last()),
            hint_diags(vs.last().location, vs.last().attrs.size_hint),
            kind,
        );
    }
}

proof fn lemma_fields_hint_count_other(fs: Seq<Field>, kind: DiagnosticKind)
    requires
        kind != DiagnosticKind::SizeHintTooSmall,
        kind != DiagnosticKind::SizeHintMisaligned,
    ensures
        count_kind(fields_hint_diags(fs), kind) == 0,
    decreases fs.len(),
{
    if fs.len() != 0 {
        lemma_fields_hint_count_other(fs.drop_last(), kind);
        lemma_hint_count_other(fs.last().location, fs.last().attrs.size_hint, kind);
        lemma_count_kind_add(
            fields_hint_diags(fs.drop_last()),
            hint_diags(fs.last().location, fs.last().attrs.size_hint),
            kind,
        );
    }
}

proof fn lemma_variants_boxed_count_other(boxed: bool, vs: Seq<Variant>, kind: DiagnosticKind)
    requires
        kind != DiagnosticKind::MissingVariantId,
        kind != DiagnosticKind::UnexpectedVariantId,
    ensures
        count_kind(variants_boxed_diags(boxed, vs), kind) == 0,
    decreases vs.len(),
{
    if vs.len() != 0 {
        lemma_variants_boxed_count_other(boxed, vs.drop_last(), kind);
        let v = vs.last();
        if boxed && v.attrs.id is None {
            lemma_count_kind_singleton(
                Diagnostic { location: v.location, kind: DiagnosticKind::MissingVariantId },
                kind,
            );
        } else if !boxed && v.attrs.id is Some {
            lemma_count_kind_singleton(
                Diagnostic { location: v.location, kind: DiagnosticKind::UnexpectedVariantId },
                kind,
            );
        }
        lemma_count_kind_add(
            variants_boxed_diags(boxed, vs.drop_last()),
            variant_boxed_diags(boxed, v),
            kind,
        );
    }
}

proof fn lemma_variants_boxed_count_missing(vs: Seq<Variant>)
    ensures
        count_kind(variants_boxed_diags(true, vs), DiagnosticKind::MissingVariantId)
            == variants_without_id(vs),
    decreases vs.len(),
{
    if vs.len() != 0 {
        lemma_variants_boxed_count_missing(vs.drop_last());
        let v = vs.last();
        if v.attrs.id is None {
            lemma_count_kind_singleton(
                Diagnostic { location: v.location, kind: DiagnosticKind::MissingVariantId },
                DiagnosticKind::MissingVariantId,
            );
        }
        lemma_count_kind_add(
            variants_boxed_diags(true, vs.drop_last()),
            variant_boxed_diags(true, v),
            DiagnosticKind::MissingVariantId,
        );
    }
}

proof fn lemma_variants_boxed_count_unexpected(vs: Seq<Variant>)
    ensures
        count_kind(variants_boxed_diags(false, vs), DiagnosticKind::UnexpectedVariantId)
            == variants_with_id(vs),
    decreases vs.len(),
{
    if vs.len() != 0 {
        lemma_variants_boxed_count_unexpected(vs.drop_last());
        let v = vs.last();
        if v.attrs.id is Some {
            lemma_count_kind_singleton(
                Diagnostic { location: v.location, kind: DiagnosticKind::UnexpectedVariantId },
                DiagnosticKind::UnexpectedVariantId,
            );
        }
        lemma_count_kind_add(
            variants_boxed_diags(false, vs.drop_last()),
            variant_boxed_diags(false, v),
            DiagnosticKind::UnexpectedVariantId,
        );
    }
}

proof fn lemma_enum_count_split(c: Container, vs: Vec<Variant>, kind: DiagnosticKind)
    requires
        c.data == Data::Enum(vs),
        kind != DiagnosticKind::SizeHintTooSmall,
        kind != DiagnosticKind::SizeHintMisaligned,
    ensures
        count_kind(validate_diags(c), kind) == count_kind(enum_head_diags(c, vs@), kind)
            + count_kind(variants_boxed_diags(c.attrs.boxed, vs@), kind),
{
    lemma_count_kind_add(boxed_diags(c), size_hint_diags(c), kind);
    lemma_count_kind_add(enum_head_diags(c, vs@), variants_boxed_diags(c.attrs.boxed, vs@), kind);
    lemma_count_kind_add(
        hint_diags(c.location, c.attrs.size_hint),
        variants_hint_diags(vs@),
        kind,
    );
    lemma_hint_count_other(c.location, c.attrs.size_hint, kind);
    lemma_variants_hint_count_other(vs@, kind);
}

proof fn lemma_enum_head_count(c: Container, vs: Seq<Variant>, kind: DiagnosticKind)
    ensures
        count_kind(enum_head_diags(c, vs), kind) == (if c.attrs.id is Some
            && kind == DiagnosticKind::ContainerIdNotAllowed {
            1nat
        } else {
            0nat
        }) + (if c.attrs.boxed && vs.len() == 0 && kind == DiagnosticKind::EmptyBoxedEnum {
            1nat
        } else {
            0nat
        }),
{
    let a = if c.attrs.id is Some {
        seq![(Diagnostic { location: c.location, kind: DiagnosticKind::ContainerIdNotAllowed })]
    } else {
        Seq::<Diagnostic>::empty()
    };
    let b = if c.attrs.boxed && vs.len() == 0 {
        seq![(Diagnostic { location: c.location, kind: DiagnosticKind::EmptyBoxedEnum })]
    } else {
        Seq::<Diagnostic>::empty()
    };
    lemma_count_kind_add(a, b, kind);
    lemma_count_kind_singleton(
        Diagnostic { location: c.location, kind: DiagnosticKind::ContainerIdNotAllowed },
        kind,
    );
    lemma_count_kind_singleton(
        Diagnostic { location: c.location, kind: DiagnosticKind::EmptyBoxedEnum },
        kind,
    );
}

/// Law: an enum container that carries a constructor identifier yields
/// exactly one identifier-not-allowed diagnostic, placed first and at the
/// container itself, whatever its variants hold.
pub proof fn lemma_enum_container_id(c: Container, vs: Vec<Variant>)
    requires
        c.data == Data::Enum(vs),
        c.attrs.id is Some,
    ensures
        count_kind(validate_diags(c), DiagnosticKind::ContainerIdNotAllowed) == 1,
        validate_diags(c)[0] == (Diagnostic {
            location: c.location,
            kind: DiagnosticKind::ContainerIdNotAllowed,
        }),
{
    lemma_enum_count_split(c, vs, DiagnosticKind::ContainerIdNotAllowed);
    lemma_enum_head_count(c, vs@, DiagnosticKind::ContainerIdNotAllowed);
    lemma_variants_boxed_count_other(c.attrs.boxed, vs@, DiagnosticKind::ContainerIdNotAllowed);
    let d = Diagnostic { location: c.location, kind: DiagnosticKind::ContainerIdNotAllowed };
    assert(enum_head_diags(c, vs@)[0] == d);
    assert(boxed_diags(c)[0] == d);
    assert(validate_diags(c)[0] == d);
}

/// Law: a boxed enum container with an empty variant list yields exactly
/// one empty-boxed-enum diagnostic, at the container itself.
pub proof fn lemma_empty_boxed_enum(c: Container, vs: Vec<Variant>)
    requires
        c.data == Data::Enum(vs),
        c.attrs.boxed,
        vs@.len() == 0,
    ensures
        count_kind(validate_diags(c), DiagnosticKind::EmptyBoxedEnum) == 1,
        validate_diags(c).contains((Diagnostic {
            location: c.location,
            kind: DiagnosticKind::EmptyBoxedEnum,
        })),
{
    lemma_enum_count_split(c, vs, DiagnosticKind::EmptyBoxedEnum);
    lemma_enum_head_count(c, vs@, DiagnosticKind::EmptyBoxedEnum);
    lemma_variants_boxed_count_other(c.attrs.boxed, vs@, DiagnosticKind::EmptyBoxedEnum);
    let d = Diagnostic { location: c.location, kind: DiagnosticKind::EmptyBoxedEnum };
    let head = enum_head_diags(c, vs@);
    assert(head[head.len() - 1] == d);
    assert(head.contains(d));
    lemma_contains_add(head, variants_boxed_diags(c.attrs.boxed, vs@), d);
    lemma_contains_add(boxed_diags(c), size_hint_diags(c), d);
}

proof fn lemma_variants_boxed_contains_missing(vs: Seq<Variant>, i: int)
    requires
        0 <= i < vs.len(),
        vs[i].attrs.id is None,
    ensures
        variants_boxed_diags(true, vs).contains((Diagnostic {
            location: vs[i].location,
            kind: DiagnosticKind::MissingVariantId,
        })),
    decreases vs.len(),
{
    let d = Diagnostic { location: vs[i].location, kind: DiagnosticKind::MissingVariantId };
    let pre = variants_boxed_diags(true, vs.drop_last());
    let lastd = variant_boxed_diags(true, vs.last());
    if i == vs.len() - 1 {
        assert(lastd[0] == d);
        assert(lastd.contains(d));
        lemma_contains_add(pre, lastd, d);
    } else {
        assert(vs.drop_last()[i] == vs[i]);
        lemma_variants_boxed_contains_missing(vs.drop_last(), i);
        lemma_contains_add(pre, lastd, d);
    }
}

proof fn lemma_variants_boxed_contains_unexpected(vs: Seq<Variant>, i: int)
    requires
        0 <= i < vs.len(),
        vs[i].attrs.id is Some,
    ensures
        variants_boxed_diags(false, vs).contains((Diagnostic {
            location: vs[i].location,
            kind: DiagnosticKind::UnexpectedVariantId,
        })),
    decreases vs.len(),
{
    let d = Diagnostic { location: vs[i].location, kind: DiagnosticKind::UnexpectedVariantId };
    let pre = variants_boxed_diags(false, vs.drop_last());
    let lastd = variant_boxed_diags(false, vs.last());
    if i == vs.len() - 1 {
        assert(lastd[0] == d);
        assert(lastd.contains(d));
        lemma_contains_add(pre, lastd, d);
    } else {
        assert(vs.drop_last()[i] == vs[i]);
        lemma_variants_boxed_contains_unexpected(vs.drop_last(), i);
        lemma_contains_add(pre, lastd, d);
    }
}

/// Law: in a boxed enum, validation yields one missing-identifier
/// diagnostic per variant that lacks a constructor identifier — no more,
/// so a variant that carries one is never flagged — and each such
/// diagnostic sits at the variant concerned.
pub proof fn lemma_boxed_variant_ids(c: Container, vs: Vec<Variant>)
    requires
        c.data == Data::Enum(vs),
        c.attrs.boxed,
    ensures
        count_kind(validate_diags(c), DiagnosticKind::MissingVariantId) == variants_without_id(
            vs@,
        ),
        forall|i: int|
            0 <= i < vs@.len() && vs@[i].attrs.id is None ==> validate_diags(c).contains(
                (Diagnostic { location: vs@[i].location, kind: DiagnosticKind::MissingVariantId }),
            ),
{
    lemma_enum_count_split(c, vs, DiagnosticKind::MissingVariantId);
    lemma_enum_head_count(c, vs@, DiagnosticKind::MissingVariantId);
    lemma_variants_boxed_count_missing(vs@);
    assert forall|i: int| 0 <= i < vs@.len() && vs@[i].attrs.id is None implies validate_diags(
        c,
    ).contains(
        (Diagnostic { location: vs@[i].location, kind: DiagnosticKind::MissingVariantId }),
    ) by {
        let d = Diagnostic { location: vs@[i].location, kind: DiagnosticKind::MissingVariantId };
        lemma_variants_boxed_contains_missing(vs@, i);
        lemma_contains_add(enum_head_diags(c, vs@), variants_boxed_diags(true, vs@), d);
        lemma_contains_add(boxed_diags(c), size_hint_diags(c), d);
    }
}

/// Law: in a bare enum, validation yields one unexpected-identifier
/// diagnostic per variant that carries a constructor identifier — no more,
/// so a variant without one is never flagged — and each such diagnostic
/// sits at the variant concerned.
pub proof fn lemma_bare_variant_ids(c: Container, vs: Vec<Variant>)
    requires
        c.data == Data::Enum(vs),
        !c.attrs.boxed,
    ensures
        count_kind(validate_diags(c), DiagnosticKind::UnexpectedVariantId) == variants_with_id(
            vs@,
        ),
        forall|i: int|
            0 <= i < vs@.len() && vs@[i].attrs.id is Some ==> validate_diags(c).contains(
                (Diagnostic {
                    location: vs@[i].location,
                    kind: DiagnosticKind::UnexpectedVariantId,
                }),
            ),
{
    lemma_enum_count_split(c, vs, DiagnosticKind::UnexpectedVariantId);
    lemma_enum_head_count(c, vs@, DiagnosticKind::UnexpectedVariantId);
    lemma_variants_boxed_count_unexpected(vs@);
    assert forall|i: int| 0 <= i < vs@.len() && vs@[i].attrs.id is Some implies validate_diags(
        c,
    ).contains(
        (Diagnostic { location: vs@[i].location, kind: DiagnosticKind::UnexpectedVariantId }),
    ) by {
        let d = Diagnostic {
            location: vs@[i].location,
            kind: DiagnosticKind::UnexpectedVariantId,
        };
        lemma_variants_boxed_contains_unexpected(vs@, i);
        lemma_contains_add(enum_head_diags(c, vs@), variants_boxed_diags(false, vs@), d);
        lemma_contains_add(boxed_diags(c), size_hint_diags(c), d);
    }
}

/// Law: a boxed struct without a constructor identifier is flagged exactly
/// once as missing one, a bare struct with an identifier exactly once as
/// carrying an unexpected one, and a consistent struct yields no
/// boxed/bare diagnostic at all.
pub proof fn lemma_struct_id_rules(c: Container, fs: Vec<Field>)
    requires
        c.data == Data::Struct(fs),
    ensures
        count_kind(validate_diags(c), DiagnosticKind::MissingStructId) == (if c.attrs.boxed
            && c.attrs.id is None {
            1nat
        } else {
            0nat
        }),
        count_kind(validate_diags(c), DiagnosticKind::UnexpectedStructId) == (if !c.attrs.boxed
            && c.attrs.id is Some {
            1nat
        } else {
            0nat
        }),
        (c.attrs.boxed <==> c.attrs.id is Some) ==> boxed_diags(c) == Seq::<Diagnostic>::empty(),
{
    lemma_count_kind_add(boxed_diags(c), size_hint_diags(c), DiagnosticKind::MissingStructId);
    lemma_count_kind_add(boxed_diags(c), size_hint_diags(c), DiagnosticKind::UnexpectedStructId);
    lemma_count_kind_add(
        hint_diags(c.location, c.attrs.size_hint),
        fields_hint_diags(fs@),
        DiagnosticKind::MissingStructId,
    );
    lemma_count_kind_add(
        hint_diags(c.location, c.attrs.size_hint),
        fields_hint_diags(fs@),
        DiagnosticKind::UnexpectedStructId,
    );
    lemma_hint_count_other(c.location, c.attrs.size_hint, DiagnosticKind::MissingStructId);
    lemma_hint_count_other(c.location, c.attrs.size_hint, DiagnosticKind::UnexpectedStructId);
    lemma_fields_hint_count_other(fs@, DiagnosticKind::MissingStructId);
    lemma_fields_hint_count_other(fs@, DiagnosticKind::UnexpectedStructId);
    lemma_count_kind_singleton(
        Diagnostic { location: c.location, kind: DiagnosticKind::MissingStructId },
        DiagnosticKind::MissingStructId,
    );
    lemma_count_kind_singleton(
        Diagnostic { location: c.location, kind: DiagnosticKind::MissingStructId },
        DiagnosticKind::UnexpectedStructId,
    );
    lemma_count_kind_singleton(
        Diagnostic { location: c.location, kind: DiagnosticKind::UnexpectedStructId },
        DiagnosticKind::MissingStructId,
    );
    lemma_count_kind_singleton(
        Diagnostic { location: c.location, kind: DiagnosticKind::UnexpectedStructId },
        DiagnosticKind::UnexpectedStructId,
    );
}

/// Law: for one node with an explicit size hint, a value below four bytes
/// is reported exactly as too small, a value of at least four that is not
/// word-aligned exactly as misaligned, and an aligned value not at all.
/// `size_hint_diags` applies this rule to the container and to every
/// nested variant or field.
pub proof fn lemma_size_hint_rule(location: Location, value: usize)
    ensures
        value < 4 ==> hint_diags(location, Some(SizeHint::Explicit { value })) == seq![
            (Diagnostic { location, kind: DiagnosticKind::SizeHintTooSmall }),
        ],
        value >= 4 && value % 4 != 0 ==> hint_diags(location, Some(SizeHint::Explicit { value }))
            == seq![(Diagnostic { location, kind: DiagnosticKind::SizeHintMisaligned })],
        value >= 4 && value % 4 == 0 ==> hint_diags(location, Some(SizeHint::Explicit { value }))
            == Seq::<Diagnostic>::empty(),
{
}

/// Law: validation never stops at the first finding. A boxed enum whose
/// first variant lacks a constructor identifier and whose second carries a
/// misaligned explicit size hint is reported for both, in traversal order:
/// the missing identifier first, the misaligned hint second.
pub proof fn lemma_no_short_circuit(c: Container, vs: Vec<Variant>, a: Variant, b: Variant)
    requires
        c.data == Data::Enum(vs),
        vs@ == seq![a, b],
        c.attrs.boxed,
        c.attrs.id is None,
        c.attrs.size_hint is None,
        a.attrs.id is None,
        a.attrs.size_hint is None,
        b.attrs.id is Some,
        b.attrs.size_hint == Some(SizeHint::Explicit { value: 5 }),
    ensures
        validate_diags(c) == seq![
            (Diagnostic { location: a.location, kind: DiagnosticKind::MissingVariantId }),
            (Diagnostic { location: b.location, kind: DiagnosticKind::SizeHintMisaligned }),
        ],
{
    let da = Diagnostic { location: a.location, kind: DiagnosticKind::MissingVariantId };
    let db = Diagnostic { location: b.location, kind: DiagnosticKind::SizeHintMisaligned };
    assert(vs@.drop_last() =~= seq![a]);
    assert(vs@.last() == b);
    assert(seq![a].drop_last() =~= Seq::<Variant>::empty());
    assert(seq![a].last() == a);
    assert(variant_boxed_diags(true, a) =~= seq![da]);
    assert(variant_boxed_diags(true, b) =~= Seq::<Diagnostic>::empty());
    assert(variants_boxed_diags(true, Seq::<Variant>::empty()) =~= Seq::<Diagnostic>::empty());
    assert(variants_boxed_diags(true, seq![a]) =~= seq![da]);
    assert(variants_boxed_diags(true, vs@) =~= seq![da]);
    assert(enum_head_diags(c, vs@) =~= Seq::<Diagnostic>::empty());
    assert(boxed_diags(c) =~= seq![da]);
    assert(hint_diags(a.location, a.attrs.size_hint) =~= Seq::<Diagnostic>::empty());
    assert(hint_diags(b.location, b.attrs.size_hint) =~= seq![db]);
    assert(variants_hint_diags(Seq::<Variant>::empty()) =~= Seq::<Diagnostic>::empty());
    assert(variants_hint_diags(seq![a]) =~= Seq::<Diagnostic>::empty());
    assert(variants_hint_diags(vs@) =~= seq![db]);
    assert(hint_diags(c.location, c.attrs.size_hint) =~= Seq::<Diagnostic>::empty());
    assert(size_hint_diags(c) =~= seq![db]);
    assert(validate_diags(c) =~= seq![da, db]);
}

/// Law: validation is deterministic, so re-running it on an unchanged
/// schema tree produces an identical diagnostic sequence. `check` appends
/// exactly `validate_diags` of its container, a pure function of the
/// schema alone, so the sequences of any two passes coincide.
pub proof fn lemma_revalidation_identical(
    c: Container,
    first: Seq<Diagnostic>,
    second: Seq<Diagnostic>,
)
    requires
        first == validate_diags(c),
        second == validate_diags(c),
    ensures
        first == second,
{
}

} // verus!
