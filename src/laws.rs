//! Laws of the generation pass and of the functions it generates.
use vstd::prelude::*;

use crate::attr::{lookup, Lookup};
use crate::descriptor::{describe, from_external_arm_of, DescriptorView};
use crate::generate::{describe_all, generate_of, lemma_describe_all_error_stays};
use crate::model::{Declaration, Variant, WrapErrorView};
use crate::synth::{
    as_external_arms_of, as_external_of, from_external_of, reverse_arms_of, symbol_of,
    try_from_external_of, variant_of, ErrorKind, ExpansionView, ModeView,
};

verus! {

/// `describe_all` succeeds exactly when every variant has a descriptor, and
/// then holds those descriptors in order.
pub proof fn lemma_describe_all_ok(enum_name: Seq<char>, external_enum: Seq<char>, variants: Seq<Variant>)
    ensures
        describe_all(enum_name, external_enum, variants) is Ok
            <==> forall|i: int| 0 <= i < variants.len() ==> describe(enum_name, external_enum, #[trigger] variants[i]) is Ok,
        describe_all(enum_name, external_enum, variants) matches Ok(ds) ==> {
            &&& ds.len() == variants.len()
            &&& forall|i: int| 0 <= i < variants.len()
                ==> describe(enum_name, external_enum, #[trigger] variants[i]) == Ok::<DescriptorView, WrapErrorView>(ds[i])
        },
    decreases variants.len(),
{
    if variants.len() > 0 {
        let prefix = variants.drop_last();
        lemma_describe_all_ok(enum_name, external_enum, prefix);
        assert forall|i: int| 0 <= i < prefix.len() implies prefix[i] == variants[i] by {}
        if describe_all(enum_name, external_enum, prefix) is Err {
            let j = choose|j: int| 0 <= j < prefix.len() && !(describe(enum_name, external_enum, #[trigger] prefix[j]) is Ok);
            assert(variants[j] == prefix[j]);
        }
    }
}

/// When the first descriptor from `from` on whose variant is `v` exists, the
/// first lookup of `v` gives its symbol.
proof fn lemma_symbol_of_declared(ds: Seq<DescriptorView>, v: Seq<char>, from: int, k: int)
    requires
        0 <= from <= k < ds.len(),
        ds[k].variant == v,
    ensures
        symbol_of(ds, v, from) matches Some(s) && exists|i: int| from <= i <= k && ds[i].variant == v && ds[i].symbol == s,
    decreases ds.len() - from,
{
    if ds[from].variant != v {
        lemma_symbol_of_declared(ds, v, from + 1, k);
    }
}

/// A symbol held by exactly one descriptor maps back to that descriptor's
/// variant.
proof fn lemma_variant_of_unique(ds: Seq<DescriptorView>, s: Seq<char>, from: int, k: int)
    requires
        0 <= from <= k < ds.len(),
        ds[k].symbol == s,
        forall|j: int| 0 <= j < ds.len() && j != k ==> ds[j].symbol != s,
    ensures
        variant_of(ds, s, from) == Some(ds[k].variant),
    decreases ds.len() - from,
{
    if from < k {
        lemma_variant_of_unique(ds, s, from + 1, k);
    }
}

/// The reverse lookup gives only a variant whose descriptor holds the
/// symbol, and gives nothing for a symbol that no descriptor holds.
proof fn lemma_variant_of_found(ds: Seq<DescriptorView>, s: Seq<char>, from: int)
    requires
        0 <= from <= ds.len(),
    ensures
        variant_of(ds, s, from) matches Some(v) ==> exists|i: int| from <= i < ds.len() && ds[i].symbol == s && ds[i].variant == v,
        (forall|i: int| from <= i < ds.len() ==> ds[i].symbol != s) ==> variant_of(ds, s, from) is None,
    decreases ds.len() - from,
{
    if from < ds.len() {
        lemma_variant_of_found(ds, s, from + 1);
    }
}

/// For an enumeration of N variants whose attributes are all well formed
/// and that names a default variant, generation succeeds in fallback mode;
/// `as_external` then has exactly N arms, and `from_external` has exactly N
/// explicit arms, one per variant in order, followed by exactly one
/// catch-all arm that returns the default variant.
pub proof fn lemma_fallback_arm_counts(decl: Declaration)
    requires
        decl.body is Enum,
        lookup(decl.attrs@, "wrap"@, "c_enum"@) is Found,
        lookup(decl.attrs@, "wrap"@, "default"@) is Found,
        forall|i: int| 0 <= i < decl.body->Enum_0@.len()
            ==> lookup((#[trigger] decl.body->Enum_0@[i]).attrs@, "wrap"@, "c_variant"@) is Found,
    ensures
        generate_of(decl) matches Ok(e) && {
            let n = decl.body->Enum_0@.len();
            &&& e.mode == ModeView::Fallback(lookup(decl.attrs@, "wrap"@, "default"@)->Found_0)
            &&& as_external_arms_of(e).len() == n
            &&& reverse_arms_of(e).len() == n + 1
            &&& forall|i: int| 0 <= i < n ==> reverse_arms_of(e)[i] == from_external_arm_of(e.descriptors[i])
            &&& reverse_arms_of(e)[n as int].pattern == "_"@
            &&& reverse_arms_of(e)[n as int].body == e.enum_name + "::"@ + lookup(decl.attrs@, "wrap"@, "default"@)->Found_0
        },
{
    let variants = decl.body->Enum_0@;
    let ext = lookup(decl.attrs@, "wrap"@, "c_enum"@)->Found_0;
    lemma_describe_all_ok(decl.name@, ext, variants);
    assert forall|i: int| 0 <= i < variants.len() implies describe(decl.name@, ext, #[trigger] variants[i]) is Ok by {
        assert(lookup(variants[i].attrs@, "wrap"@, "c_variant"@) is Found);
    }
}

/// In fallible mode, `try_from_external` never returns a variant that the
/// declaration does not declare with the given symbol, and it yields
/// `UnexpectedVariant` for every symbol outside the mapped ones.
pub proof fn lemma_try_from_external_declared_only(decl: Declaration, symbol: Seq<char>)
    requires
        generate_of(decl) matches Ok(e) && e.mode is Fallible,
    ensures
        generate_of(decl) matches Ok(e) && {
            let variants = decl.body->Enum_0@;
            &&& try_from_external_of(e, symbol) matches Some(Ok(v)) ==> exists|i: int|
                0 <= i < variants.len() && (#[trigger] variants[i]).name@ == v && e.descriptors[i].symbol == symbol
            &&& (forall|i: int| 0 <= i < e.descriptors.len() ==> e.descriptors[i].symbol != symbol)
                ==> try_from_external_of(e, symbol) == Some(Err::<Seq<char>, ErrorKind>(ErrorKind::UnexpectedVariant))
        },
{
    let e = generate_of(decl)->Ok_0;
    let variants = decl.body->Enum_0@;
    let ext = lookup(decl.attrs@, "wrap"@, "c_enum"@)->Found_0;
    lemma_describe_all_ok(decl.name@, ext, variants);
    lemma_variant_of_found(e.descriptors, symbol, 0);
    if let Some(Ok(v)) = try_from_external_of(e, symbol) {
        let i = choose|i: int| 0 <= i < e.descriptors.len() && e.descriptors[i].symbol == symbol && e.descriptors[i].variant == v;
        assert(describe(decl.name@, ext, variants[i]) == Ok::<DescriptorView, WrapErrorView>(e.descriptors[i]));
    }
}

/// Where no two variants share an external symbol, converting a declared
/// variant to its symbol and back gives the variant again: through
/// `try_from_external` in fallible mode and `from_external` in fallback mode.
pub proof fn lemma_round_trip(decl: Declaration, k: int)
    requires
        generate_of(decl) matches Ok(e) && {
            &&& forall|i: int, j: int| 0 <= i < j < e.descriptors.len() ==> e.descriptors[i].symbol != e.descriptors[j].symbol
            &&& 0 <= k < decl.body->Enum_0@.len()
        },
    ensures
        generate_of(decl) matches Ok(e) && {
            let v = decl.body->Enum_0@[k].name@;
            &&& as_external_of(e, v) matches Some(s) && {
                &&& e.mode is Fallible ==> try_from_external_of(e, s) == Some(Ok::<Seq<char>, ErrorKind>(v))
                &&& e.mode is Fallback ==> from_external_of(e, s) == Some(v)
            }
        },
{
    let e = generate_of(decl)->Ok_0;
    let ds = e.descriptors;
    let variants = decl.body->Enum_0@;
    let ext = lookup(decl.attrs@, "wrap"@, "c_enum"@)->Found_0;
    lemma_describe_all_ok(decl.name@, ext, variants);
    assert(describe(decl.name@, ext, variants[k]) == Ok::<DescriptorView, WrapErrorView>(ds[k]));
    let v = variants[k].name@;
    lemma_symbol_of_declared(ds, v, 0, k);
    let s = symbol_of(ds, v, 0)->Some_0;
    let i = choose|i: int| 0 <= i <= k && ds[i].variant == v && ds[i].symbol == s;
    assert forall|j: int| 0 <= j < ds.len() && j != i implies ds[j].symbol != s by {
        if j < i {
            assert(ds[j].symbol != ds[i].symbol);
        } else {
            assert(ds[i].symbol != ds[j].symbol);
        }
    }
    lemma_variant_of_unique(ds, s, 0, i);
}

/// An enumeration without a top-level `c_enum` attribute aborts with
/// `MissingAttribute` on the enumeration itself, whatever its variants hold.
pub proof fn lemma_missing_external_name(decl: Declaration)
    requires
        decl.body is Enum,
        lookup(decl.attrs@, "wrap"@, "c_enum"@) is Absent,
    ensures
        generate_of(decl) == Err::<ExpansionView, WrapErrorView>(WrapErrorView::MissingAttribute { owner: decl.name@, key: "c_enum"@ }),
{
}

/// When the first variant without a well-formed `c_variant` attribute lacks
/// the attribute altogether, and the top-level attributes are well formed,
/// generation aborts with `MissingAttribute` naming that variant.
pub proof fn lemma_missing_variant_symbol(decl: Declaration, k: int)
    requires
        decl.body is Enum,
        lookup(decl.attrs@, "wrap"@, "c_enum"@) is Found,
        !(lookup(decl.attrs@, "wrap"@, "default"@) is Malformed),
        0 <= k < decl.body->Enum_0@.len(),
        lookup(decl.body->Enum_0@[k].attrs@, "wrap"@, "c_variant"@) is Absent,
        forall|j: int| 0 <= j < k ==> lookup((#[trigger] decl.body->Enum_0@[j]).attrs@, "wrap"@, "c_variant"@) is Found,
    ensures
        generate_of(decl) == Err::<ExpansionView, WrapErrorView>(WrapErrorView::MissingAttribute {
            owner: decl.body->Enum_0@[k].name@,
            key: "c_variant"@,
        }),
{
    let variants = decl.body->Enum_0@;
    let ext = lookup(decl.attrs@, "wrap"@, "c_enum"@)->Found_0;
    let prefix = variants.take(k);
    lemma_describe_all_ok(decl.name@, ext, prefix);
    assert forall|j: int| 0 <= j < prefix.len() implies describe(decl.name@, ext, #[trigger] prefix[j]) is Ok by {
        assert(prefix[j] == variants[j]);
        assert(lookup(variants[j].attrs@, "wrap"@, "c_variant"@) is Found);
    }
    assert(variants.take(k + 1).drop_last() =~= prefix);
    lemma_describe_all_error_stays(decl.name@, ext, variants, k + 1);
}

/// A declaration that is not an enumeration aborts with
/// `UnsupportedDeclarationShape`, whatever its attributes hold.
pub proof fn lemma_struct_rejected(decl: Declaration)
    requires
        decl.body is Struct,
    ensures
        generate_of(decl) == Err::<ExpansionView, WrapErrorView>(WrapErrorView::UnsupportedDeclarationShape),
{
}

} // verus!
