//! The generation pass: from an annotated declaration to the conversion
//! functions of its enumeration.
use vstd::prelude::*;

use crate::attr::{extract, extract_required, lookup, Lookup};
use crate::descriptor::{describe, Descriptor, DescriptorView};
use crate::model::{result_view, Body, Declaration, MetaItem, Variant, WrapError, WrapErrorView};
use crate::synth::{render_of, Expansion, ExpansionView, GenerationMode, ModeView};

verus! {

/// The mode chosen by the optional `default` attribute of `owner`.
pub open spec fn select_of(owner: Seq<char>, attrs: Seq<MetaItem>) -> Result<ModeView, WrapErrorView> {
    match lookup(attrs, "wrap"@, "default"@) {
        Lookup::Malformed => Err(WrapErrorView::AttributeShape { owner, key: "default"@ }),
        Lookup::Absent => Ok(ModeView::Fallible),
        Lookup::Found(v) => Ok(ModeView::Fallback(v)),
    }
}

/// The descriptors of `variants`, in order, or the error of the first
/// variant that has none.
pub open spec fn describe_all(enum_name: Seq<char>, external_enum: Seq<char>, variants: Seq<Variant>) -> Result<Seq<DescriptorView>, WrapErrorView>
    decreases variants.len(),
{
    if variants.len() == 0 {
        Ok(Seq::empty())
    } else {
        match describe_all(enum_name, external_enum, variants.drop_last()) {
            Err(e) => Err(e),
            Ok(ds) => match describe(enum_name, external_enum, variants.last()) {
                Err(e) => Err(e),
                Ok(d) => Ok(ds.push(d)),
            },
        }
    }
}

/// What a generation pass yields for `decl`. The shape is checked first,
/// then the `c_enum` attribute, then the `default` attribute, then each
/// variant in order.
pub open spec fn generate_of(decl: Declaration) -> Result<ExpansionView, WrapErrorView> {
    match decl.body {
        Body::Struct => Err(WrapErrorView::UnsupportedDeclarationShape),
        Body::Enum(variants) => match lookup(decl.attrs@, "wrap"@, "c_enum"@) {
            Lookup::Malformed => Err(WrapErrorView::AttributeShape { owner: decl.name@, key: "c_enum"@ }),
            Lookup::Absent => Err(WrapErrorView::MissingAttribute { owner: decl.name@, key: "c_enum"@ }),
            Lookup::Found(external_enum) => match select_of(decl.name@, decl.attrs@) {
                Err(e) => Err(e),
                Ok(mode) => match describe_all(decl.name@, external_enum, variants@) {
                    Err(e) => Err(e),
                    Ok(descriptors) => Ok(ExpansionView {
                        enum_name: decl.name@,
                        external_enum,
                        descriptors,
                        mode,
                    }),
                },
            },
        },
    }
}

pub open spec fn descriptors_view(ds: Seq<Descriptor>) -> Seq<DescriptorView> {
    ds.map_values(|d: Descriptor| d@)
}

/// Chooses the generation mode from the `default` attribute of `owner`:
/// present gives fallback to the named variant, absent gives fallible. The
/// named variant is not checked against the declared ones.
pub fn select_mode(owner: &String, attrs: &Vec<MetaItem>) -> (r: Result<GenerationMode, WrapError>)
    ensures
        result_view(r) == select_of(owner@, attrs@),
{
    match extract(owner, attrs, "wrap", "default")? {
        Some(v) => Ok(GenerationMode::Fallback(v)),
        None => Ok(GenerationMode::Fallible),
    }
}

/// Once a prefix of the variants fails, the whole list fails with the
/// same error.
pub(crate) proof fn lemma_describe_all_error_stays(enum_name: Seq<char>, external_enum: Seq<char>, variants: Seq<Variant>, i: int)
    requires
        0 <= i <= variants.len(),
        describe_all(enum_name, external_enum, variants.take(i)) is Err,
    ensures
        describe_all(enum_name, external_enum, variants) == describe_all(enum_name, external_enum, variants.take(i)),
    decreases variants.len() - i,
{
    if i < variants.len() {
        assert(variants.take(i + 1).drop_last() =~= variants.take(i));
        lemma_describe_all_error_stays(enum_name, external_enum, variants, i + 1);
    } else {
        assert(variants.take(i) =~= variants);
    }
}

/// Builds one descriptor per variant, in declaration order; the first
/// variant without a well-formed `c_variant` attribute aborts.
pub fn describe_variants(enum_name: &String, external_enum: &String, variants: &Vec<Variant>) -> (r: Result<Vec<Descriptor>, WrapError>)
    ensures
        match r {
            Ok(ds) => describe_all(enum_name@, external_enum@, variants@) == Ok::<Seq<DescriptorView>, WrapErrorView>(descriptors_view(ds@)),
            Err(e) => describe_all(enum_name@, external_enum@, variants@) == Err::<Seq<DescriptorView>, WrapErrorView>(e@),
        },
{
    let mut out: Vec<Descriptor> = Vec::new();
    let mut i: usize = 0;
    proof {
        assert(variants@.take(0) =~= Seq::<Variant>::empty());
        assert(descriptors_view(out@) =~= Seq::<DescriptorView>::empty());
    }
    while i < variants.len()
        invariant
            i <= variants@.len(),
            describe_all(enum_name@, external_enum@, variants@.take(i as int)) == Ok::<Seq<DescriptorView>, WrapErrorView>(descriptors_view(out@)),
        decreases variants@.len() - i,
    {
        proof {
            assert(variants@.take(i + 1).drop_last() =~= variants@.take(i as int));
            assert(variants@.take(i + 1).last() == variants@[i as int]);
        }
        match Descriptor::build(enum_name, external_enum, &variants[i]) {
            Ok(d) => {
                let ghost before = out@;
                let ghost dv = d@;
                out.push(d);
                proof {
                    assert(descriptors_view(out@) =~= descriptors_view(before).push(dv));
                }
            },
            Err(e) => {
                proof {
                    lemma_describe_all_error_stays(enum_name@, external_enum@, variants@, i + 1);
                }
                return Err(e);
            },
        }
        i = i + 1;
    }
    proof {
        assert(variants@.take(variants@.len() as int) =~= variants@);
    }
    Ok(out)
}

/// Analyses `decl` into what its conversion functions are generated from,
/// or the error that aborts the pass.
pub fn generate(decl: &Declaration) -> (r: Result<Expansion, WrapError>)
    ensures
        result_view(r) == generate_of(*decl),
{
    let variants = match &decl.body {
        Body::Enum(variants) => variants,
        Body::Struct => return Err(WrapError::UnsupportedDeclarationShape),
    };
    let external_enum = extract_required(&decl.name, &decl.attrs, "wrap", "c_enum")?;
    let mode = select_mode(&decl.name, &decl.attrs)?;
    let descriptors = describe_variants(&decl.name, &external_enum, variants)?;
    Ok(Expansion { enum_name: decl.name.clone(), external_enum, descriptors, mode })
}

/// Runs a whole generation pass on `decl`: the source text of its
/// conversion functions, or the error that aborts the pass.
pub fn expand(decl: &Declaration) -> (r: Result<String, WrapError>)
    ensures
        match r {
            Ok(text) => generate_of(*decl) matches Ok(e) && text@ == render_of(e),
            Err(err) => generate_of(*decl) == Err::<ExpansionView, WrapErrorView>(err@),
        },
{
    let e = generate(decl)?;
    Ok(e.render())
}

} // verus!
