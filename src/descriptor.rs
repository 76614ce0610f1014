//! Per-variant conversion descriptors and the match arms made from them.
use vstd::prelude::*;

use crate::attr::{extract_required, lookup, Lookup};
use crate::model::{result_view, Variant, WrapError, WrapErrorView};
use crate::text::owned;

verus! {

/// One local variant paired with the external symbol it converts to.
pub struct Descriptor {
    pub enum_name: String,
    pub variant: String,
    pub external_enum: String,
    pub symbol: String,
}

pub struct DescriptorView {
    pub enum_name: Seq<char>,
    pub variant: Seq<char>,
    pub external_enum: Seq<char>,
    pub symbol: Seq<char>,
}

impl View for Descriptor {
    type V = DescriptorView;

    open spec fn view(&self) -> DescriptorView {
        DescriptorView {
            enum_name: self.enum_name@,
            variant: self.variant@,
            external_enum: self.external_enum@,
            symbol: self.symbol@,
        }
    }
}

/// One arm of a generated `match`: `pattern => body,`.
pub struct Arm {
    pub pattern: String,
    pub body: String,
}

pub struct ArmView {
    pub pattern: Seq<char>,
    pub body: Seq<char>,
}

impl View for Arm {
    type V = ArmView;

    open spec fn view(&self) -> ArmView {
        ArmView { pattern: self.pattern@, body: self.body@ }
    }
}

/// The external symbol for a suffix: the external enum name, `_`, the suffix.
pub open spec fn external_symbol(external_enum: Seq<char>, suffix: Seq<char>) -> Seq<char> {
    external_enum + "_"@ + suffix
}

/// The descriptor of `variant`, or the error that its attributes give.
pub open spec fn describe(enum_name: Seq<char>, external_enum: Seq<char>, variant: Variant) -> Result<DescriptorView, WrapErrorView> {
    match lookup(variant.attrs@, "wrap"@, "c_variant"@) {
        Lookup::Malformed => Err(WrapErrorView::AttributeShape { owner: variant.name@, key: "c_variant"@ }),
        Lookup::Absent => Err(WrapErrorView::MissingAttribute { owner: variant.name@, key: "c_variant"@ }),
        Lookup::Found(suffix) => Ok(DescriptorView {
            enum_name,
            variant: variant.name@,
            external_enum,
            symbol: external_symbol(external_enum, suffix),
        }),
    }
}

/// The path of the local variant: `Enum::Variant`.
pub open spec fn variant_path(d: DescriptorView) -> Seq<char> {
    d.enum_name + "::"@ + d.variant
}

/// The arm of `as_external` for `d`: local variant to external symbol.
pub open spec fn as_external_arm_of(d: DescriptorView) -> ArmView {
    ArmView { pattern: variant_path(d), body: d.symbol }
}

/// The arm of `from_external` for `d`: external symbol to local variant.
pub open spec fn from_external_arm_of(d: DescriptorView) -> ArmView {
    ArmView { pattern: d.symbol, body: variant_path(d) }
}

/// The arm of `try_from_external` for `d`: external symbol to the local
/// variant wrapped in `Ok`.
pub open spec fn try_from_external_arm_of(d: DescriptorView) -> ArmView {
    ArmView { pattern: d.symbol, body: "Ok("@ + variant_path(d) + ")"@ }
}

impl Descriptor {
    /// Builds the descriptor of `variant` from its `c_variant` attribute
    /// under the `wrap` namespace. The symbol is formed by text alone; no
    /// external symbol table is consulted.
    pub fn build(enum_name: &String, external_enum: &String, variant: &Variant) -> (r: Result<Descriptor, WrapError>)
        ensures
            result_view(r) == describe(enum_name@, external_enum@, *variant),
    {
        let suffix = extract_required(&variant.name, &variant.attrs, "wrap", "c_variant")?;
        let mut symbol = external_enum.clone();
        symbol.append("_");
        symbol.append(suffix.as_str());
        Ok(Descriptor {
            enum_name: enum_name.clone(),
            variant: variant.name.clone(),
            external_enum: external_enum.clone(),
            symbol,
        })
    }

    fn variant_path(&self) -> (r: String)
        ensures
            r@ == variant_path(self@),
    {
        let mut p = self.enum_name.clone();
        p.append("::");
        p.append(self.variant.as_str());
        p
    }

    /// The arm that `as_external` holds for this descriptor.
    pub fn as_external_arm(&self) -> (r: Arm)
        ensures
            r@ == as_external_arm_of(self@),
    {
        Arm { pattern: self.variant_path(), body: self.symbol.clone() }
    }

    /// The arm that `from_external` holds for this descriptor.
    pub fn from_external_arm(&self) -> (r: Arm)
        ensures
            r@ == from_external_arm_of(self@),
    {
        Arm { pattern: self.symbol.clone(), body: self.variant_path() }
    }

    /// The arm that `try_from_external` holds for this descriptor.
    pub fn try_from_external_arm(&self) -> (r: Arm)
        ensures
            r@ == try_from_external_arm_of(self@),
    {
        let mut body = owned("Ok(");
        body.append(self.variant_path().as_str());
        body.append(")");
        Arm { pattern: self.symbol.clone(), body }
    }
}

} // verus!
