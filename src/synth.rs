//! The generated conversion functions: their match arms, their source text,
//! and what they compute.
use vstd::prelude::*;

use crate::descriptor::{
    as_external_arm_of, from_external_arm_of, try_from_external_arm_of, Arm, ArmView,
    Descriptor, DescriptorView,
};
use crate::model::opt_text;
use crate::text::{owned, same_text};

verus! {

/// How unmapped external values are converted back.
pub enum GenerationMode {
    /// `from_external` is generated; unmapped values become the named variant.
    Fallback(String),
    /// `try_from_external` is generated; unmapped values are an error.
    Fallible,
}

pub enum ModeView {
    Fallback(Seq<char>),
    Fallible,
}

impl View for GenerationMode {
    type V = ModeView;

    open spec fn view(&self) -> ModeView {
        match self {
            GenerationMode::Fallback(v) => ModeView::Fallback(v@),
            GenerationMode::Fallible => ModeView::Fallible,
        }
    }
}

/// The failure that a generated `try_from_external` yields.
#[derive(Debug, Clone, Copy, PartialEq, Eq)]
pub enum ErrorKind {
    UnexpectedVariant,
}

/// Everything the conversion functions of one enumeration are generated from.
pub struct Expansion {
    pub enum_name: String,
    pub external_enum: String,
    pub descriptors: Vec<Descriptor>,
    pub mode: GenerationMode,
}

pub struct ExpansionView {
    pub enum_name: Seq<char>,
    pub external_enum: Seq<char>,
    pub descriptors: Seq<DescriptorView>,
    pub mode: ModeView,
}

impl View for Expansion {
    type V = ExpansionView;

    open spec fn view(&self) -> ExpansionView {
        ExpansionView {
            enum_name: self.enum_name@,
            external_enum: self.external_enum@,
            descriptors: self.descriptors@.map_values(|d: Descriptor| d@),
            mode: self.mode@,
        }
    }
}

pub open spec fn arms_view(arms: Seq<Arm>) -> Seq<ArmView> {
    arms.map_values(|a: Arm| a@)
}

/// The arms of `as_external`: one per descriptor, in order.
pub open spec fn as_external_arms_of(e: ExpansionView) -> Seq<ArmView> {
    e.descriptors.map_values(|d: DescriptorView| as_external_arm_of(d))
}

/// The text of the error that an unmapped value gives in fallible mode.
pub open spec fn unexpected_variant_text() -> Seq<char> {
    "Err(Error::from_kind(ErrorKind::UnexpectedVariant))"@
}

/// The catch-all arm that closes the reverse conversion.
pub open spec fn catch_all_arm_of(e: ExpansionView) -> ArmView {
    match e.mode {
        ModeView::Fallback(v) => ArmView { pattern: "_"@, body: e.enum_name + "::"@ + v },
        ModeView::Fallible => ArmView { pattern: "_"@, body: unexpected_variant_text() },
    }
}

/// The arms of the reverse conversion: one per descriptor, in order, then
/// the catch-all arm. Symbols are not checked for uniqueness: where two
/// descriptors share one, only the earlier arm is ever reached.
pub open spec fn reverse_arms_of(e: ExpansionView) -> Seq<ArmView> {
    match e.mode {
        ModeView::Fallback(_) => e.descriptors.map_values(|d: DescriptorView| from_external_arm_of(d)),
        ModeView::Fallible => e.descriptors.map_values(|d: DescriptorView| try_from_external_arm_of(d)),
    }.push(catch_all_arm_of(e))
}

/// The symbol of the first descriptor at or after `from` whose variant is
/// `variant`.
pub open spec fn symbol_of(ds: Seq<DescriptorView>, variant: Seq<char>, from: int) -> Option<Seq<char>>
    decreases ds.len() - from,
{
    if 0 <= from < ds.len() {
        if ds[from].variant == variant {
            Some(ds[from].symbol)
        } else {
            symbol_of(ds, variant, from + 1)
        }
    } else {
        None
    }
}

/// The variant of the first descriptor at or after `from` whose symbol is
/// `symbol`.
pub open spec fn variant_of(ds: Seq<DescriptorView>, symbol: Seq<char>, from: int) -> Option<Seq<char>>
    decreases ds.len() - from,
{
    if 0 <= from < ds.len() {
        if ds[from].symbol == symbol {
            Some(ds[from].variant)
        } else {
            variant_of(ds, symbol, from + 1)
        }
    } else {
        None
    }
}

/// What the generated `as_external` returns for `variant` (`None` where no
/// such variant is declared).
pub open spec fn as_external_of(e: ExpansionView, variant: Seq<char>) -> Option<Seq<char>> {
    symbol_of(e.descriptors, variant, 0)
}

/// What the generated `from_external` returns for `symbol` (`None` where
/// the mode generates no `from_external`).
pub open spec fn from_external_of(e: ExpansionView, symbol: Seq<char>) -> Option<Seq<char>> {
    match e.mode {
        ModeView::Fallback(default) => match variant_of(e.descriptors, symbol, 0) {
            Some(v) => Some(v),
            None => Some(default),
        },
        ModeView::Fallible => None,
    }
}

/// What the generated `try_from_external` returns for `symbol` (`None`
/// where the mode generates no `try_from_external`).
pub open spec fn try_from_external_of(e: ExpansionView, symbol: Seq<char>) -> Option<Result<Seq<char>, ErrorKind>> {
    match e.mode {
        ModeView::Fallible => match variant_of(e.descriptors, symbol, 0) {
            Some(v) => Some(Ok(v)),
            None => Some(Err(ErrorKind::UnexpectedVariant)),
        },
        ModeView::Fallback(_) => None,
    }
}

} // verus!

verus! {

/// One line of generated source for an arm.
pub open spec fn arm_line(a: ArmView) -> Seq<char> {
    "            "@ + a.pattern + " => "@ + a.body + ",\n"@
}

/// The lines of all arms, in order.
pub open spec fn arms_text(arms: Seq<ArmView>) -> Seq<char>
    decreases arms.len(),
{
    if arms.len() == 0 {
        Seq::empty()
    } else {
        arms_text(arms.drop_last()) + arm_line(arms.last())
    }
}

/// The opening of the reverse conversion function, up to its arms.
pub open spec fn reverse_header(e: ExpansionView) -> Seq<char> {
    match e.mode {
        ModeView::Fallback(_) => "\n    /// Returns the variant for an external value; unmapped values give the default variant.\n    pub fn from_external(value: "@
            + e.external_enum + ") -> Self {\n        match value {\n"@,
        ModeView::Fallible => "\n    /// Returns the variant for an external value.\n    ///\n    /// # Errors\n    /// * `UnexpectedVariant`, where the value maps to no variant.\n    pub fn try_from_external(value: "@
            + e.external_enum + ") -> Result<Self, Error> {\n        match value {\n"@,
    }
}

/// The generated source text: an inherent impl holding `as_external` and
/// the reverse conversion.
pub open spec fn render_of(e: ExpansionView) -> Seq<char> {
    "impl "@ + e.enum_name + " {\n    /// Returns the external value that corresponds to this variant.\n    pub fn as_external(&self) -> "@
        + e.external_enum + " {\n        match *self {\n"@
        + arms_text(as_external_arms_of(e))
        + "        }\n    }\n"@
        + reverse_header(e)
        + arms_text(reverse_arms_of(e))
        + "        }\n    }\n}\n"@
}

fn push_arms(out: &mut String, arms: &Vec<Arm>)
    ensures
        final(out)@ == old(out)@ + arms_text(arms_view(arms@)),
{
    let ghost start = out@;
    let mut i: usize = 0;
    while i < arms.len()
        invariant
            i <= arms@.len(),
            out@ == start + arms_text(arms_view(arms@.take(i as int))),
        decreases arms@.len() - i,
    {
        proof {
            let t = arms_view(arms@.take(i + 1));
            assert(t.drop_last() =~= arms_view(arms@.take(i as int)));
            assert(t.last() == arms@[i as int]@);
        }
        out.append("            ");
        out.append(arms[i].pattern.as_str());
        out.append(" => ");
        out.append(arms[i].body.as_str());
        out.append(",\n");
        i = i + 1;
    }
    proof {
        assert(arms@.take(arms@.len() as int) =~= arms@);
    }
}

impl Expansion {
    /// The arms of the generated `as_external`.
    pub fn as_external_arms(&self) -> (r: Vec<Arm>)
        ensures
            arms_view(r@) == as_external_arms_of(self@),
    {
        let mut r: Vec<Arm> = Vec::new();
        let mut i: usize = 0;
        while i < self.descriptors.len()
            invariant
                i <= self.descriptors@.len(),
                r@.len() == i,
                forall|k: int| 0 <= k < i ==> r@[k]@ == as_external_arm_of(self.descriptors@[k]@),
            decreases self.descriptors@.len() - i,
        {
            r.push(self.descriptors[i].as_external_arm());
            i = i + 1;
        }
        proof {
            assert(arms_view(r@) =~= as_external_arms_of(self@));
        }
        r
    }

    /// The catch-all arm of the generated reverse conversion.
    pub fn catch_all_arm(&self) -> (r: Arm)
        ensures
            r@ == catch_all_arm_of(self@),
    {
        match &self.mode {
            GenerationMode::Fallback(v) => {
                let mut body = self.enum_name.clone();
                body.append("::");
                body.append(v.as_str());
                Arm { pattern: owned("_"), body }
            },
            GenerationMode::Fallible => Arm {
                pattern: owned("_"),
                body: owned("Err(Error::from_kind(ErrorKind::UnexpectedVariant))"),
            },
        }
    }

    /// The arms of the generated reverse conversion, `from_external` in
    /// fallback mode and `try_from_external` in fallible mode.
    pub fn reverse_arms(&self) -> (r: Vec<Arm>)
        ensures
            arms_view(r@) == reverse_arms_of(self@),
    {
        let mut r: Vec<Arm> = Vec::new();
        let mut i: usize = 0;
        while i < self.descriptors.len()
            invariant
                i <= self.descriptors@.len(),
                r@.len() == i,
                forall|k: int| 0 <= k < i ==> r@[k]@ == (match self@.mode {
                    ModeView::Fallback(_) => from_external_arm_of(self.descriptors@[k]@),
                    ModeView::Fallible => try_from_external_arm_of(self.descriptors@[k]@),
                }),
            decreases self.descriptors@.len() - i,
        {
            let arm = match &self.mode {
                GenerationMode::Fallback(_) => self.descriptors[i].from_external_arm(),
                GenerationMode::Fallible => self.descriptors[i].try_from_external_arm(),
            };
            r.push(arm);
            i = i + 1;
        }
        r.push(self.catch_all_arm());
        proof {
            assert(arms_view(r@) =~= reverse_arms_of(self@));
        }
        r
    }

    /// The source text of the generated conversion functions.
    pub fn render(&self) -> (r: String)
        ensures
            r@ == render_of(self@),
    {
        let mut out = owned("impl ");
        out.append(self.enum_name.as_str());
        out.append(" {\n    /// Returns the external value that corresponds to this variant.\n    pub fn as_external(&self) -> ");
        out.append(self.external_enum.as_str());
        out.append(" {\n        match *self {\n");
        push_arms(&mut out, &self.as_external_arms());
        out.append("        }\n    }\n");
        match &self.mode {
            GenerationMode::Fallback(_) => {
                out.append("\n    /// Returns the variant for an external value; unmapped values give the default variant.\n    pub fn from_external(value: ");
                out.append(self.external_enum.as_str());
                out.append(") -> Self {\n        match value {\n");
            },
            GenerationMode::Fallible => {
                out.append("\n    /// Returns the variant for an external value.\n    ///\n    /// # Errors\n    /// * `UnexpectedVariant`, where the value maps to no variant.\n    pub fn try_from_external(value: ");
                out.append(self.external_enum.as_str());
                out.append(") -> Result<Self, Error> {\n        match value {\n");
            },
        }
        push_arms(&mut out, &self.reverse_arms());
        out.append("        }\n    }\n}\n");
        out
    }

    fn find_variant(&self, symbol: &str) -> (r: Option<String>)
        ensures
            opt_text(r) == variant_of(self@.descriptors, symbol@, 0),
    {
        let mut i: usize = 0;
        while i < self.descriptors.len()
            invariant
                i <= self.descriptors@.len(),
                variant_of(self@.descriptors, symbol@, 0) == variant_of(self@.descriptors, symbol@, i as int),
            decreases self.descriptors@.len() - i,
        {
            if same_text(self.descriptors[i].symbol.as_str(), symbol) {
                return Some(self.descriptors[i].variant.clone());
            }
            i = i + 1;
        }
        None
    }

    /// What the generated `as_external` returns for the local variant named
    /// `variant`: the symbol of the first arm for it, or `None` where no such
    /// variant is declared.
    pub fn as_external(&self, variant: &str) -> (r: Option<String>)
        ensures
            opt_text(r) == as_external_of(self@, variant@),
    {
        let mut i: usize = 0;
        while i < self.descriptors.len()
            invariant
                i <= self.descriptors@.len(),
                symbol_of(self@.descriptors, variant@, 0) == symbol_of(self@.descriptors, variant@, i as int),
            decreases self.descriptors@.len() - i,
        {
            if same_text(self.descriptors[i].variant.as_str(), variant) {
                return Some(self.descriptors[i].symbol.clone());
            }
            i = i + 1;
        }
        None
    }

    /// What the generated `from_external` returns for the external symbol
    /// `symbol`, or `None` in fallible mode, where it is not generated.
    pub fn from_external(&self, symbol: &str) -> (r: Option<String>)
        ensures
            opt_text(r) == from_external_of(self@, symbol@),
    {
        match &self.mode {
            GenerationMode::Fallback(default) => match self.find_variant(symbol) {
                Some(v) => Some(v),
                None => Some(default.clone()),
            },
            GenerationMode::Fallible => None,
        }
    }

    /// What the generated `try_from_external` returns for the external
    /// symbol `symbol`, or `None` in fallback mode, where it is not generated.
    pub fn try_from_external(&self, symbol: &str) -> (r: Option<Result<String, ErrorKind>>)
        ensures
            (match r {
                Some(Ok(v)) => try_from_external_of(self@, symbol@) == Some(Ok::<Seq<char>, ErrorKind>(v@)),
                Some(Err(k)) => try_from_external_of(self@, symbol@) == Some(Err::<Seq<char>, ErrorKind>(k)),
                None => try_from_external_of(self@, symbol@) is None,
            }),
    {
        match &self.mode {
            GenerationMode::Fallible => match self.find_variant(symbol) {
                Some(v) => Some(Ok(v)),
                None => Some(Err(ErrorKind::UnexpectedVariant)),
            },
            GenerationMode::Fallback(_) => None,
        }
    }
}

} // verus!
