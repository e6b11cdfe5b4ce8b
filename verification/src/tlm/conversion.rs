//! The two conversions that carry data: a status table and a polynomial.

use crate::text::option_text;
use vstd::prelude::*;

verus! {

/// A status conversion: names for integer values.
#[derive(Debug, Clone, PartialEq, Eq)]
pub struct Status {
    /// The named values, by ascending key.
    pub variants: Vec<Variant>,
    /// The name of every value that `variants` leaves out.
    pub default_value: Option<String>,
}

/// The name of one integer value.
#[derive(Debug, Clone, PartialEq, Eq)]
pub struct Variant {
    pub key: i64,
    pub value: String,
}

/// A polynomial conversion. Each coefficient is held as the decimal literal
/// that the table gives for it, and as the literal `0.0` where the table
/// gives none.
#[derive(Debug, Clone, PartialEq, Eq)]
pub struct Polynomial {
    pub a0: String,
    pub a1: String,
    pub a2: String,
    pub a3: String,
    pub a4: String,
    pub a5: String,
}

/// The mathematical value of a [`Status`].
pub struct StatusView {
    pub variants: Seq<VariantView>,
    pub default_value: Option<Seq<char>>,
}

/// The mathematical value of a [`Variant`].
pub struct VariantView {
    pub key: i64,
    pub value: Seq<char>,
}

/// The mathematical value of a [`Polynomial`].
pub struct PolynomialView {
    pub a0: Seq<char>,
    pub a1: Seq<char>,
    pub a2: Seq<char>,
    pub a3: Seq<char>,
    pub a4: Seq<char>,
    pub a5: Seq<char>,
}

/// The values of a sequence of variants.
pub open spec fn variants_view(variants: Seq<Variant>) -> Seq<VariantView> {
    variants.map_values(|v: Variant| v@)
}

impl View for Status {
    type V = StatusView;

    open spec fn view(&self) -> StatusView {
        StatusView {
            variants: variants_view(self.variants@),
            default_value: option_text(self.default_value),
        }
    }
}

impl View for Variant {
    type V = VariantView;

    open spec fn view(&self) -> VariantView {
        VariantView { key: self.key, value: self.value@ }
    }
}

impl View for Polynomial {
    type V = PolynomialView;

    open spec fn view(&self) -> PolynomialView {
        PolynomialView {
            a0: self.a0@,
            a1: self.a1@,
            a2: self.a2@,
            a3: self.a3@,
            a4: self.a4@,
            a5: self.a5@,
        }
    }
}

/// Whether the keys of `variants` ascend strictly, so that no key occurs
/// twice.
pub open spec fn keys_ascend(variants: Seq<VariantView>) -> bool {
    forall|i: int, j: int|
        0 <= i < j < variants.len() ==> (#[trigger] variants[i]).key < (
        #[trigger] variants[j]).key
}

impl Status {
    /// Whether the status table is well formed.
    pub open spec fn wf(&self) -> bool {
        keys_ascend(self@.variants)
    }
}

} // verus!
