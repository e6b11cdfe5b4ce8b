//! The rules that tie the coefficient and status cells of a row to its
//! conversion type.

use crate::error::{ConversionField, ErrorKind, ErrorKindView};
use crate::escape::{unescape, unescape_chars};
use crate::text::{is_float_literal, lemma_first_where, option_text};
use crate::tlm::{ConversionInfo, ConversionInfoView};
use crate::tlm::conversion::{Polynomial, PolynomialView, Status};
use crate::tlm::status::{parse_status_map, parse_status_map_spec};
use vstd::prelude::*;
use vstd::string::StringExecFns;

verus! {

/// The conversion that a row asks for.
#[derive(Debug, Clone, Copy, PartialEq, Eq, Hash, Structural)]
pub enum ConversionType {
    Identity,
    Hex,
    Status,
    Poly,
}

/// The cells of a row that describe the conversion, empty cells left out.
pub struct LineConversionInfo {
    pub conversion_type: ConversionType,
    pub a0: Option<String>,
    pub a1: Option<String>,
    pub a2: Option<String>,
    pub a3: Option<String>,
    pub a4: Option<String>,
    pub a5: Option<String>,
    pub status: Option<String>,
}

/// The mathematical value of a [`LineConversionInfo`].
pub struct LineConversionInfoView {
    pub conversion_type: ConversionType,
    pub a0: Option<Seq<char>>,
    pub a1: Option<Seq<char>>,
    pub a2: Option<Seq<char>>,
    pub a3: Option<Seq<char>>,
    pub a4: Option<Seq<char>>,
    pub a5: Option<Seq<char>>,
    pub status: Option<Seq<char>>,
}

impl View for LineConversionInfo {
    type V = LineConversionInfoView;

    open spec fn view(&self) -> LineConversionInfoView {
        LineConversionInfoView {
            conversion_type: self.conversion_type,
            a0: option_text(self.a0),
            a1: option_text(self.a1),
            a2: option_text(self.a2),
            a3: option_text(self.a3),
            a4: option_text(self.a4),
            a5: option_text(self.a5),
            status: option_text(self.status),
        }
    }
}

/// The literal that stands for a coefficient which the table leaves out.
pub open spec fn zero_coefficient() -> Seq<char> {
    seq!['0', '.', '0']
}

/// The coefficient that a cell gives: its literal, or zero where the cell
/// is empty.
pub open spec fn coefficient(cell: Option<Seq<char>>) -> Seq<char> {
    match cell {
        Some(literal) => literal,
        None => zero_coefficient(),
    }
}

/// The first coefficient cell of a row that is not empty.
pub open spec fn first_coefficient(info: LineConversionInfoView) -> Option<ConversionField> {
    if info.a0 is Some {
        Some(ConversionField::A0)
    } else if info.a1 is Some {
        Some(ConversionField::A1)
    } else if info.a2 is Some {
        Some(ConversionField::A2)
    } else if info.a3 is Some {
        Some(ConversionField::A3)
    } else if info.a4 is Some {
        Some(ConversionField::A4)
    } else if info.a5 is Some {
        Some(ConversionField::A5)
    } else {
        None
    }
}

/// The conversion that the cells `info` describe. Only a polynomial may
/// have coefficients; a status conversion needs the status cell, while a
/// hexadecimal and a polynomial one exclude it.
pub open spec fn conversion_info_spec(info: LineConversionInfoView) -> Result<
    ConversionInfoView,
    ErrorKindView,
> {
    match info.conversion_type {
        ConversionType::Identity => match first_coefficient(info) {
            Some(field) => Err(ErrorKindView::InvalidConversionInfo { field }),
            None => Ok(ConversionInfoView::Identity),
        },
        ConversionType::Hex => match first_coefficient(info) {
            Some(field) => Err(ErrorKindView::InvalidConversionInfo { field }),
            None => if info.status is Some {
                Err(ErrorKindView::InvalidConversionInfo { field: ConversionField::Status })
            } else {
                Ok(ConversionInfoView::Hex)
            },
        },
        ConversionType::Status => match first_coefficient(info) {
            Some(field) => Err(ErrorKindView::InvalidConversionInfo { field }),
            None => match info.status {
                None => Err(
                    ErrorKindView::InvalidConversionInfo { field: ConversionField::Status },
                ),
                Some(text) => match parse_status_map_spec(unescape_chars(text)) {
                    Ok(status) => Ok(ConversionInfoView::Status(status)),
                    Err(e) => Err(e),
                },
            },
        },
        ConversionType::Poly => if info.status is Some {
            Err(ErrorKindView::InvalidConversionInfo { field: ConversionField::Status })
        } else {
            Ok(
                ConversionInfoView::Polynomial(
                    PolynomialView {
                        a0: coefficient(info.a0),
                        a1: coefficient(info.a1),
                        a2: coefficient(info.a2),
                        a3: coefficient(info.a3),
                        a4: coefficient(info.a4),
                        a5: coefficient(info.a5),
                    },
                ),
            )
        },
    }
}

/// What an accepted row holds, by conversion type. Without conversion and
/// for a hexadecimal one, every coefficient cell is empty and the model
/// carries neither coefficients nor a status table; a hexadecimal one has
/// an empty status cell as well. A status conversion has a status cell. A
/// polynomial has the literal of each cell that is filled and zero for each
/// that is empty.
pub proof fn lemma_conversion_table(info: LineConversionInfoView)
    ensures
        conversion_info_spec(info) matches Ok(conversion) ==> match info.conversion_type {
            ConversionType::Identity => conversion == ConversionInfoView::Identity
                && first_coefficient(info) is None,
            ConversionType::Hex => conversion == ConversionInfoView::Hex && first_coefficient(
                info,
            ) is None && info.status is None,
            ConversionType::Status => conversion is Status && first_coefficient(info) is None
                && info.status is Some,
            ConversionType::Poly => conversion matches ConversionInfoView::Polynomial(p) && {
                &&& info.status is None
                &&& p.a0 == if info.a0 is None { zero_coefficient() } else { info.a0->0 }
                &&& p.a1 == if info.a1 is None { zero_coefficient() } else { info.a1->0 }
                &&& p.a2 == if info.a2 is None { zero_coefficient() } else { info.a2->0 }
                &&& p.a3 == if info.a3 is None { zero_coefficient() } else { info.a3->0 }
                &&& p.a4 == if info.a4 is None { zero_coefficient() } else { info.a4->0 }
                &&& p.a5 == if info.a5 is None { zero_coefficient() } else { info.a5->0 }
            },
        },
        first_coefficient(info) is None <==> info.a0 is None && info.a1 is None && info.a2 is None
            && info.a3 is None && info.a4 is None && info.a5 is None,
{
}

/// The coefficient that a cell gives.
fn coefficient_of(cell: Option<String>) -> (r: String)
    ensures
        r@ == coefficient(option_text(cell)),
{
    match cell {
        Some(literal) => literal,
        None => {
            proof {
                reveal_strlit("0.0");
            }
            let zero = String::from_str("0.0");
            zero
        },
    }
}

/// The first coefficient cell of a row that is not empty.
fn first_coefficient_of(info: &LineConversionInfo) -> (r: Option<ConversionField>)
    ensures
        r == first_coefficient(info@),
{
    if info.a0.is_some() {
        Some(ConversionField::A0)
    } else if info.a1.is_some() {
        Some(ConversionField::A1)
    } else if info.a2.is_some() {
        Some(ConversionField::A2)
    } else if info.a3.is_some() {
        Some(ConversionField::A3)
    } else if info.a4.is_some() {
        Some(ConversionField::A4)
    } else if info.a5.is_some() {
        Some(ConversionField::A5)
    } else {
        None
    }
}

/// Holds the conversion cells of a row to the rules of its conversion type
/// and builds the conversion.
pub fn conversion_info(info: LineConversionInfo) -> (r: Result<ConversionInfo, ErrorKind>)
    ensures
        match r {
            Ok(conversion) => conversion_info_spec(info@) == Ok::<_, ErrorKindView>(conversion@),
            Err(e) => conversion_info_spec(info@) == Err::<ConversionInfoView, _>(e@),
        },
{
    match info.conversion_type {
        ConversionType::Identity => {
            match first_coefficient_of(&info) {
                Some(field) => Err(ErrorKind::InvalidConversionInfo { field }),
                None => Ok(ConversionInfo::Identity),
            }
        },
        ConversionType::Hex => {
            match first_coefficient_of(&info) {
                Some(field) => Err(ErrorKind::InvalidConversionInfo { field }),
                None => {
                    if info.status.is_some() {
                        Err(ErrorKind::InvalidConversionInfo { field: ConversionField::Status })
                    } else {
                        Ok(ConversionInfo::Hex)
                    }
                },
            }
        },
        ConversionType::Status => {
            match first_coefficient_of(&info) {
                Some(field) => Err(ErrorKind::InvalidConversionInfo { field }),
                None => {
                    match info.status {
                        None => Err(
                            ErrorKind::InvalidConversionInfo { field: ConversionField::Status },
                        ),
                        Some(text) => {
                            let rules = unescape(text.as_str());
                            match parse_status_map(rules.as_str()) {
                                Ok(status) => Ok(ConversionInfo::Status(status)),
                                Err(e) => Err(e),
                            }
                        },
                    }
                },
            }
        },
        ConversionType::Poly => {
            if info.status.is_some() {
                Err(ErrorKind::InvalidConversionInfo { field: ConversionField::Status })
            } else {
                let polynomial = Polynomial {
                    a0: coefficient_of(info.a0),
                    a1: coefficient_of(info.a1),
                    a2: coefficient_of(info.a2),
                    a3: coefficient_of(info.a3),
                    a4: coefficient_of(info.a4),
                    a5: coefficient_of(info.a5),
                };
                Ok(ConversionInfo::Polynomial(polynomial))
            }
        },
    }
}

/// Whether every coefficient of `polynomial` is a floating-point literal.
pub open spec fn coefficients_are_literals(polynomial: PolynomialView) -> bool {
    &&& is_float_literal(polynomial.a0)
    &&& is_float_literal(polynomial.a1)
    &&& is_float_literal(polynomial.a2)
    &&& is_float_literal(polynomial.a3)
    &&& is_float_literal(polynomial.a4)
    &&& is_float_literal(polynomial.a5)
}

/// The literal that stands for a coefficient which the table leaves out is
/// a floating-point literal.
pub proof fn lemma_zero_coefficient_is_literal()
    ensures
        is_float_literal(zero_coefficient()),
{
    let s = zero_coefficient();
    let no_digit = crate::text::is_no_digit();
    lemma_first_where(s, no_digit, 1);
    let after_whole = s.skip(1);
    let fraction = after_whole.skip(1);
    lemma_first_where(fraction, no_digit, 1);
}

} // verus!
