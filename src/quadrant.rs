//! Where a point `re + im·i` lies in the complex plane, decided from the signs
//! of its two parts alone.

use vstd::prelude::*;

verus! {

/// The sign of one real part of a complex number.
#[derive(Clone, Copy, Debug, PartialEq, Eq, Structural)]
pub enum Sign {
    Negative,
    Zero,
    Positive,
}

/// The region of the complex plane that a point falls in.
///
/// The positive real axis counts as part of the first quadrant and the
/// negative real axis as part of the second; the imaginary axis and the
/// origin have regions of their own.
#[derive(Clone, Copy, Debug, PartialEq, Eq, Structural)]
pub enum Quadrant {
    First,
    Second,
    Third,
    Fourth,
    PositiveImaginaryAxis,
    NegativeImaginaryAxis,
    Origin,
}

/// The sign table: the region for each of the nine sign combinations.
pub open spec fn region_of(re: Sign, im: Sign) -> Quadrant {
    match (re, im) {
        (Sign::Positive, Sign::Positive) => Quadrant::First,
        (Sign::Positive, Sign::Zero) => Quadrant::First,
        (Sign::Negative, Sign::Positive) => Quadrant::Second,
        (Sign::Negative, Sign::Zero) => Quadrant::Second,
        (Sign::Negative, Sign::Negative) => Quadrant::Third,
        (Sign::Positive, Sign::Negative) => Quadrant::Fourth,
        (Sign::Zero, Sign::Positive) => Quadrant::PositiveImaginaryAxis,
        (Sign::Zero, Sign::Negative) => Quadrant::NegativeImaginaryAxis,
        (Sign::Zero, Sign::Zero) => Quadrant::Origin,
    }
}

/// Classifies a point by the signs of its real and imaginary parts.
pub fn classify(re: Sign, im: Sign) -> (r: Quadrant)
    ensures
        r == region_of(re, im),
{
    let re_pos = re == Sign::Positive;
    let re_neg = re == Sign::Negative;
    let im_neg = im == Sign::Negative;
    let im_pos = im == Sign::Positive;
    if re_pos && !im_neg {
        Quadrant::First
    } else if re_neg && !im_neg {
        Quadrant::Second
    } else if re_neg && im_neg {
        Quadrant::Third
    } else if re_pos && im_neg {
        Quadrant::Fourth
    } else if im_pos {
        Quadrant::PositiveImaginaryAxis
    } else if im_neg {
        Quadrant::NegativeImaginaryAxis
    } else {
        Quadrant::Origin
    }
}

impl Quadrant {
    /// The label under which a region is named in the explanation.
    pub open spec fn label_view(self) -> Seq<char> {
        match self {
            Quadrant::First => "Quadrant I (มุมบวก, 0° ≤ θ < 90°)"@,
            Quadrant::Second => "Quadrant II (90° < θ ≤ 180°)"@,
            Quadrant::Third => "Quadrant III (-180° < θ < -90°)"@,
            Quadrant::Fourth => "Quadrant IV (-90° < θ < 0°)"@,
            Quadrant::PositiveImaginaryAxis => "แกนจินตภาพบวก (θ = 90°)"@,
            Quadrant::NegativeImaginaryAxis => "แกนจินตภาพลบ (θ = -90°)"@,
            Quadrant::Origin => "จุดกำเนิด (Origin)"@,
        }
    }

    /// The label of this region.
    pub fn label(&self) -> (r: &'static str)
        ensures
            r@ == self.label_view(),
    {
        match self {
            Quadrant::First => "Quadrant I (มุมบวก, 0° ≤ θ < 90°)",
            Quadrant::Second => "Quadrant II (90° < θ ≤ 180°)",
            Quadrant::Third => "Quadrant III (-180° < θ < -90°)",
            Quadrant::Fourth => "Quadrant IV (-90° < θ < 0°)",
            Quadrant::PositiveImaginaryAxis => "แกนจินตภาพบวก (θ = 90°)",
            Quadrant::NegativeImaginaryAxis => "แกนจินตภาพลบ (θ = -90°)",
            Quadrant::Origin => "จุดกำเนิด (Origin)",
        }
    }
}

/// The sign table read region by region: the origin is the point with both
/// parts zero; the imaginary half-axes have a zero real part; the first and
/// second quadrants take in the real half-axes; the third and fourth have a
/// negative imaginary part.
pub proof fn sign_table(re: Sign, im: Sign)
    ensures
        (region_of(re, im) == Quadrant::First) <==> (re == Sign::Positive && im != Sign::Negative),
        (region_of(re, im) == Quadrant::Second) <==> (re == Sign::Negative && im != Sign::Negative),
        (region_of(re, im) == Quadrant::Third) <==> (re == Sign::Negative && im == Sign::Negative),
        (region_of(re, im) == Quadrant::Fourth) <==> (re == Sign::Positive && im == Sign::Negative),
        (region_of(re, im) == Quadrant::PositiveImaginaryAxis) <==> (re == Sign::Zero && im
            == Sign::Positive),
        (region_of(re, im) == Quadrant::NegativeImaginaryAxis) <==> (re == Sign::Zero && im
            == Sign::Negative),
        (region_of(re, im) == Quadrant::Origin) <==> (re == Sign::Zero && im == Sign::Zero),
{
}

/// No two regions share a label, so the label names the region.
pub proof fn labels_distinct(a: Quadrant, b: Quadrant)
    ensures
        a != b ==> a.label_view() != b.label_view(),
{
    reveal_strlit("Quadrant I (มุมบวก, 0° ≤ θ < 90°)");
    reveal_strlit("Quadrant II (90° < θ ≤ 180°)");
    reveal_strlit("Quadrant III (-180° < θ < -90°)");
    reveal_strlit("Quadrant IV (-90° < θ < 0°)");
    reveal_strlit("แกนจินตภาพบวก (θ = 90°)");
    reveal_strlit("แกนจินตภาพลบ (θ = -90°)");
    reveal_strlit("จุดกำเนิด (Origin)");
    if a != b {
        let (x, y) = (a.label_view(), b.label_view());
        if x.len() == y.len() {
            // labels of one length already differ at one of these places
            assert(x[0] != y[0] || x[9] != y[9] || x[10] != y[10] || x[11] != y[11] || x[6] != y[6]);
        }
    }
}

} // verus!
