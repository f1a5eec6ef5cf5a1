//! The text of a conversion to polar form: the polar-form string and the
//! seven explanation steps, assembled from numbers that were already written
//! out as text.

use vstd::prelude::*;
use vstd::string::StringExecFns;
use crate::quadrant::{classify, region_of, Quadrant, Sign};

verus! {

/// The numbers of one conversion, each already written out as text, with the
/// signs of the two parts.
///
/// `re`, `im`, `re_squared`, `im_squared` and `sum_of_squares` are written in
/// full; `magnitude`, `argument_rad` and `argument_deg` to four decimal places.
pub struct FormattedParts {
    pub re: String,
    pub im: String,
    pub re_squared: String,
    pub im_squared: String,
    pub sum_of_squares: String,
    pub magnitude: String,
    pub argument_rad: String,
    pub argument_deg: String,
    pub re_sign: Sign,
    pub im_sign: Sign,
}

/// The text of a conversion, with the region that the point lies in.
pub struct Explanation {
    pub quadrant: Quadrant,
    pub polar_form: String,
    pub steps: Vec<String>,
}

/// `r(cos θ° + i sin θ°)`, for the magnitude `m` and the angle `d` in degrees.
pub open spec fn polar_form_text(m: Seq<char>, d: Seq<char>) -> Seq<char> {
    m + "(cos "@ + d + "° + i sin "@ + d + "°)"@
}

/// The step that names the number and its two parts.
pub open spec fn definition_step(re: Seq<char>, im: Seq<char>) -> Seq<char> {
    "📌 Step 1: กำหนดค่า z = "@ + re + " + "@ + im + "i (ส่วนจริง a = "@ + re
        + ", ส่วนจินตภาพ b = "@ + im + ")"@
}

/// The step that states the formula of the magnitude.
pub open spec fn magnitude_formula_step() -> Seq<char> {
    "📐 Step 2: หาค่า r (Magnitude) จากสูตร r = √(a² + b²)"@
}

/// The step that works the magnitude out.
pub open spec fn magnitude_work_step(p: FormattedParts) -> Seq<char> {
    "   ➜ r = √(("@ + p.re@ + ")² + ("@ + p.im@ + ")²) = √("@ + p.re_squared@ + " + "@
        + p.im_squared@ + ") = √"@ + p.sum_of_squares@ + " = "@ + p.magnitude@
}

/// The step that states the formula of the argument.
pub open spec fn argument_formula_step() -> Seq<char> {
    "📏 Step 3: หาค่า θ (Argument) จากสูตร θ = atan2(b, a)"@
}

/// The step that works the argument out, in radians and in degrees.
pub open spec fn argument_work_step(p: FormattedParts) -> Seq<char> {
    "   ➜ θ = atan2("@ + p.im@ + ", "@ + p.re@ + ") = "@ + p.argument_rad@ + " เรเดียน = "@
        + p.argument_deg@ + "°"@
}

/// The step that names the region of the point.
pub open spec fn quadrant_step_text(re: Seq<char>, im: Seq<char>, q: Quadrant) -> Seq<char> {
    "🧭 Step 4: จุด ("@ + re + ", "@ + im + ") อยู่ใน "@ + q.label_view()
}

/// The step that gives the polar form.
pub open spec fn polar_step_text(polar: Seq<char>) -> Seq<char> {
    "✅ Step 5: เขียนในรูปเชิงขั้ว (Polar Form) ➜ z = "@ + polar
}

/// The seven steps of the explanation, in order.
pub open spec fn steps_view(p: FormattedParts) -> Seq<Seq<char>> {
    let q = region_of(p.re_sign, p.im_sign);
    seq![
        definition_step(p.re@, p.im@),
        magnitude_formula_step(),
        magnitude_work_step(p),
        argument_formula_step(),
        argument_work_step(p),
        quadrant_step_text(p.re@, p.im@, q),
        polar_step_text(polar_form_text(p.magnitude@, p.argument_deg@)),
    ]
}

/// The polar form `r(cos θ° + i sin θ°)` of a magnitude and an angle in degrees.
pub fn polar_form(magnitude: &str, degrees: &str) -> (r: String)
    ensures
        r@ == polar_form_text(magnitude@, degrees@),
{
    let mut s = String::from_str(magnitude);
    s.append("(cos ");
    s.append(degrees);
    s.append("° + i sin ");
    s.append(degrees);
    s.append("°)");
    s
}

/// The step that names the region of the point `re + im·i`.
pub fn quadrant_step(re: &str, im: &str, q: Quadrant) -> (r: String)
    ensures
        r@ == quadrant_step_text(re@, im@, q),
{
    let mut s = String::from_str("🧭 Step 4: จุด (");
    s.append(re);
    s.append(", ");
    s.append(im);
    s.append(") อยู่ใน ");
    s.append(q.label());
    s
}

/// The step that names the number and its two parts.
fn definition(re: &str, im: &str) -> (r: String)
    ensures
        r@ == definition_step(re@, im@),
{
    let mut s = String::from_str("📌 Step 1: กำหนดค่า z = ");
    s.append(re);
    s.append(" + ");
    s.append(im);
    s.append("i (ส่วนจริง a = ");
    s.append(re);
    s.append(", ส่วนจินตภาพ b = ");
    s.append(im);
    s.append(")");
    s
}

/// The step that works the magnitude out.
fn magnitude_work(p: &FormattedParts) -> (r: String)
    ensures
        r@ == magnitude_work_step(*p),
{
    let mut s = String::from_str("   ➜ r = √((");
    s.append(p.re.as_str());
    s.append(")² + (");
    s.append(p.im.as_str());
    s.append(")²) = √(");
    s.append(p.re_squared.as_str());
    s.append(" + ");
    s.append(p.im_squared.as_str());
    s.append(") = √");
    s.append(p.sum_of_squares.as_str());
    s.append(" = ");
    s.append(p.magnitude.as_str());
    s
}

/// The step that works the argument out, in radians and in degrees.
fn argument_work(p: &FormattedParts) -> (r: String)
    ensures
        r@ == argument_work_step(*p),
{
    let mut s = String::from_str("   ➜ θ = atan2(");
    s.append(p.im.as_str());
    s.append(", ");
    s.append(p.re.as_str());
    s.append(") = ");
    s.append(p.argument_rad.as_str());
    s.append(" เรเดียน = ");
    s.append(p.argument_deg.as_str());
    s.append("°");
    s
}

/// The polar form and the seven explanation steps of a conversion, with the
/// region that the point lies in.
pub fn explain(p: &FormattedParts) -> (r: Explanation)
    ensures
        r.quadrant == region_of(p.re_sign, p.im_sign),
        r.polar_form@ == polar_form_text(p.magnitude@, p.argument_deg@),
        r.steps@.len() == 7,
        forall|i: int| 0 <= i < 7 ==> #[trigger] r.steps@[i]@ == steps_view(*p)[i],
{
    let quadrant = classify(p.re_sign, p.im_sign);
    let polar = polar_form(p.magnitude.as_str(), p.argument_deg.as_str());
    let mut last = String::from_str("✅ Step 5: เขียนในรูปเชิงขั้ว (Polar Form) ➜ z = ");
    last.append(polar.as_str());
    let steps = vec![
        definition(p.re.as_str(), p.im.as_str()),
        String::from_str("📐 Step 2: หาค่า r (Magnitude) จากสูตร r = √(a² + b²)"),
        magnitude_work(p),
        String::from_str("📏 Step 3: หาค่า θ (Argument) จากสูตร θ = atan2(b, a)"),
        argument_work(p),
        quadrant_step(p.re.as_str(), p.im.as_str(), quadrant),
        last,
    ];
    Explanation { quadrant, polar_form: polar, steps }
}

} // verus!
