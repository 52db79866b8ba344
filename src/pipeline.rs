use vstd::prelude::*;

verus! {

/// One step of a conversion between normalized and physical values.
#[derive(Clone, Copy, Debug, PartialEq, Eq, Structural)]
pub enum Stage {
    /// Clamp a normalized value to `[0, 1]`, whatever the range's direction.
    ClampUnit,
    /// Clamp a physical value to the range: `[min, max]`, or `[max, min]`
    /// when the range is inverted.
    ClampRange,
    /// Warp a normalized value through the skew curve, if there is one.
    ScaleUp,
    /// Undo the skew curve, if there is one.
    ScaleDown,
    /// The affine map `v * (max - min) + min`.
    Up,
    /// The affine map `(v - min) / (max - min)`.
    Down,
    /// Round to the nearest whole number when the kind is stepped; keep the
    /// value otherwise.
    Quantize,
}

/// The stages from a normalized value to a physical one: quantization
/// comes last, on the already transformed value.
pub open spec fn physical_order() -> Seq<Stage> {
    seq![Stage::ClampUnit, Stage::ScaleUp, Stage::Up, Stage::Quantize]
}

/// The stages from a physical value to a normalized one: quantization
/// comes right after the clamp, before the affine map, so that the result
/// stands for the nearest valid step.
pub open spec fn normalized_order() -> Seq<Stage> {
    seq![Stage::ClampRange, Stage::Quantize, Stage::Down, Stage::ScaleDown]
}

/// The stage that undoes `s` on the way back; quantization is its own.
pub open spec fn inverse(s: Stage) -> Stage {
    match s {
        Stage::ClampUnit => Stage::ClampRange,
        Stage::ClampRange => Stage::ClampUnit,
        Stage::ScaleUp => Stage::ScaleDown,
        Stage::ScaleDown => Stage::ScaleUp,
        Stage::Up => Stage::Down,
        Stage::Down => Stage::Up,
        Stage::Quantize => Stage::Quantize,
    }
}

/// Each direction first clamps its input to its own domain. The transforms
/// toward normalized then undo those toward physical, in reverse order. And
/// quantization acts on a physical value in both directions: right after
/// `Up` on the way to physical, right after `ClampRange` on the way to
/// normalized.
pub proof fn lemma_orders_mirror()
    ensures
        physical_order()[0] == Stage::ClampUnit,
        normalized_order()[0] == Stage::ClampRange,
        normalized_order().subrange(2, 4) == physical_order().subrange(1, 3).reverse().map_values(
            |s: Stage| inverse(s),
        ),
        physical_order()[2] == Stage::Up && physical_order()[3] == Stage::Quantize,
        normalized_order()[1] == Stage::Quantize,
{
    let fwd = physical_order().subrange(1, 3);
    assert(fwd =~= seq![Stage::ScaleUp, Stage::Up]);
    assert(fwd.reverse() =~= seq![Stage::Up, Stage::ScaleUp]);
    assert(normalized_order().subrange(2, 4) =~= fwd.reverse().map_values(|s: Stage| inverse(s)));
}

/// The stages that `to_physical` runs, in order.
pub fn physical_stages() -> (r: [Stage; 4])
    ensures
        r@ == physical_order(),
{
    let r = [Stage::ClampUnit, Stage::ScaleUp, Stage::Up, Stage::Quantize];
    assert(r@ =~= physical_order());
    r
}

/// The stages that `to_normalized` runs, in order.
pub fn normalized_stages() -> (r: [Stage; 4])
    ensures
        r@ == normalized_order(),
{
    let r = [Stage::ClampRange, Stage::Quantize, Stage::Down, Stage::ScaleDown];
    assert(r@ =~= normalized_order());
    r
}

} // verus!
