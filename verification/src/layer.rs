//! Validation of the layer that a client asks a display to present.
//!
//! The bounds of a layer are numbers whose values play no part in the
//! rules, so the functions here take them as values of any copyable type.

use vstd::prelude::*;
use vstd::array::ArrayAdditionalExecFns;

verus! {

/// Why a layer was rejected.
#[derive(Clone, Copy, Debug, PartialEq, Eq, Structural)]
pub enum LayerError {
    /// A bounds array has a number of values that is neither 0 nor 4.
    BoundsLength,
    /// The source of the layer has no WebGL context.
    SourceNotWebGl,
}

/// The text that goes with each rejection.
pub open spec fn message_of(e: LayerError) -> Seq<char> {
    match e {
        LayerError::BoundsLength =>
            "The number of values in the leftBounds/rightBounds arrays must be 0 or 4"@,
        LayerError::SourceNotWebGl => "VRLayer source must be a WebGL Context"@,
    }
}

impl LayerError {
    /// The text that a client is given with the rejection.
    pub fn message(&self) -> (m: &'static str)
        ensures
            m@ == message_of(*self),
    {
        match self {
            LayerError::BoundsLength =>
                "The number of values in the leftBounds/rightBounds arrays must be 0 or 4",
            LayerError::SourceNotWebGl => "VRLayer source must be a WebGL Context",
        }
    }
}

/// The texture bounds of a layer for the left and the right eye, each as
/// `[x, y, width, height]`.
#[derive(Clone, Copy, Debug)]
pub struct LayerBounds<T> {
    pub left_bounds: [T; 4],
    pub right_bounds: [T; 4],
}

/// The bounds that result from `src` over the bounds `dst` that stand so
/// far: nothing given, or an empty array, leaves them; four values replace
/// them; any other number of values is rejected.
pub open spec fn parsed_bounds<T>(src: Option<Seq<T>>, dst: Seq<T>) -> Result<Seq<T>, LayerError> {
    match src {
        None => Ok(dst),
        Some(values) => if values.len() == 0 {
            Ok(dst)
        } else if values.len() == 4 {
            Ok(values)
        } else {
            Err(LayerError::BoundsLength)
        },
    }
}

/// The view of the bounds that a client gave, if it gave any.
pub open spec fn given<T>(src: Option<Vec<T>>) -> Option<Seq<T>> {
    match src {
        Some(values) => Some(values@),
        None => None,
    }
}

/// Reads the bounds that a client gave for one eye into `dst`. On a
/// rejection `dst` is left as it was.
pub fn parse_bounds<T: Copy>(src: &Option<Vec<T>>, dst: &mut [T; 4]) -> (r: Result<(), LayerError>)
    ensures
        match parsed_bounds(given(*src), old(dst)@) {
            Ok(bounds) => r is Ok && final(dst)@ == bounds,
            Err(e) => r == Err::<(), LayerError>(e) && final(dst)@ == old(dst)@,
        },
{
    match src {
        Some(values) => {
            if values.len() == 0 {
                return Ok(());
            }
            if values.len() != 4 {
                return Err(LayerError::BoundsLength);
            }
            for i in 0..4usize
                invariant
                    values.len() == 4,
                    forall|j: int| 0 <= j < i ==> dst@[j] == values@[j],
            {
                dst.set(i, values[i]);
            }
            Ok(())
        },
        None => Ok(()),
    }
}

/// The outcome of validating a layer: its source must have a WebGL
/// context, and then each eye's bounds are parsed over the defaults, the
/// left eye first.
pub open spec fn validated_layer<T>(
    has_webgl_context: bool,
    left: Option<Seq<T>>,
    right: Option<Seq<T>>,
    defaults: LayerBounds<T>,
) -> Result<(Seq<T>, Seq<T>), LayerError> {
    if !has_webgl_context {
        Err(LayerError::SourceNotWebGl)
    } else {
        match parsed_bounds(left, defaults.left_bounds@) {
            Err(e) => Err(e),
            Ok(l) => match parsed_bounds(right, defaults.right_bounds@) {
                Err(e) => Err(e),
                Ok(r) => Ok((l, r)),
            },
        }
    }
}

/// Validates a layer. `has_webgl_context` says whether the source of the
/// layer yields a WebGL context; `defaults` are the bounds of a layer for
/// which the client gave none.
pub fn validate_layer<T: Copy>(
    has_webgl_context: bool,
    left: &Option<Vec<T>>,
    right: &Option<Vec<T>>,
    defaults: LayerBounds<T>,
) -> (r: Result<LayerBounds<T>, LayerError>)
    ensures
        match validated_layer(has_webgl_context, given(*left), given(*right), defaults) {
            Ok((l, r2)) => r matches Ok(b) && b.left_bounds@ == l && b.right_bounds@ == r2,
            Err(e) => r matches Err(e2) && e2 == e,
        },
{
    if !has_webgl_context {
        return Err(LayerError::SourceNotWebGl);
    }
    let mut data = defaults;
    match parse_bounds(left, &mut data.left_bounds) {
        Err(e) => {
            return Err(e);
        },
        Ok(_) => {},
    }
    match parse_bounds(right, &mut data.right_bounds) {
        Err(e) => {
            return Err(e);
        },
        Ok(_) => {},
    }
    Ok(data)
}

} // verus!
