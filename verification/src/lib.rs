//! Core of a minimal real-time application runtime: a fixed-timestep
//! accumulator that decouples simulation rate from render rate, a
//! single-writer mirrored-value cell that publishes values between the
//! simulation and render sides, and a bounded, section-partitioned channel
//! that carries discrete input deltas from the thread that observes events
//! to the thread that consumes them once per simulation frame.

pub mod clock;
pub mod context;
pub mod glenum;
pub mod input;
pub mod stream;
pub mod sync;
pub mod texture;
pub mod window;

use vstd::prelude::*;

verus! {

use vstd::arithmetic::div_mod::{lemma_fundamental_div_mod, lemma_mod_bound};

/// Rounds `value` up to the next multiple of `alignment` — the shader
/// storage buffer offset alignment the graphics context reports.  The
/// alignment is threaded through explicitly as configuration, never read
/// from ambient state.
pub fn align_to_gl_ssbo(value: i32, alignment: i32) -> (r: i32)
    requires
        alignment > 0,
        value >= 0,
        value + alignment - 1 <= i32::MAX,
    ensures
        r as int % alignment as int == 0,
        value <= r < value + alignment,
{
    proof {
        let v = value as int;
        let a = alignment as int;
        lemma_fundamental_div_mod(v + a - 1, a);
        lemma_mod_bound(v + a - 1, a);
        assert(((v + a - 1) / a) * a == (v + a - 1) - (v + a - 1) % a) by (nonlinear_arith)
            requires
                a > 0,
                v + a - 1 == a * ((v + a - 1) / a) + (v + a - 1) % a,
        ;
        assert((((v + a - 1) / a) * a) % a == 0) by (nonlinear_arith)
            requires
                a > 0,
        ;
    }
    let quotient = (value - 1 + alignment) / alignment;
    quotient * alignment
}

/// A value that corresponds to one GL enumerant.
pub trait GlProperty {
    fn property_enum(self) -> u32;
}

/// A value that names a resource the GPU holds.
pub trait GpuResource {
    fn resource_id(&self) -> u32;
}

} // verus!
