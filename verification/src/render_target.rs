use crate::error::ValidationError;
use crate::kind::Format;
use vstd::prelude::*;

verus! {

/// Fixed number of simultaneously bound render-target slots.
pub const MAX_SIMULTANEOUS_RENDER_TARGET_COUNT: usize = 8;

/// Snapshot of the currently bound render targets: how many are bound,
/// their sample count, the depth/stencil format, and the per-slot color
/// formats.
///
/// The compiler and backend read it to make format-dependent decisions
/// without re-walking individual resource descriptors. It is replaced as a
/// whole, never mutated in place. Slots at or beyond `num_render_targets`
/// are carried but unspecified: consumers ignore them.
#[derive(Clone, Copy, Debug)]
pub struct CmdRenderTargetInfo {
    /// Number of bound render targets, at most the slot capacity.
    pub num_render_targets: u32,
    /// Samples per texel of the bound targets.
    pub num_samples: u32,
    /// Format of the bound depth/stencil target.
    pub depth_stencil_format: Format,
    /// Color format of each slot; meaningful below `num_render_targets`.
    pub render_target_formats: [Format; MAX_SIMULTANEOUS_RENDER_TARGET_COUNT],
}

impl CmdRenderTargetInfo {
    /// The count invariant: no more targets than the slot capacity.
    pub open spec fn spec_count_valid(self) -> bool {
        self.num_render_targets <= MAX_SIMULTANEOUS_RENDER_TARGET_COUNT
    }

    /// Validating constructor: accepts the snapshot exactly when the
    /// target count fits the slot capacity.
    pub fn new(
        num_render_targets: u32,
        num_samples: u32,
        depth_stencil_format: Format,
        render_target_formats: [Format; MAX_SIMULTANEOUS_RENDER_TARGET_COUNT],
    ) -> (r: Result<Self, ValidationError>)
        ensures
            r is Ok <==> num_render_targets <= MAX_SIMULTANEOUS_RENDER_TARGET_COUNT,
            r matches Ok(t) ==> t == (CmdRenderTargetInfo {
                num_render_targets,
                num_samples,
                depth_stencil_format,
                render_target_formats,
            }),
            r matches Ok(t) ==> t.spec_count_valid(),
            r matches Err(e) ==> e == ValidationError::InvalidRenderTargetCount,
    {
        if (num_render_targets as usize) <= MAX_SIMULTANEOUS_RENDER_TARGET_COUNT {
            Ok(
                CmdRenderTargetInfo {
                    num_render_targets,
                    num_samples,
                    depth_stencil_format,
                    render_target_formats,
                },
            )
        } else {
            Err(ValidationError::InvalidRenderTargetCount)
        }
    }

    /// The color format of one slot; every slot below the capacity is
    /// readable, bound or not.
    pub fn render_target_format(&self, slot: usize) -> (r: Format)
        requires
            slot < MAX_SIMULTANEOUS_RENDER_TARGET_COUNT,
        ensures
            r == self.render_target_formats@[slot as int],
    {
        self.render_target_formats[slot]
    }
}

impl Default for CmdRenderTargetInfo {
    /// No targets bound, zero samples, every format unknown.
    fn default() -> (r: Self)
        ensures
            r.num_render_targets == 0,
            r.num_samples == 0,
            r.depth_stencil_format == Format::spec_from_raw(Format::UNKNOWN),
            forall|k: int|
                0 <= k < MAX_SIMULTANEOUS_RENDER_TARGET_COUNT ==> r.render_target_formats@[k]
                    == Format::spec_from_raw(Format::UNKNOWN),
            r.spec_count_valid(),
    {
        let unknown = Format::from_raw(0);
        CmdRenderTargetInfo {
            num_render_targets: 0,
            num_samples: 0,
            depth_stencil_format: unknown,
            render_target_formats: [
                unknown,
                unknown,
                unknown,
                unknown,
                unknown,
                unknown,
                unknown,
                unknown,
            ],
        }
    }
}

} // verus!
