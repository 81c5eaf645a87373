//! Stage tags: compile-time identities used as stage registry keys.
//!
//! A tag is a zero-sized type whose token keys the stage registry.  The
//! twelve default tags cover the three scheduler policies: the main group
//! runs once per external tick, the fixed group runs under the fixed-step
//! scheduler's catch-up loop, and the render group runs once per external
//! tick after the fixed group.  Embedding programs may register further
//! stages under tokens of their own; the default tags use tokens 0 to 11.

use vstd::prelude::*;

verus! {

/// Token of the `First` stage.
pub const FIRST_STAGE: u64 = 0;

/// Token of the `PreUpdate` stage.
pub const PRE_UPDATE_STAGE: u64 = 1;

/// Token of the `Update` stage.
pub const UPDATE_STAGE: u64 = 2;

/// Token of the `PostUpdate` stage.
pub const POST_UPDATE_STAGE: u64 = 3;

/// Token of the `FixedFirst` stage.
pub const FIXED_FIRST_STAGE: u64 = 4;

/// Token of the `FixedPreUpdate` stage.
pub const FIXED_PRE_UPDATE_STAGE: u64 = 5;

/// Token of the `FixedUpdate` stage.
pub const FIXED_UPDATE_STAGE: u64 = 6;

/// Token of the `FixedPostUpdate` stage.
pub const FIXED_POST_UPDATE_STAGE: u64 = 7;

/// Token of the `RenderFirst` stage.
pub const RENDER_FIRST_STAGE: u64 = 8;

/// Token of the `RenderPreUpdate` stage.
pub const RENDER_PRE_UPDATE_STAGE: u64 = 9;

/// Token of the `RenderUpdate` stage.
pub const RENDER_UPDATE_STAGE: u64 = 10;

/// Token of the `RenderPostUpdate` stage.
pub const RENDER_POST_UPDATE_STAGE: u64 = 11;

/// A marker for types that identify a stage.
///
/// The type stands for the stage; its token keys the registry.
pub trait StageTag {
    /// The token this tag stands for, for use in specifications.
    spec fn spec_id() -> u64;

    /// The token this tag stands for.
    fn stage_id() -> (r: u64)
        ensures
            r == Self::spec_id(),
    ;
}

/// First stage of the per-tick main group.
pub struct First;

impl StageTag for First {
    open spec fn spec_id() -> u64 {
        FIRST_STAGE
    }

    fn stage_id() -> u64 {
        FIRST_STAGE
    }
}

/// Second stage of the per-tick main group.
pub struct PreUpdate;

impl StageTag for PreUpdate {
    open spec fn spec_id() -> u64 {
        PRE_UPDATE_STAGE
    }

    fn stage_id() -> u64 {
        PRE_UPDATE_STAGE
    }
}

/// Third stage of the per-tick main group.
pub struct Update;

impl StageTag for Update {
    open spec fn spec_id() -> u64 {
        UPDATE_STAGE
    }

    fn stage_id() -> u64 {
        UPDATE_STAGE
    }
}

/// Last stage of the per-tick main group.
pub struct PostUpdate;

impl StageTag for PostUpdate {
    open spec fn spec_id() -> u64 {
        POST_UPDATE_STAGE
    }

    fn stage_id() -> u64 {
        POST_UPDATE_STAGE
    }
}

/// First stage of the fixed-step group.
pub struct FixedFirst;

impl StageTag for FixedFirst {
    open spec fn spec_id() -> u64 {
        FIXED_FIRST_STAGE
    }

    fn stage_id() -> u64 {
        FIXED_FIRST_STAGE
    }
}

/// Second stage of the fixed-step group.
pub struct FixedPreUpdate;

impl StageTag for FixedPreUpdate {
    open spec fn spec_id() -> u64 {
        FIXED_PRE_UPDATE_STAGE
    }

    fn stage_id() -> u64 {
        FIXED_PRE_UPDATE_STAGE
    }
}

/// Third stage of the fixed-step group.
pub struct FixedUpdate;

impl StageTag for FixedUpdate {
    open spec fn spec_id() -> u64 {
        FIXED_UPDATE_STAGE
    }

    fn stage_id() -> u64 {
        FIXED_UPDATE_STAGE
    }
}

/// Last stage of the fixed-step group.
pub struct FixedPostUpdate;

impl StageTag for FixedPostUpdate {
    open spec fn spec_id() -> u64 {
        FIXED_POST_UPDATE_STAGE
    }

    fn stage_id() -> u64 {
        FIXED_POST_UPDATE_STAGE
    }
}

/// First stage of the per-tick render group.
pub struct RenderFirst;

impl StageTag for RenderFirst {
    open spec fn spec_id() -> u64 {
        RENDER_FIRST_STAGE
    }

    fn stage_id() -> u64 {
        RENDER_FIRST_STAGE
    }
}

/// Second stage of the per-tick render group.
pub struct RenderPreUpdate;

impl StageTag for RenderPreUpdate {
    open spec fn spec_id() -> u64 {
        RENDER_PRE_UPDATE_STAGE
    }

    fn stage_id() -> u64 {
        RENDER_PRE_UPDATE_STAGE
    }
}

/// Third stage of the per-tick render group.
pub struct RenderUpdate;

impl StageTag for RenderUpdate {
    open spec fn spec_id() -> u64 {
        RENDER_UPDATE_STAGE
    }

    fn stage_id() -> u64 {
        RENDER_UPDATE_STAGE
    }
}

/// Last stage of the per-tick render group.
pub struct RenderPostUpdate;

impl StageTag for RenderPostUpdate {
    open spec fn spec_id() -> u64 {
        RENDER_POST_UPDATE_STAGE
    }

    fn stage_id() -> u64 {
        RENDER_POST_UPDATE_STAGE
    }
}

} // verus!
