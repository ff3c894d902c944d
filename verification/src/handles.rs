//! The foreign struct kinds and their structural tags.
//!
//! Each struct kind the host runtime defines embeds a fixed sentinel value
//! (its structural tag, called `magic` in the field, after the host's own
//! naming) that acts as a runtime type discriminant. The plugin side mirrors
//! one tag constant per kind, verbatim from the host ABI.
//!
//! A foreign handle is nullable and carries no intrinsic type safety: it is
//! modelled as an `Option` of the struct kind the calling convention claims
//! it points at, `None` standing for a null address. What the validation
//! layer reads of a pointee — its tag and its nested handles — is held here
//! as plain values.

#![allow(non_camel_case_types)]

use vstd::prelude::*;

verus! {

/// Structural tag of a context struct.
pub const VRT_CTX_MAGIC: u32 = 0x6BB8_F0DB;

/// Structural tag of a request struct.
pub const REQ_MAGIC: u32 = 0x2751_AAA1;

/// Structural tag of a session struct.
pub const SESS_MAGIC: u32 = 0x2C2F_9C5A;

/// Structural tag of a workspace struct.
pub const WS_MAGIC: u32 = 0x35FA_C554;

/// Structural tag of a backend-director struct.
pub const DIRECTOR_MAGIC: u32 = 0x3336_351D;

/// Structural tag of a director's per-VCL bookkeeping struct.
pub const VCLDIR_MAGIC: u32 = 0x7B48_2D2D;

/// Structural tag of a fetch-filter context struct.
pub const VFP_CTX_MAGIC: u32 = 0x61D9_D3E5;

/// Structural tag of a fetch-filter chain entry struct.
pub const VFP_ENTRY_MAGIC: u32 = 0xBE32_A027;

/// A struct kind of the foreign ABI: it carries a structural tag, and its
/// kind has one fixed expected tag value.
///
/// The validator is generic over this trait, so the null-plus-tag check is
/// written once rather than per kind.
pub trait Tagged: Sized {
    /// The tag constant the host ABI assigns to this struct kind.
    spec fn expected_tag() -> u32;

    /// The tag value this particular pointee carries.
    spec fn tag(&self) -> u32;

    /// Read the tag embedded in the pointee.
    fn read_tag(&self) -> (t: u32)
        ensures
            t == self.tag(),
    ;

    /// The tag constant of this kind, as a runtime value.
    fn kind_tag() -> (t: u32)
        ensures
            t == Self::expected_tag(),
    ;
}

/// A session: the host-side connection state a request hangs off.
/// Read-only from the plugin's perspective.
pub struct sess {
    /// Structural tag; `SESS_MAGIC` when the struct is intact.
    pub magic: u32,
}

/// A request in flight. Commonly mutated by plugin code once validated.
pub struct req {
    /// Structural tag; `REQ_MAGIC` when the struct is intact.
    pub magic: u32,
    /// How many times the host has restarted this request.
    pub restarts: u64,
    /// Handle to the session this request belongs to.
    pub sp: Option<sess>,
}

/// The per-activation context the host passes into plugin code.
pub struct vrt_ctx {
    /// Structural tag; `VRT_CTX_MAGIC` when the struct is intact.
    pub magic: u32,
    /// Handle to the request this activation runs for, when there is one.
    pub req: Option<req>,
}

/// A workspace: a host-owned scratch allocation area.
pub struct ws {
    /// Structural tag; `WS_MAGIC` when the struct is intact.
    pub magic: u32,
}

/// A director's per-VCL bookkeeping record.
pub struct vcldir {
    /// Structural tag; `VCLDIR_MAGIC` when the struct is intact.
    pub magic: u32,
}

/// A backend director: the host-side descriptor of a backend.
pub struct director {
    /// Structural tag; `DIRECTOR_MAGIC` when the struct is intact.
    pub magic: u32,
    /// Handle to the per-VCL bookkeeping record.
    pub vdir: Option<vcldir>,
}

/// The handle the host passes where a backend is meant: a nullable address
/// of a director, opaque until validated.
pub struct VCL_BACKEND(pub Option<director>);

/// A fetch-filter context: the state of one body-processing pass.
pub struct vfp_ctx {
    /// Structural tag; `VFP_CTX_MAGIC` when the struct is intact.
    pub magic: u32,
}

/// One entry of a fetch-filter chain.
pub struct vfp_entry {
    /// Structural tag; `VFP_ENTRY_MAGIC` when the struct is intact.
    pub magic: u32,
}

impl Tagged for vrt_ctx {
    open spec fn expected_tag() -> u32 {
        VRT_CTX_MAGIC
    }

    open spec fn tag(&self) -> u32 {
        self.magic
    }

    fn read_tag(&self) -> u32 {
        self.magic
    }

    fn kind_tag() -> u32 {
        VRT_CTX_MAGIC
    }
}

impl Tagged for req {
    open spec fn expected_tag() -> u32 {
        REQ_MAGIC
    }

    open spec fn tag(&self) -> u32 {
        self.magic
    }

    fn read_tag(&self) -> u32 {
        self.magic
    }

    fn kind_tag() -> u32 {
        REQ_MAGIC
    }
}

impl Tagged for sess {
    open spec fn expected_tag() -> u32 {
        SESS_MAGIC
    }

    open spec fn tag(&self) -> u32 {
        self.magic
    }

    fn read_tag(&self) -> u32 {
        self.magic
    }

    fn kind_tag() -> u32 {
        SESS_MAGIC
    }
}

impl Tagged for ws {
    open spec fn expected_tag() -> u32 {
        WS_MAGIC
    }

    open spec fn tag(&self) -> u32 {
        self.magic
    }

    fn read_tag(&self) -> u32 {
        self.magic
    }

    fn kind_tag() -> u32 {
        WS_MAGIC
    }
}

impl Tagged for director {
    open spec fn expected_tag() -> u32 {
        DIRECTOR_MAGIC
    }

    open spec fn tag(&self) -> u32 {
        self.magic
    }

    fn read_tag(&self) -> u32 {
        self.magic
    }

    fn kind_tag() -> u32 {
        DIRECTOR_MAGIC
    }
}

impl Tagged for vcldir {
    open spec fn expected_tag() -> u32 {
        VCLDIR_MAGIC
    }

    open spec fn tag(&self) -> u32 {
        self.magic
    }

    fn read_tag(&self) -> u32 {
        self.magic
    }

    fn kind_tag() -> u32 {
        VCLDIR_MAGIC
    }
}

impl Tagged for vfp_ctx {
    open spec fn expected_tag() -> u32 {
        VFP_CTX_MAGIC
    }

    open spec fn tag(&self) -> u32 {
        self.magic
    }

    fn read_tag(&self) -> u32 {
        self.magic
    }

    fn kind_tag() -> u32 {
        VFP_CTX_MAGIC
    }
}

impl Tagged for vfp_entry {
    open spec fn expected_tag() -> u32 {
        VFP_ENTRY_MAGIC
    }

    open spec fn tag(&self) -> u32 {
        self.magic
    }

    fn read_tag(&self) -> u32 {
        self.magic
    }

    fn kind_tag() -> u32 {
        VFP_ENTRY_MAGIC
    }
}

} // verus!
