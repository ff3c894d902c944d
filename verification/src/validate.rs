//! The tagged-struct validator and the derived accessors.
//!
//! A handle is valid for a kind when it is non-null and its pointee carries
//! the kind's expected tag. The validator yields a reference to the pointee
//! only under that precondition; a null or mistagged handle signals a
//! host-side ABI violation or memory corruption, which the surrounding
//! activation treats as unrecoverable and aborts on, never as an error value
//! to recover from. [`check_handle`] and [`try_session_chain`] decide that
//! same condition as a value, so the caller that owns the abort policy can
//! test before it dereferences.

use vstd::pervasive::unreached;
use vstd::prelude::*;

use crate::handles::{
    director, req, sess, vcldir, vfp_ctx, vfp_entry, vrt_ctx, ws, Tagged, DIRECTOR_MAGIC,
    REQ_MAGIC, SESS_MAGIC, VCLDIR_MAGIC, VCL_BACKEND, VFP_CTX_MAGIC, VFP_ENTRY_MAGIC,
    VRT_CTX_MAGIC, WS_MAGIC,
};

verus! {

/// A handle is valid for its kind when it is non-null and its pointee
/// carries the kind's expected structural tag. This is the sole condition
/// under which the validator may yield a reference.
pub open spec fn handle_valid<T: Tagged>(h: Option<T>) -> bool {
    &&& h is Some
    &&& h->0.tag() == T::expected_tag()
}

/// What a single validation step finds in a handle.
#[derive(Clone, Copy, Debug, PartialEq, Eq, Structural)]
pub enum HopState {
    /// The handle is null.
    NullHandle,
    /// The pointee's tag differs from the expected kind's tag.
    TagMismatch,
    /// Non-null and correctly tagged.
    Valid,
}

/// Inspect a handle without dereferencing past its tag: reports exactly
/// which of the two abort conditions holds, or that the handle is valid.
pub fn check_handle<T: Tagged>(h: &Option<T>) -> (r: HopState)
    ensures
        r == HopState::Valid <==> handle_valid(*h),
        r == HopState::NullHandle <==> *h is None,
        r == HopState::TagMismatch <==> (*h is Some && h->0.tag() != T::expected_tag()),
{
    match h {
        Option::None => HopState::NullHandle,
        Option::Some(v) => {
            if v.read_tag() == T::kind_tag() {
                HopState::Valid
            } else {
                HopState::TagMismatch
            }
        },
    }
}

/// Validation as a total function: yields the reference exactly when the
/// handle is valid, and `None` exactly when dereferencing would have to
/// abort (null handle or tag mismatch).
pub fn try_validate_ref<'a, T: Tagged>(h: &'a Option<T>) -> (r: Option<&'a T>)
    ensures
        r is Some <==> handle_valid(*h),
        r is Some ==> *r->0 == h->0 && r->0.tag() == T::expected_tag(),
{
    match h {
        Option::None => None,
        Option::Some(v) => {
            if v.read_tag() == T::kind_tag() {
                Some(v)
            } else {
                None
            }
        },
    }
}

/// The tagged-struct validator, shared-access variant: given a handle known
/// to be valid for kind `T`, yield a reference to the pointee, scoped to the
/// handle's own lifetime. The reference carries the kind's expected tag.
pub fn validate_ref<'a, T: Tagged>(h: &'a Option<T>) -> (r: &'a T)
    requires
        handle_valid(*h),
    ensures
        *r == h->0,
        r.tag() == T::expected_tag(),
{
    match h {
        Option::Some(v) => v,
        Option::None => unreached(),
    }
}

/// The tagged-struct validator, mutable-access variant. The caller must
/// guarantee exclusivity (which the `&mut` borrow enforces here) and, as in
/// the shared variant, that the handle is valid for the kind. Whatever the
/// caller writes through the reference is what the handle holds afterwards.
pub fn validate_mut<'a, T: Tagged>(h: &'a mut Option<T>) -> (r: &'a mut T)
    requires
        handle_valid(*old(h)),
    ensures
        *r == old(h)->0,
        r.tag() == T::expected_tag(),
        *final(h) == Some(*final(r)),
{
    match h {
        Option::Some(v) => v,
        Option::None => unreached(),
    }
}

/// Validate the context handle the host passed for this activation.
pub fn validate_vrt_ctx(ctxp: &Option<vrt_ctx>) -> (r: &vrt_ctx)
    requires
        handle_valid(*ctxp),
    ensures
        *r == ctxp->0,
        r.magic == VRT_CTX_MAGIC,
{
    validate_ref(ctxp)
}

/// Validate a backend handle and yield its director.
pub fn validate_director(be: &VCL_BACKEND) -> (r: &director)
    requires
        handle_valid(be.0),
    ensures
        *r == be.0->0,
        r.magic == DIRECTOR_MAGIC,
{
    validate_ref(&be.0)
}

/// Validate a workspace handle, yielding mutable access: plugin code
/// allocates from a workspace, so the reference must allow writes.
pub fn validate_ws(wsp: &mut Option<ws>) -> (r: &mut ws)
    requires
        handle_valid(*old(wsp)),
    ensures
        *r == old(wsp)->0,
        r.magic == WS_MAGIC,
        *final(wsp) == Some(*final(r)),
{
    validate_mut(wsp)
}

/// Validate a fetch-filter context handle, yielding mutable access.
pub fn validate_vfp_ctx(ctxp: &mut Option<vfp_ctx>) -> (r: &mut vfp_ctx)
    requires
        handle_valid(*old(ctxp)),
    ensures
        *r == old(ctxp)->0,
        r.magic == VFP_CTX_MAGIC,
        *final(ctxp) == Some(*final(r)),
{
    validate_mut(ctxp)
}

/// Validate a fetch-filter chain entry handle, yielding mutable access.
pub fn validate_vfp_entry(vfep: &mut Option<vfp_entry>) -> (r: &mut vfp_entry)
    requires
        handle_valid(*old(vfep)),
    ensures
        *r == old(vfep)->0,
        r.magic == VFP_ENTRY_MAGIC,
        *final(vfep) == Some(*final(r)),
{
    validate_mut(vfep)
}

/// Validate the per-VCL bookkeeping handle of an already-validated
/// director, yielding mutable access.
pub fn validate_vdir(be: &mut director) -> (r: &mut vcldir)
    requires
        handle_valid(old(be).vdir),
    ensures
        *r == old(be).vdir->0,
        r.magic == VCLDIR_MAGIC,
        *final(be) == (director { magic: old(be).magic, vdir: Some(*final(r)) }),
{
    validate_mut(&mut be.vdir)
}

impl vrt_ctx {
    /// Reach the request hanging off a validated context, re-validating the
    /// nested handle. Yields mutable access: requests are commonly mutated
    /// by plugin code. Whatever the caller writes through the reference is
    /// what the context's request handle holds afterwards.
    pub fn validated_req(&mut self) -> (r: &mut req)
        requires
            handle_valid(old(self).req),
        ensures
            *r == old(self).req->0,
            r.magic == REQ_MAGIC,
            *final(self) == (vrt_ctx { magic: old(self).magic, req: Some(*final(r)) }),
    {
        validate_mut(&mut self.req)
    }
}

impl req {
    /// Reach the session a validated request belongs to, re-validating the
    /// nested handle. Yields read-only access: sessions are read-only from
    /// the plugin's perspective, and the request itself is left unchanged.
    pub fn validated_session(&mut self) -> (r: &sess)
        requires
            handle_valid(old(self).sp),
        ensures
            *r == old(self).sp->0,
            r.magic == SESS_MAGIC,
            *final(self) == *old(self),
    {
        validate_ref(&self.sp)
    }
}

/// Where a chained traversal from a context handle down to its session had
/// to stop: the first hop, in traversal order, whose handle was null or
/// mistagged.
#[derive(Clone, Copy, Debug, PartialEq, Eq, Structural)]
pub enum ChainFault {
    /// The context handle is null.
    NullContext,
    /// The context pointee does not carry the context tag.
    ContextTagMismatch,
    /// The context is valid but its request handle is null.
    NullRequest,
    /// The request pointee does not carry the request tag.
    RequestTagMismatch,
    /// Context and request are valid but the session handle is null.
    NullSession,
    /// The session pointee does not carry the session tag.
    SessionTagMismatch,
}

/// Every hop of the context-to-request-to-session traversal is valid.
pub open spec fn chain_valid(ctxp: Option<vrt_ctx>) -> bool {
    &&& handle_valid(ctxp)
    &&& handle_valid(ctxp->0.req)
    &&& handle_valid(ctxp->0.req->0.sp)
}

/// The session a fully valid chain ends at.
pub open spec fn chain_session(ctxp: Option<vrt_ctx>) -> sess {
    ctxp->0.req->0.sp->0
}

/// Walk the chained traversal context to request to session as a total
/// function, re-validating at every hop. It reaches the session exactly
/// when every hop's handle is valid, and otherwise reports the first hop,
/// in traversal order, at which dereferencing would have to abort — a
/// corrupted hop fails there, never silently downstream.
pub fn try_session_chain(ctxp: &Option<vrt_ctx>) -> (r: Result<&sess, ChainFault>)
    ensures
        r is Ok <==> chain_valid(*ctxp),
        r is Ok ==> *r->Ok_0 == chain_session(*ctxp) && r->Ok_0.magic == SESS_MAGIC,
        (r is Err && r->Err_0 == ChainFault::NullContext) <==> *ctxp is None,
        (r is Err && r->Err_0 == ChainFault::ContextTagMismatch) <==> (*ctxp is Some && !handle_valid(
            *ctxp,
        )),
        (r is Err && r->Err_0 == ChainFault::NullRequest) <==> (handle_valid(*ctxp)
            && ctxp->0.req is None),
        (r is Err && r->Err_0 == ChainFault::RequestTagMismatch) <==> (handle_valid(*ctxp)
            && ctxp->0.req is Some && !handle_valid(ctxp->0.req)),
        (r is Err && r->Err_0 == ChainFault::NullSession) <==> (handle_valid(*ctxp)
            && handle_valid(ctxp->0.req) && ctxp->0.req->0.sp is None),
        (r is Err && r->Err_0 == ChainFault::SessionTagMismatch) <==> (handle_valid(*ctxp)
            && handle_valid(ctxp->0.req) && ctxp->0.req->0.sp is Some && !handle_valid(
            ctxp->0.req->0.sp,
        )),
{
    match check_handle(ctxp) {
        HopState::NullHandle => {
            return Err(ChainFault::NullContext);
        },
        HopState::TagMismatch => {
            return Err(ChainFault::ContextTagMismatch);
        },
        HopState::Valid => {},
    }
    let c = validate_ref(ctxp);
    match check_handle(&c.req) {
        HopState::NullHandle => {
            return Err(ChainFault::NullRequest);
        },
        HopState::TagMismatch => {
            return Err(ChainFault::RequestTagMismatch);
        },
        HopState::Valid => {},
    }
    let rq = validate_ref(&c.req);
    match check_handle(&rq.sp) {
        HopState::NullHandle => {
            return Err(ChainFault::NullSession);
        },
        HopState::TagMismatch => {
            return Err(ChainFault::SessionTagMismatch);
        },
        HopState::Valid => {},
    }
    Ok(validate_ref(&rq.sp))
}

/// Law: for every valid (non-null, correctly tagged) handle of a kind,
/// validation is permitted and the pointee it yields carries exactly that
/// kind's expected tag.
pub proof fn lemma_valid_handle_yields_expected_tag<T: Tagged>(h: Option<T>)
    requires
        handle_valid(h),
    ensures
        h->0.tag() == T::expected_tag(),
{
}

/// Law: a handle whose pointee carries a tag different from the expected
/// kind's tag never validates, whatever the rest of the pointee holds.
pub proof fn lemma_tag_mismatch_never_validates<T: Tagged>(h: Option<T>)
    requires
        h is Some,
        h->0.tag() != T::expected_tag(),
    ensures
        !handle_valid(h),
{
}

/// Law: a null handle never validates, for any kind.
pub proof fn lemma_null_never_validates<T: Tagged>()
    ensures
        forall|h: Option<T>| h is None ==> !handle_valid(h),
{
}

/// Law: the chained traversal is valid end-to-end if and only if every one
/// of its three hops — context, nested request, nested session — validates
/// on its own.
pub proof fn lemma_chain_valid_iff_every_hop(ctxp: Option<vrt_ctx>)
    ensures
        chain_valid(ctxp) <==> (handle_valid(ctxp) && handle_valid(ctxp->0.req) && handle_valid(
            ctxp->0.req->0.sp,
        )),
{
}

} // verus!
