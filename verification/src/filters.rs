//! Capability views over the filter chains of a context.
//!
//! Only current host ABI revisions define the filter structs; hosts of the
//! legacy revision have no such layer, and a build against one leaves this
//! module out entirely.

#![allow(non_camel_case_types)]

use vstd::prelude::*;

use crate::handles::{vrt_ctx, VRT_CTX_MAGIC};

verus! {

/// A fetch-side (inbound) filter descriptor.
#[derive(Clone, Copy, Debug)]
pub struct vfp {
    /// The identifier the host resolves the filter by.
    pub id: u64,
}

/// A delivery-side (outbound) filter descriptor.
#[derive(Clone, Copy, Debug)]
pub struct vdp {
    /// The identifier the host resolves the filter by.
    pub id: u64,
}

/// A capability view over the fetch-side filter chain of one context: a
/// validated context plus a caller-owned collection of fetch-filter
/// descriptors, exposing only installation, iteration and position lookup.
pub struct FetchFilters<'c> {
    ctx: &'c vrt_ctx,
    filters: Vec<vfp>,
}

impl<'c> View for FetchFilters<'c> {
    type V = Seq<vfp>;

    closed spec fn view(&self) -> Seq<vfp> {
        self.filters@
    }
}

impl<'c> FetchFilters<'c> {
    /// The context this view is scoped to carries the context tag.
    pub closed spec fn wf(&self) -> bool {
        self.ctx.magic == VRT_CTX_MAGIC
    }

    /// Build a view over `filters`, scoped to the validated context `ctx`.
    pub fn new(ctx: &'c vrt_ctx, filters: Vec<vfp>) -> (r: Self)
        requires
            ctx.magic == VRT_CTX_MAGIC,
        ensures
            r@ == filters@,
            r.wf(),
    {
        FetchFilters { ctx, filters }
    }

    /// Install a filter at the end of the chain.
    pub fn install(&mut self, f: vfp)
        ensures
            final(self)@ == old(self)@.push(f),
            final(self).wf() == old(self).wf(),
    {
        self.filters.push(f);
    }

    /// How many filters the chain holds.
    pub fn len(&self) -> (n: usize)
        ensures
            n == self@.len(),
    {
        self.filters.len()
    }

    /// Inspect the filter at position `i`.
    pub fn get(&self, i: usize) -> (f: &vfp)
        requires
            i < self@.len(),
        ensures
            *f == self@[i as int],
    {
        &self.filters[i]
    }

    /// Position of the first filter with identifier `id`, if any is
    /// installed.
    pub fn position(&self, id: u64) -> (r: Option<usize>)
        ensures
            r is Some ==> r->0 < self@.len() && self@[r->0 as int].id == id && (forall|j: int|
                0 <= j < r->0 ==> self@[j].id != id),
            r is None ==> (forall|j: int| 0 <= j < self@.len() ==> self@[j].id != id),
    {
        let mut i: usize = 0;
        while i < self.filters.len()
            invariant
                i <= self.filters.len(),
                forall|j: int| 0 <= j < i ==> self@[j].id != id,
            decreases self.filters.len() - i,
        {
            if self.filters[i].id == id {
                return Some(i);
            }
            i += 1;
        }
        None
    }

    /// Hand the collection of descriptors back to the caller, ending the
    /// view.
    pub fn into_filters(self) -> (v: Vec<vfp>)
        ensures
            v@ == self@,
    {
        self.filters
    }
}

/// A capability view over the delivery-side filter chain of one context: a
/// validated context plus a caller-owned collection of delivery-filter
/// descriptors, exposing only installation, iteration and position lookup.
/// Deliberately a distinct type from [`FetchFilters`]: the two chains have
/// incompatible element kinds and must never be interchangeable.
pub struct DeliveryFilters<'c> {
    ctx: &'c vrt_ctx,
    filters: Vec<vdp>,
}

impl<'c> View for DeliveryFilters<'c> {
    type V = Seq<vdp>;

    closed spec fn view(&self) -> Seq<vdp> {
        self.filters@
    }
}

impl<'c> DeliveryFilters<'c> {
    /// The context this view is scoped to carries the context tag.
    pub closed spec fn wf(&self) -> bool {
        self.ctx.magic == VRT_CTX_MAGIC
    }

    /// Build a view over `filters`, scoped to the validated context `ctx`.
    pub fn new(ctx: &'c vrt_ctx, filters: Vec<vdp>) -> (r: Self)
        requires
            ctx.magic == VRT_CTX_MAGIC,
        ensures
            r@ == filters@,
            r.wf(),
    {
        DeliveryFilters { ctx, filters }
    }

    /// Install a filter at the end of the chain.
    pub fn install(&mut self, f: vdp)
        ensures
            final(self)@ == old(self)@.push(f),
            final(self).wf() == old(self).wf(),
    {
        self.filters.push(f);
    }

    /// How many filters the chain holds.
    pub fn len(&self) -> (n: usize)
        ensures
            n == self@.len(),
    {
        self.filters.len()
    }

    /// Inspect the filter at position `i`.
    pub fn get(&self, i: usize) -> (f: &vdp)
        requires
            i < self@.len(),
        ensures
            *f == self@[i as int],
    {
        &self.filters[i]
    }

    /// Position of the first filter with identifier `id`, if any is
    /// installed.
    pub fn position(&self, id: u64) -> (r: Option<usize>)
        ensures
            r is Some ==> r->0 < self@.len() && self@[r->0 as int].id == id && (forall|j: int|
                0 <= j < r->0 ==> self@[j].id != id),
            r is None ==> (forall|j: int| 0 <= j < self@.len() ==> self@[j].id != id),
    {
        let mut i: usize = 0;
        while i < self.filters.len()
            invariant
                i <= self.filters.len(),
                forall|j: int| 0 <= j < i ==> self@[j].id != id,
            decreases self.filters.len() - i,
        {
            if self.filters[i].id == id {
                return Some(i);
            }
            i += 1;
        }
        None
    }

    /// Hand the collection of descriptors back to the caller, ending the
    /// view.
    pub fn into_filters(self) -> (v: Vec<vdp>)
        ensures
            v@ == self@,
    {
        self.filters
    }
}

impl vrt_ctx {
    /// Open the fetch-side filter chain of this validated context over a
    /// caller-owned collection of fetch-filter descriptors.
    pub fn fetch_filters<'c>(&'c self, filters: Vec<vfp>) -> (r: FetchFilters<'c>)
        requires
            self.magic == VRT_CTX_MAGIC,
        ensures
            r@ == filters@,
            r.wf(),
    {
        FetchFilters::new(self, filters)
    }

    /// Open the delivery-side filter chain of this validated context over a
    /// caller-owned collection of delivery-filter descriptors.
    pub fn delivery_filters<'c>(&'c self, filters: Vec<vdp>) -> (r: DeliveryFilters<'c>)
        requires
            self.magic == VRT_CTX_MAGIC,
        ensures
            r@ == filters@,
            r.wf(),
    {
        DeliveryFilters::new(self, filters)
    }
}

} // verus!
