//! Capability views over the fetch-side and delivery-side filter chains.
//!
//! The two chains are distinct types over distinct descriptor kinds: a
//! fetch-side collection only ever builds a `FetchFilters` view and a
//! delivery-side collection only a `DeliveryFilters` view, so mixing them
//! up cannot compile in the first place.

use varnish_validate::filters::{vdp, vfp};
use varnish_validate::handles::{vrt_ctx, VRT_CTX_MAGIC};

fn ctx() -> vrt_ctx {
    vrt_ctx {
        magic: VRT_CTX_MAGIC,
        req: None,
    }
}

#[test]
fn fetch_view_installs_and_iterates() {
    let c = ctx();
    let mut view = c.fetch_filters(Vec::new());
    assert_eq!(view.len(), 0);
    view.install(vfp { id: 10 });
    view.install(vfp { id: 20 });
    assert_eq!(view.len(), 2);
    assert_eq!(view.get(0).id, 10);
    assert_eq!(view.get(1).id, 20);
}

#[test]
fn fetch_view_position_finds_first_match() {
    let c = ctx();
    let mut view = c.fetch_filters(vec![vfp { id: 4 }, vfp { id: 9 }]);
    view.install(vfp { id: 9 });
    assert_eq!(view.position(9), Some(1));
    assert_eq!(view.position(4), Some(0));
    assert_eq!(view.position(77), None);
}

#[test]
fn fetch_view_hands_collection_back() {
    let c = ctx();
    let mut view = c.fetch_filters(vec![vfp { id: 1 }]);
    view.install(vfp { id: 2 });
    let filters = view.into_filters();
    assert_eq!(filters.len(), 2);
    assert_eq!(filters[0].id, 1);
    assert_eq!(filters[1].id, 2);
}

#[test]
fn delivery_view_installs_and_iterates() {
    let c = ctx();
    let mut view = c.delivery_filters(Vec::new());
    assert_eq!(view.len(), 0);
    view.install(vdp { id: 5 });
    assert_eq!(view.len(), 1);
    assert_eq!(view.get(0).id, 5);
}

#[test]
fn delivery_view_position_and_handback() {
    let c = ctx();
    let mut view = c.delivery_filters(vec![vdp { id: 3 }, vdp { id: 8 }]);
    assert_eq!(view.position(8), Some(1));
    assert_eq!(view.position(99), None);
    view.install(vdp { id: 99 });
    assert_eq!(view.position(99), Some(2));
    let filters = view.into_filters();
    assert_eq!(filters.len(), 3);
    assert_eq!(filters[2].id, 99);
}

#[test]
fn each_chain_kind_builds_only_its_own_view() {
    // One context, both chain kinds side by side, each from its own
    // collection of descriptors.
    let c = ctx();
    let fetch = c.fetch_filters(vec![vfp { id: 1 }]);
    let delivery = c.delivery_filters(vec![vdp { id: 1 }]);
    assert_eq!(fetch.len(), 1);
    assert_eq!(delivery.len(), 1);
}
