//! Single-hop validation: valid, mistagged and null handles of each kind.

use varnish_validate::handles::{
    director, req, sess, VCL_BACKEND, vcldir, vfp_ctx, vfp_entry, vrt_ctx, ws, DIRECTOR_MAGIC,
    REQ_MAGIC, SESS_MAGIC, VCLDIR_MAGIC, VFP_CTX_MAGIC, VFP_ENTRY_MAGIC, VRT_CTX_MAGIC, WS_MAGIC,
};
use varnish_validate::validate::{
    check_handle, try_validate_ref, validate_director, validate_ref, validate_vdir,
    validate_vfp_ctx, validate_vfp_entry, validate_vrt_ctx, validate_ws, HopState,
};

#[test]
fn valid_context_yields_expected_tag() {
    let h = Some(vrt_ctx {
        magic: VRT_CTX_MAGIC,
        req: None,
    });
    let c = validate_vrt_ctx(&h);
    assert_eq!(c.magic, VRT_CTX_MAGIC);
    assert!(matches!(check_handle(&h), HopState::Valid));
}

#[test]
fn valid_handles_of_every_kind_validate() {
    let req = Some(req {
        magic: REQ_MAGIC,
        restarts: 0,
        sp: None,
    });
    assert_eq!(validate_ref(&req).magic, REQ_MAGIC);

    let sess = Some(sess { magic: SESS_MAGIC });
    assert_eq!(validate_ref(&sess).magic, SESS_MAGIC);

    let vcldir = Some(vcldir {
        magic: VCLDIR_MAGIC,
    });
    assert_eq!(validate_ref(&vcldir).magic, VCLDIR_MAGIC);
}

#[test]
fn mistagged_handle_is_refused() {
    let h = Some(vrt_ctx {
        magic: 0xDEAD_BEEF,
        req: None,
    });
    assert!(matches!(check_handle(&h), HopState::TagMismatch));
    assert!(try_validate_ref(&h).is_none());
}

#[test]
fn tag_of_another_kind_is_refused() {
    // A request's tag inside a struct presented as a session.
    let h = Some(sess { magic: REQ_MAGIC });
    assert!(matches!(check_handle(&h), HopState::TagMismatch));
    assert!(try_validate_ref(&h).is_none());
}

#[test]
fn null_handle_is_refused() {
    let h: Option<vrt_ctx> = None;
    assert!(matches!(check_handle(&h), HopState::NullHandle));
    assert!(try_validate_ref(&h).is_none());

    let s: Option<sess> = None;
    assert!(matches!(check_handle(&s), HopState::NullHandle));
    assert!(try_validate_ref(&s).is_none());
}

#[test]
fn validate_backend_director() {
    let be = VCL_BACKEND(Some(director {
        magic: DIRECTOR_MAGIC,
        vdir: Some(vcldir {
            magic: VCLDIR_MAGIC,
        }),
    }));
    let d = validate_director(&be);
    assert_eq!(d.magic, DIRECTOR_MAGIC);
}

#[test]
fn null_backend_is_refused() {
    let be = VCL_BACKEND(None);
    assert!(matches!(check_handle(&be.0), HopState::NullHandle));
}

#[test]
fn validate_vdir_yields_mutable_access() {
    let mut d = director {
        magic: DIRECTOR_MAGIC,
        vdir: Some(vcldir {
            magic: VCLDIR_MAGIC,
        }),
    };
    let v = validate_vdir(&mut d);
    assert_eq!(v.magic, VCLDIR_MAGIC);
    v.magic = VCLDIR_MAGIC; // write access is granted
    assert_eq!(d.vdir.as_ref().unwrap().magic, VCLDIR_MAGIC);
}

#[test]
fn validate_workspace_mutable() {
    let mut h = Some(ws { magic: WS_MAGIC });
    let w = validate_ws(&mut h);
    assert_eq!(w.magic, WS_MAGIC);
}

#[test]
fn mistagged_workspace_is_refused() {
    let h = Some(ws { magic: 1 });
    assert!(matches!(check_handle(&h), HopState::TagMismatch));
}

#[test]
fn validate_filter_context_and_entry() {
    let mut c = Some(vfp_ctx {
        magic: VFP_CTX_MAGIC,
    });
    assert_eq!(validate_vfp_ctx(&mut c).magic, VFP_CTX_MAGIC);

    let mut e = Some(vfp_entry {
        magic: VFP_ENTRY_MAGIC,
    });
    assert_eq!(validate_vfp_entry(&mut e).magic, VFP_ENTRY_MAGIC);

    let bad = Some(vfp_entry { magic: 0 });
    assert!(matches!(check_handle(&bad), HopState::TagMismatch));
}
