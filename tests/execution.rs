use chaser_oxide::executor::{
    evaluate_request, isolated_world_request, ChaserError, ISOLATED_WORLD_NAME,
};

#[test]
fn no_main_frame_is_an_error() {
    assert_eq!(isolated_world_request(None).unwrap_err(), ChaserError::NoMainFrame);
}

#[test]
fn isolated_world_in_main_frame() {
    let req = isolated_world_request(Some("F1")).unwrap();
    assert_eq!(req.frame_id, "F1");
    assert_eq!(req.world_name, ISOLATED_WORLD_NAME);
    assert_eq!(ISOLATED_WORLD_NAME, "chaser");
    assert!(req.grant_universal_access);
}

#[test]
fn evaluation_in_captured_context() {
    let req = evaluate_request("document.title", 7);
    assert_eq!(req.expression, "document.title");
    assert_eq!(req.context_id, 7);
    assert!(req.await_promise);
    assert!(req.return_by_value);
}
