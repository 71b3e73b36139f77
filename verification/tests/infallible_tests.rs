use oxigraph::{Infallible, UnwrapInfallible};

#[test]
fn unwrap_infallible_returns_the_payload() {
    let r: Result<u32, Infallible> = Ok(7);
    assert_eq!(r.unwrap_infallible(), 7);
}

#[test]
fn unwrap_infallible_works_for_every_payload_tried() {
    for i in 0..1000u32 {
        let r: Result<u32, Infallible> = Ok(i);
        assert_eq!(r.unwrap_infallible(), i);
    }
}

#[test]
fn unwrap_infallible_moves_owned_payloads() {
    let r: Result<String, Infallible> = Ok("kept as it is".to_string());
    assert_eq!(r.unwrap_infallible(), "kept as it is");
}
