use textsynth::utils::UntaggedResult;

#[test]
fn untagged_result_converts_both_ways() {
    let ok: Result<u8, String> = Ok(3);
    let untagged: UntaggedResult<u8, String> = ok.clone().into();
    assert_eq!(untagged, UntaggedResult::Success(3));
    let back: Result<u8, String> = untagged.into();
    assert_eq!(back, ok);

    let err: Result<u8, String> = Err("no".to_string());
    let untagged: UntaggedResult<u8, String> = err.clone().into();
    assert_eq!(untagged, UntaggedResult::Failure("no".to_string()));
    let back: Result<u8, String> = untagged.into();
    assert_eq!(back, err);
}
