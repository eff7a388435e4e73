use weaver_vdir::host_abi::{
    check_plan, data_plan, policy_stage_from_code, status_code, HostFailure, PolicyStage,
};

#[test]
fn stage_codes_select_stages() {
    assert_eq!(policy_stage_from_code(0), Some(PolicyStage::BeforeResolution));
    assert_eq!(policy_stage_from_code(1), Some(PolicyStage::AfterResolution));
    assert_eq!(policy_stage_from_code(2), Some(PolicyStage::ComparisonAfterResolution));
    assert_eq!(policy_stage_from_code(3), Some(PolicyStage::LiveCheckAdvice));
    assert_eq!(policy_stage_from_code(4), None);
    assert_eq!(policy_stage_from_code(-1), None);
}

#[test]
fn status_codes() {
    assert_eq!(status_code(Ok(())), 0);
    assert_eq!(status_code(Err(HostFailure::NotJson)), 1);
    assert_eq!(status_code(Err(HostFailure::InputRejected)), 1);
    assert_eq!(status_code(Err(HostFailure::EngineFailed)), 2);
    assert_eq!(status_code(Err(HostFailure::EngineNotInitialized)), 3);
    assert_eq!(status_code(Err(HostFailure::InvalidStage)), 4);
}

#[test]
fn check_refusals_come_in_order() {
    assert_eq!(check_plan(false, 9, false), Err(HostFailure::NotJson));
    assert_eq!(check_plan(true, 9, false), Err(HostFailure::InvalidStage));
    assert_eq!(check_plan(true, 3, false), Err(HostFailure::EngineNotInitialized));
    assert_eq!(check_plan(true, 3, true), Ok(PolicyStage::LiveCheckAdvice));
}

#[test]
fn data_refusals_come_in_order() {
    assert_eq!(data_plan(false, false), Err(HostFailure::NotJson));
    assert_eq!(data_plan(true, false), Err(HostFailure::EngineNotInitialized));
    assert_eq!(data_plan(true, true), Ok(()));
}

#[test]
fn check_request_reads_the_input_bytes() {
    let (stage, value) = weaver_vdir::host_abi::check_request(br#"{"name": "bad"}"#, 3, true).unwrap();
    assert_eq!(stage, PolicyStage::LiveCheckAdvice);
    assert_eq!(value["name"], "bad");
    assert_eq!(
        weaver_vdir::host_abi::check_request(b"not json", 3, true).unwrap_err(),
        HostFailure::NotJson
    );
    assert_eq!(
        weaver_vdir::host_abi::check_request(b"{}", 7, true).unwrap_err(),
        HostFailure::InvalidStage
    );
    assert_eq!(
        weaver_vdir::host_abi::check_request(b"[1, 2]", 0, false).unwrap_err(),
        HostFailure::EngineNotInitialized
    );
}

#[test]
fn data_request_reads_the_data_bytes() {
    let value = weaver_vdir::host_abi::data_request(br#"{"k": [1]}"#, true).unwrap();
    assert_eq!(value["k"][0], 1);
    assert_eq!(weaver_vdir::host_abi::data_request(b"{", true).unwrap_err(), HostFailure::NotJson);
    assert_eq!(weaver_vdir::host_abi::data_request(b"{", false).unwrap_err(), HostFailure::NotJson);
    assert_eq!(
        weaver_vdir::host_abi::data_request(b"null", false).unwrap_err(),
        HostFailure::EngineNotInitialized
    );
}
