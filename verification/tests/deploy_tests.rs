use shadow_core::deploy::{Artifact, Deploy, DeployError, DeployFlow, DeployPhase};

fn command() -> Deploy {
    Deploy {
        contract: String::from("Token.sol:TokenV2"),
        address: String::from("0x000000000000000000000000000000000000dead"),
    }
}

#[test]
fn new_flow_resolves_the_identifier() {
    let flow = DeployFlow::new(&command());
    assert_eq!(flow.file_name, "Token.sol");
    assert_eq!(flow.contract_name, "TokenV2");
    assert_eq!(flow.address, "0x000000000000000000000000000000000000dead");
    assert_eq!(flow.phase, DeployPhase::NeedArtifact);
    assert!(!flow.verification_warning);
    assert!(flow.bytecode.is_empty());
}

#[test]
fn missing_artifact_fails_without_any_state_mutation() {
    let mut flow = DeployFlow::new(&command());
    let r = flow.on_artifact(None);
    assert_eq!(r, Err(DeployError::ArtifactNotFound));
    assert_eq!(flow.phase, DeployPhase::Failed);
    // The flow failed before any injection or record step was requested:
    // nothing was loaded and no warning was raised.
    assert!(flow.bytecode.is_empty());
    assert!(!flow.verification_warning);
}

#[test]
fn successful_flow_records_only_after_injection() {
    let mut flow = DeployFlow::new(&command());
    let artifact = Artifact { bytecode: vec![0x60, 0x80, 0x60, 0x40], abi: String::from("[]") };
    assert_eq!(flow.on_artifact(Some(artifact)), Ok(()));
    assert_eq!(flow.phase, DeployPhase::NeedVerification);
    assert_eq!(flow.bytecode, vec![0x60, 0x80, 0x60, 0x40]);

    flow.on_verification(true);
    assert_eq!(flow.phase, DeployPhase::NeedConnection);
    assert!(!flow.verification_warning);

    assert_eq!(flow.on_connection(true), Ok(()));
    assert_eq!(flow.phase, DeployPhase::NeedInjection);

    assert_eq!(flow.on_injection(true), Ok(()));
    assert_eq!(flow.phase, DeployPhase::NeedRecord);

    flow.on_recorded();
    assert_eq!(flow.phase, DeployPhase::Done);
}

#[test]
fn verification_failure_is_a_warning_not_an_error() {
    let mut flow = DeployFlow::new(&command());
    let artifact = Artifact { bytecode: vec![1], abi: String::from("[]") };
    assert_eq!(flow.on_artifact(Some(artifact)), Ok(()));
    flow.on_verification(false);
    assert!(flow.verification_warning);
    assert_eq!(flow.phase, DeployPhase::NeedConnection);
}

#[test]
fn connection_failure_is_a_provider_error() {
    let mut flow = DeployFlow::new(&command());
    let artifact = Artifact { bytecode: vec![1], abi: String::from("[]") };
    assert_eq!(flow.on_artifact(Some(artifact)), Ok(()));
    flow.on_verification(true);
    assert_eq!(flow.on_connection(false), Err(DeployError::ProviderError));
    assert_eq!(flow.phase, DeployPhase::Failed);
}

#[test]
fn injection_failure_stops_the_flow_before_the_record_step() {
    let mut flow = DeployFlow::new(&command());
    let artifact = Artifact { bytecode: vec![1], abi: String::from("[]") };
    assert_eq!(flow.on_artifact(Some(artifact)), Ok(()));
    flow.on_verification(true);
    assert_eq!(flow.on_connection(true), Ok(()));
    assert_eq!(flow.on_injection(false), Err(DeployError::InjectionError));
    assert_eq!(flow.phase, DeployPhase::Failed);
}
