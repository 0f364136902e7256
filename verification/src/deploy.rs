//! The deploy flow: resolving a contract identifier, loading the
//! compiled artifact, optionally consulting the verification service,
//! connecting to the node, injecting the bytecode at the target address
//! by state override, and recording the deployment in the shadow store.
//!
//! The flow is a step machine over plain values. The driver performs
//! each outside round-trip (store lookup, service call, connection,
//! injection, record write) and reports its outcome; the flow decides
//! what follows. Failure at any fatal step moves the flow to `Failed`
//! and nothing further may be requested, so a shadow-store record can
//! never be written unless the code injection already succeeded.

use vstd::prelude::*;

use crate::ident::parse_contract_string;
use crate::ident::spec_contract_name;
use crate::ident::spec_file_name;

verus! {

/// The `deploy` command's arguments: the shadow contract to deploy,
/// either `ContractFile.sol` or `ContractFile.sol:ContractName`, and
/// the address to deploy it at.
pub struct Deploy {
    pub contract: String,
    pub address: String,
}

/// Errors of the deploy flow, one per fatal step: the artifact store
/// had no entry, the node connection failed, or the code injection
/// failed.
#[derive(Debug, Clone, Copy, PartialEq, Eq, Structural)]
pub enum DeployError {
    ArtifactNotFound,
    ProviderError,
    InjectionError,
}

/// A compiled contract artifact: the deployed bytecode and the ABI
/// text.
#[derive(Debug, PartialEq, Eq)]
pub struct Artifact {
    pub bytecode: Vec<u8>,
    pub abi: String,
}

/// The step the deploy flow is waiting on, in order; `Done` and
/// `Failed` are terminal.
#[derive(Debug, Clone, Copy, PartialEq, Eq, Structural)]
pub enum DeployPhase {
    NeedArtifact,
    NeedVerification,
    NeedConnection,
    NeedInjection,
    NeedRecord,
    Done,
    Failed,
}

/// The state of one deploy invocation: the resolved identifier, the
/// target address, the loaded bytecode, and the step it is waiting on.
pub struct DeployFlow {
    pub file_name: String,
    pub contract_name: String,
    pub address: String,
    pub bytecode: Vec<u8>,
    pub phase: DeployPhase,
    pub verification_warning: bool,
}

impl DeployFlow {
    /// Begins a deploy flow: resolves the contract identifier from the
    /// command's contract string and waits for the artifact lookup.
    pub fn new(cmd: &Deploy) -> (f: DeployFlow)
        ensures
            f.phase is NeedArtifact,
            f.file_name@ == spec_file_name(cmd.contract@),
            f.contract_name@ == spec_contract_name(cmd.contract@),
            f.address@ == cmd.address@,
            f.bytecode@ == Seq::<u8>::empty(),
            !f.verification_warning,
    {
        let (file_name, contract_name) = parse_contract_string(cmd.contract.as_str());
        DeployFlow {
            file_name,
            contract_name,
            address: cmd.address.clone(),
            bytecode: Vec::new(),
            phase: DeployPhase::NeedArtifact,
            verification_warning: false,
        }
    }

    /// Takes the outcome of the artifact-store lookup. A missing
    /// artifact is fatal: the flow fails with `ArtifactNotFound` before
    /// any connection, injection or record step was ever requested.
    pub fn on_artifact(&mut self, artifact: Option<Artifact>) -> (r: Result<(), DeployError>)
        requires
            old(self).phase is NeedArtifact,
        ensures
            final(self).file_name == old(self).file_name,
            final(self).contract_name == old(self).contract_name,
            final(self).address == old(self).address,
            final(self).verification_warning == old(self).verification_warning,
            (match artifact {
                Some(a) => {
                    &&& r is Ok
                    &&& final(self).phase is NeedVerification
                    &&& final(self).bytecode == a.bytecode
                },
                None => {
                    &&& r matches Err(e) && e is ArtifactNotFound
                    &&& final(self).phase is Failed
                    &&& final(self).bytecode == old(self).bytecode
                },
            }),
    {
        match artifact {
            Some(a) => {
                self.bytecode = a.bytecode;
                self.phase = DeployPhase::NeedVerification;
                Ok(())
            },
            None => {
                self.phase = DeployPhase::Failed;
                Err(DeployError::ArtifactNotFound)
            },
        }
    }

    /// Takes the outcome of the verification-service lookup. The lookup
    /// is auditability metadata only: a failure is not fatal, but it is
    /// kept as a warning on the flow rather than silently swallowed.
    pub fn on_verification(&mut self, fetched: bool)
        requires
            old(self).phase is NeedVerification,
        ensures
            final(self).file_name == old(self).file_name,
            final(self).contract_name == old(self).contract_name,
            final(self).address == old(self).address,
            final(self).bytecode == old(self).bytecode,
            final(self).phase is NeedConnection,
            final(self).verification_warning == !fetched,
    {
        self.verification_warning = !fetched;
        self.phase = DeployPhase::NeedConnection;
    }

    /// Takes the outcome of connecting to the node: a failed connection
    /// is fatal with `ProviderError`.
    pub fn on_connection(&mut self, connected: bool) -> (r: Result<(), DeployError>)
        requires
            old(self).phase is NeedConnection,
        ensures
            final(self).file_name == old(self).file_name,
            final(self).contract_name == old(self).contract_name,
            final(self).address == old(self).address,
            final(self).bytecode == old(self).bytecode,
            final(self).verification_warning == old(self).verification_warning,
            connected ==> r is Ok && final(self).phase is NeedInjection,
            !connected ==> (r matches Err(e) && e is ProviderError) && final(self).phase is Failed,
    {
        if connected {
            self.phase = DeployPhase::NeedInjection;
            Ok(())
        } else {
            self.phase = DeployPhase::Failed;
            Err(DeployError::ProviderError)
        }
    }

    /// Takes the outcome of the state-override code injection: a failed
    /// injection is fatal with `InjectionError`, and the record step is
    /// reached only when the injection succeeded.
    pub fn on_injection(&mut self, injected: bool) -> (r: Result<(), DeployError>)
        requires
            old(self).phase is NeedInjection,
        ensures
            final(self).file_name == old(self).file_name,
            final(self).contract_name == old(self).contract_name,
            final(self).address == old(self).address,
            final(self).bytecode == old(self).bytecode,
            final(self).verification_warning == old(self).verification_warning,
            injected ==> r is Ok && final(self).phase is NeedRecord,
            !injected ==> (r matches Err(e) && e is InjectionError) && final(self).phase is Failed,
    {
        if injected {
            self.phase = DeployPhase::NeedRecord;
            Ok(())
        } else {
            self.phase = DeployPhase::Failed;
            Err(DeployError::InjectionError)
        }
    }

    /// Takes the confirmation that the shadow-store record was written;
    /// the flow is then complete. Only a flow whose injection succeeded
    /// can reach this step.
    pub fn on_recorded(&mut self)
        requires
            old(self).phase is NeedRecord,
        ensures
            final(self).file_name == old(self).file_name,
            final(self).contract_name == old(self).contract_name,
            final(self).address == old(self).address,
            final(self).bytecode == old(self).bytecode,
            final(self).verification_warning == old(self).verification_warning,
            final(self).phase is Done,
    {
        self.phase = DeployPhase::Done;
    }
}

} // verus!
