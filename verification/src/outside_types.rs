//! The types of prevail and std that values of the library carry without
//! looking inside them.

use vstd::prelude::*;

verus! {

#[verifier::external_type_specification]
#[verifier::external_body]
pub struct ExIoError(std::io::Error);

#[verifier::external_type_specification]
#[verifier::external_body]
pub struct ExElfUnmarshalError(prevail::elf_loader::UnmarshalError);

#[verifier::external_type_specification]
#[verifier::external_body]
pub struct ExIrUnmarshalError(prevail::ir::unmarshal::UnmarshalError);

#[verifier::external_type_specification]
#[verifier::external_body]
pub struct ExInvalidControlFlow(prevail::ir::program::InvalidControlFlow);

#[verifier::external_type_specification]
#[verifier::external_body]
pub struct ExVerificationError(prevail::crab::ebpf_domain::VerificationError);

#[verifier::external_type_specification]
#[verifier::external_body]
pub struct ExRawProgram(prevail::spec::type_descriptors::RawProgram);

#[verifier::external_type_specification]
#[verifier::external_body]
pub struct ExAnalysisResult(prevail::result::AnalysisResult);

#[verifier::external_type_specification]
#[verifier::external_body]
pub struct ExLabel(prevail::cfg::label::Label);

#[verifier::external_type_specification]
#[verifier::external_body]
pub struct ExInstruction(prevail::ir::syntax::Instruction);

#[verifier::external_type_specification]
#[verifier::external_body]
pub struct ExBtfLineInfo(prevail::ir::syntax::BtfLineInfo);

#[verifier::external_type_specification]
#[verifier::external_body]
pub struct ExProgram(prevail::ir::program::Program);

} // verus!
