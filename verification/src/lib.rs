//! Programmable flow protection program verification library.
//!
//! The rules that decide whether a PFP program is accepted: which helper
//! functions a program may call and with what arguments, which context a
//! program is given, the options of the analysis, how the entry point is
//! found and how the outcome of the abstract interpretation is judged. The
//! analysis itself is prevail's.

pub mod config;
pub mod context_descriptors;
pub mod headers;
pub mod helpers;
mod outside_types;
pub mod platform;
mod text;
pub mod value_range;

/// prevail, re-exported so that users of the library can handle its errors
/// without a dependency of their own on it.
pub use prevail;

use vstd::prelude::*;
use crate::config::MAIN_FUNCTION_NAME;
use crate::headers::{CF_EBPF_DROP, CF_EBPF_PASS};
use crate::text::same_text;
use crate::value_range::{
    lemma_included_values, range_contains, range_from_pair, range_included_in,
    spec_range_included_in, ExtBound, ValueRange,
};
use prevail::crab::ebpf_domain::VerificationError;
use prevail::crab::interval::Bound;
use prevail::ir::program::Program;
use prevail::ir::syntax::InstructionSeq;
use prevail::result::AnalysisResult;
use prevail::spec::type_descriptors::RawProgram;

verus! {

/// Errors that can occur during PFP program verification.
#[derive(Debug)]
pub enum VerifyError {
    /// Error encountered during an i/o operation.
    Io(std::io::Error),
    /// Error during ELF unmarshalling.
    LoaderUnmarshall(prevail::elf_loader::UnmarshalError),
    /// Error during intermediate representation unmarshalling.
    IrUnmarshall(prevail::ir::unmarshal::UnmarshalError),
    /// The program could not be converted to a control flow graph.
    InvalidControlFlow(prevail::ir::program::InvalidControlFlow),
    /// No function named `cf_ebpf_main` was found in the ELF.
    EntryPointNotFound,
    /// The program failed verification.
    VerificationError(VerificationError),
    /// The program failed verification for an unknown reason.
    UnknownVerificationError,
    /// The program's return value could not be verified to be a verdict.
    BadReturnInterval,
}

/// The index of the first function named `cf_ebpf_main` among the functions
/// of an ELF file, in the order in which they are listed, if there is one.
pub fn find_entry_point(names: &Vec<String>) -> (r: Option<usize>)
    ensures
        match r {
            Some(i) => {
                &&& i < names@.len()
                &&& names@[i as int]@ == MAIN_FUNCTION_NAME@
                &&& forall|j: int| 0 <= j < i ==> (#[trigger] names@[j])@ != MAIN_FUNCTION_NAME@
            },
            None => forall|j: int| 0 <= j < names@.len() ==> (#[trigger] names@[j])@ != MAIN_FUNCTION_NAME@,
        },
{
    let n = names.len();
    let mut i: usize = 0;
    while i < n
        invariant
            n == names@.len(),
            i <= n,
            forall|j: int| 0 <= j < i ==> (#[trigger] names@[j])@ != MAIN_FUNCTION_NAME@,
        decreases n - i,
    {
        if same_text(names[i].as_str(), MAIN_FUNCTION_NAME) {
            return Some(i);
        }
        i = i + 1;
    }
    None
}

/// The name of the function of which a program read from an ELF file is the
/// code: its field `RawProgram::function_name`, as characters.
pub uninterp spec fn spec_function_name(p: RawProgram) -> Seq<char>;

/// The name of the function of which `p` is the code: a copy of the field
/// `RawProgram::function_name`.
#[verifier::external_body]
fn program_function_name(p: &RawProgram) -> (r: String)
    ensures
        r@ == spec_function_name(*p),
{
    p.function_name.clone()
}

/// Whether the function of program `p` is the entry point `cf_ebpf_main`.
pub open spec fn is_main_program(p: RawProgram) -> bool {
    spec_function_name(p) == MAIN_FUNCTION_NAME@
}

/// Whether `programs[i]` is the first program of `programs` whose function is
/// named `cf_ebpf_main`.
pub open spec fn is_first_main_program(programs: Seq<RawProgram>, i: int) -> bool {
    &&& 0 <= i < programs.len()
    &&& is_main_program(programs[i])
    &&& forall|j: int| 0 <= j < i ==> !is_main_program(#[trigger] programs[j])
}

/// The entry point among the programs that prevail read from an ELF file.
///
/// A failure to read the file is a [`VerifyError::LoaderUnmarshall`]; where no
/// function is named `cf_ebpf_main`, the error is
/// [`VerifyError::EntryPointNotFound`]. Otherwise the first program whose
/// function has that name is returned.
pub fn select_main_program(
    read: Result<Vec<RawProgram>, prevail::elf_loader::UnmarshalError>,
) -> (r: Result<RawProgram, VerifyError>)
    ensures
        read is Err ==> r == Err::<RawProgram, VerifyError>(VerifyError::LoaderUnmarshall(read->Err_0)),
        read is Ok ==> {
            let programs = read->Ok_0@;
            &&& r is Err <==> forall|j: int| 0 <= j < programs.len() ==> !is_main_program(#[trigger] programs[j])
            &&& r is Err ==> r->Err_0 is EntryPointNotFound
            &&& r is Ok ==> exists|i: int| is_first_main_program(programs, i) && programs[i] == r->Ok_0
        },
{
    match read {
        Err(e) => Err(VerifyError::LoaderUnmarshall(e)),
        Ok(programs) => {
            let ghost all = programs@;
            let mut programs = programs;
            let mut names: Vec<String> = Vec::new();
            let n = programs.len();
            let mut i: usize = 0;
            while i < n
                invariant
                    n == programs@.len(),
                    i <= n,
                    names@.len() == i,
                    programs@ == all,
                    forall|j: int| 0 <= j < i ==> (#[trigger] names@[j])@ == spec_function_name(all[j]),
                decreases n - i,
            {
                names.push(program_function_name(&programs[i]));
                i = i + 1;
            }
            match find_entry_point(&names) {
                Some(k) => {
                    let p = programs.remove(k);
                    assert(all[k as int] == p);
                    assert forall|j: int| 0 <= j < k implies !is_main_program(#[trigger] all[j]) by {
                        assert(names@[j]@ != MAIN_FUNCTION_NAME@);
                    }
                    assert(is_first_main_program(all, k as int));
                    assert(is_main_program(all[k as int]));
                    Ok(p)
                },
                None => {
                    assert forall|j: int| 0 <= j < all.len() implies !is_main_program(#[trigger] all[j]) by {
                        assert(names@[j]@ != MAIN_FUNCTION_NAME@);
                    }
                    Err(VerifyError::EntryPointNotFound)
                },
            }
        },
    }
}

/// The unmarshalled instructions of the entry program, with their count.
///
/// A failure to unmarshal is a [`VerifyError::IrUnmarshall`]. The count is
/// that of the instructions before the control flow graph is built: loops are
/// not unrolled, so it is not the number of instructions that can run.
pub fn count_instructions(
    unmarshalled: Result<InstructionSeq, prevail::ir::unmarshal::UnmarshalError>,
) -> (r: Result<(InstructionSeq, usize), VerifyError>)
    ensures
        match unmarshalled {
            Ok(seq) => r matches Ok((s, n)) && s == seq && n == seq@.len(),
            Err(e) => r == Err::<(InstructionSeq, usize), VerifyError>(VerifyError::IrUnmarshall(e)),
        },
{
    match unmarshalled {
        Ok(seq) => {
            let n = seq.len();
            Ok((seq, n))
        },
        Err(e) => Err(VerifyError::IrUnmarshall(e)),
    }
}

/// The control flow graph of the entry program; a failure to build it is a
/// [`VerifyError::InvalidControlFlow`].
pub fn control_flow_graph(
    built: Result<Program, prevail::ir::program::InvalidControlFlow>,
) -> (r: Result<Program, VerifyError>)
    ensures
        match built {
            Ok(p) => r == Ok::<Program, VerifyError>(p),
            Err(e) => r == Err::<Program, VerifyError>(VerifyError::InvalidControlFlow(e)),
        },
{
    match built {
        Ok(p) => Ok(p),
        Err(e) => Err(VerifyError::InvalidControlFlow(e)),
    }
}

/// What the analysis of a program comes to.
///
/// A failed analysis is an error: its first error if it names one, else an
/// unknown verification error. A program that passed but whose exit value is
/// not provably within the allowed verdicts is rejected with
/// [`VerifyError::BadReturnInterval`]. Otherwise the program is accepted and
/// its instruction count returned.
pub open spec fn spec_verification_outcome(
    failed: bool,
    first_error: Option<VerificationError>,
    exit_within_verdicts: bool,
    inst_count: usize,
) -> Result<usize, VerifyError> {
    if failed {
        match first_error {
            Some(e) => Err(VerifyError::VerificationError(e)),
            None => Err(VerifyError::UnknownVerificationError),
        }
    } else if !exit_within_verdicts {
        Err(VerifyError::BadReturnInterval)
    } else {
        Ok(inst_count)
    }
}

/// Judges the outcome of an analysis: whether it `failed`, the `first_error`
/// it found, whether the program's exit value lies within
/// `[CF_EBPF_PASS, CF_EBPF_DROP]`, and the program's instruction count.
///
/// The return values of programs that already failed verification for other
/// reasons do not matter.
pub fn verification_outcome(
    failed: bool,
    first_error: Option<VerificationError>,
    exit_within_verdicts: bool,
    inst_count: usize,
) -> (r: Result<usize, VerifyError>)
    ensures
        r == spec_verification_outcome(failed, first_error, exit_within_verdicts, inst_count),
        r is Ok <==> !failed && exit_within_verdicts,
        r is Ok ==> r == Ok::<usize, VerifyError>(inst_count),
        // a failed analysis is judged by its errors alone, whatever its exit value
        failed && first_error is Some ==> r == Err::<usize, VerifyError>(
            VerifyError::VerificationError(first_error->Some_0),
        ),
        failed && first_error is None ==> r matches Err(VerifyError::UnknownVerificationError),
        !failed && !exit_within_verdicts ==> r matches Err(VerifyError::BadReturnInterval),
{
    if failed {
        return match first_error {
            Some(e) => Err(VerifyError::VerificationError(e)),
            None => Err(VerifyError::UnknownVerificationError),
        };
    }
    if !exit_within_verdicts {
        return Err(VerifyError::BadReturnInterval);
    }
    Ok(inst_count)
}

/// Whether prevail's analysis of a program failed: its field
/// `AnalysisResult::failed`.
pub uninterp spec fn spec_analysis_failed(result: AnalysisResult) -> bool;

/// The first error that prevail's analysis found, by
/// `AnalysisResult::find_first_error`.
pub uninterp spec fn spec_first_error(result: AnalysisResult) -> Option<VerificationError>;

/// The lower bound of the range of the program's exit value: the lower bound
/// of the field `AnalysisResult::exit_value`.
pub uninterp spec fn spec_exit_lower_bound(result: AnalysisResult) -> ExtBound;

/// The upper bound of the range of the program's exit value: the upper bound
/// of the field `AnalysisResult::exit_value`.
pub uninterp spec fn spec_exit_upper_bound(result: AnalysisResult) -> ExtBound;

/// The range of the program's exit value that prevail's analysis found.
pub open spec fn spec_exit_range(result: AnalysisResult) -> ValueRange {
    ValueRange { lb: spec_exit_lower_bound(result), ub: spec_exit_upper_bound(result) }
}

/// Whether prevail's analysis failed (the field `AnalysisResult::failed`).
#[verifier::external_body]
fn analysis_failed(result: &AnalysisResult) -> (r: bool)
    ensures
        r == spec_analysis_failed(*result),
{
    result.failed
}

/// The first error that prevail's analysis found (`AnalysisResult::find_first_error`).
#[verifier::external_body]
fn analysis_first_error(result: &AnalysisResult) -> (r: Option<VerificationError>)
    ensures
        r == spec_first_error(*result),
{
    result.find_first_error()
}

/// The lower bound of the range of the exit value (`Interval::lb` of the field
/// `AnalysisResult::exit_value`). A finite bound holds an `i128`, which is
/// carried over through its decimal form, the one way prevail shows it.
#[verifier::external_body]
fn exit_lower_bound(result: &AnalysisResult) -> (r: ExtBound)
    ensures
        r == spec_exit_lower_bound(*result),
{
    match result.exit_value.lb() {
        Bound::MinusInfinity => ExtBound::MinusInfinity,
        Bound::Finite(n) => ExtBound::Finite(n.to_string().parse::<i128>().unwrap()),
        Bound::PlusInfinity => ExtBound::PlusInfinity,
    }
}

/// The upper bound of the range of the exit value (`Interval::ub` of the field
/// `AnalysisResult::exit_value`). A finite bound holds an `i128`, which is
/// carried over through its decimal form, the one way prevail shows it.
#[verifier::external_body]
fn exit_upper_bound(result: &AnalysisResult) -> (r: ExtBound)
    ensures
        r == spec_exit_upper_bound(*result),
{
    match result.exit_value.ub() {
        Bound::MinusInfinity => ExtBound::MinusInfinity,
        Bound::Finite(n) => ExtBound::Finite(n.to_string().parse::<i128>().unwrap()),
        Bound::PlusInfinity => ExtBound::PlusInfinity,
    }
}

/// The exit values that a PFP program may have: `[CF_EBPF_PASS, CF_EBPF_DROP]`,
/// that is pass or drop.
pub open spec fn spec_verdict_range() -> ValueRange {
    ValueRange { lb: ExtBound::Finite(CF_EBPF_PASS as i128), ub: ExtBound::Finite(CF_EBPF_DROP as i128) }
}

/// The exit values that a PFP program may have: `[CF_EBPF_PASS, CF_EBPF_DROP]`.
fn verdict_interval() -> (r: ValueRange)
    ensures
        r == spec_verdict_range(),
{
    range_from_pair(CF_EBPF_PASS as i64, CF_EBPF_DROP as i64)
}

/// What prevail's analysis `result` of a program of `inst_count` instructions
/// comes to: [`spec_verification_outcome`] for whether the analysis failed,
/// its first error, and whether the range of the exit value lies within the
/// verdicts `[CF_EBPF_PASS, CF_EBPF_DROP]`.
pub open spec fn spec_check_analysis(result: AnalysisResult, inst_count: usize) -> Result<usize, VerifyError> {
    spec_verification_outcome(
        spec_analysis_failed(result),
        spec_first_error(result),
        spec_range_included_in(spec_exit_range(result), spec_verdict_range()),
        inst_count,
    )
}

/// Judges prevail's analysis of a program of `inst_count` instructions.
///
/// A failed analysis gives its first error, or an unknown verification error
/// where it names none; a passed analysis whose exit value may lie outside
/// `[CF_EBPF_PASS, CF_EBPF_DROP]` gives [`VerifyError::BadReturnInterval`];
/// otherwise the program is accepted and its instruction count returned. The
/// return values of programs that already failed for other reasons do not
/// matter.
pub fn check_analysis(result: &AnalysisResult, inst_count: usize) -> (r: Result<usize, VerifyError>)
    ensures
        r == spec_check_analysis(*result, inst_count),
{
    let failed = analysis_failed(result);
    if failed {
        let first_error = analysis_first_error(result);
        verification_outcome(true, first_error, false, inst_count)
    } else {
        let allowed = verdict_interval();
        let exit_range = ValueRange { lb: exit_lower_bound(result), ub: exit_upper_bound(result) };
        let within = range_included_in(exit_range, allowed);
        verification_outcome(false, None, within, inst_count)
    }
}

/// Whether each value that the range `r` holds is `CF_EBPF_PASS` or
/// `CF_EBPF_DROP`, the two allowed returns of a program.
pub open spec fn only_verdicts(r: ValueRange) -> bool {
    forall|v: int| range_contains(r, v) ==> v == CF_EBPF_PASS || v == CF_EBPF_DROP
}

/// The judgement of an analysis outcome: a failed analysis is rejected with
/// its first error (or as unknown where it names none), and its exit value
/// plays no part; a passed analysis is accepted, with the given instruction
/// count, exactly when its exit value lies within the verdicts, and is
/// otherwise rejected for its return value.
pub proof fn lemma_outcome_judgement(
    first_error: Option<VerificationError>,
    exit_within_verdicts: bool,
    other_exit: bool,
    inst_count: usize,
)
    ensures
        spec_verification_outcome(true, first_error, exit_within_verdicts, inst_count)
            == spec_verification_outcome(true, first_error, other_exit, inst_count),
        first_error matches Some(e) ==> spec_verification_outcome(true, first_error, exit_within_verdicts, inst_count)
            == Err::<usize, VerifyError>(VerifyError::VerificationError(e)),
        first_error is None ==> spec_verification_outcome(true, first_error, exit_within_verdicts, inst_count)
            matches Err(VerifyError::UnknownVerificationError),
        spec_verification_outcome(false, first_error, true, inst_count) == Ok::<usize, VerifyError>(inst_count),
        spec_verification_outcome(false, first_error, false, inst_count)
            matches Err(VerifyError::BadReturnInterval),
{
}

/// A range that lies within the verdicts holds only verdicts; and a range
/// that holds only verdicts lies within them, unless it is one of the two
/// ranges made of a single infinity, which hold no integer at all.
pub proof fn lemma_within_verdicts_iff_only_verdicts(r: ValueRange)
    ensures
        spec_range_included_in(r, spec_verdict_range()) ==> only_verdicts(r),
        r.lb !is PlusInfinity && r.ub !is MinusInfinity ==> (spec_range_included_in(r, spec_verdict_range())
            <==> only_verdicts(r)),
{
    if spec_range_included_in(r, spec_verdict_range()) {
        assert forall|v: int| range_contains(r, v) implies v == CF_EBPF_PASS || v == CF_EBPF_DROP by {
            lemma_included_values(r, spec_verdict_range(), v);
        }
    } else if r.lb !is PlusInfinity && r.ub !is MinusInfinity && !crate::value_range::range_is_empty(r) {
        // a value of r outside [0, 1]
        let w: int = match (r.lb, r.ub) {
            (ExtBound::Finite(x), _) if x < 0 => x as int,
            (_, ExtBound::Finite(y)) if y > 1 => y as int,
            (ExtBound::MinusInfinity, ExtBound::Finite(y)) => if y < -1 { y as int } else { -1 },
            (ExtBound::MinusInfinity, _) => -1,
            (ExtBound::Finite(x), _) => if x > 2 { x as int } else { 2 },
            _ => 2,
        };
        assert(range_contains(r, w));
        assert(!(w == CF_EBPF_PASS || w == CF_EBPF_DROP));
    } else if r.lb !is PlusInfinity && r.ub !is MinusInfinity {
        // an empty range lies within every range
        assert(false);
    }
}

/// The judgement of prevail's analysis: whatever the exit range, a failed
/// analysis is rejected with its first error (or as unknown); a passed one is
/// accepted with the instruction count exactly when its exit range lies
/// within the verdicts, and then every value it may return is pass or drop.
pub proof fn lemma_check_analysis_judgement(result: AnalysisResult, inst_count: usize)
    ensures
        spec_analysis_failed(result) ==> spec_check_analysis(result, inst_count) is Err,
        spec_analysis_failed(result) ==> (spec_first_error(result) matches Some(e)
            ==> spec_check_analysis(result, inst_count) == Err::<usize, VerifyError>(VerifyError::VerificationError(e))),
        spec_analysis_failed(result) && spec_first_error(result) is None
            ==> spec_check_analysis(result, inst_count) matches Err(VerifyError::UnknownVerificationError),
        !spec_analysis_failed(result) ==> (spec_check_analysis(result, inst_count) is Ok
            <==> spec_range_included_in(spec_exit_range(result), spec_verdict_range())),
        spec_check_analysis(result, inst_count) is Ok ==> spec_check_analysis(result, inst_count)
            == Ok::<usize, VerifyError>(inst_count) && only_verdicts(spec_exit_range(result)),
        !spec_analysis_failed(result) && spec_exit_lower_bound(result) !is PlusInfinity
            && spec_exit_upper_bound(result) !is MinusInfinity ==> (spec_check_analysis(result, inst_count) is Ok
            <==> only_verdicts(spec_exit_range(result))),
{
    lemma_within_verdicts_iff_only_verdicts(spec_exit_range(result));
}

/// An accepted program returns pass or drop: where the analysis is accepted,
/// every value in the range of the program's exit value is `CF_EBPF_PASS` or
/// `CF_EBPF_DROP`.
pub proof fn lemma_accepted_program_returns_verdict(result: AnalysisResult, inst_count: usize, v: int)
    requires
        spec_check_analysis(result, inst_count) is Ok,
        range_contains(spec_exit_range(result), v),
    ensures
        v == CF_EBPF_PASS || v == CF_EBPF_DROP,
{
    lemma_included_values(spec_exit_range(result), spec_verdict_range(), v);
}

} // verus!
