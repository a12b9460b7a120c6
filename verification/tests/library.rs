use pfp_verifier::config::{
    pfp_verifier_options, MAIN_FUNCTION_NAME, MAX_CALL_STACK_FRAMES, STACK_FRAME_SIZE,
    TOTAL_STACK_SIZE,
};
use pfp_verifier::context_descriptors::{
    cf_ebpf_generic_descr, cf_ebpf_unspec_descr, generic_program_type, get_program_type,
    unspec_program_type, ContextDescriptor,
};
use pfp_verifier::headers::{CF_EBPF_DROP, CF_EBPF_NUM_HELPERS_MAX, CF_EBPF_PASS};
use pfp_verifier::helpers::{helper_protos, ArgumentType, ReturnType};
use pfp_verifier::platform::PfpEbpfPlatform;
use pfp_verifier::{check_analysis, control_flow_graph, count_instructions, find_entry_point, select_main_program, verification_outcome, VerifyError};
use pfp_verifier::value_range::{range_from_pair, range_included_in, ExtBound, ValueRange};
use prevail::crab::ebpf_domain::VerificationError;
use prevail::crab::interval::Interval;
use prevail::result::AnalysisResult;
use prevail::spec::type_descriptors::{ProgramInfo, RawProgram};

fn generic_descr() -> ContextDescriptor {
    ContextDescriptor { size: 24, data: 0, end: 8, meta: 16 }
}

#[test]
fn options_match_pfp_settings() {
    let o = pfp_verifier_options(false);
    assert!(o.runtime.strict);
    assert!(!o.runtime.allow_division_by_zero);
    assert!(o.runtime.setup_constraints);
    assert!(!o.runtime.big_endian);
    assert!(o.runtime.check_for_termination);
    assert_eq!(o.runtime.subprogram_stack_size, 2048);
    assert_eq!(o.runtime.max_call_stack_frames, 4);
    assert_eq!(o.runtime.max_packet_size, 0xffff);
    assert!(o.verbosity_opts.simplify);
    assert!(!o.verbosity_opts.print_invariants);
    assert!(o.verbosity_opts.print_failures);
    assert!(o.verbosity_opts.print_line_info);
    assert!(!o.verbosity_opts.dump_btf_types_json);
    assert!(!o.verbosity_opts.collect_instruction_deps);
    assert!(o.must_have_exit);
    assert!(o.mock_map_fds);
    assert!(pfp_verifier_options(true).runtime.big_endian);
}

#[test]
fn max_packet_size_is_prevails_default() {
    let o = pfp_verifier_options(false);
    assert_eq!(
        o.runtime.max_packet_size,
        prevail::spec::config::EbpfRuntimeConfig::DEFAULT_MAX_PACKET_SIZE
    );
}

#[test]
fn stack_is_eight_kib() {
    assert_eq!(STACK_FRAME_SIZE * MAX_CALL_STACK_FRAMES, 8192);
    assert_eq!(TOTAL_STACK_SIZE, 8192);
    let o = pfp_verifier_options(false);
    assert_eq!(o.runtime.subprogram_stack_size * o.runtime.max_call_stack_frames, TOTAL_STACK_SIZE);
}

#[test]
fn main_function_name() {
    assert_eq!(MAIN_FUNCTION_NAME, "cf_ebpf_main");
}

#[test]
fn generic_context_layout() {
    assert_eq!(cf_ebpf_generic_descr(), generic_descr());
    assert_eq!(cf_ebpf_unspec_descr(), cf_ebpf_generic_descr());
}

#[test]
fn generic_program_type_fields() {
    let t = generic_program_type();
    assert_eq!(t.name, "cf_ebpf_generic");
    assert_eq!(t.context_descriptor, Some(generic_descr()));
    assert_eq!(t.platform_specific_data, 0);
    assert_eq!(t.section_prefixes, vec!["cf_ebpf_generic".to_string()]);
    assert!(!t.is_privileged);
    assert!(!t.is_sleepable);
}

#[test]
fn unspec_program_type_fields() {
    let t = unspec_program_type();
    assert_eq!(t.name, "unspec");
    assert_eq!(t.context_descriptor, Some(generic_descr()));
    assert_eq!(t.platform_specific_data, 0);
    assert!(t.section_prefixes.is_empty());
    assert!(!t.is_privileged);
    assert!(!t.is_sleepable);
}

#[test]
fn section_with_generic_prefix_is_generic() {
    assert_eq!(get_program_type("cf_ebpf_generic").name, "cf_ebpf_generic");
    assert_eq!(get_program_type("cf_ebpf_generic/filter").name, "cf_ebpf_generic");
    assert_eq!(get_program_type("cf_ebpf_generic_v2").name, "cf_ebpf_generic");
}

#[test]
fn other_sections_are_unspec() {
    assert_eq!(get_program_type("").name, "unspec");
    assert_eq!(get_program_type("xdp").name, "unspec");
    assert_eq!(get_program_type("cf_ebpf_generi").name, "unspec");
    assert_eq!(get_program_type("xcf_ebpf_generic").name, "unspec");
    assert_eq!(get_program_type(".text").name, "unspec");
    assert!(get_program_type(".text").section_prefixes.is_empty());
}

#[test]
fn every_section_gets_generic_context() {
    for s in ["", "xdp", "cf_ebpf_generic", "socket", "cf_ebpf_generic/x"] {
        assert_eq!(get_program_type(s).context_descriptor, Some(generic_descr()));
    }
}

#[test]
fn helper_table_has_one_entry_per_helper() {
    let protos = helper_protos();
    assert_eq!(protos.len(), 21);
    assert_eq!(protos.len(), CF_EBPF_NUM_HELPERS_MAX as usize);
    let names: Vec<&str> = protos.iter().map(|p| p.name).collect();
    assert_eq!(
        names,
        vec![
            "unused",
            "rand",
            "timestamp",
            "printf",
            "hash_md5",
            "hash_sha256",
            "hash_sha512",
            "_cf_ebpf_hash_crc32_raw",
            "hmac_sha256",
            "hmac_sha512",
            "set_challenge",
            "_cf_ebpf_get_src_ip_status_raw",
            "set_src_ip_status",
            "_cf_ebpf_get_src_ip_data_raw",
            "set_src_ip_data",
            "_cf_ebpf_get_flow_data_raw",
            "set_flow_data",
            "entropy",
            "set_network_analytics_tag",
            "hash_blake2b512",
            "hmac_blake2b512",
        ]
    );
}

#[test]
fn helper_argument_shapes() {
    let protos = helper_protos();
    assert_eq!(protos[0].argument_type, [ArgumentType::DontCare; 5]);
    assert_eq!(protos[3].argument_type, [ArgumentType::DontCare; 5]);
    assert_eq!(
        protos[4].argument_type,
        [ArgumentType::PtrToReadableMem, ArgumentType::ConstSize, ArgumentType::PtrToWritableMem, ArgumentType::ConstSize, ArgumentType::DontCare]
    );
    assert_eq!(
        protos[10].argument_type,
        [ArgumentType::PtrToReadableMem, ArgumentType::ConstSizeOrZero, ArgumentType::DontCare, ArgumentType::DontCare, ArgumentType::DontCare]
    );
    assert_eq!(
        protos[11].argument_type,
        [ArgumentType::PtrToWritableMem, ArgumentType::ConstSize, ArgumentType::PtrToWritableMem, ArgumentType::ConstSize, ArgumentType::DontCare]
    );
    assert_eq!(protos[12].argument_type, [ArgumentType::Anything, ArgumentType::Anything, ArgumentType::DontCare, ArgumentType::DontCare, ArgumentType::DontCare]);
    assert_eq!(protos[13].argument_type, [ArgumentType::PtrToWritableMem, ArgumentType::ConstSize, ArgumentType::DontCare, ArgumentType::DontCare, ArgumentType::DontCare]);
    assert_eq!(protos[14].argument_type, [ArgumentType::Anything, ArgumentType::DontCare, ArgumentType::DontCare, ArgumentType::DontCare, ArgumentType::DontCare]);
    assert_eq!(protos[17].argument_type, [ArgumentType::PtrToReadableMem, ArgumentType::ConstSize, ArgumentType::DontCare, ArgumentType::DontCare, ArgumentType::DontCare]);
    for p in &protos {
        assert_eq!(p.return_type, ReturnType::Integer);
        assert!(!p.unsupported);
        assert!(!p.might_sleep);
        assert!(!p.reallocate_packet);
        assert!(p.ctx_descriptor.is_none());
        assert_eq!(p.zero_args_mask, 0);
        assert_eq!(p.allowed_map_types, 0);
    }
}

#[test]
fn usable_helpers_are_the_table() {
    let platform = PfpEbpfPlatform;
    assert!(!platform.is_helper_usable(-1));
    assert!(!platform.is_helper_usable(i32::MIN));
    for n in 0..21 {
        assert!(platform.is_helper_usable(n));
    }
    assert!(!platform.is_helper_usable(21));
    assert!(!platform.is_helper_usable(i32::MAX));
}

#[test]
fn helper_prototype_lookup() {
    let platform = PfpEbpfPlatform;
    assert_eq!(platform.get_helper_prototype(0).name, "unused");
    assert_eq!(platform.get_helper_prototype(4).name, "hash_md5");
    assert_eq!(platform.get_helper_prototype(20).name, "hmac_blake2b512");
    assert_eq!(platform.get_helper_prototype(18).name, "set_network_analytics_tag");
}

#[test]
fn platform_program_type_ignores_path() {
    let platform = PfpEbpfPlatform;
    assert_eq!(platform.get_program_type("cf_ebpf_generic", "a.o").name, "cf_ebpf_generic");
    assert_eq!(platform.get_program_type("xdp", "cf_ebpf_generic").name, "unspec");
}

#[test]
fn conformance_groups_are_linux_defaults() {
    let platform = PfpEbpfPlatform;
    assert_eq!(platform.supported_conformance_groups(), 0x3f);
    assert_eq!(
        platform.supported_conformance_groups(),
        prevail::linux::linux_platform::conformance_groups::DEFAULT_GROUPS
    );
}

#[test]
fn entry_point_is_first_main() {
    let names = |v: &[&str]| v.iter().map(|s| s.to_string()).collect::<Vec<String>>();
    assert_eq!(find_entry_point(&names(&[])), None);
    assert_eq!(find_entry_point(&names(&["foo", "bar"])), None);
    assert_eq!(find_entry_point(&names(&["cf_ebpf_main"])), Some(0));
    assert_eq!(find_entry_point(&names(&["helper", "cf_ebpf_main", "cf_ebpf_main"])), Some(1));
    assert_eq!(find_entry_point(&names(&["cf_ebpf_mai", "cf_ebpf_main2", "cf_ebpf_main"])), Some(2));
}

fn raw(function_name: &str, section: &str) -> RawProgram {
    RawProgram {
        filename: String::new(),
        section_name: section.to_string(),
        insn_off: 0,
        function_name: function_name.to_string(),
        prog: Vec::new(),
        info: ProgramInfo::default(),
    }
}

#[test]
fn main_program_is_selected() {
    let progs = vec![raw("helper", "a"), raw("cf_ebpf_main", "b"), raw("cf_ebpf_main", "c")];
    let p = select_main_program(Ok(progs)).unwrap();
    assert_eq!(p.function_name, "cf_ebpf_main");
    assert_eq!(p.section_name, "b");
}

#[test]
fn missing_main_is_entry_point_not_found() {
    let r = select_main_program(Ok(vec![raw("helper", "a")]));
    assert!(matches!(r, Err(VerifyError::EntryPointNotFound)));
    let r = select_main_program(Ok(vec![]));
    assert!(matches!(r, Err(VerifyError::EntryPointNotFound)));
}

#[test]
fn read_failure_is_loader_error() {
    let e = prevail::elf_loader::UnmarshalError("bad elf".to_string());
    match select_main_program(Err(e)) {
        Err(VerifyError::LoaderUnmarshall(e)) => assert_eq!(e.0, "bad elf"),
        other => panic!("unexpected {:?}", other),
    }
}

#[test]
fn garbage_bytes_are_loader_error() {
    let mut platform = prevail::linux::linux_platform::LinuxPlatform::default();
    let read = prevail::elf_loader::read_elf(
        b"not an elf",
        "",
        "",
        "",
        &prevail::spec::config::EbpfVerifierOptions::default(),
        &mut platform,
    );
    assert!(matches!(select_main_program(read), Err(VerifyError::LoaderUnmarshall(_))));
}

#[test]
fn outcome_of_failed_analysis() {
    let e = VerificationError::new("r0 is uninitialized".to_string());
    match verification_outcome(true, Some(e), true, 7) {
        Err(VerifyError::VerificationError(e)) => assert_eq!(e.message, "r0 is uninitialized"),
        other => panic!("unexpected {:?}", other),
    }
    assert!(matches!(
        verification_outcome(true, None, true, 7),
        Err(VerifyError::UnknownVerificationError)
    ));
    assert!(matches!(
        verification_outcome(true, None, false, 7),
        Err(VerifyError::UnknownVerificationError)
    ));
}

#[test]
fn outcome_of_passed_analysis() {
    assert!(matches!(verification_outcome(false, None, false, 7), Err(VerifyError::BadReturnInterval)));
    assert!(matches!(verification_outcome(false, None, true, 7), Ok(7)));
    assert!(matches!(verification_outcome(false, None, true, 0), Ok(0)));
}

fn passed_with_exit(lb: i64, ub: i64) -> AnalysisResult {
    let mut r = AnalysisResult::new();
    r.exit_value = Interval::from_i64_pair(lb, ub);
    r
}

#[test]
fn verdict_values() {
    assert_eq!(CF_EBPF_PASS, 0);
    assert_eq!(CF_EBPF_DROP, 1);
}

#[test]
fn analysis_with_verdict_exit_is_accepted() {
    assert!(matches!(check_analysis(&passed_with_exit(0, 1), 12), Ok(12)));
    assert!(matches!(check_analysis(&passed_with_exit(0, 0), 3), Ok(3)));
    assert!(matches!(check_analysis(&passed_with_exit(1, 1), 4), Ok(4)));
}

#[test]
fn analysis_with_other_exit_is_rejected() {
    assert!(matches!(check_analysis(&AnalysisResult::new(), 12), Err(VerifyError::BadReturnInterval)));
    assert!(matches!(check_analysis(&passed_with_exit(0, 2), 12), Err(VerifyError::BadReturnInterval)));
    assert!(matches!(check_analysis(&passed_with_exit(-1, 0), 12), Err(VerifyError::BadReturnInterval)));
    assert!(matches!(check_analysis(&passed_with_exit(2, 2), 12), Err(VerifyError::BadReturnInterval)));
}

#[test]
fn failed_analysis_is_rejected() {
    let mut r = passed_with_exit(0, 1);
    r.failed = true;
    assert!(matches!(check_analysis(&r, 12), Err(VerifyError::UnknownVerificationError)));
}

#[test]
fn unmarshal_failure_is_ir_error() {
    let r = count_instructions(Err(prevail::ir::unmarshal::UnmarshalError::ZeroLengthProgram));
    assert!(matches!(
        r,
        Err(VerifyError::IrUnmarshall(prevail::ir::unmarshal::UnmarshalError::ZeroLengthProgram))
    ));
}

#[test]
fn instruction_count_is_sequence_length() {
    let (seq, n) = count_instructions(Ok(Vec::new())).unwrap();
    assert!(seq.is_empty());
    assert_eq!(n, 0);
}

#[test]
fn cfg_failure_is_invalid_control_flow() {
    let e = prevail::ir::program::InvalidControlFlow { message: "no exit".to_string() };
    match control_flow_graph(Err(e)) {
        Err(VerifyError::InvalidControlFlow(e)) => assert_eq!(e.message, "no exit"),
        other => panic!("unexpected {:?}", other.is_ok()),
    }
}

#[test]
fn empty_exit_range_is_accepted() {
    assert!(matches!(check_analysis(&passed_with_exit(1, 0), 5), Ok(5)));
}

#[test]
fn wide_exit_range_is_rejected() {
    assert!(matches!(check_analysis(&passed_with_exit(0, i64::MAX), 5), Err(VerifyError::BadReturnInterval)));
    assert!(matches!(check_analysis(&passed_with_exit(i64::MIN, 1), 5), Err(VerifyError::BadReturnInterval)));
}

#[test]
fn failed_analysis_ignores_exit_range() {
    let mut r = AnalysisResult::new();
    r.failed = true;
    assert!(matches!(check_analysis(&r, 12), Err(VerifyError::UnknownVerificationError)));
}

#[test]
fn ranges_from_pairs() {
    assert_eq!(range_from_pair(0, 1), ValueRange { lb: ExtBound::Finite(0), ub: ExtBound::Finite(1) });
    assert_eq!(range_from_pair(3, 2), ValueRange { lb: ExtBound::Finite(0), ub: ExtBound::Finite(-1) });
}

#[test]
fn range_inclusion() {
    let verdicts = range_from_pair(0, 1);
    let top = ValueRange { lb: ExtBound::MinusInfinity, ub: ExtBound::PlusInfinity };
    assert!(range_included_in(range_from_pair(0, 0), verdicts));
    assert!(range_included_in(range_from_pair(0, 1), verdicts));
    assert!(range_included_in(range_from_pair(5, 4), verdicts));
    assert!(!range_included_in(range_from_pair(0, 2), verdicts));
    assert!(!range_included_in(range_from_pair(-1, 1), verdicts));
    assert!(!range_included_in(top, verdicts));
    assert!(range_included_in(verdicts, top));
    assert!(!range_included_in(verdicts, range_from_pair(1, 0)));
    let above = ValueRange { lb: ExtBound::Finite(0), ub: ExtBound::PlusInfinity };
    assert!(!range_included_in(above, verdicts));
}

#[test]
fn first_main_program_is_selected_after_others() {
    let progs = vec![raw("cf_ebpf_main2", "a"), raw("main", "b"), raw("cf_ebpf_main", "c"), raw("cf_ebpf_main", "d")];
    let p = select_main_program(Ok(progs)).unwrap();
    assert_eq!(p.section_name, "c");
}

#[test]
fn similar_names_are_not_the_entry_point() {
    let progs = vec![raw("main", "a"), raw("cf_ebpf_main2", "b"), raw("CF_EBPF_MAIN", "c")];
    assert!(matches!(select_main_program(Ok(progs)), Err(VerifyError::EntryPointNotFound)));
}
