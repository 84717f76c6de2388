use test_generation::entry::{entry_argument, is_supported_entry_parameter, main_args};
use test_generation::generation::{
    after_execution, after_verification, choose_thread_count, error_case_path, thread_count,
    ExecutionOutcome, ExecutionStep, FrameStats, GenerationSettings, VerificationStep,
};
use test_generation::seed::{seed, seed_from_text, SeedError};
use test_generation::types::{DatatypeHandleIndex, SignatureToken};
use test_generation::Status;

#[test]
fn entry_arguments_are_serialized_defaults() {
    let params = vec![
        SignatureToken::Address,
        SignatureToken::U64,
        SignatureToken::Bool,
        SignatureToken::Vector(Box::new(SignatureToken::U8)),
    ];
    let args = main_args(&params);
    assert_eq!(args, vec![vec![0u8; 32], vec![0u8; 8], vec![1u8], vec![0u8]]);
    assert_eq!(main_args(&[]), Vec::<Vec<u8>>::new());
    assert!(params.iter().all(is_supported_entry_parameter));
}

#[test]
fn unsupported_entry_parameters_are_refused() {
    for t in [
        SignatureToken::U8,
        SignatureToken::U16,
        SignatureToken::U32,
        SignatureToken::U128,
        SignatureToken::U256,
        SignatureToken::Signer,
        SignatureToken::Vector(Box::new(SignatureToken::U64)),
        SignatureToken::Datatype(DatatypeHandleIndex(0)),
        SignatureToken::Reference(Box::new(SignatureToken::U64)),
        SignatureToken::MutableReference(Box::new(SignatureToken::U64)),
        SignatureToken::TypeParameter(0),
    ] {
        assert_eq!(entry_argument(&t), None);
        assert!(!is_supported_entry_parameter(&t));
    }
}

#[test]
fn seed_from_hex_text() {
    let text = "00112233445566778899aabbccddeeffAABBCCDDEEFF00010203040506070809";
    let expected: [u8; 32] = [
        0x00, 0x11, 0x22, 0x33, 0x44, 0x55, 0x66, 0x77, 0x88, 0x99, 0xaa, 0xbb, 0xcc, 0xdd, 0xee,
        0xff, 0xaa, 0xbb, 0xcc, 0xdd, 0xee, 0xff, 0x00, 0x01, 0x02, 0x03, 0x04, 0x05, 0x06, 0x07,
        0x08, 0x09,
    ];
    assert_eq!(seed_from_text(text), Ok(expected));
    assert_eq!(seed(Some(text.to_string())), Ok(expected));
}

#[test]
fn seed_errors() {
    assert_eq!(seed_from_text("abc"), Err(SeedError::InvalidHex));
    assert_eq!(seed_from_text("zz"), Err(SeedError::InvalidHex));
    assert_eq!(seed_from_text("0011"), Err(SeedError::WrongLength { length: 2 }));
    assert_eq!(seed_from_text(""), Err(SeedError::WrongLength { length: 0 }));
    let long = "00".repeat(33);
    assert_eq!(seed_from_text(&long), Err(SeedError::WrongLength { length: 33 }));
}

#[test]
fn seed_hex_round_trip() {
    let bytes: [u8; 32] = [
        7, 255, 0, 16, 32, 64, 128, 1, 2, 3, 4, 5, 6, 9, 10, 11, 12, 13, 14, 15, 0xab, 0xcd,
        0xef, 0x10, 0x99, 0x42, 0x24, 0x77, 0x88, 0xfe, 0xdc, 0xba,
    ];
    assert_eq!(seed_from_text(&hex::encode(bytes)), Ok(bytes));
    assert_eq!(seed(Some(hex::encode_upper(bytes))), Ok(bytes));
}

#[test]
fn random_seed_is_drawn() {
    let a = seed(None).unwrap();
    let b = seed(None).unwrap();
    assert!(a != b || a != [0u8; 32]);
}

#[test]
fn frame_stats_count_statuses() {
    let mut s = FrameStats::new(Some(3));
    assert_eq!(s.generated(), 1);
    assert!(s.wants_more());
    assert!(!s.awaits_status());
    s.module_generated();
    assert!(s.awaits_status());
    s.record(Status::VerificationFailure);
    s.module_generated();
    assert!(!s.wants_more());
    s.record(Status::ExecutionFailure);
    assert!(!s.awaits_status());
    assert_eq!(s.generated(), 3);
    assert_eq!(s.verified(), 2);
    assert_eq!(s.executed(), 2);
}

#[test]
fn frame_stats_valid_status_counts_nothing_against() {
    let mut s = FrameStats::new(None);
    s.module_generated();
    s.record(Status::Valid);
    assert_eq!(s.verified(), 2);
    assert_eq!(s.executed(), 2);
}

#[test]
fn frame_stats_limits() {
    let s = FrameStats::new(Some(0));
    assert!(!s.wants_more());
    let s = FrameStats::new(Some(1));
    assert!(!s.wants_more());
    let s = FrameStats::new(None);
    assert!(s.wants_more());
}

#[test]
fn progress_is_reported_every_hundred_modules() {
    let mut s = FrameStats::new(None);
    let mut due = vec![];
    for _ in 0..250 {
        s.module_generated();
        if s.report_due() {
            due.push(s.generated());
        }
    }
    assert_eq!(due, vec![100, 200]);
}

const BOTH: GenerationSettings = GenerationSettings { execute_unverified_module: true, run_on_vm: true };
const VERIFIED_ONLY: GenerationSettings = GenerationSettings { execute_unverified_module: false, run_on_vm: true };
const NO_VM: GenerationSettings = GenerationSettings { execute_unverified_module: true, run_on_vm: false };

#[test]
fn steps_after_verification() {
    assert_eq!(
        after_verification(BOTH, true),
        VerificationStep { status: Status::ExecutionFailure, record_error_case: false, run_on_vm: true }
    );
    assert_eq!(
        after_verification(BOTH, false),
        VerificationStep { status: Status::VerificationFailure, record_error_case: true, run_on_vm: true }
    );
    assert_eq!(
        after_verification(VERIFIED_ONLY, false),
        VerificationStep { status: Status::VerificationFailure, record_error_case: true, run_on_vm: false }
    );
    assert_eq!(
        after_verification(NO_VM, true),
        VerificationStep { status: Status::Valid, record_error_case: false, run_on_vm: false }
    );
    assert_eq!(
        after_verification(NO_VM, false),
        VerificationStep { status: Status::Valid, record_error_case: true, run_on_vm: false }
    );
}

#[test]
fn steps_after_execution() {
    for o in [ExecutionOutcome::Completed, ExecutionOutcome::ArithmeticError, ExecutionOutcome::OutOfGas] {
        assert_eq!(
            after_execution(Status::ExecutionFailure, o),
            ExecutionStep { status: Status::Valid, record_error_case: false }
        );
    }
    assert_eq!(
        after_execution(Status::ExecutionFailure, ExecutionOutcome::OtherError),
        ExecutionStep { status: Status::ExecutionFailure, record_error_case: true }
    );
    assert_eq!(
        after_execution(Status::VerificationFailure, ExecutionOutcome::OtherError),
        ExecutionStep { status: Status::VerificationFailure, record_error_case: true }
    );
}

#[test]
fn thread_counts() {
    assert_eq!(choose_thread_count(Some(4), 16), 4);
    assert_eq!(choose_thread_count(None, 16), 16);
    assert_eq!(choose_thread_count(Some(7), 0), 7);
    assert_eq!(thread_count(Some(3)), 3);
    assert!(thread_count(None) >= 1);
}

#[test]
fn error_case_paths() {
    assert_eq!(error_case_path("out", 3, 17), "out/case3_17.module");
    assert_eq!(error_case_path("/tmp/x", 0, 18446744073709551615), "/tmp/x/case0_18446744073709551615.module");
    assert_eq!(error_case_path("", 10, 9), "/case10_9.module");
}
