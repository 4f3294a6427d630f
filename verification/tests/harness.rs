use calico::attributes::{
    doc_description, instrument_test_body, setup_arguments_accepted, setup_rejected_attribute,
    setup_signature_is_valid, test_name, validate_suite_function, SetupSignature, SuiteAttribute,
    SuiteError, SuiteFunction, SuiteSignature,
};
use calico::gdb::ResultRecord;
use calico::harness::{default_setup, init};
use calico::harness::test::{check_outcome, test_end, test_start, TestOutcome};
use calico::harness::tracing::TracingSubscriber;
use calico::probe::{Probe, ProbeRs};

#[test]
fn unit_outcome_is_success() {
    assert!(().is_success());
    assert!(check_outcome(()));
}

#[test]
fn result_outcome_follows_ok() {
    let ok: Result<u8, &str> = Ok(1);
    let err: Result<u8, &str> = Err("boom");
    assert!(ok.is_success());
    assert!(!err.is_success());
    assert!(check_outcome(ok));
    assert!(!check_outcome(err));
}

#[test]
fn markers_and_init_run() {
    init();
    default_setup();
    test_start();
    test_end();
    let _subscriber = TracingSubscriber::new();
}

#[test]
fn probe_rs_probe() {
    assert_eq!(Probe::new_probe_rs(), Probe::ProbeRs(ProbeRs {}));
}

#[test]
fn result_records_compare() {
    assert_eq!(ResultRecord::Done, ResultRecord::Done);
    assert_ne!(ResultRecord::Connected, ResultRecord::Error);
}

#[test]
fn test_name_prefers_argument() {
    assert_eq!(test_name("test_1".to_string(), None), "test_1");
    assert_eq!(test_name("test_1".to_string(), Some("test1234".to_string())), "test1234");
}

#[test]
fn doc_lines_become_description() {
    assert_eq!(doc_description(&vec![]), "");
    assert_eq!(
        doc_description(&vec![" This is a test.".to_string(), " Second line".to_string()]),
        " This is a test.\n Second line\n"
    );
}

#[test]
fn markers_wrap_the_last_statement() {
    let mut body = vec!["a", "b"];
    instrument_test_body(&mut body, "start", "end");
    assert_eq!(body, vec!["start", "a", "end", "b"]);
    let mut empty: Vec<&str> = vec![];
    instrument_test_body(&mut empty, "start", "end");
    assert_eq!(empty, vec!["start", "end"]);
    let mut single: Vec<&str> = vec!["tail"];
    instrument_test_body(&mut single, "start", "end");
    assert_eq!(single, vec!["start", "end", "tail"]);
}

fn plain() -> SetupSignature {
    SetupSignature {
        is_const: false,
        is_async: false,
        is_unsafe: false,
        has_abi: false,
        has_generic_params: false,
        has_where_clause: false,
        is_variadic: false,
        has_inputs: false,
        returns_value: false,
    }
}

#[test]
fn setup_signature_checks() {
    assert!(setup_signature_is_valid(&plain()));
    assert!(!setup_signature_is_valid(&SetupSignature { is_async: true, ..plain() }));
    assert!(!setup_signature_is_valid(&SetupSignature { has_inputs: true, ..plain() }));
    assert!(!setup_signature_is_valid(&SetupSignature { returns_value: true, ..plain() }));
}

#[test]
fn setup_attribute_rejection() {
    assert_eq!(setup_rejected_attribute(&vec![Some("inline".to_string()), None]), None);
    assert_eq!(
        setup_rejected_attribute(&vec![
            Some("doc".to_string()),
            Some("no_mangle".to_string()),
            Some("export_name".to_string())
        ]),
        Some(1)
    );
}

#[test]
fn setup_takes_no_arguments() {
    assert!(setup_arguments_accepted(false));
    assert!(!setup_arguments_accepted(true));
}

fn suite_sig() -> SuiteSignature {
    SuiteSignature {
        is_const: false,
        is_async: false,
        is_unsafe: false,
        has_abi: false,
        has_generic_params: false,
        has_where_clause: false,
        is_variadic: false,
        inputs: 0,
        first_input_is_value: false,
        returns_value: false,
    }
}

#[test]
fn suite_functions_by_role() {
    let sig = suite_sig();
    assert!(matches!(validate_suite_function(&vec![], &sig, false), Ok(SuiteFunction::Other)));
    assert!(matches!(
        validate_suite_function(&vec![SuiteAttribute::Ignore], &sig, false),
        Err(SuiteError::OtherAttribute)
    ));
    let init = validate_suite_function(
        &vec![SuiteAttribute::Init],
        &SuiteSignature { returns_value: true, ..sig },
        false,
    );
    match init {
        Ok(SuiteFunction::Init(f)) => {
            assert!(f.returns_state);
            assert!(!f.is_async);
        }
        _ => panic!("expected an init function"),
    }
    assert!(matches!(
        validate_suite_function(
            &vec![SuiteAttribute::Ignore, SuiteAttribute::Init, SuiteAttribute::Test { init: None }],
            &sig,
            false
        ),
        Err(SuiteError::MarkedTwice(2))
    ));
    assert!(matches!(
        validate_suite_function(&vec![SuiteAttribute::Init, SuiteAttribute::Timeout(3)], &sig, false),
        Err(SuiteError::InitAttribute(1))
    ));
    assert!(matches!(
        validate_suite_function(&vec![SuiteAttribute::Init], &SuiteSignature { inputs: 1, ..sig }, false),
        Err(SuiteError::InitSignature)
    ));
    assert!(matches!(
        validate_suite_function(&vec![SuiteAttribute::Init], &SuiteSignature { is_async: true, ..sig }, false),
        Err(SuiteError::InitAsyncWithoutExecutor)
    ));
}

#[test]
fn suite_test_functions() {
    let sig = suite_sig();
    let attrs = vec![
        SuiteAttribute::Timeout(5),
        SuiteAttribute::Test { init: Some("prepare".to_string()) },
        SuiteAttribute::ShouldPanic,
        SuiteAttribute::Timeout(9),
    ];
    let taking = SuiteSignature { inputs: 1, first_input_is_value: true, is_async: true, ..sig };
    match validate_suite_function(&attrs, &taking, true) {
        Ok(SuiteFunction::Test(t)) => {
            assert!(t.should_panic);
            assert!(!t.ignore);
            assert_eq!(t.timeout, Some(9));
            assert_eq!(t.custom_init, Some("prepare".to_string()));
            assert!(t.is_async);
            assert!(t.takes_state);
        }
        _ => panic!("expected a test function"),
    }
    assert!(matches!(
        validate_suite_function(&attrs, &taking, false),
        Err(SuiteError::TestAsyncWithoutExecutor)
    ));
    assert!(matches!(
        validate_suite_function(&attrs, &SuiteSignature { inputs: 2, ..sig }, false),
        Err(SuiteError::TestSignature)
    ));
    assert!(matches!(
        validate_suite_function(&attrs, &SuiteSignature { inputs: 1, ..sig }, false),
        Err(SuiteError::StateByReference)
    ));
    assert!(matches!(
        validate_suite_function(&attrs, &SuiteSignature { is_unsafe: true, ..sig }, false),
        Err(SuiteError::TestSignature)
    ));
    match validate_suite_function(&vec![SuiteAttribute::Ignore, SuiteAttribute::Test { init: None }], &sig, false) {
        Ok(SuiteFunction::Test(t)) => {
            assert!(t.ignore);
            assert_eq!(t.timeout, None);
            assert_eq!(t.custom_init, None);
            assert!(!t.takes_state);
        }
        _ => panic!("expected a test function"),
    }
}
