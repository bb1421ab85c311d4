//! The fallible-value protocol: classify, branch, restore, rendering,
//! and the designated defaults.

use try_log::Absent;
use try_log::DebugText;
use try_log::DefaultValue;
use try_log::Fallible;
use try_log::FallibleCase;
use try_log::__ControlFlowWrapper;
use try_log::__TryWrapper;
use try_log::render_failure;

#[test]
fn classify_option() {
    assert_eq!(Some(5u64).classify(), FallibleCase::Success(5));
    assert_eq!(None::<u64>.classify(), FallibleCase::Failure(Absent));
}

#[test]
fn classify_result() {
    let ok: Result<u64, String> = Ok(5);
    assert_eq!(ok.classify(), FallibleCase::Success(5));
    let err: Result<u64, String> = Err(String::from("e"));
    assert_eq!(err.classify(), FallibleCase::Failure(String::from("e")));
}

#[test]
fn rebuild_inverts_classify() {
    assert_eq!(<Option<u64>>::from_output(5), Some(5));
    assert_eq!(<Option<u64>>::from_residual(Absent), None);
    assert_eq!(<Result<u64, String>>::from_output(5), Ok(5));
    assert_eq!(<Result<u64, String>>::from_residual(String::from("e")), Err(String::from("e")));
}

#[test]
fn branch_and_restore_option() {
    match __TryWrapper(Some(5u64)).branch() {
        __ControlFlowWrapper::Continue(c) => {
            assert_eq!(c.0, 5);
            assert_eq!(c.restore(), Some(5));
        },
        __ControlFlowWrapper::Break(_) => panic!("a success must branch to the continue side"),
    }
    match __TryWrapper(None::<u64>).branch() {
        __ControlFlowWrapper::Continue(_) => panic!("a failure must branch to the break side"),
        __ControlFlowWrapper::Break(b) => {
            assert_eq!(b.0, Absent);
            assert_eq!(b.restore(), None::<u64>);
        },
    }
}

#[test]
fn branch_and_restore_result() {
    let err: Result<u64, String> = Err(String::from("gone"));
    match __TryWrapper(err).branch() {
        __ControlFlowWrapper::Continue(_) => panic!("a failure must branch to the break side"),
        __ControlFlowWrapper::Break(b) => {
            assert_eq!(b.restore(), Err::<u64, String>(String::from("gone")));
        },
    }
}

#[test]
fn rendering_absent_and_strings() {
    assert_eq!(Absent.render(), "None");
    assert_eq!(String::from("why").render(), "why");
    assert_eq!(render_failure("It is", &Absent), "It is: None");
    assert_eq!(render_failure("ctx", &String::from("why")), "ctx: why");
}

#[test]
fn designated_defaults() {
    assert_eq!(<bool as DefaultValue>::default_value(), false);
    assert_eq!(<u32 as DefaultValue>::default_value(), 0);
    assert_eq!(<u64 as DefaultValue>::default_value(), 0);
    assert_eq!(<usize as DefaultValue>::default_value(), 0);
    assert_eq!(<i32 as DefaultValue>::default_value(), 0);
    assert_eq!(<i64 as DefaultValue>::default_value(), 0);
    assert_eq!(<Option<u64> as DefaultValue>::default_value(), None);
    assert_eq!(bool::default(), <bool as DefaultValue>::default_value());
    assert_eq!(u64::default(), <u64 as DefaultValue>::default_value());
    assert_eq!(i32::default(), <i32 as DefaultValue>::default_value());
    assert_eq!(<Option<u64>>::default(), <Option<u64> as DefaultValue>::default_value());
}
