use px4::{finish, MainStatusCode};

struct Outcome(u8);

impl MainStatusCode for Outcome {
    fn to_status_code(self) -> i32 {
        self.0 as i32 * 10
    }

    fn panic_status_code() -> i32 {
        -99
    }
}

struct Plain(bool);

impl MainStatusCode for Plain {
    fn to_status_code(self) -> i32 {
        if self.0 {
            0
        } else {
            2
        }
    }
}

#[test]
fn unit_gives_zero() {
    assert_eq!(().to_status_code(), 0);
}

#[test]
fn integer_is_returned_as_is() {
    assert_eq!(42i32.to_status_code(), 42);
    assert_eq!((-5i32).to_status_code(), -5);
    assert_eq!(0i32.to_status_code(), 0);
    assert_eq!(i32::MIN.to_status_code(), i32::MIN);
    assert_eq!(i32::MAX.to_status_code(), i32::MAX);
}

#[test]
fn unit_result_gives_zero_or_one() {
    let ok: Result<(), ()> = Ok(());
    let err: Result<(), ()> = Err(());
    assert_eq!(ok.to_status_code(), 0);
    assert_eq!(err.to_status_code(), 1);
}

#[test]
fn integer_result_gives_zero_or_the_code() {
    let ok: Result<(), i32> = Ok(());
    assert_eq!(ok.to_status_code(), 0);
    let err: Result<(), i32> = Err(17);
    assert_eq!(err.to_status_code(), 17);
    let neg: Result<(), i32> = Err(-3);
    assert_eq!(neg.to_status_code(), -3);
}

#[test]
fn builtin_panic_status_is_minus_one() {
    assert_eq!(<() as MainStatusCode>::panic_status_code(), -1);
    assert_eq!(<i32 as MainStatusCode>::panic_status_code(), -1);
    assert_eq!(<Result<(), ()> as MainStatusCode>::panic_status_code(), -1);
    assert_eq!(<Result<(), i32> as MainStatusCode>::panic_status_code(), -1);
}

#[test]
fn user_type_chooses_its_codes() {
    assert_eq!(Outcome(4).to_status_code(), 40);
    assert_eq!(Outcome::panic_status_code(), -99);
}

#[test]
fn user_type_keeps_default_panic_status() {
    assert_eq!(Plain(true).to_status_code(), 0);
    assert_eq!(Plain(false).to_status_code(), 2);
    assert_eq!(Plain::panic_status_code(), -1);
}

#[test]
fn finish_passes_a_normal_code_through() {
    assert_eq!(finish::<()>(Some(0)), 0);
    assert_eq!(finish::<i32>(Some(12)), 12);
    assert_eq!(finish::<Outcome>(Some(-7)), -7);
}

#[test]
fn finish_after_panic_gives_panic_status() {
    assert_eq!(finish::<()>(None), -1);
    assert_eq!(finish::<i32>(None), -1);
    assert_eq!(finish::<Result<(), ()>>(None), -1);
    assert_eq!(finish::<Result<(), i32>>(None), -1);
    assert_eq!(finish::<Outcome>(None), -99);
    assert_eq!(finish::<Plain>(None), -1);
}

#[test]
fn a_later_invocation_is_unaffected_by_an_earlier_panic() {
    assert_eq!(finish::<i32>(None), -1);
    assert_eq!(finish::<i32>(Some(5)), 5);
}
