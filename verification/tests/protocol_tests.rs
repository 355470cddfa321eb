//! The protocol pieces on their own: reply tag checking and the rules a
//! protocol builder enforces over an operation-set description.

use actor_worker::protocol::{
    unwrap_get_a, unwrap_set_and_get_a, validate_protocol, ActorError, OpDesc, ProtocolError,
    Reply,
};
use actor_worker::thingy::Thingy;

fn constructor() -> OpDesc {
    OpDesc {
        is_public: true,
        is_constructor: true,
        is_static: true,
        is_blocking: false,
        returns_value: true,
    }
}

fn fire_and_forget() -> OpDesc {
    OpDesc {
        is_public: true,
        is_constructor: false,
        is_static: false,
        is_blocking: false,
        returns_value: false,
    }
}

fn blocking_getter() -> OpDesc {
    OpDesc {
        is_public: true,
        is_constructor: false,
        is_static: false,
        is_blocking: true,
        returns_value: true,
    }
}

#[test]
fn reply_tags_are_checked_not_coerced() {
    assert_eq!(unwrap_get_a(Reply::GetA(5)), Ok(5));
    assert_eq!(unwrap_get_a(Reply::SetAndGetA(5)), Err(ActorError::ReplyMismatch));
    assert_eq!(unwrap_set_and_get_a(Reply::SetAndGetA(9)), Ok(9));
    assert_eq!(unwrap_set_and_get_a(Reply::GetA(9)), Err(ActorError::ReplyMismatch));
}

#[test]
fn well_formed_protocol_is_accepted() {
    let ops = vec![constructor(), fire_and_forget(), blocking_getter()];
    assert_eq!(validate_protocol(&ops), Ok(()));
}

#[test]
fn missing_constructor_is_rejected() {
    let ops = vec![fire_and_forget(), blocking_getter()];
    assert_eq!(validate_protocol(&ops), Err(ProtocolError::MissingConstructor));
}

#[test]
fn private_constructor_is_rejected() {
    let mut hidden = constructor();
    hidden.is_public = false;
    let ops = vec![hidden, fire_and_forget()];
    assert_eq!(validate_protocol(&ops), Err(ProtocolError::PrivateConstructor));
}

#[test]
fn non_blocking_operation_with_return_value_is_rejected() {
    let mut wrong = fire_and_forget();
    wrong.returns_value = true;
    let ops = vec![constructor(), fire_and_forget(), wrong, wrong];
    assert_eq!(
        validate_protocol(&ops),
        Err(ProtocolError::NonBlockingValueReturn(2))
    );
}

#[test]
fn static_operations_are_outside_the_command_protocol() {
    // A static operation executes outside the actor, so a return value
    // without blocking is fine there.
    let helper = OpDesc {
        is_public: true,
        is_constructor: false,
        is_static: true,
        is_blocking: false,
        returns_value: true,
    };
    let ops = vec![constructor(), helper];
    assert_eq!(validate_protocol(&ops), Ok(()));
}

#[test]
fn object_operations_directly() {
    let mut t = Thingy::new(-1);
    assert_eq!(t.get_a(), 0);
    t.plus_one_a();
    assert_eq!(t.get_a(), 1);
    t.inc_a(4);
    assert_eq!(t.get_a(), 5);
    assert_eq!(t.set_and_get_a(3), 3);
    assert_eq!(t.set_and_get_b(9), 9);
    assert_eq!(t.get_a(), 3);
    assert!(!t.assert_false());
}
