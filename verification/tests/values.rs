use std::str::FromStr;
use tihu::api;
use tihu::api::Response;
use tihu::id::Id8;
use tihu::newtypes::Uint32;
use tihu::newtypes::Uint63;
use tihu::tuple::TupleManyStruct;
use tihu::tuple::TupleManyTrait;
use tihu::SharedString;

#[test]
fn uint32_from_i64() {
    assert_eq!(Uint32::try_from_i64(0), Ok(Uint32(0)));
    assert_eq!(Uint32::try_from_i64(4294967295), Ok(Uint32(u32::MAX)));
    assert_eq!(
        Uint32::try_from_i64(4294967296),
        Err(String::from("The integer 4294967296 is too large."))
    );
    assert_eq!(
        Uint32::try_from_i64(-1),
        Err(String::from(
            "Negative integer -1 cannot be converted to positive integer."
        ))
    );
    assert_eq!(
        Uint32::try_from_i64(i64::MIN),
        Err(String::from(
            "Negative integer -9223372036854775808 cannot be converted to positive integer."
        ))
    );
    assert_eq!(Uint32::max_value(), Uint32(u32::MAX));
    assert_eq!(Uint32::min_value(), Uint32(0));
}

#[test]
fn uint63_from_i64() {
    assert_eq!(Uint63::try_from_i64(0), Ok(Uint63(0)));
    assert_eq!(Uint63::try_from_i64(i64::MAX), Ok(Uint63(i64::MAX as u64)));
    assert_eq!(
        Uint63::try_from_i64(-20),
        Err(String::from(
            "Negative integer -20 cannot be converted to positive integer."
        ))
    );
}

#[test]
fn uint63_from_u64() {
    assert_eq!(Uint63::try_from_u64(0), Ok(Uint63(0)));
    assert_eq!(
        Uint63::try_from_u64(9223372036854775807),
        Ok(Uint63::max_value())
    );
    assert_eq!(
        Uint63::try_from_u64(9223372036854775808),
        Err(String::from("The integer 9223372036854775808 is too large."))
    );
    assert_eq!(
        Uint63::try_from_u64(u64::MAX),
        Err(String::from("The integer 18446744073709551615 is too large."))
    );
    assert_eq!(Uint63::min_value(), Uint63(0));
}

#[test]
fn uint63_check() {
    assert_eq!(Uint63(5).check(), Ok(()));
    assert_eq!(Uint63::max_value().check(), Ok(()));
    assert_eq!(
        Uint63(1 << 63).check(),
        Err(String::from("The integer 9223372036854775808 is too large."))
    );
}

#[test]
fn id8_conversions() {
    let id = Id8::from(42);
    assert_eq!(id, Id8(42));
    assert!(id == 42i64);
    assert!(!(id == 43i64));
    assert_eq!(i64::from(id), 42);
    assert_eq!(*id, 42);
    assert_eq!(*id.as_ref(), 42);
    let mut id = id;
    *id.as_mut() = -7;
    assert_eq!(id, Id8(-7));
    assert_eq!(id.to_string(), "-7");
    assert_eq!(Id8(i64::MAX).to_string(), "9223372036854775807");
    assert_eq!(Id8::default(), Id8(0));
    assert!(Id8(1) < Id8(2));
}

#[test]
fn id8_from_str() {
    assert_eq!(Id8::from_str("123"), Ok(Id8(123)));
    assert_eq!(Id8::from_str("-5"), Ok(Id8(-5)));
    assert_eq!(Id8::from_str("+5"), Ok(Id8(5)));
    assert!(Id8::from_str("").is_err());
    assert!(Id8::from_str("12a").is_err());
    assert!(Id8::from_str("9223372036854775808").is_err());
}

#[test]
fn response_success() {
    let response = Response::success(Some(5));
    assert_eq!(response.code, 0);
    assert_eq!(response.data, Some(5));
    assert_eq!(response.message, SharedString::Static("success"));
    let response = Response::<u8>::success(None);
    assert_eq!(response.data, None);
}

#[test]
fn response_failure_is_never_zero() {
    let response = Response::failure(7, SharedString::from_static("bad"), Some("x"));
    assert_eq!(response.code, 7);
    assert_eq!(response.data, Some("x"));
    assert_eq!(response.message.as_str(), "bad");
    let response = Response::<u8>::failure(0, SharedString::from_static("bad"), None);
    assert_eq!(response.code, -1);
    let response = Response::<u8>::failure(-3, SharedString::from_static("bad"), None);
    assert_eq!(response.code, -3);
    let response = Response::<u8>::failure(i32::MIN, SharedString::from_static("bad"), None);
    assert_eq!(response.code, i32::MIN);
}

#[test]
fn success_body() {
    assert_eq!(
        api::success(),
        b"{\"code\":0,\"message\":\"success\",\"data\":null}"
    );
}

#[test]
fn tuples_from_items() {
    assert_eq!(
        <TupleManyStruct<1> as TupleManyTrait<u8>>::try_from_iter(vec![1]),
        Ok((1,))
    );
    assert_eq!(
        <TupleManyStruct<2> as TupleManyTrait<u8>>::try_from_iter(vec![1, 2]),
        Ok((1, 2))
    );
    assert_eq!(
        <TupleManyStruct<3> as TupleManyTrait<u8>>::try_from_iter(vec![1, 2, 3]),
        Ok((1, 2, 3))
    );
    assert_eq!(
        <TupleManyStruct<4> as TupleManyTrait<u8>>::try_from_iter(vec![1, 2, 3, 4]),
        Ok((1, 2, 3, 4))
    );
    assert_eq!(
        <TupleManyStruct<5> as TupleManyTrait<&str>>::try_from_iter(vec!["a", "b", "c", "d", "e"]),
        Ok(("a", "b", "c", "d", "e"))
    );
}

#[test]
fn tuples_of_the_wrong_number() {
    assert_eq!(
        <TupleManyStruct<1> as TupleManyTrait<u8>>::try_from_iter(vec![]),
        Err(())
    );
    assert_eq!(
        <TupleManyStruct<1> as TupleManyTrait<u8>>::try_from_iter(vec![1, 2]),
        Err(())
    );
    assert_eq!(
        <TupleManyStruct<3> as TupleManyTrait<u8>>::try_from_iter(vec![1, 2]),
        Err(())
    );
    assert_eq!(
        <TupleManyStruct<3> as TupleManyTrait<u8>>::try_from_iter(vec![1, 2, 3, 4]),
        Err(())
    );
    assert_eq!(
        <TupleManyStruct<5> as TupleManyTrait<u8>>::try_from_iter(vec![1, 2, 3, 4]),
        Err(())
    );
}

#[test]
fn mapper_goes_in_front_of_a_handler() {
    let chained = tihu::handler::Mapper(1u8).chain("handler");
    assert_eq!(chained.input_mapper, 1);
    assert_eq!(chained.handler, "handler");
    let mapped = tihu::handler::OutputMapperHandler::new("handler", 2u8);
    assert_eq!(mapped.handler, "handler");
    assert_eq!(mapped.output_mapper, 2);
}

#[test]
fn middlewares_join() {
    let joined = tihu::middleware::JoinMiddleware::new("outer", "inner");
    assert_eq!(joined.middleware1, "outer");
    assert_eq!(joined.middleware2, "inner");
}
