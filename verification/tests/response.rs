use std::collections::HashMap;
use wlscreenaccess::response::{
    decode, encode, from_parts, status_of, BasicResponse, DecodeError, Envelope, ProtocolError,
    Response, ResponseType,
};
use wlscreenaccess::ResponseError;
use zbus::zvariant::{OwnedValue, Structure, Value};

type Vardict = HashMap<String, OwnedValue>;

#[derive(Debug, Clone, Copy, PartialEq)]
struct Color {
    red: f64,
    green: f64,
    blue: f64,
}

fn color_from_dict(mut dict: Vardict) -> Result<Color, String> {
    let value = match dict.remove("color") {
        Some(value) => value,
        None => return Err(String::from("no color")),
    };
    match <(f64, f64, f64)>::try_from(value) {
        Ok((red, green, blue)) => Ok(Color { red, green, blue }),
        Err(e) => Err(e.to_string()),
    }
}

fn color_to_dict(color: &Color) -> Vardict {
    let fields = Structure::from((color.red, color.green, color.blue));
    let mut dict = Vardict::new();
    dict.insert(String::from("color"), OwnedValue::from(Value::from(fields)));
    dict
}

fn never_called<W, T>(_: W) -> Result<T, String> {
    panic!("the payload of a failure is not decoded")
}

fn protocol<T: std::fmt::Debug, E: std::fmt::Debug>(
    decoded: Result<Response<T>, DecodeError<E>>,
) -> ProtocolError {
    match decoded {
        Err(DecodeError::Protocol(e)) => e,
        other => panic!("not a protocol error: {other:?}"),
    }
}

#[test]
fn status_codes_are_zero_one_two() {
    assert_eq!(ResponseType::Success.code(), 0);
    assert_eq!(ResponseType::Cancelled.code(), 1);
    assert_eq!(ResponseType::Other.code(), 2);
}

#[test]
fn status_is_read_from_its_code() {
    assert_eq!(ResponseType::from_code(0), Ok(ResponseType::Success));
    assert_eq!(ResponseType::from_code(1), Ok(ResponseType::Cancelled));
    assert_eq!(ResponseType::from_code(2), Ok(ResponseType::Other));
}

#[test]
fn unknown_status_code_is_a_malformed_header() {
    for code in [3, 4, 5, 255, 256, u32::MAX] {
        assert_eq!(ResponseType::from_code(code), Err(ProtocolError::MalformedHeader), "{code}");
    }
}

#[test]
fn status_is_read_from_the_first_element() {
    assert_eq!(ResponseType::from_element(Some(0)), Ok(ResponseType::Success));
    assert_eq!(ResponseType::from_element(Some(1)), Ok(ResponseType::Cancelled));
    assert_eq!(ResponseType::from_element(Some(2)), Ok(ResponseType::Other));
    assert_eq!(ResponseType::from_element(Some(3)), Err(ProtocolError::MalformedHeader));
    assert_eq!(ResponseType::from_element(None), Err(ProtocolError::MalformedHeader));
}

#[test]
fn status_code_round_trip() {
    for status in [ResponseType::Success, ResponseType::Cancelled, ResponseType::Other] {
        assert_eq!(ResponseType::from_code(status.code()), Ok(status));
    }
}

#[test]
fn only_success_carries_a_payload() {
    assert!(ResponseType::Success.carries_payload());
    assert!(!ResponseType::Cancelled.carries_payload());
    assert!(!ResponseType::Other.carries_payload());
}

#[test]
fn failure_maps_to_its_status() {
    assert_eq!(ResponseType::from(ResponseError::Cancelled), ResponseType::Cancelled);
    assert_eq!(ResponseType::from(ResponseError::Other), ResponseType::Other);
}

#[test]
fn status_of_a_reply() {
    assert_eq!(status_of(&Response::Ok(7u8)), ResponseType::Success);
    assert_eq!(status_of(&Response::<u8>::Err(ResponseError::Cancelled)), ResponseType::Cancelled);
    assert_eq!(status_of(&Response::<u8>::Err(ResponseError::Other)), ResponseType::Other);
}

#[test]
fn failure_is_shown_by_its_name() {
    assert_eq!(ResponseError::Cancelled.to_string(), "Cancelled");
    assert_eq!(ResponseError::Other.to_string(), "Other");
}

#[test]
fn protocol_error_is_shown_in_words() {
    assert_eq!(
        ProtocolError::MalformedHeader.to_string(),
        "Failed to deserialize the response. Expected a numeric (u) value as the first item of the returned tuple"
    );
    assert_eq!(
        ProtocolError::MissingPayload.to_string(),
        "Failed to deserialize the response. Expected a vardict (a{sv}) with the returned results"
    );
}

#[test]
fn parts_of_a_success_need_the_payload() {
    assert_eq!(from_parts(ResponseType::Success, Some(5u8)), Ok(Response::Ok(5u8)));
    assert_eq!(from_parts::<u8>(ResponseType::Success, None), Err(ProtocolError::MissingPayload));
}

#[test]
fn parts_of_a_failure_drop_the_payload() {
    assert_eq!(
        from_parts(ResponseType::Cancelled, Some(5u8)),
        Ok(Response::Err(ResponseError::Cancelled))
    );
    assert_eq!(
        from_parts::<u8>(ResponseType::Cancelled, None),
        Ok(Response::Err(ResponseError::Cancelled))
    );
    assert_eq!(from_parts(ResponseType::Other, Some(5u8)), Ok(Response::Err(ResponseError::Other)));
    assert_eq!(from_parts::<u8>(ResponseType::Other, None), Ok(Response::Err(ResponseError::Other)));
}

#[test]
fn decoding_a_color_reply() {
    let color = Color { red: 0.1, green: 0.2, blue: 0.3 };
    let wire = Envelope { status: 0, payload: Some(color_to_dict(&color)) };
    let decoded = decode(wire, color_from_dict).unwrap();
    assert_eq!(decoded, Response::Ok(Color { red: 0.1, green: 0.2, blue: 0.3 }));
}

#[test]
fn decoding_a_cancelled_reply_with_an_empty_dictionary() {
    let wire = Envelope { status: 1, payload: Some(Vardict::new()) };
    let decoded: Response<Color> = decode(wire, color_from_dict).unwrap();
    assert_eq!(decoded, Response::Err(ResponseError::Cancelled));
    let wire = Envelope { status: 1, payload: Some(Vardict::new()) };
    let decoded = decode(wire, |dict: Vardict| Ok::<BasicResponse<Vardict>, String>(BasicResponse(dict)));
    assert!(matches!(decoded, Ok(Response::Err(ResponseError::Cancelled))));
}

#[test]
fn decoding_a_cancelled_reply_ignores_the_second_element() {
    let color = Color { red: 0.1, green: 0.2, blue: 0.3 };
    let wire = Envelope { status: 1, payload: Some(color_to_dict(&color)) };
    let decoded: Response<Color> = decode(wire, never_called).unwrap();
    assert_eq!(decoded, Response::Err(ResponseError::Cancelled));
    let wire: Envelope<Vardict> = Envelope { status: 1, payload: None };
    let decoded: Response<Color> = decode(wire, never_called).unwrap();
    assert_eq!(decoded, Response::Err(ResponseError::Cancelled));
    let wire = Envelope { status: 1, payload: Some("not a dictionary") };
    let decoded: Response<Color> = decode(wire, never_called).unwrap();
    assert_eq!(decoded, Response::Err(ResponseError::Cancelled));
}

#[test]
fn decoding_another_failure_ignores_the_second_element() {
    let color = Color { red: 0.1, green: 0.2, blue: 0.3 };
    let wire = Envelope { status: 2, payload: Some(color_to_dict(&color)) };
    let decoded: Response<Color> = decode(wire, never_called).unwrap();
    assert_eq!(decoded, Response::Err(ResponseError::Other));
    let wire: Envelope<Vardict> = Envelope { status: 2, payload: None };
    let decoded: Response<Color> = decode(wire, never_called).unwrap();
    assert_eq!(decoded, Response::Err(ResponseError::Other));
}

#[test]
fn decoding_a_success_without_payload_fails() {
    let wire: Envelope<Vardict> = Envelope { status: 0, payload: None };
    let decoded: Result<Response<Color>, _> = decode(wire, never_called);
    assert_eq!(protocol(decoded), ProtocolError::MissingPayload);
}

#[test]
fn decoding_an_unknown_status_fails() {
    for status in [3, 5, 77, u32::MAX] {
        let wire = Envelope { status, payload: Some(Vardict::new()) };
        let decoded: Result<Response<Color>, _> = decode(wire, never_called);
        assert_eq!(protocol(decoded), ProtocolError::MalformedHeader, "{status}");
        let wire: Envelope<Vardict> = Envelope { status, payload: None };
        let decoded: Result<Response<Color>, _> = decode(wire, never_called);
        assert_eq!(protocol(decoded), ProtocolError::MalformedHeader, "{status}");
    }
}

#[test]
fn decoding_hands_on_the_error_of_the_payload_decoder() {
    let wire = Envelope { status: 0, payload: Some(Vardict::new()) };
    match decode(wire, color_from_dict) {
        Err(DecodeError::PayloadDecodeFailure(e)) => assert_eq!(e, "no color"),
        other => panic!("{other:?}"),
    }
    let mut dict = Vardict::new();
    dict.insert(String::from("color"), OwnedValue::from(Value::from(true)));
    let wire = Envelope { status: 0, payload: Some(dict) };
    let expected = <(f64, f64, f64)>::try_from(OwnedValue::from(Value::from(true)))
        .unwrap_err()
        .to_string();
    match decode(wire, color_from_dict) {
        Err(DecodeError::PayloadDecodeFailure(e)) => assert_eq!(e, expected),
        other => panic!("{other:?}"),
    }
}

#[test]
fn encoding_a_success() {
    let color = Color { red: 0.25, green: 0.5, blue: 1.0 };
    let wire: Envelope<Vardict> = encode(&Response::Ok(color), color_to_dict);
    assert_eq!(wire.status, 0);
    let dict = wire.payload.unwrap();
    assert_eq!(dict.len(), 1);
    let fields = <(f64, f64, f64)>::try_from(dict["color"].clone()).unwrap();
    assert_eq!(fields, (0.25, 0.5, 1.0));
}

#[test]
fn encoding_a_failure_fills_the_slot_with_an_empty_dictionary() {
    let wire: Envelope<Vardict> = encode(&Response::<Color>::Err(ResponseError::Cancelled), color_to_dict);
    assert_eq!(wire.status, 1);
    assert_eq!(wire.payload.map(|dict| dict.len()), Some(0));
    let wire: Envelope<Vardict> = encode(&Response::<Color>::Err(ResponseError::Other), color_to_dict);
    assert_eq!(wire.status, 2);
    assert_eq!(wire.payload.map(|dict| dict.len()), Some(0));
}

#[test]
fn encoding_a_failure_does_not_run_the_payload_encoder() {
    let wire: Envelope<u32> = encode(&Response::<Color>::Err(ResponseError::Other), |_: &Color| -> u32 {
        panic!("a failure has no payload to encode")
    });
    assert_eq!(wire.status, 2);
    assert_eq!(wire.payload, Some(0));
}

#[test]
fn basic_response_defaults_to_the_empty_dictionary() {
    let basic: BasicResponse<Vardict> = BasicResponse::default();
    assert!(basic.0.is_empty());
    let basic: BasicResponse<Vec<u8>> = BasicResponse::default();
    assert_eq!(basic.0, Vec::<u8>::new());
}

#[test]
fn round_trip_of_a_success() {
    for color in [
        Color { red: 0.1, green: 0.2, blue: 0.3 },
        Color { red: 0.0, green: 0.0, blue: 0.0 },
        Color { red: 1.0, green: 0.5, blue: 0.125 },
    ] {
        let wire: Envelope<Vardict> = encode(&Response::Ok(color), color_to_dict);
        let decoded = decode(wire, color_from_dict).unwrap();
        assert_eq!(decoded, Response::Ok(color));
    }
}

#[test]
fn round_trip_of_a_failure() {
    for reason in [ResponseError::Cancelled, ResponseError::Other] {
        let wire: Envelope<Vardict> = encode(&Response::<Color>::Err(reason), color_to_dict);
        let decoded: Response<Color> = decode(wire, never_called).unwrap();
        assert_eq!(decoded, Response::Err(reason));
    }
}

#[test]
fn round_trip_of_a_basic_response() {
    let mut dict = Vardict::new();
    dict.insert(String::from("answer"), OwnedValue::from(Value::from(42u32)));
    let wire: Envelope<Vardict> =
        encode(&Response::Ok(BasicResponse(dict)), |basic: &BasicResponse<Vardict>| basic.0.clone());
    assert_eq!(wire.status, 0);
    let decoded = decode(wire, |dict: Vardict| Ok::<BasicResponse<Vardict>, String>(BasicResponse(dict)));
    match decoded {
        Ok(Response::Ok(basic)) => {
            assert_eq!(basic.0.len(), 1);
            assert_eq!(u32::try_from(basic.0["answer"].clone()).unwrap(), 42);
        }
        other => panic!("{other:?}"),
    }
}
