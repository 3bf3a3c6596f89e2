use rr_mux::mock::{MockConnector, MockError, MockRequest, MockResponse, MockTransaction};
use rr_mux::{Connector, Muxed};

type Mock = MockConnector<u16, u32, u64, &'static str, u8>;

fn request(mock: &mut Mock, ctx: u8, to: u16, req: u32) -> Result<(u64, u8), &'static str> {
    Connector::<u8, u16, u32, u64, &'static str, u8>::request(mock, ctx, 0, to, req)
}

fn respond(mock: &mut Mock, ctx: u8, to: u16, resp: u64) -> Result<(), &'static str> {
    Connector::<u8, u16, u32, u64, &'static str, u8>::respond(mock, ctx, 0, to, resp)
}

#[test]
fn expectations_are_met_in_order() {
    let mut mock = Mock::new();
    mock.expect(
        vec![
            MockTransaction::request(1, 10, Ok((11, 7))),
            MockTransaction::response(2, 20, None),
            MockTransaction::request(3, 30, Err("down")),
            MockTransaction::response(4, 40, Some("refused")),
        ]
        .into(),
    );
    assert_eq!(mock.outstanding(), 4);
    assert_eq!(request(&mut mock, 0, 1, 10), Ok((11, 7)));
    assert_eq!(respond(&mut mock, 0, 2, 20), Ok(()));
    assert_eq!(request(&mut mock, 0, 3, 30), Err("down"));
    assert_eq!(respond(&mut mock, 0, 4, 40), Err("refused"));
    assert_eq!(mock.outstanding(), 0);
    mock.finalise();
}

#[test]
fn canned_error_uses_up_its_expectation() {
    let mut mock = MockConnector::<u16, u32, u32, u8, ()>::new();
    mock.expect(
        vec![
            MockTransaction::request(1, 0, Err(7)),
            MockTransaction::request(1, 3, Ok((4, ()))),
            MockTransaction::response(1, 2, Some(7)),
        ]
        .into(),
    );
    assert_eq!(
        Connector::<u64, u16, u32, u32, u8, ()>::request(&mut mock, (), 0, 1, 0),
        Err(7)
    );
    assert_eq!(
        Connector::<u64, u16, u32, u32, u8, ()>::request(&mut mock, (), 0, 1, 3),
        Ok((4, ()))
    );
    assert_eq!(
        Connector::<u64, u16, u32, u32, u8, ()>::respond(&mut mock, (), 0, 1, 2),
        Err(7)
    );
    mock.finalise();
}

#[test]
fn check_finds_no_expectation() {
    let mock = Mock::new();
    assert_eq!(mock.check_request(&0, &1, &10), Err(MockError::Exhausted));
    assert_eq!(mock.check_response(&0, &1, &10), Err(MockError::Exhausted));
    assert_eq!(mock.outstanding(), 0);
}

#[test]
fn check_finds_the_other_kind() {
    let mut mock = Mock::new();
    mock.expect(
        vec![
            MockTransaction::response(1, 10, None),
            MockTransaction::request(1, 10, Ok((11, 0))),
        ]
        .into(),
    );
    assert_eq!(mock.check_request(&0, &1, &10), Err(MockError::WrongKind));
    assert_eq!(mock.check_response(&0, &1, &10), Ok(()));
    assert_eq!(respond(&mut mock, 0, 1, 10), Ok(()));
    assert_eq!(mock.check_response(&0, &1, &10), Err(MockError::WrongKind));
    assert_eq!(mock.check_request(&0, &1, &10), Ok(()));
    assert_eq!(request(&mut mock, 0, 1, 10), Ok((11, 0)));
    mock.finalise();
}

#[test]
fn check_tells_mismatches_apart() {
    let mut mock = Mock::new();
    mock.expect(
        vec![
            Muxed::Request(MockRequest::new(1, 10, Ok((11, 0))).with_context(5)),
            Muxed::Response(MockResponse::new(1, 10, None).with_context(5).with_error("late")),
            MockTransaction::request(1, 10, Ok((12, 0))),
        ]
        .into(),
    );
    // target comes first, then payload, then context
    assert_eq!(mock.check_request(&4, &2, &11), Err(MockError::Destination));
    assert_eq!(mock.check_request(&4, &1, &11), Err(MockError::Payload));
    assert_eq!(mock.check_request(&4, &1, &10), Err(MockError::Context));
    assert_eq!(mock.check_request(&5, &1, &10), Ok(()));
    // checking uses nothing up
    assert_eq!(mock.outstanding(), 3);
    assert_eq!(request(&mut mock, 5, 1, 10), Ok((11, 0)));

    assert_eq!(mock.check_response(&4, &2, &11), Err(MockError::Destination));
    assert_eq!(mock.check_response(&4, &1, &11), Err(MockError::Payload));
    assert_eq!(mock.check_response(&4, &1, &10), Err(MockError::Context));
    assert_eq!(mock.check_response(&5, &1, &10), Ok(()));
    assert_eq!(respond(&mut mock, 5, 1, 10), Err("late"));

    // an expectation that names no context takes any
    assert_eq!(mock.check_request(&200, &1, &10), Ok(()));
    assert_eq!(request(&mut mock, 200, 1, 10), Ok((12, 0)));
    mock.finalise();
}

#[test]
fn expect_replaces_what_was_left() {
    let mut mock = Mock::new();
    mock.expect(
        vec![
            MockTransaction::request(1, 10, Ok((11, 0))),
            MockTransaction::response(1, 10, None),
        ]
        .into(),
    );
    assert_eq!(request(&mut mock, 0, 1, 10), Ok((11, 0)));
    assert_eq!(mock.outstanding(), 1);
    mock.expect(vec![MockTransaction::request(2, 20, Ok((21, 1)))].into());
    assert_eq!(mock.outstanding(), 1);
    assert_eq!(mock.check_response(&0, &1, &10), Err(MockError::WrongKind));
    assert_eq!(request(&mut mock, 0, 2, 20), Ok((21, 1)));
    mock.finalise();
    assert_eq!(mock.outstanding(), 0);
}

#[test]
fn builders_set_one_field_each() {
    let r: MockRequest<u16, u32, u64, u8, &str> = MockRequest::new(1, 2, Ok((3, 4)));
    assert_eq!(r, MockRequest { to: 1, req: 2, ctx: None, resp: Ok((3, 4)) });
    assert_eq!(
        r.with_context(9),
        MockRequest { to: 1, req: 2, ctx: Some(9), resp: Ok((3, 4)) }
    );
    let s: MockResponse<u16, u64, u8, &str> = MockResponse::new(1, 2, None);
    assert_eq!(s, MockResponse { to: 1, resp: 2, err: None, ctx: None });
    assert_eq!(
        s.with_error("e").with_context(9),
        MockResponse { to: 1, resp: 2, err: Some("e"), ctx: Some(9) }
    );
}
