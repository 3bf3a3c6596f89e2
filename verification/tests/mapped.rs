use rr_mux::mock::{MockConnector, MockTransaction};
use rr_mux::mapped::{acknowledge, conclude, map_request, map_response};
use rr_mux::{Connector, ConnectorError, Mapped, Mapper, Muxed};

#[derive(PartialEq, Debug, Clone)]
struct A(u64);
#[derive(PartialEq, Debug, Clone)]
struct B(u64);

#[derive(Clone)]
struct MapImpl();

impl Mapper for MapImpl {
    type Original = Muxed<A, A>;
    type Mapped = Muxed<B, B>;

    fn outgoing(&self, m: Self::Mapped) -> Self::Original {
        match m {
            Muxed::Request(req) => Muxed::Request(A(req.0)),
            Muxed::Response(resp) => Muxed::Response(A(resp.0)),
        }
    }
    fn incoming(&self, o: Self::Original) -> Self::Mapped {
        match o {
            Muxed::Request(req) => Muxed::Request(B(req.0)),
            Muxed::Response(resp) => Muxed::Response(B(resp.0)),
        }
    }
}

type MockA = MockConnector<u16, A, A, (), ()>;
type Wrapped<M> = Mapped<A, A, B, B, u64, u16, (), (), MockA, M>;

#[test]
fn test_mapping() {
    // Create mock mux
    let mut m = MockConnector::<u16, A, A, (), ()>::new();

    m.expect(
        vec![
            MockTransaction::request(1, A(0), Ok((A(1), ()))),
            MockTransaction::response(1, A(2), None),
        ]
        .into(),
    );

    // Build wrapper
    let mut w =
        Mapped::<A, A, B, B, u64, u16, (), (), MockConnector<u16, A, A, (), ()>, MapImpl>::new(
            m,
            MapImpl(),
        );

    let (resp, _ctx) = w.request((), 0, 1, B(0)).unwrap();
    assert_eq!(resp, B(1));

    w.respond((), 0, 1, B(2)).unwrap();

    let (mut m, _mapper) = w.into_inner();
    assert_eq!(m.outstanding(), 0);
    m.finalise();
}

/// Answers every request with its own payload.
struct Echo;

impl Connector<u64, u16, A, A, (), u8> for Echo {
    fn request(&mut self, ctx: u8, _id: u64, _target: u16, req: A) -> Result<(A, u8), ()> {
        Ok((req, ctx))
    }
    fn respond(&mut self, _ctx: u8, _id: u64, _target: u16, _resp: A) -> Result<(), ()> {
        Ok(())
    }
}

#[test]
fn round_trip_through_an_echo_returns_the_payload() {
    let mut w = Mapped::<A, A, B, B, u64, u16, (), u8, Echo, MapImpl>::new(Echo, MapImpl());
    assert_eq!(w.request(9, 0, 1, B(0)), Ok((B(0), 9)));
    assert_eq!(w.request(7, 1, 1, B(12345)), Ok((B(12345), 7)));
    assert_eq!(w.respond(7, 1, 1, B(5)), Ok(()));
}

/// Turns every envelope into a response.
struct AlwaysResponse;

impl Mapper for AlwaysResponse {
    type Original = Muxed<A, A>;
    type Mapped = Muxed<B, B>;

    fn outgoing(&self, m: Self::Mapped) -> Self::Original {
        match m {
            Muxed::Request(req) => Muxed::Response(A(req.0)),
            Muxed::Response(resp) => Muxed::Response(A(resp.0)),
        }
    }
    fn incoming(&self, o: Self::Original) -> Self::Mapped {
        match o {
            Muxed::Request(req) => Muxed::Request(B(req.0)),
            Muxed::Response(resp) => Muxed::Request(B(resp.0)),
        }
    }
}

/// Turns every envelope into a request.
struct AlwaysRequest;

impl Mapper for AlwaysRequest {
    type Original = Muxed<A, A>;
    type Mapped = Muxed<B, B>;

    fn outgoing(&self, m: Self::Mapped) -> Self::Original {
        match m {
            Muxed::Request(req) => Muxed::Request(A(req.0)),
            Muxed::Response(resp) => Muxed::Request(A(resp.0)),
        }
    }
    fn incoming(&self, o: Self::Original) -> Self::Mapped {
        match o {
            Muxed::Request(req) => Muxed::Request(B(req.0)),
            Muxed::Response(resp) => Muxed::Request(B(resp.0)),
        }
    }
}

#[test]
fn mismatched_request_never_reaches_the_connector() {
    let mut m = MockA::new();
    m.expect(vec![MockTransaction::request(1, A(0), Ok((A(1), ())))].into());
    let mut w = Wrapped::<AlwaysResponse>::new(m, AlwaysResponse);
    assert_eq!(w.request((), 0, 1, B(0)), Err(ConnectorError::Mismatched));
    let (m, _) = w.into_inner();
    assert_eq!(m.outstanding(), 1);
}

#[test]
fn mismatched_response_never_reaches_the_connector() {
    let mut m = MockA::new();
    m.expect(vec![MockTransaction::response(1, A(2), None)].into());
    let mut w = Wrapped::<AlwaysRequest>::new(m, AlwaysRequest);
    assert_eq!(w.respond((), 0, 1, B(2)), Err(ConnectorError::Mismatched));
    let (m, _) = w.into_inner();
    assert_eq!(m.outstanding(), 1);
}

#[test]
fn mismatched_incoming_response_is_reported() {
    let mut m = MockA::new();
    m.expect(vec![MockTransaction::request(1, A(0), Ok((A(1), ())))].into());
    let mut w = Wrapped::<AlwaysRequest>::new(m, AlwaysRequest);
    assert_eq!(w.request((), 0, 1, B(0)), Err(ConnectorError::Mismatched));
    let (mut m, _) = w.into_inner();
    assert_eq!(m.outstanding(), 0);
    m.finalise();
}

#[test]
fn transport_errors_pass_through_unchanged() {
    let mut m = MockA::new();
    m.expect(
        vec![
            MockTransaction::request(1, A(0), Err(())),
            MockTransaction::response(1, A(2), Some(())),
        ]
        .into(),
    );
    let mut w = Wrapped::<MapImpl>::new(m, MapImpl());
    assert_eq!(
        w.request((), 0, 1, B(0)),
        Err(ConnectorError::Transport(()))
    );
    assert_eq!(
        w.respond((), 0, 1, B(2)),
        Err(ConnectorError::Transport(()))
    );
}

#[test]
fn echoing_expectation_returns_the_payload() {
    let mut m = MockA::new();
    m.expect(vec![MockTransaction::request(1, A(5), Ok((A(5), ())))].into());
    let mut w = Wrapped::<MapImpl>::new(m, MapImpl());
    assert_eq!(w.request((), 0, 1, B(5)), Ok((B(5), ())));
    let (mut m, _) = w.into_inner();
    m.finalise();
}

#[test]
fn mapping_helpers_agree_with_the_mapper() {
    type Failure = ConnectorError<u8>;
    let sent: Result<A, Failure> = map_request(&MapImpl(), B(3));
    assert_eq!(sent, Ok(A(3)));
    let sent: Result<A, Failure> = map_response(&MapImpl(), B(4));
    assert_eq!(sent, Ok(A(4)));
    let sent: Result<A, Failure> = map_request(&AlwaysResponse, B(3));
    assert_eq!(sent, Err(ConnectorError::Mismatched));
    let sent: Result<A, Failure> = map_response(&AlwaysRequest, B(4));
    assert_eq!(sent, Err(ConnectorError::Mismatched));

    let got: Result<(B, u8), Failure> = conclude(&MapImpl(), Ok((A(5), 6)));
    assert_eq!(got, Ok((B(5), 6)));
    let got: Result<(B, u8), Failure> = conclude(&AlwaysRequest, Ok((A(5), 6)));
    assert_eq!(got, Err(ConnectorError::Mismatched));
    let got: Result<(B, u8), Failure> = conclude(&MapImpl(), Err(7));
    assert_eq!(got, Err(ConnectorError::Transport(7)));

    assert_eq!(acknowledge::<u8>(Ok(())), Ok(()));
    assert_eq!(acknowledge(Err(7u8)), Err(ConnectorError::Transport(7)));
}
