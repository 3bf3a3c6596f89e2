use futures::channel::oneshot::Canceled;
use futures::executor::block_on;
use rr_mux::wire::Wire;
use rr_mux::{ConnectorError, Mux, Muxed};

#[test]
fn test_wiring() {
    let mut i: Wire<u16, u64, u32, u32, (), ()> = Wire::new();

    let c1 = i.connector(0x11);
    let c2 = i.connector(0x22);

    // c1 makes a request
    let rx = c1.request(&mut i, (), 1, 0x22, 40).unwrap();

    // c2 answers what reaches it
    while let Some((from, id, val)) = c2.poll_next(&mut i) {
        c2.respond(&mut i, (), id, from, val + 10).unwrap();
    }

    // c1 checks the response
    let resp = block_on(rx).unwrap();
    assert_eq!(resp, 50);
}

#[test]
fn peer_sees_where_a_request_came_from() {
    let mut i: Wire<u16, u64, u32, u32, (), ()> = Wire::new();
    let c1 = i.connector(0x11);
    let c2 = i.connector(0x22);
    assert_eq!(c1.address(), 0x11);
    assert_eq!(c2.address(), 0x22);

    let mut rx = c1.request(&mut i, (), 1, 0x22, 40).unwrap();
    assert!(i.is_pending(&0x22, &0x11, &1));
    assert!(!i.is_pending(&0x11, &0x22, &1));
    assert_eq!(c1.poll_next(&mut i), None);
    assert_eq!(c2.poll_next(&mut i), Some((0x11, 1, 40)));
    assert_eq!(c2.poll_next(&mut i), None);
    assert_eq!(rx.try_recv(), Ok(None));

    assert_eq!(c2.respond(&mut i, (), 1, 0x11, 50), Ok(()));
    assert!(!i.is_pending(&0x22, &0x11, &1));
    assert_eq!(rx.try_recv(), Ok(Some(50)));
}

#[test]
fn requests_reach_an_inbox_in_order() {
    let mut i: Wire<u16, u64, u32, u32, (), ()> = Wire::new();
    let c1 = i.connector(1);
    let c2 = i.connector(2);
    let c3 = i.connector(3);
    let _a = c1.request(&mut i, (), 7, 3, 100).unwrap();
    let _b = c2.request(&mut i, (), 7, 3, 200).unwrap();
    let _c = c1.request(&mut i, (), 8, 3, 300).unwrap();
    assert_eq!(c3.poll_next(&mut i), Some((1, 7, 100)));
    assert_eq!(c3.poll_next(&mut i), Some((2, 7, 200)));
    assert_eq!(c3.poll_next(&mut i), Some((1, 8, 300)));
    assert_eq!(c3.poll_next(&mut i), None);
}

#[test]
fn same_identifier_from_two_peers_is_kept_apart() {
    let mut i: Wire<u16, u64, u32, u32, (), ()> = Wire::new();
    let c1 = i.connector(1);
    let c2 = i.connector(2);
    let c3 = i.connector(3);
    let mut from1 = c1.request(&mut i, (), 7, 3, 100).unwrap();
    let mut from2 = c2.request(&mut i, (), 7, 3, 200).unwrap();
    assert_eq!(c3.respond(&mut i, (), 7, 2, 201), Ok(()));
    assert_eq!(from1.try_recv(), Ok(None));
    assert_eq!(from2.try_recv(), Ok(Some(201)));
    assert_eq!(c3.respond(&mut i, (), 7, 1, 101), Ok(()));
    assert_eq!(from1.try_recv(), Ok(Some(101)));
}

#[test]
fn unknown_target_is_unroutable() {
    let mut i: Wire<u16, u64, u32, u32, (), ()> = Wire::new();
    let c1 = i.connector(0x11);
    assert!(i.is_connected(&0x11));
    assert!(!i.is_connected(&0x22));
    match c1.request(&mut i, (), 1, 0x22, 40) {
        Err(e) => assert_eq!(e, ConnectorError::Unroutable),
        Ok(_) => panic!("a request to nowhere was accepted"),
    }
    assert!(!i.is_pending(&0x22, &0x11, &1));
}

#[test]
fn outstanding_request_cannot_be_repeated() {
    let mut i: Wire<u16, u64, u32, u32, (), ()> = Wire::new();
    let c1 = i.connector(0x11);
    let c2 = i.connector(0x22);
    let mut rx = c1.request(&mut i, (), 1, 0x22, 40).unwrap();
    match c1.request(&mut i, (), 1, 0x22, 41) {
        Err(e) => assert_eq!(e, ConnectorError::DuplicateId),
        Ok(_) => panic!("an outstanding request was accepted twice"),
    }
    assert_eq!(c2.poll_next(&mut i), Some((0x11, 1, 40)));
    assert_eq!(c2.poll_next(&mut i), None);
    assert_eq!(c2.respond(&mut i, (), 1, 0x11, 50), Ok(()));
    assert_eq!(rx.try_recv(), Ok(Some(50)));
}

#[test]
fn response_without_request_is_not_pending() {
    let mut i: Wire<u16, u64, u32, u32, (), ()> = Wire::new();
    let c1 = i.connector(0x11);
    let c2 = i.connector(0x22);
    assert_eq!(
        c2.respond(&mut i, (), 1, 0x11, 50),
        Err(ConnectorError::NotPending)
    );
    let _rx = c1.request(&mut i, (), 1, 0x22, 40).unwrap();
    // the requester cannot answer its own request
    assert_eq!(
        c1.respond(&mut i, (), 1, 0x22, 50),
        Err(ConnectorError::NotPending)
    );
    assert_eq!(c2.respond(&mut i, (), 1, 0x11, 50), Ok(()));
    assert_eq!(
        c2.respond(&mut i, (), 1, 0x11, 51),
        Err(ConnectorError::NotPending)
    );
}

#[test]
fn response_to_a_requester_that_went_away() {
    let mut i: Wire<u16, u64, u32, u32, (), ()> = Wire::new();
    let c1 = i.connector(0x11);
    let c2 = i.connector(0x22);
    let rx = c1.request(&mut i, (), 1, 0x22, 40).unwrap();
    drop(rx);
    assert_eq!(
        c2.respond(&mut i, (), 1, 0x11, 50),
        Err(ConnectorError::ReceiverGone)
    );
}

#[test]
fn dropped_handle_resolves_to_cancelled() {
    let mut i: Wire<u16, u64, u32, u32, (), ()> = Wire::new();
    let c1 = i.connector(0x11);
    let _c2 = i.connector(0x22);
    let rx = c1.request(&mut i, (), 1, 0x22, 40).unwrap();
    drop(i.claim(0x22, 0x11, 1));
    assert_eq!(
        Wire::<u16, u64, u32, u32, (), ()>::resolve(block_on(rx)),
        Err(ConnectorError::Cancelled)
    );
    assert_eq!(
        Wire::<u16, u64, u32, u32, (), ()>::resolve(Ok(50)),
        Ok(50)
    );
    assert_eq!(
        Wire::<u16, u64, u32, u32, (), ()>::resolve(Err(Canceled)),
        Err(ConnectorError::Cancelled)
    );
}

#[test]
fn reconnecting_an_address_empties_its_inbox() {
    let mut i: Wire<u16, u64, u32, u32, (), ()> = Wire::new();
    let c1 = i.connector(0x11);
    let _c2 = i.connector(0x22);
    let mut rx = c1.request(&mut i, (), 1, 0x22, 40).unwrap();
    let c2 = i.connector(0x22);
    assert_eq!(c2.poll_next(&mut i), None);
    // the request is still outstanding and can be answered
    assert!(i.is_pending(&0x22, &0x11, &1));
    assert_eq!(c2.respond(&mut i, (), 1, 0x11, 50), Ok(()));
    assert_eq!(rx.try_recv(), Ok(Some(50)));
}

#[test]
fn two_multiplexers_exchange_a_request_and_its_response() {
    let mut near: Mux<u16, u64, u32, u32, (), ()> = Mux::new();
    let mut far: Mux<u16, u64, u32, u32, (), ()> = Mux::new();
    let near_addr = 0x11;

    // the near end issues the request
    let mut rx = near.request((), 1, 0x22, 40).unwrap();
    let (id, to, envelope, ctx) = near.poll_next().unwrap();
    assert_eq!((id, to), (1, 0x22));

    // the far end observes it as an inbound request from the near end
    let seen = far.handle(id, near_addr, envelope, ctx).unwrap();
    assert_eq!(seen, Some((0x11, 40, ())));

    // and responds
    far.respond((), 1, 0x11, 50).unwrap();
    let (id, to, envelope, ctx) = far.poll_next().unwrap();
    assert_eq!((id, to), (1, 0x11));
    assert_eq!(envelope, Muxed::Response(50));

    // the near end takes the response in
    assert_eq!(near.handle(id, 0x22, envelope, ctx), Ok(None));
    assert_eq!(near.poll_response(&mut rx), Ok(Some((50, ()))));
    assert_eq!(block_on(rx), Err(Canceled));
}

#[test]
fn claim_hands_out_the_handle_of_the_request() {
    let mut i: Wire<u16, u64, u32, u32, (), ()> = Wire::new();
    let c1 = i.connector(0x11);
    let _c2 = i.connector(0x22);
    let mut rx = c1.request(&mut i, (), 1, 0x22, 40).unwrap();
    let mut other = c1.request(&mut i, (), 2, 0x22, 41).unwrap();

    assert!(i.claim(0x11, 0x22, 1).is_none());
    let tx = i.claim(0x22, 0x11, 1).unwrap();
    assert!(tx.is_connected_to(&rx));
    assert!(!tx.is_connected_to(&other));
    assert!(!i.is_pending(&0x22, &0x11, &1));
    assert!(i.is_pending(&0x22, &0x11, &2));
    assert!(i.claim(0x22, 0x11, 1).is_none());

    assert_eq!(tx.send(9), Ok(()));
    assert_eq!(rx.try_recv(), Ok(Some(9)));
    assert_eq!(other.try_recv(), Ok(None));
}
