use vending::{redeem, RequestError, SendError, Vendor};

#[test]
fn it_works() {
    let vendor = Vendor::new();
    let customer1 = vendor.customer();
    let customer2 = vendor.customer();

    let rx1 = customer1.register().unwrap();
    let rx2 = customer2.register().unwrap();

    vendor.send("ok");

    assert!(matches!(redeem(rx1), Ok("ok")));
    assert!(matches!(redeem(rx2), Ok("ok")));
}

#[test]
fn two_customers_one_send() {
    let vendor = Vendor::new();
    let c1 = vendor.customer();
    let c2 = vendor.customer();

    let rx1 = c1.register().unwrap();
    let rx2 = c2.register().unwrap();
    assert_eq!(vendor.waiters_count(), 2);

    vendor.send("ok");

    assert_eq!(vendor.waiters_count(), 0);
    assert_eq!(redeem(rx1), Ok("ok"));
    assert_eq!(redeem(rx2), Ok("ok"));
}

#[test]
fn send_without_waiters_discards() {
    let vendor: Vendor<u64> = Vendor::new();

    assert!(!vendor.has_waiters());
    vendor.send(42);
    assert_eq!(vendor.waiters_count(), 0);

    // A slot registered only afterwards sees nothing of that value.
    let customer = vendor.customer();
    let rx = customer.register().unwrap();
    assert!(matches!(rx.try_recv(), Err(onetime::TryRecvError::Empty(_))));
}

#[test]
fn count_matches_pending_requests() {
    let vendor: Vendor<u32> = Vendor::new();
    let customer = vendor.customer();

    let mut slots = Vec::new();
    for _ in 0..3 {
        slots.push(customer.register().unwrap());
    }
    assert_eq!(vendor.waiters_count(), 3);
    assert!(vendor.has_waiters());

    vendor.send(7);
    assert_eq!(vendor.waiters_count(), 0);
    for rx in slots {
        assert_eq!(redeem(rx), Ok(7));
    }
}

#[test]
fn fan_out_delivers_to_every_queued_slot() {
    let vendor: Vendor<String> = Vendor::new();
    let first = vendor.customer();

    let mut slots = Vec::new();
    for _ in 0..5 {
        // Each clone is an independent customer over the same pool.
        slots.push(first.clone().register().unwrap());
    }
    assert_eq!(vendor.waiters_count(), 5);

    vendor.send(String::from("fresh"));

    for rx in slots {
        assert_eq!(redeem(rx), Ok(String::from("fresh")));
    }
}

#[test]
fn cancelled_request_is_ignored() {
    let vendor = Vendor::new();
    let customer = vendor.customer();

    let kept = customer.register().unwrap();
    let cancelled = customer.register().unwrap();
    drop(cancelled); // cancelling a pending request just drops its receiving half

    // The send must neither fail nor block on the cancelled slot.
    vendor.send("ok");

    assert_eq!(vendor.waiters_count(), 0);
    assert!(matches!(redeem(kept), Ok("ok")));
}

#[test]
fn slot_served_at_most_once() {
    let vendor: Vendor<u8> = Vendor::new();
    let customer = vendor.customer();

    let rx = customer.register().unwrap();
    vendor.send(1);
    // The second send finds the queue empty: the slot was already claimed.
    vendor.send(2);

    assert_eq!(redeem(rx), Ok(1));
}

#[test]
fn abandoned_slot_reports_recv() {
    let (tx, rx) = onetime::channel::<u8>();
    drop(tx); // dropped without ever sending
    assert_eq!(redeem(rx), Err(RequestError::Recv));
}

#[test]
fn push_failures_map_to_push() {
    assert_eq!(
        RequestError::from(concurrent_queue::PushError::Closed(3u8)),
        RequestError::Push
    );
    assert_eq!(
        RequestError::from(concurrent_queue::PushError::Full(3u8)),
        RequestError::Push
    );
}

#[test]
fn recv_failure_maps_to_recv() {
    assert_eq!(RequestError::from(onetime::RecvError), RequestError::Recv);
    assert_ne!(RequestError::Push, RequestError::Recv);
    assert_eq!(SendError, SendError);
}

#[test]
fn concurrent_requests_resolve() {
    smol::block_on(async move {
        let vendor: Vendor<u32> = Vendor::new();
        let c1 = vendor.customer();
        let c2 = vendor.customer();

        let t1 = smol::unblock(move || c1.request());
        let t2 = smol::unblock(move || c2.request());

        // Send only once both requests are visibly queued.
        while vendor.waiters_count() < 2 {
            smol::future::yield_now().await;
        }
        vendor.send(9);

        assert_eq!(t1.await, Ok(9));
        assert_eq!(t2.await, Ok(9));
    });
}

#[test]
fn settle_is_exact() {
    assert_eq!(vending::settle::<u8>(Ok(5)), Ok(5));
    assert_eq!(
        vending::settle::<u8>(Err(onetime::RecvError)),
        Err(RequestError::Recv)
    );
}
