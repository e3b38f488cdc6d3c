use quic_endpoint::{next_step, Flush, Intake, Step};

#[test]
fn driver_yields_when_no_datagram_is_ready() {
    assert_eq!(next_step(Intake::Suspended, Flush::Done, 1), Step::Yield);
    assert_eq!(next_step(Intake::Suspended, Flush::Done, 2), Step::Yield);
    assert_eq!(next_step(Intake::Suspended, Flush::Suspended, 1), Step::Yield);
    assert_eq!(next_step(Intake::Suspended, Flush::Suspended, 5), Step::Yield);
}

#[test]
fn driver_yields_when_the_socket_cannot_take_a_packet() {
    assert_eq!(next_step(Intake::NewConnection, Flush::Suspended, 1), Step::Yield);
    assert_eq!(next_step(Intake::NewConnection, Flush::Suspended, 2), Step::Yield);
}

#[test]
fn driver_goes_on_while_the_endpoint_has_other_owners() {
    assert_eq!(next_step(Intake::NewConnection, Flush::Done, 2), Step::Continue);
    assert_eq!(next_step(Intake::NewConnection, Flush::Done, usize::MAX), Step::Continue);
    assert_eq!(next_step(Intake::NewConnection, Flush::Done, 0), Step::Continue);
}

#[test]
fn driver_terminates_when_it_is_the_last_owner_and_all_is_sent() {
    assert_eq!(next_step(Intake::NewConnection, Flush::Done, 1), Step::Terminate);
}
