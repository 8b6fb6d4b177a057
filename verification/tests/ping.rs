use watch_room::ping::{participant_ping_loop, PingLoop, PingTurn, PING_PERIOD_MILLIS};
use watch_room::protocol::UserId;
use watch_room::room::SendPing;

#[test]
fn ping_loop_starts_at_zero() {
    assert_eq!(participant_ping_loop(UserId(3)), PingLoop { user_id: UserId(3), ping_num: 0 });
}

#[test]
fn turns_count_the_pings() {
    let mut driver = participant_ping_loop(UserId(3));
    assert_eq!(driver.turn(), PingTurn { request: SendPing(UserId(3), 0), sleep_millis: 5000 });
    assert_eq!(driver.turn(), PingTurn { request: SendPing(UserId(3), 1), sleep_millis: 5000 });
    assert_eq!(driver.turn(), PingTurn { request: SendPing(UserId(3), 2), sleep_millis: 5000 });
    assert_eq!(driver, PingLoop { user_id: UserId(3), ping_num: 3 });
    assert_eq!(PING_PERIOD_MILLIS, 5000);
}

#[test]
fn ping_count_starts_over_after_the_last_number() {
    let mut driver = PingLoop { user_id: UserId(3), ping_num: u32::MAX };
    assert_eq!(driver.turn().request, SendPing(UserId(3), u32::MAX));
    assert_eq!(driver.turn().request, SendPing(UserId(3), 0));
}

#[test]
fn pings_over_a_minute() {
    // One turn every period: twelve turns fall due in any minute.
    let mut driver = participant_ping_loop(UserId(3));
    let mut clock: u64 = 0;
    let mut pings = 0;
    while clock < 60_000 {
        let turn = driver.turn();
        pings += 1;
        clock += turn.sleep_millis;
    }
    assert_eq!(pings, 12);
}
