use ebus_thermostat::control::{Action, RunEvent, SendFailure, COOL_DOWN, KEEP_ALIVE};
use ebus_thermostat::heater::SECOND;
use ebus_thermostat::homeassistant::Device;
use ebus_thermostat::thermostat::Thermostat;

fn thermostat() -> Thermostat {
    let devices = vec![Device {
        name: "room".to_string(),
        entities: vec![vec!["sensor.t".to_string()]],
    }];
    Thermostat::new(
        &devices,
        "sensor.t".to_string(),
        String::new(),
        String::new(),
        String::new(),
    )
    .unwrap()
}

/// Runs the thermostat through `rounds` commands, each exchange taking
/// `exchange` and the first `refused` commands being refused: for each two
/// neighbouring commands the time between them, whether a pause lies between,
/// and the time spent outside.
fn gaps(rounds: usize, refused: usize, exchange: u64) -> Vec<(u64, bool, u64)> {
    let mut th = thermostat();
    let mut now: u64 = 7;
    let mut event = RunEvent::Start;
    let mut sent: usize = 0;
    let mut sent_at: u64 = 0;
    let mut paused = false;
    let mut outside: u64 = 0;
    let mut found = Vec::new();
    loop {
        assert!(th.accepts(&event));
        event = match th.run(event, now).action {
            Action::Wait { repeat_in, hold_until } => {
                let hold_in = hold_until.saturating_sub(now as u128);
                if hold_in < repeat_in as u128 {
                    now += hold_in as u64;
                    RunEvent::HoldElapsed
                } else {
                    now += repeat_in;
                    RunEvent::KeepAliveDue
                }
            }
            Action::Send(_) => {
                if sent > 0 {
                    found.push((now - sent_at, paused, outside));
                }
                sent += 1;
                if sent > rounds {
                    return found;
                }
                sent_at = now;
                paused = false;
                now += exchange;
                outside = exchange;
                if sent <= refused {
                    RunEvent::Sent(Err(SendFailure::Other("ERR".to_string())))
                } else {
                    RunEvent::Sent(Ok(()))
                }
            }
            Action::CoolDown(pause) => {
                paused = true;
                now += pause;
                RunEvent::CooledDown
            }
            Action::Queue(_) => RunEvent::Queued(Ok(())),
            _ => unreachable!(),
        };
    }
}

#[test]
fn commands_recur_every_five_minutes() {
    for (gap, paused, outside) in gaps(20, 0, 2 * SECOND) {
        assert!(!paused);
        assert_eq!(outside, 2 * SECOND);
        assert_eq!(gap, KEEP_ALIVE + outside);
    }
}

#[test]
fn commands_recur_after_ten_minutes_across_a_pause() {
    let found = gaps(20, 6, SECOND);
    for (n, (gap, paused, outside)) in found.into_iter().enumerate() {
        assert_eq!(paused, n == 5);
        assert_eq!(gap, if paused { COOL_DOWN } else { KEEP_ALIVE } + outside);
    }
}

#[test]
fn ten_minutes_are_kept_while_the_outside_is_quick() {
    for (gap, paused, outside) in gaps(30, 17, KEEP_ALIVE) {
        if paused {
            assert!(gap <= 2 * KEEP_ALIVE + outside);
        } else {
            assert!(gap <= 2 * KEEP_ALIVE);
        }
    }
}
