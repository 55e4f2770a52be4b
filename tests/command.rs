use urgent_wire::{classify_command, fix_message, parse_command, target_track, Command, Fix, Urgency};
use urgent_wire::{TRACK_CHANNEL_CAPACITY, TRACK_INTERVAL_MS, TRACK_UPDATES};

#[test]
fn commands_are_recognised() {
    assert_eq!(parse_command("  !critical TORPEDO  \n"), Command::Send(Urgency::Red, "TORPEDO".to_string()));
    assert_eq!(parse_command("!elevated slow down"), Command::Send(Urgency::Yellow, "slow down".to_string()));
    assert_eq!(parse_command("!quit\n"), Command::Quit);
    assert_eq!(parse_command("   \n"), Command::Skip);
    assert_eq!(parse_command("hello there"), Command::Send(Urgency::Green, "hello there".to_string()));
}

#[test]
fn near_commands_are_plain_text() {
    assert_eq!(classify_command("!critical"), Command::Send(Urgency::Green, "!critical".to_string()));
    assert_eq!(classify_command("!quitx"), Command::Send(Urgency::Green, "!quitx".to_string()));
    assert_eq!(classify_command("!critical "), Command::Send(Urgency::Red, String::new()));
    assert_eq!(classify_command("ünï"), Command::Send(Urgency::Green, "ünï".to_string()));
}

#[test]
fn critical_track_has_five_updates_every_400ms() {
    let track = target_track();
    assert_eq!(track.len(), TRACK_UPDATES);
    assert_eq!(TRACK_UPDATES, 5);
    assert_eq!(TRACK_INTERVAL_MS, 400);
    assert_eq!(TRACK_CHANNEL_CAPACITY, 16);
    for (i, f) in track.iter().enumerate() {
        assert_eq!(f.at_ms, 400 * i as u64);
    }
    assert_eq!(track[4], Fix { at_ms: 1600, lat_e4: 342349, lon_e4: 691242 });
}

#[test]
fn track_messages() {
    let track = target_track();
    assert_eq!(fix_message(&track[0]), "[DRONE STREAM] lat=34.2345, lon=69.1234");
    assert_eq!(fix_message(&track[4]), "[DRONE STREAM] lat=34.2349, lon=69.1242");
    let f = Fix { at_ms: 0, lat_e4: 5, lon_e4: 1230007 };
    assert_eq!(fix_message(&f), "[DRONE STREAM] lat=0.0005, lon=123.0007");
}
