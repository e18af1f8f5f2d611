use lyra::byte_budget::shrink_ratio;
use lyra::now_playing::{clock_time, ClockTime};
use lyra::permissions::{permission_name, permission_names, set_bits};

#[test]
fn set_bits_come_lowest_first() {
    assert_eq!(set_bits(0), Vec::<u32>::new());
    assert_eq!(set_bits(0b1010_0001), vec![0, 5, 7]);
    assert_eq!(set_bits(1 << 63), vec![63]);
    assert_eq!(set_bits(u64::MAX).len(), 64);
}

#[test]
fn permissions_are_named_by_bit() {
    assert_eq!(permission_name(0), "Create Invite");
    assert_eq!(permission_name(3), "Administrator");
    assert_eq!(permission_name(21), "Speak");
    assert_eq!(permission_name(47), "Unknown");
    assert_eq!(permission_name(50), "Use External Apps");
    assert_eq!(permission_name(51), "Unknown");
    assert_eq!(permission_names((1 << 20) | (1 << 21)), vec!["Connect", "Speak"]);
    assert_eq!(permission_names(1 << 60), vec!["Unknown"]);
}

#[test]
fn clock_shows_hours_only_from_an_hour_on() {
    assert_eq!(clock_time(0), ClockTime { hours: None, minutes: 0, seconds: 0 });
    assert_eq!(clock_time(59 * 60 + 59), ClockTime { hours: None, minutes: 59, seconds: 59 });
    assert_eq!(clock_time(3600), ClockTime { hours: Some(1), minutes: 0, seconds: 0 });
    assert_eq!(clock_time(2 * 3600 + 3 * 60 + 4), ClockTime { hours: Some(2), minutes: 3, seconds: 4 });
}

#[test]
fn an_image_under_the_limit_is_kept() {
    assert_eq!(shrink_ratio(99, 100), None);
    assert_eq!(shrink_ratio(100, 100), Some(1));
    assert_eq!(shrink_ratio(1000, 100), Some(10));
    assert_eq!(shrink_ratio(0, 1), None);
    // the length is cut to 32 bits before it is compared
    assert_eq!(shrink_ratio((1usize << 32) + 5, 10), None);
}
