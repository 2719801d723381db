use std::time::SystemTime;
use std::time::UNIX_EPOCH;

use rappel::id::{Snowflake, SnowflakeError, UidGenerator, UuidGenerator};

#[test]
fn test_create_snowflake() {
  let now = SystemTime::now().duration_since(UNIX_EPOCH).expect("should read time").as_millis() as i64;
  let curr_time = Snowflake::curr_time();

  assert!(curr_time - now >= 0);
}

#[test]
fn test_generate_in_loop() {
  let mut gen = Snowflake::new(123);
  let mut last_id = gen.next().expect("Expected ID");

  let mut count = 1;

  loop {
    count += 1;

    let id = gen.next().expect("Expected ID");
    assert!(id > last_id);
    last_id = id;

    if count == 1 << 13 {
      break;
    }
  }
}

#[test]
fn test_generate_uuid() {
  let mut gen = UuidGenerator::new();
  let mut last_id = gen.next().expect("Expected ID");

  let mut count = 1;

  loop {
    count += 1;

    let id = gen.next().expect("Expected ID");
    assert_ne!(id, last_id);
    last_id = id;

    if count == 1 << 13 {
      break;
    }
  }
}

#[test]
fn snowflake_ids_carry_machine_and_sequence() {
  let mut gen = Snowflake::new(123);
  let first = gen.next().expect("Expected ID");
  let second = gen.next().expect("Expected ID");
  assert!(first >= 0);
  assert_eq!((first >> 12) & 0x3FF, 123);
  assert_eq!(first & 0xFFF, 1);
  assert_eq!(second & 0xFFF, 2);
  assert_eq!(first >> 22, second >> 22);
}

#[test]
fn snowflake_masks_machine_id_to_ten_bits() {
  let mut gen = Snowflake::new(0x0FFF_FFFF);
  let id = gen.next().expect("Expected ID");
  assert_eq!((id >> 12) & 0x3FF, 0x3FF);
  let mut neg = Snowflake::new(-1);
  let id = neg.next().expect("Expected ID");
  assert_eq!((id >> 12) & 0x3FF, 0x3FF);
}

#[test]
fn snowflake_timestamp_field_is_relative_to_epoch() {
  let before = Snowflake::curr_time();
  let mut gen = Snowflake::new(1);
  let id = gen.next().expect("Expected ID");
  let after = Snowflake::curr_time();
  let ts = (id >> 22) + rappel::id::SNOWFLAKE_EPOCH_MILLIS;
  assert_eq!(rappel::id::SNOWFLAKE_EPOCH_MILLIS, rappel::id::SNOWFLAKE_EPOCH * 1000);
  assert!(before <= ts && ts <= after);
}

#[test]
fn clock_readings_in_milliseconds() {
  assert_eq!(Snowflake::clock_millis(Some(5)), 5);
  assert_eq!(Snowflake::clock_millis(Some(1u128 << 70)), i64::MAX);
  assert_eq!(Snowflake::clock_millis(Some(i64::MAX as u128)), i64::MAX);
  assert_eq!(Snowflake::clock_millis(None), 0);
}

#[test]
fn snowflake_sequence_wrap_moves_to_a_later_millisecond() {
  let mut gen = Snowflake::new(7);
  let mut ids = Vec::new();
  for _ in 0..4096 {
    ids.push(gen.next().expect("Expected ID"));
  }
  assert_eq!(ids[4094] & 0xFFF, 4095);
  assert_eq!(ids[4095] & 0xFFF, 1);
  assert!(ids[4095] >> 22 > ids[4094] >> 22);
}

#[test]
fn snowflake_clone_keeps_the_machine() {
  let mut gen = Snowflake::new(5);
  let _ = gen.next().expect("Expected ID");
  let mut copy = gen.clone();
  let a = gen.next().expect("Expected ID");
  let b = copy.next().expect("Expected ID");
  assert_eq!((a >> 12) & 0x3FF, 5);
  assert_eq!((b >> 12) & 0x3FF, 5);
}

#[test]
fn snowflake_error_variant_is_comparable() {
  assert_eq!(SnowflakeError::ClockMovedBackwards, SnowflakeError::ClockMovedBackwards);
}

#[test]
fn uuid_generator_gives_version_four() {
  let mut gen = UuidGenerator::default();
  let id = gen.next().expect("Expected ID");
  assert_eq!(id.get_version_num(), 4);
  assert_eq!(id.get_variant(), uuid::Variant::RFC4122);
}

#[test]
fn uuid_text_marks_version_and_variant() {
  for _ in 0..64 {
    let text = rappel::id::uuid::new_uuid_v4_text();
    let chars: Vec<char> = text.chars().collect();
    assert_eq!(chars.len(), 36);
    assert_eq!(chars[14], '4');
    assert!(matches!(chars[19], '8' | '9' | 'a' | 'b'));
    for i in [8, 13, 18, 23] {
      assert_eq!(chars[i], '-');
    }
  }
}

#[test]
fn snowflake_advance_takes_only_later_readings() {
  let mut gen = Snowflake::new(3);
  let later = Snowflake::curr_time() + 10_000;
  let id = gen.advance(later).expect("later reading");
  assert_eq!(id & 0xFFF, 1);
  assert_eq!((id >> 12) & 0x3FF, 3);
  assert_eq!(id >> 22, later - rappel::id::SNOWFLAKE_EPOCH_MILLIS);
  assert_eq!(gen.advance(later), Err(SnowflakeError::ClockMovedBackwards));
  assert_eq!(gen.advance(0), Err(SnowflakeError::ClockMovedBackwards));
  let next = gen.next().expect("Expected ID");
  assert_eq!(next, id + 1);
}
