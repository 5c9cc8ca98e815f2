use rp_keyer::config_persist_task::{Action, Activity, ConfigPersistTask, Event};
use rp_keyer::storage::{
    load_config, parse_record, save_config, storage_region, ReadFailed, RecordError,
    FLASH_TOTAL_SIZE, SCHEMA_VERSION, STORAGE_BYTES, STORAGE_OFFSET,
};

const IDLE: Event = Event::TimedOut { engine_active: false };
const ACTIVE: Event = Event::TimedOut { engine_active: true };

fn doing(save_lock: bool, activity: Activity) -> Action {
    Action { save_lock, activity }
}

#[test]
fn quiet_save() {
    let mut task = ConfigPersistTask::new();
    assert_eq!(task.action(), doing(false, Activity::AwaitEdit));
    assert_eq!(task.on_event(Event::Edited), doing(false, Activity::AwaitEditFor(3000)));
    assert_eq!(task.on_event(IDLE), doing(true, Activity::Sleep(1)));
    assert_eq!(task.on_event(IDLE), doing(true, Activity::Save));
    assert_eq!(task.on_event(Event::Saved), doing(false, Activity::AwaitEdit));
}

#[test]
fn edits_extend_the_debounce() {
    let mut task = ConfigPersistTask::new();
    for _ in 0..8 {
        assert_eq!(task.on_event(Event::Edited), doing(false, Activity::AwaitEditFor(3000)));
    }
    assert_eq!(task.on_event(IDLE), doing(true, Activity::Sleep(1)));
}

#[test]
fn active_engine_holds_the_save_off() {
    let mut task = ConfigPersistTask::new();
    task.on_event(Event::Edited);
    for _ in 0..5 {
        assert_eq!(task.on_event(ACTIVE), doing(false, Activity::Sleep(250)));
    }
    assert_eq!(task.on_event(IDLE), doing(true, Activity::Sleep(1)));
    // The engine became active before the keyer parked.
    assert_eq!(task.on_event(ACTIVE), doing(false, Activity::Sleep(250)));
    assert_eq!(task.on_event(IDLE), doing(true, Activity::Sleep(1)));
    assert_eq!(task.on_event(IDLE), doing(true, Activity::Save));
}

#[test]
fn unexpected_events_change_nothing() {
    let mut task = ConfigPersistTask::new();
    assert_eq!(task.on_event(IDLE), doing(false, Activity::AwaitEdit));
    assert_eq!(task.on_event(Event::Saved), doing(false, Activity::AwaitEdit));
    task.on_event(Event::Edited);
    assert_eq!(task.on_event(Event::Saved), doing(false, Activity::AwaitEditFor(3000)));
}

#[test]
fn edit_after_the_debounce_leads_to_another_save() {
    let mut task = ConfigPersistTask::new();
    task.on_event(Event::Edited);
    task.on_event(IDLE);
    assert_eq!(task.on_event(Event::Edited), doing(true, Activity::Sleep(1)));
    assert_eq!(task.on_event(IDLE), doing(true, Activity::Save));
    assert_eq!(task.on_event(Event::Edited), doing(true, Activity::Save));
    assert_eq!(task.on_event(Event::Saved), doing(false, Activity::AwaitEditFor(3000)));
    task.on_event(IDLE);
    task.on_event(IDLE);
    assert_eq!(task.on_event(Event::Saved), doing(false, Activity::AwaitEdit));
}

#[test]
fn storage_region_is_the_end_of_flash() {
    assert_eq!(storage_region(), (2 * 1024 * 1024 - 16 * 1024, 2 * 1024 * 1024));
    assert_eq!(FLASH_TOTAL_SIZE as u32 - STORAGE_BYTES, STORAGE_OFFSET);
    assert_eq!(STORAGE_OFFSET % 4096, 0);
}

#[test]
fn saved_settings_are_loaded() {
    let config: Vec<u8> = (0..100).collect();
    let record = save_config(&config).unwrap();
    assert_eq!(record[0], 2);
    assert_eq!(record[1..], config[..]);
    assert_eq!(load_config(Ok(Some(&record))), Some(&config[..]));
    assert_eq!(load_config(Ok(Some(&save_config(&[]).unwrap()))), Some(&[][..]));
}

#[test]
fn record_length_is_bounded() {
    assert_eq!(save_config(&[7; 255]).unwrap().len(), 256);
    assert_eq!(save_config(&[7; 256]), Err(()));
    assert_eq!(save_config(&[7; 1000]), Err(()));
}

#[test]
fn nothing_to_load() {
    assert_eq!(load_config(Ok(None)), None);
    assert_eq!(load_config(Err(ReadFailed)), None);
    assert_eq!(load_config(Ok(Some(&[]))), None);
    assert_eq!(load_config(Ok(Some(&[1, 9, 9]))), None);
}

#[test]
fn other_schemas_are_rejected() {
    for version in 0..=u16::MAX {
        // The serialized form of a 16-bit number.
        let mut bytes = postcard::to_slice(&version, &mut [0u8; 3]).unwrap().to_vec();
        bytes.extend_from_slice(&[0xaa, 0xbb]);
        if version == SCHEMA_VERSION {
            assert_eq!(parse_record(&bytes), Ok(&[0xaau8, 0xbb][..]));
        } else {
            assert_eq!(parse_record(&bytes), Err(RecordError::OtherSchema(version)));
        }
    }
}

#[test]
fn malformed_versions_are_rejected() {
    assert_eq!(parse_record(&[]), Err(RecordError::Malformed));
    assert_eq!(parse_record(&[0x80]), Err(RecordError::Malformed));
    assert_eq!(parse_record(&[0xff, 0xff]), Err(RecordError::Malformed));
    assert_eq!(parse_record(&[0xff, 0xff, 0x04]), Err(RecordError::Malformed));
    assert_eq!(parse_record(&[0xff, 0xff, 0x80, 0]), Err(RecordError::Malformed));
    assert_eq!(parse_record(&[0xff, 0xff, 0x03]), Err(RecordError::OtherSchema(65535)));
    assert_eq!(parse_record(&[0x80, 0x01]), Err(RecordError::OtherSchema(128)));
    assert_eq!(parse_record(&[0x80, 0x80, 0x01]), Err(RecordError::OtherSchema(16384)));
    // A longer form of the same number is read too.
    assert_eq!(parse_record(&[0x82, 0x00, 5]), Ok(&[5u8][..]));
    assert_eq!(parse_record(&[0x82, 0x80, 0x00, 5]), Ok(&[5u8][..]));
}
