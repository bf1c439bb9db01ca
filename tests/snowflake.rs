use snowflake::{decode_id, GeneratorError, IdFields, IdOutcome, SnowflakeGenerator};

fn issued(outcome: Result<IdOutcome, GeneratorError>) -> u128 {
    match outcome {
        Ok(IdOutcome::Issued(id)) => id,
        other => panic!("expected an identifier, got {:?}", other),
    }
}

#[test]
fn it_works() {
    let mut generator = SnowflakeGenerator::new(0, 0, 0).unwrap();
    let id = issued(generator.next_id());

    assert!(id > 0);
}

#[test]
fn system_clock_reads_after_2020() {
    let generator = SnowflakeGenerator::new(3, 4, 0).unwrap();
    assert!(generator.last_time_millis() > 1_577_836_800_000);
    assert_eq!(generator.sequence(), 0);
    assert_eq!(generator.worker_id(), 3);
    assert_eq!(generator.data_center_id(), 4);
    assert_eq!(generator.timestamp_offset(), 0);
}

#[test]
fn system_clock_ids_increase() {
    let mut generator = SnowflakeGenerator::new(1, 2, 1_288_834_974_657).unwrap();
    let mut last = 0u128;
    let mut count = 0;
    while count < 100 {
        match generator.next_id().unwrap() {
            IdOutcome::Issued(id) => {
                assert!(id > last);
                let fields = decode_id(id);
                assert_eq!(fields.worker_id, 1);
                assert_eq!(fields.data_center_id, 2);
                last = id;
                count += 1;
            }
            IdOutcome::SequenceExhausted => {}
        }
    }
}

#[test]
fn worker_id_out_of_range_is_rejected() {
    assert_eq!(
        SnowflakeGenerator::new_at(32, 0, 0, 1000).err(),
        Some(GeneratorError::WorkerIdOutOfRange { worker_id: 32 })
    );
    assert_eq!(
        SnowflakeGenerator::new(32, 0, 0).err(),
        Some(GeneratorError::WorkerIdOutOfRange { worker_id: 32 })
    );
}

#[test]
fn data_center_id_out_of_range_is_rejected() {
    assert_eq!(
        SnowflakeGenerator::new_at(0, 32, 0, 1000).err(),
        Some(GeneratorError::DataCenterIdOutOfRange { data_center_id: 32 })
    );
    assert_eq!(
        SnowflakeGenerator::new(0, 255, 0).err(),
        Some(GeneratorError::DataCenterIdOutOfRange { data_center_id: 255 })
    );
}

#[test]
fn largest_ids_are_accepted() {
    let generator = SnowflakeGenerator::new_at(31, 31, 0, 1000).unwrap();
    assert_eq!(generator.worker_id(), 31);
    assert_eq!(generator.data_center_id(), 31);
    assert_eq!(generator.last_time_millis(), 1000);
    assert!(SnowflakeGenerator::new(31, 31, 0).is_ok());
}

#[test]
fn clock_before_offset_is_rejected() {
    assert_eq!(
        SnowflakeGenerator::new_at(0, 0, 5000, 4999).err(),
        Some(GeneratorError::ClockOutOfRange)
    );
    let mut generator = SnowflakeGenerator::new_at(0, 0, 5000, 5000).unwrap();
    assert_eq!(generator.next_id_at(10), Err(GeneratorError::ClockOutOfRange));
    assert_eq!(generator.last_time_millis(), 0);
}

#[test]
fn clock_beyond_timestamp_field_is_rejected() {
    let limit: u128 = 1 << 106;
    assert_eq!(
        SnowflakeGenerator::new_at(0, 0, 0, limit).err(),
        Some(GeneratorError::ClockOutOfRange)
    );
    let mut generator = SnowflakeGenerator::new_at(0, 0, 0, limit - 1).unwrap();
    let id = issued(generator.next_id_at(limit - 1));
    assert_eq!(decode_id(id).timestamp, limit - 1);
    assert_eq!(generator.next_id_at(limit), Err(GeneratorError::ClockOutOfRange));
}

#[test]
fn id_packs_fields_in_order() {
    let mut generator = SnowflakeGenerator::new_at(5, 7, 0, 100).unwrap();
    let id = issued(generator.next_id_at(101));
    assert_eq!(id, (101u128 << 22) | (7 << 17) | (5 << 12));
    assert_eq!(id, 423_624_704 + 917_504 + 20_480);
    let id = issued(generator.next_id_at(101));
    assert_eq!(id, (101u128 << 22) | (7 << 17) | (5 << 12) | 1);
}

#[test]
fn same_millisecond_advances_sequence() {
    let mut generator = SnowflakeGenerator::new_at(0, 0, 0, 50).unwrap();
    let first = issued(generator.next_id_at(50));
    assert_eq!(generator.sequence(), 1);
    let second = issued(generator.next_id_at(50));
    assert_eq!(generator.sequence(), 2);
    assert_eq!(second, first + 1);
    let third = issued(generator.next_id_at(51));
    assert_eq!(generator.sequence(), 0);
    assert_eq!(decode_id(third).sequence, 0);
    assert_eq!(decode_id(third).timestamp, 51);
}

#[test]
fn sequence_rollover_waits_for_next_millisecond() {
    let frozen: u128 = 1_000;
    let mut generator = SnowflakeGenerator::new_at(2, 3, 0, frozen - 1).unwrap();
    let mut ids: Vec<u128> = Vec::new();
    let mut n = 0;
    while n < 4096 {
        ids.push(issued(generator.next_id_at(frozen)));
        n += 1;
    }
    assert_eq!(decode_id(ids[0]).sequence, 0);
    assert_eq!(decode_id(ids[4095]).sequence, 4095);
    assert_eq!(generator.next_id_at(frozen), Ok(IdOutcome::SequenceExhausted));
    assert_eq!(generator.next_id_at(frozen), Ok(IdOutcome::SequenceExhausted));
    assert_eq!(generator.sequence(), 4095);
    assert_eq!(generator.last_time_millis(), frozen);
    let next = issued(generator.next_id_at(frozen + 1));
    let fields = decode_id(next);
    assert!(fields.timestamp > frozen);
    assert_eq!(fields.sequence, 0);
    assert_eq!(generator.sequence(), 0);
    ids.push(next);
    let mut i = 1;
    while i < ids.len() {
        assert!(ids[i - 1] < ids[i]);
        i += 1;
    }
}

#[test]
fn clock_regression_is_reported() {
    let mut generator = SnowflakeGenerator::new_at(0, 0, 0, 10_000).unwrap();
    issued(generator.next_id_at(10_005));
    assert_eq!(
        generator.next_id_at(10_002),
        Err(GeneratorError::ClockMovedBackwards { by_millis: 3 })
    );
    assert_eq!(generator.last_time_millis(), 10_005);
    assert_eq!(generator.sequence(), 0);
    let id = issued(generator.next_id_at(10_005));
    assert_eq!(decode_id(id).sequence, 1);
}

#[test]
fn clock_regression_right_after_construction() {
    let mut generator = SnowflakeGenerator::new_at(0, 0, 0, 10_000).unwrap();
    assert_eq!(
        generator.next_id_at(9_000),
        Err(GeneratorError::ClockMovedBackwards { by_millis: 1000 })
    );
}

#[test]
fn epoch_offset_is_subtracted() {
    let t0: u128 = 1_288_834_974_657;
    let mut generator = SnowflakeGenerator::new_at(9, 17, t0, t0).unwrap();
    let id = issued(generator.next_id_at(t0 + 5000));
    assert_eq!(id >> 22, 5000);
    assert_eq!(decode_id(id).timestamp, 5000);
}

#[test]
fn decoding_recovers_construction_ids() {
    let mut generator = SnowflakeGenerator::new_at(17, 29, 0, 777).unwrap();
    let id = issued(generator.next_id_at(780));
    assert_eq!(
        decode_id(id),
        IdFields { timestamp: 780, data_center_id: 29, worker_id: 17, sequence: 0 }
    );
}

#[test]
fn decode_splits_every_field() {
    let id: u128 = (123_456u128 << 22) | (31 << 17) | (1 << 12) | 4095;
    assert_eq!(
        decode_id(id),
        IdFields { timestamp: 123_456, data_center_id: 31, worker_id: 1, sequence: 4095 }
    );
    assert_eq!(
        decode_id(0),
        IdFields { timestamp: 0, data_center_id: 0, worker_id: 0, sequence: 0 }
    );
}

#[test]
fn ids_from_varied_clock_are_distinct() {
    let mut generator = SnowflakeGenerator::new_at(4, 4, 100, 200).unwrap();
    let readings: [u128; 10] = [200, 200, 201, 150, 201, 205, 205, 204, 206, 206];
    let mut ids: Vec<u128> = Vec::new();
    for r in readings.iter() {
        if let Ok(IdOutcome::Issued(id)) = generator.next_id_at(*r) {
            ids.push(id);
        }
    }
    assert_eq!(ids.len(), 8);
    let mut i = 0;
    while i < ids.len() {
        let mut j = i + 1;
        while j < ids.len() {
            assert!(ids[i] < ids[j]);
            assert_ne!(ids[i], ids[j]);
            j += 1;
        }
        i += 1;
    }
}
