use rct_reader::encode::rle_encode;
use rct_reader::error::ReadError;
use rct_reader::rct::{
    decode_date, decrypt_money, encrypt_money, read_sv6_file, read_sv6_rides, read_td6_file,
    GameDate, Ride, SavedGame, Segment,
};
use rct_reader::segment::segment_name;

fn chunk(tag: u8, payload: &[u8]) -> Vec<u8> {
    let mut out = vec![tag];
    out.extend_from_slice(&(payload.len() as u32).to_le_bytes());
    out.extend_from_slice(payload);
    out
}

fn put_u16(buf: &mut [u8], at: usize, v: u16) {
    buf[at..at + 2].copy_from_slice(&v.to_le_bytes());
}

fn put_u32(buf: &mut [u8], at: usize, v: u32) {
    buf[at..at + 4].copy_from_slice(&v.to_le_bytes());
}

fn ride_record(kind: u8, price: u16, exc: u16, its: u16, nau: u16, built: u16) -> Vec<u8> {
    let mut r = vec![0u8; 608];
    r[0] = kind;
    put_u16(&mut r, 0x138, price);
    put_u16(&mut r, 0x140, exc);
    put_u16(&mut r, 0x142, its);
    put_u16(&mut r, 0x144, nau);
    put_u16(&mut r, 0x180, built);
    r
}

fn track_payload(segments: &[(u8, u8)]) -> Vec<u8> {
    let mut v = vec![0u8; 0xA3];
    v[0x00] = 0x33;
    v[0x4A] = 25;
    v[0x4C] = 3;
    v[0x4D] = 6;
    v[0x50] = 40;
    v[0x5B] = 71;
    v[0x5C] = 68;
    v[0x5D] = 43;
    for (code, qualifier) in segments {
        v.push(*code);
        v.push(*qualifier);
    }
    v.push(0xFF);
    v
}

fn td6_file(payload: &[u8], checksum: [u8; 4]) -> Vec<u8> {
    let mut file = rle_encode(payload);
    file.extend_from_slice(&checksum);
    file
}

fn game_data(rides: &[Vec<u8>]) -> Vec<u8> {
    let mut vx = vec![0u8; 0x2A_22E0];
    put_u32(&mut vx, 0x27_1024, 100_000);
    put_u32(&mut vx, 0x27_1028, 250_000);
    put_u32(&mut vx, 0x27_1030, 150);
    put_u16(&mut vx, 0x27_148C, 1234);
    put_u16(&mut vx, 0x27_18F8, 987);
    put_u32(&mut vx, 0x27_2440, encrypt_money(4_567_890));
    let mut at = 0x27_C540;
    for r in rides {
        vx[at..at + 608].copy_from_slice(r);
        at += 608;
    }
    if at < 0x2A_22E0 {
        vx[at] = 0xFF;
    }
    vx
}

fn sv6_file(custom_objects: u16, month: u16, day_fraction: u16, data: &[u8]) -> Vec<u8> {
    let mut header = vec![0u8; 32];
    put_u16(&mut header, 2, custom_objects);
    let mut date = vec![0u8; 16];
    put_u16(&mut date, 0, month);
    put_u16(&mut date, 2, day_fraction);
    let mut file = chunk(0, &header);
    file.extend_from_slice(&chunk(0, &[1, 2, 3]));
    file.extend_from_slice(&chunk(0, &date));
    file.extend_from_slice(&chunk(0, &[4, 5]));
    file.extend_from_slice(&chunk(0, data));
    file.extend_from_slice(&chunk(0, &[6]));
    file
}

#[test]
fn money_known_values() {
    assert_eq!(decrypt_money(0xF4EC_9621), 0);
    assert_eq!(decrypt_money(0), 0xF4EC_9621u32.rotate_left(13));
    assert_eq!(decrypt_money(0), 0x92C4_3E9D);
    assert_eq!(encrypt_money(0), 0xF4EC_9621);
    assert_eq!(encrypt_money(1 << 13), 0xF4EC_9620);
}

#[test]
fn money_decrypt_undoes_encrypt() {
    for x in [0u32, 1, 13, 0x1234_5678, 0x8000_0000, 0xF4EC_9621, u32::MAX, 100_000] {
        assert_eq!(decrypt_money(encrypt_money(x)), x);
        assert_eq!(encrypt_money(decrypt_money(x)), x);
    }
}

#[test]
fn date_of_known_month() {
    assert_eq!(decode_date(1033, 0), GameDate { year: 129, month: 1, day: 1 });
}

#[test]
fn date_day_from_fraction() {
    assert_eq!(decode_date(0, 0).day, 1);
    assert_eq!(decode_date(0, 2115).day, 2);
    assert_eq!(decode_date(0, 2114).day, 1);
    assert_eq!(decode_date(0, 0xFFFF).day, 65535 * 16 / 0x8421 + 1);
    assert_eq!(decode_date(0, 0xFFFF).day, 31);
    assert_eq!(decode_date(7, 0), GameDate { year: 0, month: 7, day: 1 });
    assert_eq!(decode_date(8, 0), GameDate { year: 1, month: 0, day: 1 });
    assert_eq!(decode_date(0xFFFF, 0), GameDate { year: 8191, month: 7, day: 1 });
}

#[test]
fn rides_terminator_first() {
    assert_eq!(read_sv6_rides(&[0xFF], 10), Ok(vec![]));
    let mut table = vec![0u8; 608 * 3];
    table[0] = 0xFF;
    assert_eq!(read_sv6_rides(&table, 10), Ok(vec![]));
}

#[test]
fn rides_empty_table() {
    assert_eq!(read_sv6_rides(&[], 10), Ok(vec![]));
}

#[test]
fn rides_until_terminator() {
    let mut table = ride_record(0x17, 120, 600, 500, 400, 50);
    table.extend_from_slice(&ride_record(0x14, 30, 20480, 1, 2, 96));
    table.push(0xFF);
    table.extend_from_slice(&[1, 2, 3]);
    let rides = read_sv6_rides(&table, 100).unwrap();
    assert_eq!(
        rides,
        vec![
            Ride {
                kind: 0x17,
                ticket_price: 120,
                excitement: 600,
                intensity: 500,
                nausea: 400,
                age: 50,
                calculated_price: 95,
            },
            Ride {
                kind: 0x14,
                ticket_price: 30,
                excitement: 20480,
                intensity: 1,
                nausea: 2,
                age: 4,
                calculated_price: 2999,
            },
        ]
    );
}

#[test]
fn rides_until_end_of_table() {
    let mut table = ride_record(0, 0, 0, 0, 0, 0);
    table.extend_from_slice(&ride_record(1, 0, 0, 0, 0, 0));
    let rides = read_sv6_rides(&table, 0).unwrap();
    assert_eq!(rides.len(), 2);
    assert_eq!(rides[1].kind, 1);
}

#[test]
fn rides_age_wraps_around() {
    let table = ride_record(0x14, 0, 20480, 0, 0, 10);
    let rides = read_sv6_rides(&table, 3).unwrap();
    assert_eq!(rides[0].age, 65529);
    assert_eq!(rides[0].calculated_price, 1123);
}

#[test]
fn rides_record_cut_short() {
    let mut table = ride_record(0, 0, 0, 0, 0, 0);
    table.extend_from_slice(&ride_record(1, 0, 0, 0, 0, 0));
    table.pop();
    assert_eq!(read_sv6_rides(&table, 0), Err(ReadError::OutOfBounds));
    assert_eq!(read_sv6_rides(&[0], 0), Err(ReadError::OutOfBounds));
}

#[test]
fn td6_round_trip() {
    let payload = track_payload(&[(0x02, 0x04), (0x00, 0x80), (0x04, 0x00), (0x28, 0xFF)]);
    let file = td6_file(&payload, [0xDE, 0xAD, 0xBE, 0xEF]);
    let d = read_td6_file(&file).unwrap();
    assert_eq!(d.checksum, [0xDE, 0xAD, 0xBE, 0xEF]);
    assert_eq!(d.track_type, 0x33);
    assert_eq!(d.air_time, 100);
    assert_eq!(d.number_of_trains, 3);
    assert_eq!(d.cars_per_train, 6);
    assert_eq!(d.speed, 40);
    assert_eq!(d.excitement, 71);
    assert_eq!(d.intensity, 68);
    assert_eq!(d.nausea, 43);
    assert_eq!(
        d.segments,
        vec![
            Segment { code: 0x02, qualifier: 0x04 },
            Segment { code: 0x00, qualifier: 0x80 },
            Segment { code: 0x04, qualifier: 0x00 },
            Segment { code: 0x28, qualifier: 0xFF },
        ]
    );
    let names: Vec<&str> = d.segments.iter().map(|s| segment_name(s.code)).collect();
    assert_eq!(names, vec!["Station begin", "Flat", "25↑", "L vertical loop"]);
}

#[test]
fn td6_without_segments() {
    let payload = track_payload(&[]);
    let d = read_td6_file(&td6_file(&payload, [0; 4])).unwrap();
    assert_eq!(d.segments, vec![]);
    assert_eq!(d.air_time, 100);
}

#[test]
fn td6_largest_air_time() {
    let mut payload = track_payload(&[]);
    payload[0x4A] = 255;
    let d = read_td6_file(&td6_file(&payload, [0; 4])).unwrap();
    assert_eq!(d.air_time, 1020);
}

#[test]
fn td6_ignores_what_follows_the_terminator() {
    let mut payload = track_payload(&[(0x01, 0x00)]);
    payload.extend_from_slice(&[0x05, 0x06, 0x07]);
    let d = read_td6_file(&td6_file(&payload, [0; 4])).unwrap();
    assert_eq!(d.segments, vec![Segment { code: 0x01, qualifier: 0x00 }]);
}

#[test]
fn td6_shorter_than_its_checksum() {
    assert!(matches!(read_td6_file(&[]), Err(ReadError::Truncated)));
    assert!(matches!(read_td6_file(&[1, 2, 3]), Err(ReadError::Truncated)));
}

#[test]
fn td6_without_fields() {
    assert!(matches!(read_td6_file(&[1, 2, 3, 4]), Err(ReadError::OutOfBounds)));
    let payload = vec![0u8; 0x5D];
    assert!(matches!(
        read_td6_file(&td6_file(&payload, [0; 4])),
        Err(ReadError::OutOfBounds)
    ));
}

#[test]
fn td6_without_terminator() {
    let mut payload = track_payload(&[(0x01, 0x00)]);
    payload.pop();
    assert!(matches!(
        read_td6_file(&td6_file(&payload, [0; 4])),
        Err(ReadError::OutOfBounds)
    ));
    payload.push(0x02);
    assert!(matches!(
        read_td6_file(&td6_file(&payload, [0; 4])),
        Err(ReadError::OutOfBounds)
    ));
    let fields_only = vec![0u8; 0x5E];
    assert!(matches!(
        read_td6_file(&td6_file(&fields_only, [0; 4])),
        Err(ReadError::OutOfBounds)
    ));
}

#[test]
fn sv6_six_stored_chunks() {
    let rides = vec![
        ride_record(0x17, 120, 600, 500, 400, 983),
        ride_record(0x00, 45, 1000, 1000, 1000, 1013),
    ];
    let file = sv6_file(0, 1033, 2115, &game_data(&rides));
    let park = match read_sv6_file(&file) {
        Ok(SavedGame::Park(p)) => p,
        _ => panic!("the park was not read"),
    };
    assert_eq!(park.month, 1033);
    assert_eq!(park.date, GameDate { year: 129, month: 1, day: 2 });
    assert_eq!(park.initial_cash, 100_000);
    assert_eq!(park.loan, 250_000);
    assert_eq!(park.entrance_fee, 150);
    assert_eq!(park.guests_in_park, 1234);
    assert_eq!(park.park_rating, 987);
    assert_eq!(park.real_cash, 4_567_890);
    assert_eq!(park.rides.len(), 2);
    assert_eq!(park.rides[0].kind, 0x17);
    assert_eq!(park.rides[0].ticket_price, 120);
    assert_eq!(park.rides[0].age, 50);
    assert_eq!(park.rides[0].calculated_price, 95);
    assert_eq!(park.rides[1].age, 20);
    assert_eq!(park.rides[1].calculated_price, 171);
}

#[test]
fn sv6_full_rides_table() {
    let rides: Vec<Vec<u8>> = (0..255u16).map(|i| ride_record(i as u8 % 0x60, i, 0, 0, 0, 0)).collect();
    let file = sv6_file(0, 0, 0, &game_data(&rides));
    let park = match read_sv6_file(&file) {
        Ok(SavedGame::Park(p)) => p,
        _ => panic!("the park was not read"),
    };
    assert_eq!(park.rides.len(), 255);
    assert_eq!(park.rides[254].ticket_price, 254);
}

#[test]
fn sv6_with_encoded_chunks() {
    let data = game_data(&[ride_record(0x14, 10, 20480, 0, 0, 0)]);
    let mut masked = data.clone();
    rct_reader::rctrle::unrotate_bytes(&mut masked);
    let mut header = vec![0u8; 8];
    header[0] = 0x55;
    let mut file = chunk(1, &rle_encode(&header));
    file.extend_from_slice(&chunk(9, &[1, 2, 3]));
    file.extend_from_slice(&chunk(1, &rle_encode(&[5, 0, 0, 0])));
    file.extend_from_slice(&chunk(2, &rle_encode(&[0xFF, 0x41, 0xFB])));
    file.extend_from_slice(&chunk(3, &masked));
    file.extend_from_slice(&chunk(1, &rle_encode(&data)));
    let park = match read_sv6_file(&file) {
        Ok(SavedGame::Park(p)) => p,
        _ => panic!("the park was not read"),
    };
    assert_eq!(park.month, 5);
    assert_eq!(park.real_cash, 4_567_890);
    assert_eq!(park.rides.len(), 1);
    assert_eq!(park.rides[0].calculated_price, 2399);
}

#[test]
fn sv6_custom_objects_are_refused() {
    let file = sv6_file(1, 1033, 0, &[]);
    assert!(matches!(read_sv6_file(&file), Ok(SavedGame::CustomObjects(1))));
    let mut header = vec![0u8; 4];
    put_u16(&mut header, 2, 0x0203);
    assert!(matches!(
        read_sv6_file(&chunk(0, &header)),
        Ok(SavedGame::CustomObjects(0x0203))
    ));
}

#[test]
fn sv6_chunk_missing() {
    let whole = sv6_file(0, 0, 0, &game_data(&[]));
    assert!(matches!(read_sv6_file(&whole), Ok(SavedGame::Park(_))));
    assert!(matches!(read_sv6_file(&whole[..whole.len() - 1]), Err(ReadError::Truncated)));
    assert!(matches!(read_sv6_file(&whole[..whole.len() - 6]), Err(ReadError::Truncated)));
    assert!(matches!(read_sv6_file(&whole[..100]), Err(ReadError::Truncated)));
    assert!(matches!(read_sv6_file(&whole[..3]), Err(ReadError::Truncated)));
    assert!(matches!(read_sv6_file(&[]), Err(ReadError::Truncated)));
}

#[test]
fn sv6_chunk_too_short_for_its_fields() {
    assert!(matches!(read_sv6_file(&chunk(0, &[0, 0, 0])), Err(ReadError::OutOfBounds)));
    let mut file = chunk(0, &[0, 0, 0, 0]);
    file.extend_from_slice(&chunk(0, &[]));
    file.extend_from_slice(&chunk(0, &[1, 0, 0]));
    assert!(matches!(read_sv6_file(&file), Err(ReadError::OutOfBounds)));
    let short = vec![0u8; 0x2A_22E0 - 1];
    assert!(matches!(read_sv6_file(&sv6_file(0, 0, 0, &short)), Err(ReadError::OutOfBounds)));
    assert!(matches!(read_sv6_file(&sv6_file(0, 0, 0, &[])), Err(ReadError::OutOfBounds)));
}

#[test]
fn sv6_chunk_that_cannot_be_decoded() {
    let mut file = chunk(0, &[0, 0, 0, 0]);
    file.extend_from_slice(&chunk(2, &rle_encode(&[0xFB])));
    assert!(matches!(read_sv6_file(&file), Err(ReadError::BadReference)));
}

#[test]
fn tables_are_reached_from_the_reader_module() {
    assert_eq!(rct_reader::rct::segment_name(0x01), "Station end");
    assert_eq!(rct_reader::rct::ride_rating(0x29), (12, 4, 4));
    assert_eq!(rct_reader::rct::calculate_price_orig(0x17, 600, 500, 400, 50), 95);
}

#[test]
fn segment_names() {
    assert_eq!(segment_name(0x00), "Flat");
    assert_eq!(segment_name(0x04), "25↑");
    assert_eq!(segment_name(0x10), "L ¼ D5");
    assert_eq!(segment_name(0x38), "½ loop ↑");
    assert_eq!(segment_name(0x63), "brakes");
    assert_eq!(
        segment_name(0x64),
        "booster RCT2: Rotation control toggle (Spinning Wild Mouse)"
    );
    assert_eq!(
        segment_name(0x65),
        "{reserved}RCT2: inverted 90↑ to flat quarter loop (multidim)"
    );
    assert_eq!(segment_name(0x95), "Diag60↓");
    assert_eq!(segment_name(0xC4), "R fly corkscrew ↓ to ↑");
    assert_eq!(segment_name(0xFE), "flat to 90↓ quarter loop (multidim)");
    assert_eq!(segment_name(0xFF), "UNK");
}

#[test]
fn segment_names_are_all_given() {
    for code in 0..=0xFEu8 {
        assert_ne!(segment_name(code), "UNK");
        assert!(!segment_name(code).is_empty());
    }
}
