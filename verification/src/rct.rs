use crate::error::ReadError;
pub use crate::price::{calculate_price_orig, ride_rating};
use crate::price::price_orig;
pub use crate::segment::segment_name;
use crate::rctrle::{rle_decode, Reader};
use crate::sawyer::{chunk_length, parsed_chunk, Chunk, ChunkReader};
use crate::util::{le_u16_at, le_u32_at, u16_from_slice, u32_from_slice, ByteCursor};
use vstd::prelude::*;

verus! {

/// The mask that hides the cash counter of a saved game.
pub const MONEY_MASK: u32 = 0xF4EC_9621;

/// The cash counter that an encrypted word stands for: the word is xor-ed
/// with the mask and then rotated left by 13 bits.
pub open spec fn decrypted(c: u32) -> u32 {
    ((c ^ MONEY_MASK) << 13) | ((c ^ MONEY_MASK) >> 19)
}

/// The encrypted word of a cash counter: the counter is rotated right by 13
/// bits and then xor-ed with the mask.
pub open spec fn encrypted(x: u32) -> u32 {
    ((x >> 13) | (x << 19)) ^ MONEY_MASK
}

/// Recovers the cash counter from its encrypted word.
pub fn decrypt_money(c: u32) -> (x: u32)
    ensures
        x == decrypted(c),
{
    let y: u32 = c ^ MONEY_MASK;
    (y << 13) | (y >> 19)
}

/// Hides a cash counter as a saved game stores it.
pub fn encrypt_money(x: u32) -> (c: u32)
    ensures
        c == encrypted(x),
{
    ((x >> 13) | (x << 19)) ^ MONEY_MASK
}

/// Decrypting an encrypted cash counter gives the counter back.
pub proof fn lemma_decrypt_encrypt(x: u32)
    ensures
        decrypted(encrypted(x)) == x,
{
    assert(decrypted(encrypted(x)) == x) by (bit_vector);
}

/// Encrypting a decrypted word gives the word back.
pub proof fn lemma_encrypt_decrypt(c: u32)
    ensures
        encrypted(decrypted(c)) == c,
{
    assert(encrypted(decrypted(c)) == c) by (bit_vector);
}

/// A date of the game's calendar.
#[derive(Clone, Copy, Debug, PartialEq, Eq, Structural)]
pub struct GameDate {
    pub year: u16,
    pub month: u16,
    pub day: u32,
}

/// Decodes the date of a saved game from its month counter and its
/// day fraction: eight months make a year, and the fraction of the month
/// that has passed is scaled to a day that starts at 1.
pub fn decode_date(month: u16, day_fraction: u16) -> (d: GameDate)
    ensures
        d == date_of(month, day_fraction),
{
    GameDate { year: month / 8, month: month % 8, day: day_fraction as u32 * 16 / 0x8421 + 1 }
}

/// The number of bytes of one record of the rides table.
pub const RIDE_RECORD_LEN: usize = 608;

/// The offset of the posted ticket price in a ride record.
pub const RIDE_TICKET_PRICE: usize = 0x138;

/// The offset of the excitement rating in a ride record.
pub const RIDE_EXCITEMENT: usize = 0x140;

/// The offset of the intensity rating in a ride record.
pub const RIDE_INTENSITY: usize = 0x142;

/// The offset of the nausea rating in a ride record.
pub const RIDE_NAUSEA: usize = 0x144;

/// The offset of the month of construction in a ride record.
pub const RIDE_CONSTRUCTED: usize = 0x180;

/// What the summary keeps of one record of the rides table.
#[derive(Clone, Copy, Debug, PartialEq, Eq, Structural)]
pub struct Ride {
    /// The kind of attraction.
    pub kind: u8,
    /// The ticket price that the park asks, in tenths of a currency unit.
    pub ticket_price: u16,
    pub excitement: u16,
    pub intensity: u16,
    pub nausea: u16,
    /// The age in months, modulo 65536.
    pub age: u16,
    /// The ticket price that the integer formula suggests, in tenths.
    pub calculated_price: i32,
}

/// The months between the month a ride was built in and the current one,
/// modulo 65536: a ride built in the future has a large age.
pub open spec fn age_in_months(current: u16, built: u16) -> u16 {
    if current >= built {
        (current - built) as u16
    } else {
        (current - built + 65536) as u16
    }
}

/// The ride whose record starts at `at` in `b`, in a game whose current
/// month is `pmon`.
pub open spec fn ride_at(b: Seq<u8>, at: int, pmon: u16) -> Ride {
    let excitement = le_u16_at(b, at + RIDE_EXCITEMENT) as u16;
    let intensity = le_u16_at(b, at + RIDE_INTENSITY) as u16;
    let nausea = le_u16_at(b, at + RIDE_NAUSEA) as u16;
    let age = age_in_months(pmon, le_u16_at(b, at + RIDE_CONSTRUCTED) as u16);
    Ride {
        kind: b[at],
        ticket_price: le_u16_at(b, at + RIDE_TICKET_PRICE) as u16,
        excitement,
        intensity,
        nausea,
        age,
        calculated_price: price_orig(b[at], excitement, intensity, nausea, age) as i32,
    }
}

/// An outcome with `front` put before the items of a successful one.
pub open spec fn prepended<T>(front: Seq<T>, r: Result<Seq<T>, ReadError>) -> Result<
    Seq<T>,
    ReadError,
> {
    match r {
        Ok(rest) => Ok(front + rest),
        Err(e) => Err(e),
    }
}

/// The rides of the table `b` from offset `at` on. The table ends at the
/// end of `b` or at a record whose first byte is `0xFF`; a record before
/// that which is not whole makes the table unreadable.
pub open spec fn rides_from(b: Seq<u8>, at: int, pmon: u16) -> Result<Seq<Ride>, ReadError>
    decreases b.len() - at,
{
    if at < 0 || at >= b.len() || b[at] == 0xFF {
        Ok(Seq::empty())
    } else if b.len() - at < RIDE_RECORD_LEN {
        Err(ReadError::OutOfBounds)
    } else {
        prepended(seq![ride_at(b, at, pmon)], rides_from(b, at + RIDE_RECORD_LEN, pmon))
    }
}

/// The rides of a whole rides table.
pub open spec fn rides_of(b: Seq<u8>, pmon: u16) -> Result<Seq<Ride>, ReadError> {
    rides_from(b, 0, pmon)
}

/// A rides table that starts with `0xFF` holds no ride.
pub proof fn lemma_terminator_first(b: Seq<u8>, pmon: u16)
    requires
        b.len() > 0,
        b[0] == 0xFF,
    ensures
        rides_of(b, pmon) == Ok::<Seq<Ride>, ReadError>(Seq::empty()),
{
}

/// Reads one ride from the record at the front of `b`.
fn read_ride(b: &[u8], at: usize, pmon: u16) -> (ride: Ride)
    requires
        at + RIDE_RECORD_LEN <= b@.len(),
    ensures
        ride == ride_at(b@, at as int, pmon),
{
    let kind = b[at];
    let excitement = u16_from_slice(b, at + RIDE_EXCITEMENT);
    let intensity = u16_from_slice(b, at + RIDE_INTENSITY);
    let nausea = u16_from_slice(b, at + RIDE_NAUSEA);
    let constructed = u16_from_slice(b, at + RIDE_CONSTRUCTED);
    let age = pmon.wrapping_sub(constructed);
    Ride {
        kind,
        ticket_price: u16_from_slice(b, at + RIDE_TICKET_PRICE),
        excitement,
        intensity,
        nausea,
        age,
        calculated_price: calculate_price_orig(kind, excitement, intensity, nausea, age),
    }
}

/// Reads the rides of a rides table, in a game whose current month is
/// `pmon`, up to the end of the table or to the first record that starts
/// with `0xFF`. Fails with `OutOfBounds` where a record before that is cut
/// short.
pub fn read_sv6_rides(b: &[u8], pmon: u16) -> (r: Result<Vec<Ride>, ReadError>)
    ensures
        match rides_of(b@, pmon) {
            Ok(s) => r matches Ok(v) && v@ == s,
            Err(e) => r matches Err(x) && x == e,
        },
{
    let mut rides: Vec<Ride> = Vec::new();
    let mut at: usize = 0;
    while at < b.len()
        invariant
            at <= b@.len(),
            rides_of(b@, pmon) == prepended(rides@, rides_from(b@, at as int, pmon)),
        decreases b@.len() - at,
    {
        if b[at] == 0xFF {
            return Ok(rides);
        }
        if b.len() - at < RIDE_RECORD_LEN {
            return Err(ReadError::OutOfBounds);
        }
        let ride = read_ride(b, at, pmon);
        proof {
            let next = rides_from(b@, at + RIDE_RECORD_LEN, pmon);
            if let Ok(rest) = next {
                assert(rides@ + (seq![ride] + rest) == rides@.push(ride) + rest);
            }
        }
        rides.push(ride);
        at = at + RIDE_RECORD_LEN;
    }
    Ok(rides)
}

/// The offset of the track type in a decoded track design.
pub const TD6_TRACK_TYPE: usize = 0x00;

/// The offset of the air time, in units of 4.
pub const TD6_AIR_TIME: usize = 0x4A;

/// The offset of the number of trains.
pub const TD6_TRAINS: usize = 0x4C;

/// The offset of the number of cars of a train.
pub const TD6_CARS: usize = 0x4D;

/// The offset of the speed.
pub const TD6_SPEED: usize = 0x50;

/// The offset of the excitement rating, in tenths.
pub const TD6_EXCITEMENT: usize = 0x5B;

/// The offset of the intensity rating, in tenths.
pub const TD6_INTENSITY: usize = 0x5C;

/// The offset of the nausea rating, in tenths.
pub const TD6_NAUSEA: usize = 0x5D;

/// The offset of the first track segment in a decoded track design.
pub const TD6_SEGMENTS: usize = 0xA3;

/// The number of bytes of a decoded track design that hold its fixed fields.
pub const TD6_FIELDS_END: usize = 0x5E;

/// One piece of track: its code and its eight qualifier bits.
#[derive(Clone, Copy, Debug, PartialEq, Eq, Structural)]
pub struct Segment {
    pub code: u8,
    pub qualifier: u8,
}

/// What the reader takes from a track-design file.
#[derive(Debug)]
pub struct TrackDesign {
    /// The four bytes at the end of the file, as stored.
    pub checksum: [u8; 4],
    pub track_type: u8,
    /// The air time: the stored unit times 4.
    pub air_time: i32,
    pub number_of_trains: u8,
    pub cars_per_train: u8,
    pub speed: u8,
    /// The three ratings, in tenths.
    pub excitement: u8,
    pub intensity: u8,
    pub nausea: u8,
    /// The track, piece by piece, without the terminator.
    pub segments: Vec<Segment>,
}

/// A track design as a mathematical value.
pub ghost struct TrackDesignView {
    pub checksum: Seq<u8>,
    pub track_type: u8,
    pub air_time: int,
    pub number_of_trains: u8,
    pub cars_per_train: u8,
    pub speed: u8,
    pub excitement: u8,
    pub intensity: u8,
    pub nausea: u8,
    pub segments: Seq<Segment>,
}

impl View for TrackDesign {
    type V = TrackDesignView;

    open spec fn view(&self) -> TrackDesignView {
        TrackDesignView {
            checksum: self.checksum@,
            track_type: self.track_type,
            air_time: self.air_time as int,
            number_of_trains: self.number_of_trains,
            cars_per_train: self.cars_per_train,
            speed: self.speed,
            excitement: self.excitement,
            intensity: self.intensity,
            nausea: self.nausea,
            segments: self.segments@,
        }
    }
}

/// The track segments of the decoded design `v` from offset `at` on, up to
/// the entry whose code is `0xFF`. A list that runs off the end of `v`
/// before that entry is unreadable.
pub open spec fn segments_from(v: Seq<u8>, at: int) -> Result<Seq<Segment>, ReadError>
    decreases v.len() - at,
{
    if at < 0 || at >= v.len() {
        Err(ReadError::OutOfBounds)
    } else if v[at] == 0xFF {
        Ok(Seq::empty())
    } else if at + 1 >= v.len() {
        Err(ReadError::OutOfBounds)
    } else {
        prepended(seq![Segment { code: v[at], qualifier: v[at + 1] }], segments_from(v, at + 2))
    }
}

/// The track design that the decoded buffer `v` holds, with `checksum` as
/// the stored checksum.
pub open spec fn track_design_in(v: Seq<u8>, checksum: Seq<u8>) -> Result<
    TrackDesignView,
    ReadError,
> {
    if v.len() < TD6_FIELDS_END {
        Err(ReadError::OutOfBounds)
    } else {
        match segments_from(v, TD6_SEGMENTS as int) {
            Ok(segments) => Ok(
                TrackDesignView {
                    checksum,
                    track_type: v[TD6_TRACK_TYPE as int],
                    air_time: v[TD6_AIR_TIME as int] * 4,
                    number_of_trains: v[TD6_TRAINS as int],
                    cars_per_train: v[TD6_CARS as int],
                    speed: v[TD6_SPEED as int],
                    excitement: v[TD6_EXCITEMENT as int],
                    intensity: v[TD6_INTENSITY as int],
                    nausea: v[TD6_NAUSEA as int],
                    segments,
                },
            ),
            Err(e) => Err(e),
        }
    }
}

/// The track design of a whole file: the last four bytes are the checksum
/// and all before them is one run-length encoded stream.
pub open spec fn track_design_of(file: Seq<u8>) -> Result<TrackDesignView, ReadError> {
    if file.len() < 4 {
        Err(ReadError::Truncated)
    } else {
        track_design_in(
            rle_decode(file.take(file.len() - 4)),
            file.subrange(file.len() - 4, file.len() as int),
        )
    }
}

/// Reads the track segments of a decoded design.
fn read_segments(v: &[u8]) -> (r: Result<Vec<Segment>, ReadError>)
    ensures
        match segments_from(v@, TD6_SEGMENTS as int) {
            Ok(s) => r matches Ok(segments) && segments@ == s,
            Err(e) => r matches Err(x) && x == e,
        },
{
    let mut segments: Vec<Segment> = Vec::new();
    let mut at: usize = TD6_SEGMENTS;
    loop
        invariant
            segments_from(v@, TD6_SEGMENTS as int) == prepended(
                segments@,
                segments_from(v@, at as int),
            ),
        decreases v@.len() - at,
    {
        if at >= v.len() {
            return Err(ReadError::OutOfBounds);
        }
        let b1 = v[at];
        if b1 == 0xFF {
            return Ok(segments);
        }
        if at + 1 >= v.len() {
            return Err(ReadError::OutOfBounds);
        }
        let segment = Segment { code: b1, qualifier: v[at + 1] };
        proof {
            if let Ok(rest) = segments_from(v@, at + 2) {
                assert(segments@ + (seq![segment] + rest) == segments@.push(segment) + rest);
            }
        }
        segments.push(segment);
        at = at + 2;
    }
}

/// Reads a track-design file from its bytes. Fails with `Truncated` where
/// the file is shorter than its checksum, and with `OutOfBounds` where the
/// decoded design ends before its fixed fields or before the entry that
/// ends its track.
pub fn read_td6_file(file: &[u8]) -> (r: Result<TrackDesign, ReadError>)
    ensures
        match track_design_of(file@) {
            Ok(design) => r matches Ok(d) && d@ == design,
            Err(e) => r matches Err(x) && x == e,
        },
{
    if file.len() < 4 {
        return Err(ReadError::Truncated);
    }
    let end: usize = file.len() - 4;
    let checksum: [u8; 4] = [file[end], file[end + 1], file[end + 2], file[end + 3]];
    assert(checksum@ == file@.subrange(end as int, file@.len() as int));
    let mut rd = Reader::new(ByteCursor::new(&file[0..end]));
    let mut v: Vec<u8> = Vec::new();
    rd.read_to_end(&mut v);
    if v.len() < TD6_FIELDS_END {
        return Err(ReadError::OutOfBounds);
    }
    let segments = match read_segments(v.as_slice()) {
        Ok(s) => s,
        Err(e) => {
            return Err(e);
        },
    };
    Ok(
        TrackDesign {
            checksum,
            track_type: v[TD6_TRACK_TYPE],
            air_time: v[TD6_AIR_TIME] as i32 * 4,
            number_of_trains: v[TD6_TRAINS],
            cars_per_train: v[TD6_CARS],
            speed: v[TD6_SPEED],
            excitement: v[TD6_EXCITEMENT],
            intensity: v[TD6_INTENSITY],
            nausea: v[TD6_NAUSEA],
            segments,
        },
    )
}

/// The offset of the count of custom objects in the header chunk.
pub const SV6_CUSTOM_OBJECTS: usize = 2;

/// The offset of the initial cash in the game-data chunk.
pub const SV6_INITIAL_CASH: usize = 0x27_1024;

/// The offset of the loan in the game-data chunk.
pub const SV6_LOAN: usize = 0x27_1028;

/// The offset of the entrance fee in the game-data chunk.
pub const SV6_ENTRANCE_FEE: usize = 0x27_1030;

/// The offset of the number of guests in the game-data chunk.
pub const SV6_GUESTS_IN_PARK: usize = 0x27_148C;

/// The offset of the park rating in the game-data chunk.
pub const SV6_PARK_RATING: usize = 0x27_18F8;

/// The offset of the encrypted cash counter in the game-data chunk.
pub const SV6_REAL_CASH: usize = 0x27_2440;

/// The offset of the rides table in the game-data chunk.
pub const SV6_RIDES: usize = 0x27_C540;

/// The offset at which the rides table ends: it holds 255 records.
pub const SV6_RIDES_END: usize = 0x2A_22E0;

/// What the reader takes from the chunks of a saved game.
#[derive(Debug)]
pub struct ParkSummary {
    /// The current month as the game counts it.
    pub month: u16,
    /// The current date, decoded.
    pub date: GameDate,
    pub initial_cash: u32,
    pub loan: u32,
    pub entrance_fee: u32,
    pub guests_in_park: u16,
    pub park_rating: u16,
    /// The cash counter, decrypted.
    pub real_cash: u32,
    pub rides: Vec<Ride>,
}

/// A park summary as a mathematical value.
pub ghost struct ParkSummaryView {
    pub month: u16,
    pub date: GameDate,
    pub initial_cash: u32,
    pub loan: u32,
    pub entrance_fee: u32,
    pub guests_in_park: u16,
    pub park_rating: u16,
    pub real_cash: u32,
    pub rides: Seq<Ride>,
}

impl View for ParkSummary {
    type V = ParkSummaryView;

    open spec fn view(&self) -> ParkSummaryView {
        ParkSummaryView {
            month: self.month,
            date: self.date,
            initial_cash: self.initial_cash,
            loan: self.loan,
            entrance_fee: self.entrance_fee,
            guests_in_park: self.guests_in_park,
            park_rating: self.park_rating,
            real_cash: self.real_cash,
            rides: self.rides@,
        }
    }
}

/// What reading a saved game comes to.
#[derive(Debug)]
pub enum SavedGame {
    /// The game declares this many custom objects, which are not read:
    /// nothing after the header was looked at.
    CustomObjects(u16),
    /// The summary of the park.
    Park(ParkSummary),
}

/// The outcome of reading a saved game as a mathematical value.
pub ghost enum SavedGameView {
    CustomObjects(u16),
    Park(ParkSummaryView),
}

impl View for SavedGame {
    type V = SavedGameView;

    open spec fn view(&self) -> SavedGameView {
        match self {
            SavedGame::CustomObjects(n) => SavedGameView::CustomObjects(*n),
            SavedGame::Park(p) => SavedGameView::Park(p@),
        }
    }
}

/// The date that a month counter and a day fraction stand for.
pub open spec fn date_of(month: u16, day_fraction: u16) -> GameDate {
    GameDate {
        year: month / 8,
        month: month % 8,
        day: ((day_fraction * 16) / 0x8421 + 1) as u32,
    }
}

/// What follows the chunk at the front of `s`.
pub open spec fn after_chunk(s: Seq<u8>) -> Seq<u8> {
    s.skip(chunk_length(s))
}

/// The park that the decoded game data `data` describes, with the rides
/// `rides`, in the month `month` with the day fraction `day_fraction`.
pub open spec fn park_in(data: Seq<u8>, month: u16, day_fraction: u16, rides: Seq<Ride>)
    -> ParkSummaryView {
    ParkSummaryView {
        month,
        date: date_of(month, day_fraction),
        initial_cash: le_u32_at(data, SV6_INITIAL_CASH as int) as u32,
        loan: le_u32_at(data, SV6_LOAN as int) as u32,
        entrance_fee: le_u32_at(data, SV6_ENTRANCE_FEE as int) as u32,
        guests_in_park: le_u16_at(data, SV6_GUESTS_IN_PARK as int) as u16,
        park_rating: le_u16_at(data, SV6_PARK_RATING as int) as u16,
        real_cash: decrypted(le_u32_at(data, SV6_REAL_CASH as int) as u32),
        rides,
    }
}

/// The outcome for the bytes `s` that start at the fifth chunk, the game
/// data, which the sixth chunk follows.
pub open spec fn park_from_game_data(s: Seq<u8>, month: u16, day_fraction: u16) -> Result<
    SavedGameView,
    ReadError,
> {
    match parsed_chunk(s) {
        Err(e) => Err(e),
        Ok((_, data)) => if data.len() < SV6_RIDES_END {
            Err(ReadError::OutOfBounds)
        } else {
            match rides_of(data.subrange(SV6_RIDES as int, SV6_RIDES_END as int), month) {
                Err(e) => Err(e),
                Ok(rides) => match parsed_chunk(after_chunk(s)) {
                    Err(e) => Err(e),
                    Ok(_) => Ok(SavedGameView::Park(park_in(data, month, day_fraction, rides))),
                },
            }
        },
    }
}

/// The outcome for the bytes `s` that start at the third chunk, the flags
/// and the date, which the map and the game data follow.
pub open spec fn park_from_date(s: Seq<u8>) -> Result<SavedGameView, ReadError> {
    match parsed_chunk(s) {
        Err(e) => Err(e),
        Ok((_, date)) => if date.len() < 4 {
            Err(ReadError::OutOfBounds)
        } else {
            match parsed_chunk(after_chunk(s)) {
                Err(e) => Err(e),
                Ok(_) => park_from_game_data(
                    after_chunk(after_chunk(s)),
                    le_u16_at(date, 0) as u16,
                    le_u16_at(date, 2) as u16,
                ),
            }
        },
    }
}

/// The outcome of reading a whole saved game: six chunks, of which the
/// first says whether the rest is read at all.
pub open spec fn saved_game_of(file: Seq<u8>) -> Result<SavedGameView, ReadError> {
    match parsed_chunk(file) {
        Err(e) => Err(e),
        Ok((_, header)) => if header.len() < 4 {
            Err(ReadError::OutOfBounds)
        } else if le_u16_at(header, SV6_CUSTOM_OBJECTS as int) > 0 {
            Ok(SavedGameView::CustomObjects(le_u16_at(header, SV6_CUSTOM_OBJECTS as int) as u16))
        } else {
            match parsed_chunk(after_chunk(file)) {
                Err(e) => Err(e),
                Ok(_) => park_from_date(after_chunk(after_chunk(file))),
            }
        },
    }
}

/// Reads the next chunk and, where that succeeds, leaves the reader at the
/// chunk after it.
fn read_sv6_chunk(rd: &mut ChunkReader<ByteCursor<'_>>) -> (r: Result<Chunk, ReadError>)
    ensures
        match parsed_chunk(old(rd).remaining()) {
            Ok((_, data)) => r matches Ok(c) && c.bytes() == data && final(rd).remaining()
                == after_chunk(old(rd).remaining()),
            Err(e) => r matches Err(x) && x == e,
        },
{
    rd.read_chunk()
}

/// Reads a saved game from the bytes of its file. Any chunk that is cut
/// short or cannot be decoded, and any chunk that is too short for a field
/// read from it, fails the whole file.
pub fn read_sv6_file(file: &[u8]) -> (r: Result<SavedGame, ReadError>)
    ensures
        match saved_game_of(file@) {
            Ok(game) => r matches Ok(g) && g@ == game,
            Err(e) => r matches Err(x) && x == e,
        },
{
    let mut rd = ChunkReader::new(ByteCursor::new(file));
    let header = match read_sv6_chunk(&mut rd) {
        Ok(c) => c,
        Err(e) => {
            return Err(e);
        },
    };
    let hv = header.data().as_slice();
    if hv.len() < 4 {
        return Err(ReadError::OutOfBounds);
    }
    let co = u16_from_slice(hv, SV6_CUSTOM_OBJECTS);
    if co > 0 {
        return Ok(SavedGame::CustomObjects(co));
    }
    match read_sv6_chunk(&mut rd) {
        Ok(_) => {},
        Err(e) => {
            return Err(e);
        },
    }
    let date = match read_sv6_chunk(&mut rd) {
        Ok(c) => c,
        Err(e) => {
            return Err(e);
        },
    };
    let vd = date.data().as_slice();
    if vd.len() < 4 {
        return Err(ReadError::OutOfBounds);
    }
    let month = u16_from_slice(vd, 0);
    let day_fraction = u16_from_slice(vd, 2);
    match read_sv6_chunk(&mut rd) {
        Ok(_) => {},
        Err(e) => {
            return Err(e);
        },
    }
    let game_data = match read_sv6_chunk(&mut rd) {
        Ok(c) => c,
        Err(e) => {
            return Err(e);
        },
    };
    let vx = game_data.data().as_slice();
    if vx.len() < SV6_RIDES_END {
        return Err(ReadError::OutOfBounds);
    }
    let rides = match read_sv6_rides(&vx[SV6_RIDES..SV6_RIDES_END], month) {
        Ok(rides) => rides,
        Err(e) => {
            return Err(e);
        },
    };
    match read_sv6_chunk(&mut rd) {
        Ok(_) => {},
        Err(e) => {
            return Err(e);
        },
    }
    Ok(
        SavedGame::Park(
            ParkSummary {
                month,
                date: decode_date(month, day_fraction),
                initial_cash: u32_from_slice(vx, SV6_INITIAL_CASH),
                loan: u32_from_slice(vx, SV6_LOAN),
                entrance_fee: u32_from_slice(vx, SV6_ENTRANCE_FEE),
                guests_in_park: u16_from_slice(vx, SV6_GUESTS_IN_PARK),
                park_rating: u16_from_slice(vx, SV6_PARK_RATING),
                real_cash: decrypt_money(u32_from_slice(vx, SV6_REAL_CASH)),
                rides,
            },
        ),
    )
}

} // verus!
