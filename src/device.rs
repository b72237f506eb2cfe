//! The protocol engine: one bus transaction per operation.
//!
//! Each operation writes a 2-byte command (with its payload), waits the
//! sensor's settle time and, for a query, reads a fixed-size frame whose
//! checksums are all checked before anything is decoded. A ghost log of the
//! traffic lets each contract say which bytes went out and how the result
//! follows from the bytes that came back.
use crate::codec::{
    decode_feature_set, decode_pair, decode_self_test, decode_serial, decode_word,
    feature_set_of, fixed_point_from_milli, fixed_point_of, pair_of, protected_word, push_word,
    self_test_of, serial_of, single_of,
};
use vstd::prelude::*;

verus! {

/// The sensor's fixed 7-bit bus address.
pub const I2C_ADDRESS: u8 = 0x58;

/// The transport: addressed writes and reads of raw bytes on an I2C bus.
pub trait I2cBus {
    /// The transport's own error.
    type Error;

    /// Writes `bytes` to the device at `address`.
    fn write(&mut self, address: u8, bytes: &[u8]) -> Result<(), Self::Error>;

    /// Reads `buffer.len()` bytes from the device at `address` into `buffer`.
    fn read(&mut self, address: u8, buffer: &mut [u8]) -> (r: Result<(), Self::Error>)
        ensures
            final(buffer)@.len() == old(buffer)@.len(),
    ;
}

/// A blocking wait counted in milliseconds.
pub trait DelayMs {
    /// Blocks for `ms` milliseconds.
    fn delay_ms(&mut self, ms: u16);
}

/// A blocking wait counted in microseconds.
pub trait DelayUs {
    /// Blocks for `us` microseconds.
    fn delay_us(&mut self, us: u16);
}

/// One step of bus traffic, or a wait between two steps.
pub enum BusEvent {
    /// A write of `bytes`; `ok` tells whether the transport reported success.
    Write { address: u8, bytes: Seq<u8>, ok: bool },
    /// A read of `len` bytes; `received` holds them when the transport succeeded.
    Read { address: u8, len: nat, received: Option<Seq<u8>> },
    /// A wait of the given number of milliseconds.
    WaitMs(u16),
    /// A wait of the given number of microseconds.
    WaitUs(u16),
}

/// Error type of the driver.
#[derive(Debug, PartialEq, Eq)]
pub enum Error<E> {
    /// The transport failed.
    I2c(E),
    /// A response word did not match its checksum.
    InvalidCrc,
    /// The humidity cannot be written in 8.8 fixed point.
    FixedPointError,
}

/// A write to the sensor.
pub open spec fn write_event(bytes: Seq<u8>, ok: bool) -> BusEvent {
    BusEvent::Write { address: I2C_ADDRESS, bytes, ok }
}

/// A read from the sensor.
pub open spec fn read_event(len: nat, received: Option<Seq<u8>>) -> BusEvent {
    BusEvent::Read { address: I2C_ADDRESS, len, received }
}

/// The traffic of a command without a response: the write and, when it went
/// through, the settle wait.
pub open spec fn command_traffic(bytes: Seq<u8>, wait: BusEvent, ok: bool) -> Seq<BusEvent> {
    if ok {
        seq![write_event(bytes, true), wait]
    } else {
        seq![write_event(bytes, false)]
    }
}

/// The traffic of a query of `len` bytes, given what came back (see `reply`).
pub open spec fn query_traffic(
    cmd: Seq<u8>,
    wait: BusEvent,
    len: nat,
    answer: Option<Option<Seq<u8>>>,
) -> Seq<BusEvent> {
    match answer {
        None => seq![write_event(cmd, false)],
        Some(received) => seq![write_event(cmd, true), wait, read_event(len, received)],
    }
}

/// What a query got back, read off the traffic between `before` and `after`:
/// `None` when the command could not be written, `Some(None)` when the read
/// failed, `Some(Some(f))` when frame `f` arrived.
pub open spec fn reply(before: Seq<BusEvent>, after: Seq<BusEvent>) -> Option<Option<Seq<u8>>> {
    if after.len() == before.len() + 3 {
        match after.last() {
            BusEvent::Read { received, .. } => Some(received),
            _ => None,
        }
    } else {
        None
    }
}

/// The traffic between `before` and `after` is one query of `len` bytes.
pub open spec fn queried(
    before: Seq<BusEvent>,
    after: Seq<BusEvent>,
    cmd: Seq<u8>,
    wait: BusEvent,
    len: nat,
) -> bool {
    &&& after == before + query_traffic(cmd, wait, len, reply(before, after))
    &&& reply(before, after) matches Some(Some(f)) ==> f.len() == len
}

/// The result of decoding a frame: a checksum mismatch is `InvalidCrc`.
pub open spec fn outcome<T, E>(decoded: Option<T>) -> Result<T, Error<E>> {
    match decoded {
        Some(v) => Ok(v),
        None => Err(Error::InvalidCrc),
    }
}

/// The result of a query whose frame decodes by `decoded`: a transport
/// failure at either step is an `I2c` error.
pub open spec fn answered<T, E>(answer: Option<Option<Seq<u8>>>, decoded: Option<T>, r: Result<T, Error<E>>) -> bool {
    match answer {
        Some(Some(_)) => r == outcome::<T, E>(decoded),
        _ => r matches Err(Error::I2c(_)),
    }
}

/// The frame of a query that got one; empty otherwise.
pub open spec fn frame_of(answer: Option<Option<Seq<u8>>>) -> Seq<u8> {
    match answer {
        Some(Some(f)) => f,
        _ => Seq::empty(),
    }
}

/// How many bus writes `s` holds.
pub open spec fn writes(s: Seq<BusEvent>) -> nat
    decreases s.len(),
{
    if s.len() == 0 {
        0
    } else {
        writes(s.drop_last()) + if s.last() is Write {
            1nat
        } else {
            0nat
        }
    }
}

/// How many bus reads `s` holds.
pub open spec fn reads(s: Seq<BusEvent>) -> nat
    decreases s.len(),
{
    if s.len() == 0 {
        0
    } else {
        reads(s.drop_last()) + if s.last() is Read {
            1nat
        } else {
            0nat
        }
    }
}

/// Counting writes and reads adds up over concatenation.
pub proof fn lemma_counts_append(a: Seq<BusEvent>, b: Seq<BusEvent>)
    ensures
        writes(a + b) == writes(a) + writes(b),
        reads(a + b) == reads(a) + reads(b),
    decreases b.len(),
{
    if b.len() == 0 {
        assert(a + b =~= a);
    } else {
        assert((a + b).drop_last() =~= a + b.drop_last());
        lemma_counts_append(a, b.drop_last());
    }
}

/// A write-only operation (initialising, setting either baseline, setting
/// the humidity) adds exactly one bus write and no bus read to the traffic,
/// whether or not the transport reports success.
pub proof fn lemma_command_writes_once(
    before: Seq<BusEvent>,
    after: Seq<BusEvent>,
    bytes: Seq<u8>,
    ms: u16,
    ok: bool,
)
    requires
        after == before + command_traffic(bytes, BusEvent::WaitMs(ms), ok),
    ensures
        writes(after) == writes(before) + 1,
        reads(after) == reads(before),
{
    let t = command_traffic(bytes, BusEvent::WaitMs(ms), ok);
    lemma_counts_append(before, t);
    let e = Seq::<BusEvent>::empty();
    assert(writes(e) == 0 && reads(e) == 0);
    if ok {
        let w = seq![write_event(bytes, true)];
        assert(t.drop_last() =~= w);
        assert(w.drop_last() =~= e);
        assert(writes(w) == 1 && reads(w) == 0);
        assert(writes(t) == writes(w) && reads(t) == reads(w));
    } else {
        assert(t.drop_last() =~= e);
        assert(writes(t) == 1 && reads(t) == 0);
    }
}

/// Sensor handle; owns the I2C bus.
pub struct Sgp30<I> {
    bus: I,
    log: Ghost<Seq<BusEvent>>,
}

impl<I: I2cBus> Sgp30<I> {
    /// The traffic this handle has issued since it was made.
    pub closed spec fn log(&self) -> Seq<BusEvent> {
        self.log@
    }

    /// The bus handle held.
    pub closed spec fn bus(&self) -> I {
        self.bus
    }

    /// Takes ownership of the bus; sends nothing, so the sensor is not yet
    /// initialised (see `iaq_init`).
    pub fn init(i2c: I) -> (s: Self)
        ensures
            s.bus() == i2c,
            s.log() == Seq::<BusEvent>::empty(),
    {
        Sgp30 { bus: i2c, log: Ghost(Seq::empty()) }
    }

    /// Gives the bus back.
    pub fn destroy(self) -> (i: I)
        ensures
            i == self.bus(),
    {
        self.bus
    }

    /// Writes `bytes` to the sensor.
    fn send(&mut self, bytes: &[u8]) -> (r: Result<(), Error<I::Error>>)
        ensures
            final(self).log() == old(self).log().push(write_event(bytes@, r is Ok)),
            r is Err ==> r->Err_0 is I2c,
    {
        let w = self.bus.write(I2C_ADDRESS, bytes);
        let ok = w.is_ok();
        self.log = Ghost(self.log@.push(write_event(bytes@, ok)));
        match w {
            Ok(()) => Ok(()),
            Err(e) => Err(Error::I2c(e)),
        }
    }

    /// Reads a frame of `len` bytes from the sensor.
    fn receive(&mut self, len: usize) -> (r: Result<Vec<u8>, Error<I::Error>>)
        ensures
            final(self).log() == old(self).log().push(
                read_event(
                    len as nat,
                    match r {
                        Ok(f) => Some(f@),
                        Err(_) => None,
                    },
                ),
            ),
            r matches Ok(f) ==> f@.len() == len,
            r is Err ==> r->Err_0 is I2c,
    {
        let mut buffer: Vec<u8> = vec![0u8; len];
        let res = self.bus.read(I2C_ADDRESS, buffer.as_mut_slice());
        match res {
            Ok(()) => {
                self.log = Ghost(self.log@.push(read_event(len as nat, Some(buffer@))));
                Ok(buffer)
            },
            Err(e) => {
                self.log = Ghost(self.log@.push(read_event(len as nat, None)));
                Err(Error::I2c(e))
            },
        }
    }

    /// Writes a command, waits `ms` milliseconds and reads `len` bytes.
    fn query_ms<D: DelayMs>(&mut self, delay: &mut D, cmd: &[u8], ms: u16, len: usize) -> (r: Result<Vec<u8>, Error<I::Error>>)
        ensures
            queried(old(self).log(), final(self).log(), cmd@, BusEvent::WaitMs(ms), len as nat),
            match r {
                Ok(f) => reply(old(self).log(), final(self).log()) == Some(Some(f@)),
                Err(e) => e is I2c && !(reply(old(self).log(), final(self).log()) matches Some(Some(_))),
            },
    {
        let ghost before = self.log@;
        match self.send(cmd) {
            Ok(()) => {},
            Err(e) => {
                assert(self.log@ =~= before + query_traffic(cmd@, BusEvent::WaitMs(ms), len as nat, None));
                return Err(e);
            },
        }
        delay.delay_ms(ms);
        self.log = Ghost(self.log@.push(BusEvent::WaitMs(ms)));
        let r = self.receive(len);
        let ghost received = match &r {
            Ok(f) => Some(f@),
            Err(_) => None,
        };
        assert(self.log@ =~= before + query_traffic(cmd@, BusEvent::WaitMs(ms), len as nat, Some(received)));
        r
    }

    /// Writes a command, waits `us` microseconds and reads `len` bytes.
    fn query_us<D: DelayUs>(&mut self, delay: &mut D, cmd: &[u8], us: u16, len: usize) -> (r: Result<Vec<u8>, Error<I::Error>>)
        ensures
            queried(old(self).log(), final(self).log(), cmd@, BusEvent::WaitUs(us), len as nat),
            match r {
                Ok(f) => reply(old(self).log(), final(self).log()) == Some(Some(f@)),
                Err(e) => e is I2c && !(reply(old(self).log(), final(self).log()) matches Some(Some(_))),
            },
    {
        let ghost before = self.log@;
        match self.send(cmd) {
            Ok(()) => {},
            Err(e) => {
                assert(self.log@ =~= before + query_traffic(cmd@, BusEvent::WaitUs(us), len as nat, None));
                return Err(e);
            },
        }
        delay.delay_us(us);
        self.log = Ghost(self.log@.push(BusEvent::WaitUs(us)));
        let r = self.receive(len);
        let ghost received = match &r {
            Ok(f) => Some(f@),
            Err(_) => None,
        };
        assert(self.log@ =~= before + query_traffic(cmd@, BusEvent::WaitUs(us), len as nat, Some(received)));
        r
    }

    /// Writes a command with its payload, then waits `ms` milliseconds.
    fn command_ms<D: DelayMs>(&mut self, delay: &mut D, bytes: &[u8], ms: u16) -> (r: Result<(), Error<I::Error>>)
        ensures
            final(self).log() == old(self).log() + command_traffic(bytes@, BusEvent::WaitMs(ms), r is Ok),
            r is Err ==> r->Err_0 is I2c,
    {
        let ghost before = self.log@;
        match self.send(bytes) {
            Ok(()) => {},
            Err(e) => {
                assert(self.log@ =~= before + command_traffic(bytes@, BusEvent::WaitMs(ms), false));
                return Err(e);
            },
        }
        delay.delay_ms(ms);
        self.log = Ghost(self.log@.push(BusEvent::WaitMs(ms)));
        assert(self.log@ =~= before + command_traffic(bytes@, BusEvent::WaitMs(ms), true));
        Ok(())
    }

    /// Starts the air-quality measurement mode; to be sent after power-up.
    pub fn iaq_init<D: DelayMs>(&mut self, delay: &mut D) -> (r: Result<(), Error<I::Error>>)
        ensures
            final(self).log() == old(self).log() + command_traffic(seq![0x20u8, 0x03u8], BusEvent::WaitMs(10), r is Ok),
            r is Err ==> r->Err_0 is I2c,
    {
        let cmd: [u8; 2] = [0x20, 0x03];
        assert(cmd@ =~= seq![0x20u8, 0x03u8]);
        self.command_ms(delay, cmd.as_slice(), 10)
    }

    /// Measures the air quality: CO2-equivalent in ppm and TVOC in ppb. Meant
    /// to be called once a second to keep the sensor calibrated.
    pub fn measure_iaq<D: DelayMs>(&mut self, delay: &mut D) -> (r: Result<(u16, u16), Error<I::Error>>)
        ensures
            queried(old(self).log(), final(self).log(), seq![0x20u8, 0x08u8], BusEvent::WaitMs(12), 6),
            answered(reply(old(self).log(), final(self).log()),
                pair_of(frame_of(reply(old(self).log(), final(self).log()))), r),
    {
        let cmd: [u8; 2] = [0x20, 0x08];
        assert(cmd@ =~= seq![0x20u8, 0x08u8]);
        match self.query_ms(delay, cmd.as_slice(), 12, 6) {
            Err(e) => Err(e),
            Ok(frame) => match decode_pair(frame.as_slice()) {
                Some(v) => Ok(v),
                None => Err(Error::InvalidCrc),
            },
        }
    }

    /// Reads the calibration baseline: CO2-equivalent and TVOC baselines.
    pub fn get_iaq_baseline<D: DelayMs>(&mut self, delay: &mut D) -> (r: Result<(u16, u16), Error<I::Error>>)
        ensures
            queried(old(self).log(), final(self).log(), seq![0x20u8, 0x15u8], BusEvent::WaitMs(10), 6),
            answered(reply(old(self).log(), final(self).log()),
                pair_of(frame_of(reply(old(self).log(), final(self).log()))), r),
    {
        let cmd: [u8; 2] = [0x20, 0x15];
        assert(cmd@ =~= seq![0x20u8, 0x15u8]);
        match self.query_ms(delay, cmd.as_slice(), 10, 6) {
            Err(e) => Err(e),
            Ok(frame) => match decode_pair(frame.as_slice()) {
                Some(v) => Ok(v),
                None => Err(Error::InvalidCrc),
            },
        }
    }

    /// Restores a calibration baseline (CO2-equivalent, TVOC), as read
    /// earlier by `get_iaq_baseline`.
    pub fn set_iaq_baseline<D: DelayMs>(&mut self, delay: &mut D, baseline: (u16, u16)) -> (r: Result<(), Error<I::Error>>)
        ensures
            final(self).log() == old(self).log() + command_traffic(
                seq![0x20u8, 0x1Eu8] + protected_word(baseline.0) + protected_word(baseline.1),
                BusEvent::WaitMs(10),
                r is Ok,
            ),
            r is Err ==> r->Err_0 is I2c,
    {
        let mut buffer: Vec<u8> = Vec::new();
        buffer.push(0x20);
        buffer.push(0x1E);
        push_word(&mut buffer, baseline.0);
        push_word(&mut buffer, baseline.1);
        assert(buffer@ =~= seq![0x20u8, 0x1Eu8] + protected_word(baseline.0) + protected_word(baseline.1));
        self.command_ms(delay, buffer.as_slice(), 10)
    }

    /// Reads the TVOC inceptive baseline.
    pub fn get_tvoc_inceptive_baseline<D: DelayMs>(&mut self, delay: &mut D) -> (r: Result<u16, Error<I::Error>>)
        ensures
            queried(old(self).log(), final(self).log(), seq![0x20u8, 0xB3u8], BusEvent::WaitMs(10), 3),
            answered(reply(old(self).log(), final(self).log()),
                single_of(frame_of(reply(old(self).log(), final(self).log()))), r),
    {
        let cmd: [u8; 2] = [0x20, 0xB3];
        assert(cmd@ =~= seq![0x20u8, 0xB3u8]);
        match self.query_ms(delay, cmd.as_slice(), 10, 3) {
            Err(e) => Err(e),
            Ok(frame) => match decode_word(frame.as_slice()) {
                Some(v) => Ok(v),
                None => Err(Error::InvalidCrc),
            },
        }
    }

    /// Sets the TVOC inceptive baseline.
    pub fn set_tvoc_baseline<D: DelayMs>(&mut self, delay: &mut D, baseline: u16) -> (r: Result<(), Error<I::Error>>)
        ensures
            final(self).log() == old(self).log() + command_traffic(
                seq![0x20u8, 0x77u8] + protected_word(baseline),
                BusEvent::WaitMs(10),
                r is Ok,
            ),
            r is Err ==> r->Err_0 is I2c,
    {
        let mut buffer: Vec<u8> = Vec::new();
        buffer.push(0x20);
        buffer.push(0x77);
        push_word(&mut buffer, baseline);
        assert(buffer@ =~= seq![0x20u8, 0x77u8] + protected_word(baseline));
        self.command_ms(delay, buffer.as_slice(), 10)
    }

    /// Reads the raw signal, before the sensor's compensation.
    pub fn measure_raw<D: DelayMs>(&mut self, delay: &mut D) -> (r: Result<u16, Error<I::Error>>)
        ensures
            queried(old(self).log(), final(self).log(), seq![0x20u8, 0x50u8], BusEvent::WaitMs(25), 3),
            answered(reply(old(self).log(), final(self).log()),
                single_of(frame_of(reply(old(self).log(), final(self).log()))), r),
    {
        let cmd: [u8; 2] = [0x20, 0x50];
        assert(cmd@ =~= seq![0x20u8, 0x50u8]);
        match self.query_ms(delay, cmd.as_slice(), 25, 3) {
            Err(e) => Err(e),
            Ok(frame) => match decode_word(frame.as_slice()) {
                Some(v) => Ok(v),
                None => Err(Error::InvalidCrc),
            },
        }
    }

    /// Runs the on-chip self-test: `true` when the sensor answers with the
    /// healthy pattern 0xD400.
    pub fn measure_test<D: DelayMs>(&mut self, delay: &mut D) -> (r: Result<bool, Error<I::Error>>)
        ensures
            queried(old(self).log(), final(self).log(), seq![0x20u8, 0x32u8], BusEvent::WaitMs(220), 3),
            answered(reply(old(self).log(), final(self).log()),
                self_test_of(frame_of(reply(old(self).log(), final(self).log()))), r),
    {
        let cmd: [u8; 2] = [0x20, 0x32];
        assert(cmd@ =~= seq![0x20u8, 0x32u8]);
        match self.query_ms(delay, cmd.as_slice(), 220, 3) {
            Err(e) => Err(e),
            Ok(frame) => match decode_self_test(frame.as_slice()) {
                Some(v) => Ok(v),
                None => Err(Error::InvalidCrc),
            },
        }
    }

    /// Sets the absolute humidity used for compensation, given in mg/m³
    /// (thousandths of g/m³). It goes on the wire in 8.8 fixed point; a value
    /// of 256 g/m³ or more is refused before anything is sent.
    pub fn set_absolute_humidity<D: DelayMs>(&mut self, delay: &mut D, humidity: u32) -> (r: Result<(), Error<I::Error>>)
        ensures
            match fixed_point_of(humidity) {
                None => r == Err::<(), Error<I::Error>>(Error::FixedPointError) && final(self).log()
                    == old(self).log(),
                Some(v) => final(self).log() == old(self).log() + command_traffic(
                    seq![0x20u8, 0x61u8] + protected_word(v),
                    BusEvent::WaitMs(10),
                    r is Ok,
                ) && (r is Err ==> r->Err_0 is I2c),
            },
    {
        let number = match fixed_point_from_milli(humidity) {
            None => return Err(Error::FixedPointError),
            Some(n) => n,
        };
        let mut buffer: Vec<u8> = Vec::new();
        buffer.push(0x20);
        buffer.push(0x61);
        push_word(&mut buffer, number);
        assert(buffer@ =~= seq![0x20u8, 0x61u8] + protected_word(number));
        self.command_ms(delay, buffer.as_slice(), 10)
    }

    /// Reads the feature set: product type and product version.
    pub fn get_feature_set<D: DelayMs>(&mut self, delay: &mut D) -> (r: Result<(u8, u8), Error<I::Error>>)
        ensures
            queried(old(self).log(), final(self).log(), seq![0x20u8, 0x2Fu8], BusEvent::WaitMs(10), 3),
            answered(reply(old(self).log(), final(self).log()),
                feature_set_of(frame_of(reply(old(self).log(), final(self).log()))), r),
    {
        let cmd: [u8; 2] = [0x20, 0x2F];
        assert(cmd@ =~= seq![0x20u8, 0x2Fu8]);
        match self.query_ms(delay, cmd.as_slice(), 10, 3) {
            Err(e) => Err(e),
            Ok(frame) => match decode_feature_set(frame.as_slice()) {
                Some(v) => Ok(v),
                None => Err(Error::InvalidCrc),
            },
        }
    }

    /// Reads the sensor's 48-bit serial number.
    pub fn get_serial_id<D: DelayUs>(&mut self, delay: &mut D) -> (r: Result<u64, Error<I::Error>>)
        ensures
            queried(old(self).log(), final(self).log(), seq![0x36u8, 0x82u8], BusEvent::WaitUs(500), 9),
            answered(reply(old(self).log(), final(self).log()),
                serial_of(frame_of(reply(old(self).log(), final(self).log()))), r),
    {
        let cmd: [u8; 2] = [0x36, 0x82];
        assert(cmd@ =~= seq![0x36u8, 0x82u8]);
        match self.query_us(delay, cmd.as_slice(), 500, 9) {
            Err(e) => Err(e),
            Ok(frame) => match decode_serial(frame.as_slice()) {
                Some(v) => Ok(v),
                None => Err(Error::InvalidCrc),
            },
        }
    }
}

} // verus!
