//! The Modbus-RTU master: link timing, and the requests that it can make of
//! a unit's holding registers.
//!
//! A request is a `Transaction`: the frame to send and the exchange that
//! carries it. The host moves the bytes; the transaction says what to do
//! next and, at the end, what the unit answered.

use crate::exchange::{Action, Exchange, ExchangeState};
use crate::frame::{
    bulk_write_request_frame, check_reply, decode_registers, encode_bulk_write, encode_read,
    encode_write, high_byte, low_byte, read_request_frame, registers_verdict, reply_verdict,
    reply_words, request_head, write_request_frame, ModbusError, MAX_BULK_REGISTERS,
    READ_HOLDINGS, WRITE_HOLDING, WRITE_HOLDINGS,
};
use vstd::prelude::*;

verus! {

/// The part of a second that one read or write on the line may take, as a
/// divisor, for each baud rate that the link supports.
pub open spec fn timeout_divisor(baudrate: u32) -> Option<u32> {
    if baudrate == 9600 {
        Some(10u32)
    } else if baudrate == 19200 {
        Some(20u32)
    } else if baudrate == 38400 {
        Some(40u32)
    } else if baudrate == 115200 {
        Some(200u32)
    } else {
        None
    }
}

/// The timeout of one operation at `baudrate`, in ticks of a clock that
/// runs at `tick_rate_hz`.
pub open spec fn operation_timeout(baudrate: u32, tick_rate_hz: u32) -> Result<u32, ModbusError> {
    match timeout_divisor(baudrate) {
        Some(d) => Ok((tick_rate_hz / d) as u32),
        None => Err(ModbusError::InvalidBaudRate),
    }
}

/// The master of a Modbus-RTU link: the unit that it talks to and the
/// timeouts of the line.
pub struct ModbusRTUMaster {
    device_id: u8,
    driver: bool,
    tick_rate_hz: u32,
    read_timeout: u32,
    write_timeout: u32,
}

impl ModbusRTUMaster {
    /// The unit that requests are addressed to.
    pub closed spec fn unit(&self) -> u8 {
        self.device_id
    }

    /// Whether the host drives a direction-enable line around each request.
    pub closed spec fn driver(&self) -> bool {
        self.driver
    }

    /// The rate of the clock that timeouts are counted in.
    pub closed spec fn tick_rate(&self) -> u32 {
        self.tick_rate_hz
    }

    /// The timeout of a read and that of a write, in ticks.
    pub closed spec fn timeouts(&self) -> (u32, u32) {
        (self.read_timeout, self.write_timeout)
    }

    /// A master for a line that runs at `baudrate`. `tick_rate_hz` is the
    /// rate of the clock that timeouts are counted in, `ctrl_pin` says
    /// whether there is a direction-enable line to drive.
    pub fn new(baudrate: u32, tick_rate_hz: u32, ctrl_pin: bool, device_id: u8) -> (r: Self)
        requires
            timeout_divisor(baudrate) is Some,
        ensures
            r.unit() == device_id,
            r.driver() == ctrl_pin,
            r.tick_rate() == tick_rate_hz,
            operation_timeout(baudrate, tick_rate_hz) == Ok::<u32, ModbusError>(r.timeouts().0),
            r.timeouts().1 == r.timeouts().0,
    {
        let timeout = match Self::get_operation_timeout(baudrate, tick_rate_hz) {
            Ok(t) => t,
            Err(_) => 0,
        };
        Self {
            device_id,
            driver: ctrl_pin,
            tick_rate_hz,
            read_timeout: timeout,
            write_timeout: timeout,
        }
    }

    /// The timeout of one read or write at `baudrate`, in ticks of a clock
    /// that runs at `tick_rate_hz`. Baud rates that the link does not
    /// support are refused.
    pub fn get_operation_timeout(baudrate: u32, tick_rate_hz: u32) -> (r: Result<u32, ModbusError>)
        ensures
            r == operation_timeout(baudrate, tick_rate_hz),
    {
        if baudrate == 9600 {
            Ok(tick_rate_hz / 10)
        } else if baudrate == 19200 {
            Ok(tick_rate_hz / 20)
        } else if baudrate == 38400 {
            Ok(tick_rate_hz / 40)
        } else if baudrate == 115200 {
            Ok(tick_rate_hz / 200)
        } else {
            Err(ModbusError::InvalidBaudRate)
        }
    }

    /// Takes over the timing of a line that now runs at `baudrate`. A rate
    /// that the link does not support is refused and changes nothing.
    pub fn set_baudrate(&mut self, baudrate: u32) -> (r: Result<(), ModbusError>)
        ensures
            final(self).unit() == old(self).unit(),
            final(self).driver() == old(self).driver(),
            final(self).tick_rate() == old(self).tick_rate(),
            match operation_timeout(baudrate, old(self).tick_rate()) {
                Ok(t) => r is Ok && final(self).timeouts() == (t, t),
                Err(e) => r == Err::<(), ModbusError>(e) && final(self).timeouts() == old(
                    self,
                ).timeouts(),
            },
    {
        match Self::get_operation_timeout(baudrate, self.tick_rate_hz) {
            Ok(timeout) => {
                self.read_timeout = timeout;
                self.write_timeout = timeout;
                Ok(())
            },
            Err(e) => Err(e),
        }
    }

    /// The unit that requests are addressed to.
    pub fn device_id(&self) -> (r: u8)
        ensures
            r == self.unit(),
    {
        self.device_id
    }

    /// Addresses the requests that follow to another unit.
    pub fn set_device_id(&mut self, device_id: u8)
        ensures
            final(self).unit() == device_id,
            final(self).driver() == old(self).driver(),
            final(self).tick_rate() == old(self).tick_rate(),
            final(self).timeouts() == old(self).timeouts(),
    {
        self.device_id = device_id;
    }

    /// Ticks that one read from the line may take.
    pub fn read_timeout(&self) -> (r: u32)
        ensures
            r == self.timeouts().0,
    {
        self.read_timeout
    }

    /// Ticks that the line may take to send out what was written.
    pub fn write_timeout(&self) -> (r: u32)
        ensures
            r == self.timeouts().1,
    {
        self.write_timeout
    }
}


/// A transaction as contracts see it.
pub struct TransactionState {
    /// The unit that the request is addressed to.
    pub unit: u8,
    /// The function code of the request.
    pub function: u8,
    /// The number of registers that a read asks for.
    pub count: u16,
    /// The request frame.
    pub request: Seq<u8>,
    pub exchange: ExchangeState,
}

impl TransactionState {
    /// The exchange is well formed and carries this request.
    pub open spec fn wf(self) -> bool {
        self.exchange.wf() && self.exchange.request_len == self.request.len()
    }

    /// A transaction that has not started yet.
    pub open spec fn fresh(
        unit: u8,
        function: u8,
        count: u16,
        request: Seq<u8>,
        driver: bool,
    ) -> Self {
        Self {
            unit,
            function,
            count,
            request,
            exchange: ExchangeState::begin(request.len(), driver).0,
        }
    }

    /// Whether the unit has accepted the request: the reply is complete and
    /// the frame checker finds no fault in it.
    pub open spec fn acknowledged(self) -> Result<(), ModbusError> {
        if self.exchange.stage is Done {
            match reply_verdict(self.unit, self.function, self.exchange.frame()) {
                Ok(_) => Ok(()),
                Err(e) => Err(ModbusError::Frame(e)),
            }
        } else {
            Err(ModbusError::OutOfTurn)
        }
    }

    /// The registers that the unit has sent in answer to a read.
    pub open spec fn registers(self) -> Result<Seq<u16>, ModbusError> {
        if self.exchange.stage is Done && self.function == READ_HOLDINGS {
            let frame = self.exchange.frame();
            if frame.len() == 5 {
                match reply_verdict(self.unit, self.function, frame) {
                    Ok(_) => Err(ModbusError::NoData),
                    Err(e) => Err(ModbusError::Frame(e)),
                }
            } else {
                match registers_verdict(self.unit, self.count, frame) {
                    Ok(words) => Ok(words),
                    Err(e) => Err(ModbusError::Frame(e)),
                }
            }
        } else {
            Err(ModbusError::OutOfTurn)
        }
    }
}

/// The first of `words`, or zero where the unit sent none.
pub open spec fn first_word(words: Seq<u16>) -> u16 {
    if words.len() > 0 {
        words[0]
    } else {
        0
    }
}

/// One request to a unit and the exchange that carries it.
pub struct Transaction {
    unit: u8,
    function: u8,
    count: u16,
    request: Vec<u8>,
    exchange: Exchange,
}

impl View for Transaction {
    type V = TransactionState;

    closed spec fn view(&self) -> TransactionState {
        TransactionState {
            unit: self.unit,
            function: self.function,
            count: self.count,
            request: self.request@,
            exchange: self.exchange@,
        }
    }
}

impl Transaction {
    fn start(unit: u8, function: u8, count: u16, request: Vec<u8>, driver: bool) -> (r: Self)
        ensures
            r@ == TransactionState::fresh(unit, function, count, request@, driver),
            r@.wf(),
    {
        let (exchange, _) = Exchange::begin(request.len(), driver);
        Transaction { unit, function, count, request, exchange }
    }

    /// The request frame.
    pub fn request(&self) -> (r: &Vec<u8>)
        ensures
            r@ == self@.request,
    {
        &self.request
    }

    /// The action that the host is to perform next.
    pub fn pending(&self) -> (action: Action)
        requires
            self@.wf(),
        ensures
            action == self@.exchange.pending(),
    {
        self.exchange.pending()
    }

    /// The host has done what `EnableDriver`, `Flush` or `DisableDriver`
    /// asked for.
    pub fn advance(&mut self) -> (action: Action)
        requires
            old(self)@.wf(),
        ensures
            final(self)@ == (TransactionState {
                exchange: old(self)@.exchange.advance().0,
                ..old(self)@
            }),
            action == old(self)@.exchange.advance().1,
            final(self)@.wf(),
    {
        self.exchange.advance()
    }

    /// The line took `n` bytes of what the last `Write` offered.
    pub fn written(&mut self, n: usize) -> (action: Action)
        requires
            old(self)@.wf(),
        ensures
            final(self)@ == (TransactionState {
                exchange: old(self)@.exchange.written(n as nat).0,
                ..old(self)@
            }),
            action == old(self)@.exchange.written(n as nat).1,
            final(self)@.wf(),
    {
        self.exchange.written(n)
    }

    /// The host has read `bytes` for the last `Read`.
    pub fn received(&mut self, bytes: &[u8]) -> (action: Action)
        requires
            old(self)@.wf(),
        ensures
            final(self)@ == (TransactionState {
                exchange: old(self)@.exchange.received(bytes@).0,
                ..old(self)@
            }),
            action == old(self)@.exchange.received(bytes@).1,
            final(self)@.wf(),
    {
        self.exchange.received(bytes)
    }

    /// The host could not do what it was last asked for.
    pub fn failed(&mut self) -> (action: Action)
        requires
            old(self)@.wf(),
        ensures
            final(self)@ == (TransactionState {
                exchange: old(self)@.exchange.failed().0,
                ..old(self)@
            }),
            action == old(self)@.exchange.failed().1,
            final(self)@.wf(),
    {
        self.exchange.failed()
    }

    /// Whether the unit has accepted the request.
    pub fn acknowledged(&self) -> (r: Result<(), ModbusError>)
        requires
            self@.wf(),
        ensures
            r == self@.acknowledged(),
    {
        match self.exchange.frame() {
            Some(frame) => match check_reply(self.unit, self.function, frame) {
                Ok(()) => Ok(()),
                Err(e) => Err(ModbusError::Frame(e)),
            },
            None => Err(ModbusError::OutOfTurn),
        }
    }

    /// The registers that the unit has sent in answer to a read.
    pub fn registers(&self) -> (r: Result<Vec<u16>, ModbusError>)
        requires
            self@.wf(),
        ensures
            match r {
                Ok(words) => self@.registers() == Ok::<Seq<u16>, ModbusError>(words@),
                Err(e) => self@.registers() == Err::<Seq<u16>, ModbusError>(e),
            },
            r matches Ok(words) ==> words@ == reply_words(self@.exchange.frame(), self@.count),
    {
        if self.function != READ_HOLDINGS {
            return Err(ModbusError::OutOfTurn);
        }
        match self.exchange.frame() {
            Some(frame) => if frame.len() == 5 {
                match check_reply(self.unit, self.function, frame) {
                    Ok(()) => Err(ModbusError::NoData),
                    Err(e) => Err(ModbusError::Frame(e)),
                }
            } else {
                match decode_registers(self.unit, self.count, frame) {
                    Ok(words) => Ok(words),
                    Err(e) => Err(ModbusError::Frame(e)),
                }
            },
            None => Err(ModbusError::OutOfTurn),
        }
    }

    /// The one register that the unit has sent in answer to a read, zero
    /// where it sent none.
    pub fn register(&self) -> (r: Result<u16, ModbusError>)
        requires
            self@.wf(),
        ensures
            r == match self@.registers() {
                Ok(words) => Ok::<u16, ModbusError>(first_word(words)),
                Err(e) => Err(e),
            },
    {
        match self.registers() {
            Ok(words) => if words.len() > 0 {
                Ok(words[0])
            } else {
                Ok(0)
            },
            Err(e) => Err(e),
        }
    }
}

impl ModbusRTUMaster {
    /// The request to read one holding register at `addr`.
    pub fn read_holding_register(&self, addr: u16) -> (r: Result<Transaction, ModbusError>)
        ensures
            r matches Ok(t) && t@ == TransactionState::fresh(
                self.unit(),
                READ_HOLDINGS,
                1,
                read_request_frame(self.unit(), addr, 1),
                self.driver(),
            ) && t@.wf(),
            r matches Ok(t) ==> t@.request.len() == 8 && t@.request.subrange(0, 6)
                == request_head(self.unit(), READ_HOLDINGS, addr, 1),
    {
        self.read_holding_registers(addr, 1)
    }

    /// The request to read `count` holding registers from `addr` on.
    pub fn read_holding_registers(&self, addr: u16, count: u16) -> (r: Result<
        Transaction,
        ModbusError,
    >)
        ensures
            r matches Ok(t) && t@ == TransactionState::fresh(
                self.unit(),
                READ_HOLDINGS,
                count,
                read_request_frame(self.unit(), addr, count),
                self.driver(),
            ) && t@.wf(),
            r matches Ok(t) ==> t@.request.len() == 8 && t@.request.subrange(0, 6)
                == request_head(self.unit(), READ_HOLDINGS, addr, count),
    {
        match encode_read(self.device_id, addr, count) {
            Ok(frame) => Ok(Transaction::start(self.device_id, READ_HOLDINGS, count, frame, self.driver)),
            Err(e) => Err(ModbusError::Frame(e)),
        }
    }

    /// The request to write `value` to the holding register at `addr`.
    pub fn write_holding_register(&self, addr: u16, value: u16) -> (r: Result<
        Transaction,
        ModbusError,
    >)
        ensures
            r matches Ok(t) && t@ == TransactionState::fresh(
                self.unit(),
                WRITE_HOLDING,
                0,
                write_request_frame(self.unit(), addr, value),
                self.driver(),
            ) && t@.wf(),
            r matches Ok(t) ==> t@.request.len() == 8 && t@.request.subrange(0, 6)
                == request_head(self.unit(), WRITE_HOLDING, addr, value),
    {
        match encode_write(self.device_id, addr, value) {
            Ok(frame) => Ok(Transaction::start(self.device_id, WRITE_HOLDING, 0, frame, self.driver)),
            Err(e) => Err(ModbusError::Frame(e)),
        }
    }

    /// The request to write `values` to the holding registers from `addr`
    /// on. More values than one frame holds are refused.
    pub fn write_holding_registers(&self, addr: u16, values: &[u16]) -> (r: Result<
        Transaction,
        ModbusError,
    >)
        ensures
            match r {
                Ok(t) => values@.len() <= MAX_BULK_REGISTERS && t@ == TransactionState::fresh(
                    self.unit(),
                    WRITE_HOLDINGS,
                    0,
                    bulk_write_request_frame(self.unit(), addr, values@),
                    self.driver(),
                ) && t@.wf(),
                Err(e) => values@.len() > MAX_BULK_REGISTERS && e is Frame,
            },
            r matches Ok(t) ==> {
                &&& t@.request.len() == 9 + 2 * values@.len()
                &&& t@.request.subrange(0, 6) == request_head(
                    self.unit(),
                    WRITE_HOLDINGS,
                    addr,
                    values@.len() as u16,
                )
                &&& t@.request[6] == 2 * values@.len()
                &&& forall|i: int|
                    0 <= i < values@.len() ==> t@.request[7 + 2 * i] == high_byte(values@[i])
                        && t@.request[8 + 2 * i] == low_byte(values@[i])
            },
    {
        match encode_bulk_write(self.device_id, addr, values) {
            Ok(frame) => Ok(Transaction::start(self.device_id, WRITE_HOLDINGS, 0, frame, self.driver)),
            Err(e) => Err(ModbusError::Frame(e)),
        }
    }
}

} // verus!
