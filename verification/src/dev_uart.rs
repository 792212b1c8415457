//! A 16550-style UART with registers four bytes apart, and its back-end.
use vstd::prelude::*;

verus! {

#[derive(Clone, Copy, Debug)]
pub struct IoUART {
    /// A received byte waits in `buf`.
    pub buffered: bool,
    pub int_enable: u8,
    pub int_ident: u8,
    pub line_control: u8,
    pub modem_control: u8,
    pub divisor: [u8; 2],
    pub buf: u8,
    pub scratch: u8,
    /// A break was asked for: the next poll delivers ETX.
    pub break_request: bool,
}

impl IoUART {
    pub fn new() -> (u: Self)
        ensures
            !u.buffered,
            u.int_enable == 0,
            u.int_ident == 0,
            u.line_control == 0,
            u.modem_control == 0,
            u.divisor[0] == 0,
            u.divisor[1] == 0,
            u.buf == 0,
            u.scratch == 0,
            !u.break_request,
    {
        Self {
            buffered: false,
            int_enable: 0,
            int_ident: 0,
            line_control: 0,
            modem_control: 0,
            divisor: [0, 0],
            buf: 0,
            scratch: 0,
            break_request: false,
        }
    }
}

/// What a UART back-end offers: a byte if one has arrived, and the sending
/// of one character.
pub trait UartReadWrite {
    fn read(&mut self) -> Result<u8, ()>;

    fn write(&mut self, d: char) -> Result<(), ()>;
}

/// A back-end that keeps both directions in memory: the host puts received
/// bytes into `rx` and takes sent characters out of `tx`.
pub struct UartConsole {
    /// Bytes that have arrived and were not read yet, oldest first.
    pub rx: Vec<u8>,
    /// Characters that were sent and not taken yet, oldest first.
    pub tx: Vec<char>,
}

#[verifier::ext_equal]
pub struct UartConsoleView {
    pub rx: Seq<u8>,
    pub tx: Seq<char>,
}

impl View for UartConsole {
    type V = UartConsoleView;

    open spec fn view(&self) -> UartConsoleView {
        UartConsoleView { rx: self.rx@, tx: self.tx@ }
    }
}

impl UartConsoleView {
    /// The back-end after a read, and what the read gave.
    pub open spec fn read(self) -> (UartConsoleView, Result<u8, ()>) {
        if self.rx.len() > 0 {
            (UartConsoleView { rx: self.rx.drop_first(), ..self }, Ok(self.rx[0]))
        } else {
            (self, Err(()))
        }
    }

    /// The back-end after one character was sent.
    pub open spec fn write(self, d: char) -> UartConsoleView {
        UartConsoleView { tx: self.tx.push(d), ..self }
    }
}

impl UartConsole {
    pub fn new() -> (c: Self)
        ensures
            c@.rx.len() == 0,
            c@.tx.len() == 0,
    {
        Self { rx: Vec::new(), tx: Vec::new() }
    }

    /// Hands a received byte to the back-end.
    pub fn push_input(&mut self, d: u8)
        ensures
            final(self)@ == (UartConsoleView { rx: old(self)@.rx.push(d), ..old(self)@ }),
    {
        self.rx.push(d);
    }

    /// Takes out what was sent since the last call.
    pub fn take_output(&mut self) -> (out: Vec<char>)
        ensures
            out@ == old(self)@.tx,
            final(self)@ == (UartConsoleView { tx: Seq::empty(), ..old(self)@ }),
    {
        let mut out: Vec<char> = Vec::new();
        std::mem::swap(&mut out, &mut self.tx);
        out
    }
}

impl UartReadWrite for UartConsole {
    fn read(&mut self) -> (r: Result<u8, ()>)
        ensures
            (final(self)@, r) == old(self)@.read(),
    {
        if self.rx.len() == 0 {
            Err(())
        } else {
            let d = self.rx.remove(0);
            assert(self.rx@ =~= old(self).rx@.drop_first());
            Ok(d)
        }
    }

    fn write(&mut self, d: char) -> (r: Result<(), ()>)
        ensures
            r is Ok,
            final(self)@ == old(self)@.write(d),
    {
        self.tx.push(d);
        Ok(())
    }
}

pub const IOADDR_UART0_BASE: u32 = 0x18020000;

pub const IOADDR_UART1_BASE: u32 = 0x18500000;

pub const IOADDR_UART_ADDR_SHIFT: u32 = 2;

pub const IOADDR_UART_SIZE: u32 = 0x20;

pub const IOADDR_UART_MASK: u32 = 0x1f;

pub const UART_REG_RXBUF: u32 = 0x00;

pub const UART_REG_TXBUF: u32 = 0x00;

pub const UART_REG_INTEN: u32 = 0x04;

pub const UART_REG_INTID: u32 = 0x08;

pub const UART_REG_LINECTL: u32 = 0x0c;

pub const UART_REG_MODEMCTL: u32 = 0x10;

pub const UART_REG_LINESTAT: u32 = 0x14;

pub const UART_REG_MODEMSTAT: u32 = 0x18;

pub const UART_REG_SCRATCH: u32 = 0x1c;

pub const UART_TX_EMPTY: u8 = 0x40;

pub const UART_TX_BUF_EMPTY: u8 = 0x20;

pub const UART_RX_BUF_FULL: u8 = 0x01;

/// Divisor latch access bit of the line control register.
pub const UART_REG_LINECTL_BIT_DLAB: u8 = 7;

pub const UART_REG_LINECTL_DLAB: u8 = 0x80;

pub const UART_REG_INTEN_BIT_RX_DATA_AVAIL: u8 = 0;

pub const UART_REG_INTEN_BIT_TX_DATA_EMPTY: u8 = 1;

pub const UART_REG_INTEN_RX_DATA_AVAIL: u8 = 0x01;

pub const UART_REG_INTEN_TX_DATA_EMPTY: u8 = 0x02;

pub const UART_REG_INTID_NO_INT: u8 = 0x01;

pub const UART_REG_INTID_TX_DATA_EMPTY: u8 = 0x02;

pub const UART_REG_INTID_RX_DATA_AVAIL: u8 = 0x04;

/// What the modem status register reads as: CTS, DSR and ring.
pub const UART_MODEM_STATUS: u8 = 0xb0;

pub const ASCII_ETX: u8 = 0x03;

pub const ASCII_LF: u8 = 0x0a;

pub const ASCII_CR: u8 = 0x0d;

pub const ASCII_DEL: u8 = 0x7f;

pub const ASCII_BS: u8 = 0x08;


/// What the guest reads for a received byte: line feed becomes carriage
/// return and delete becomes backspace.
pub open spec fn rx_translate(b: u8) -> u8 {
    if b == ASCII_LF {
        ASCII_CR
    } else if b == ASCII_DEL {
        ASCII_BS
    } else {
        b
    }
}

impl IoUART {
    /// The divisor latches are mapped over the first two registers.
    pub open spec fn dlab(&self) -> bool {
        self.line_control & UART_REG_LINECTL_DLAB != 0
    }

    /// The receive side after a poll: an empty buffer takes ETX if a break
    /// was asked for, else the next byte of the back-end if there is one.
    pub open spec fn poll(self, con: UartConsoleView) -> (IoUART, UartConsoleView) {
        if self.buffered {
            (self, con)
        } else if self.break_request {
            (IoUART { buffered: true, buf: ASCII_ETX, break_request: false, ..self }, con)
        } else {
            match con.read().1 {
                Ok(d) => (IoUART { buffered: true, buf: d, ..self }, con.read().0),
                Err(_) => (self, con),
            }
        }
    }

    /// A read of the line status register: the poll, then the status. A
    /// waiting byte raises the receive interrupt if that is enabled.
    pub open spec fn read_line_status(self, con: UartConsoleView) -> (IoUART, UartConsoleView, u8) {
        let (u, c) = self.poll(con);
        if u.buffered {
            (
                if u.int_enable & UART_REG_INTEN_RX_DATA_AVAIL != 0 {
                    IoUART { int_ident: UART_REG_INTID_RX_DATA_AVAIL, ..u }
                } else {
                    u
                },
                c,
                UART_TX_BUF_EMPTY | UART_TX_EMPTY | UART_RX_BUF_FULL,
            )
        } else {
            (u, c, UART_TX_BUF_EMPTY | UART_TX_EMPTY)
        }
    }

    /// The UART and its back-end after a read of the register at `addr`, and
    /// the value read.
    pub open spec fn read_reg(self, con: UartConsoleView, addr: u32) -> (
        IoUART,
        UartConsoleView,
        u8,
    ) {
        let reg = addr & IOADDR_UART_MASK;
        if reg == UART_REG_RXBUF {
            if self.dlab() {
                (self, con, self.divisor[0])
            } else {
                (
                    IoUART { buffered: false, buf: rx_translate(self.buf), ..self },
                    con,
                    rx_translate(self.buf),
                )
            }
        } else if reg == UART_REG_INTEN {
            (
                self,
                con,
                if self.dlab() {
                    self.divisor[1]
                } else {
                    self.int_enable
                },
            )
        } else if reg == UART_REG_INTID {
            (IoUART { int_ident: UART_REG_INTID_NO_INT, ..self }, con, self.int_ident)
        } else if reg == UART_REG_LINECTL {
            (self, con, self.line_control)
        } else if reg == UART_REG_MODEMCTL {
            (self, con, self.modem_control)
        } else if reg == UART_REG_LINESTAT {
            self.read_line_status(con)
        } else if reg == UART_REG_MODEMSTAT {
            (self, con, UART_MODEM_STATUS)
        } else if reg == UART_REG_SCRATCH {
            (self, con, self.scratch)
        } else {
            (self, con, 0u8)
        }
    }

    /// What the back-end is sent for a byte written to the transmit buffer:
    /// the byte as a character, a line feed preceded by a carriage return.
    pub open spec fn tx_chars(data: u8) -> Seq<char> {
        if data == ASCII_LF {
            seq![ASCII_CR as char, data as char]
        } else {
            seq![data as char]
        }
    }

    /// The UART and its back-end after `data` was written to the register at
    /// `addr`.
    pub open spec fn write_reg(self, con: UartConsoleView, addr: u32, data: u8) -> (
        IoUART,
        UartConsoleView,
    ) {
        let reg = addr & IOADDR_UART_MASK;
        if reg == UART_REG_TXBUF {
            if self.dlab() {
                (IoUART { divisor: vstd::array::spec_array_update(self.divisor, 0, data), ..self }, con)
            } else {
                (
                    if self.int_enable & UART_REG_INTEN_TX_DATA_EMPTY != 0 && self.int_ident
                        == UART_REG_INTID_NO_INT {
                        IoUART { int_ident: UART_REG_INTID_TX_DATA_EMPTY, ..self }
                    } else {
                        self
                    },
                    UartConsoleView { tx: con.tx + Self::tx_chars(data), ..con },
                )
            }
        } else if reg == UART_REG_INTEN {
            if self.dlab() {
                (IoUART { divisor: vstd::array::spec_array_update(self.divisor, 1, data), ..self }, con)
            } else {
                let r = (IoUART { int_enable: data, ..self }).read_line_status(con);
                (r.0, r.1)
            }
        } else if reg == UART_REG_LINECTL {
            (IoUART { line_control: data, ..self }, con)
        } else if reg == UART_REG_MODEMCTL {
            (IoUART { modem_control: data, ..self }, con)
        } else if reg == UART_REG_SCRATCH {
            (IoUART { scratch: data, ..self }, con)
        } else {
            (self, con)
        }
    }
}

/// Asks the UART to deliver a break (ETX) with the next poll.
pub fn request_send_break(uart: &mut IoUART)
    ensures
        *final(uart) == (IoUART { break_request: true, ..*old(uart) }),
{
    uart.break_request = true;
}

fn read_line_status(uart: &mut IoUART, uart_rw: &mut UartConsole) -> (v: u8)
    ensures
        (*final(uart), final(uart_rw)@, v) == old(uart).read_line_status(old(uart_rw)@),
{
    if !uart.buffered {
        if uart.break_request {
            uart.buffered = true;
            uart.buf = ASCII_ETX;
            uart.break_request = false;
        } else {
            match uart_rw.read() {
                Ok(d) => {
                    uart.buffered = true;
                    uart.buf = d;
                },
                Err(_) => {
                    uart.buffered = false;
                },
            }
        }
    }
    if uart.buffered {
        if 0 != (uart.int_enable & UART_REG_INTEN_RX_DATA_AVAIL) {
            uart.int_ident = UART_REG_INTID_RX_DATA_AVAIL;
        }
        UART_TX_BUF_EMPTY | UART_TX_EMPTY | UART_RX_BUF_FULL
    } else {
        UART_TX_BUF_EMPTY | UART_TX_EMPTY
    }
}

/// Reads the register at `addr`.
pub fn read_reg(uart: &mut IoUART, uart_rw: &mut UartConsole, addr: u32) -> (v: u8)
    ensures
        (*final(uart), final(uart_rw)@, v) == old(uart).read_reg(old(uart_rw)@, addr),
{
    let reg = addr & IOADDR_UART_MASK;
    if reg == UART_REG_RXBUF {
        if 0 != (uart.line_control & UART_REG_LINECTL_DLAB) {
            uart.divisor[0]
        } else {
            if uart.buffered {
                uart.buffered = false;
            }
            if uart.buf == ASCII_LF {
                uart.buf = ASCII_CR;
            } else if uart.buf == ASCII_DEL {
                uart.buf = ASCII_BS;
            }
            uart.buf
        }
    } else if reg == UART_REG_INTEN {
        if 0 != (uart.line_control & UART_REG_LINECTL_DLAB) {
            uart.divisor[1]
        } else {
            uart.int_enable
        }
    } else if reg == UART_REG_INTID {
        let prev_id: u8 = uart.int_ident;
        uart.int_ident = UART_REG_INTID_NO_INT;
        prev_id
    } else if reg == UART_REG_LINECTL {
        uart.line_control
    } else if reg == UART_REG_MODEMCTL {
        uart.modem_control
    } else if reg == UART_REG_LINESTAT {
        read_line_status(uart, uart_rw)
    } else if reg == UART_REG_MODEMSTAT {
        UART_MODEM_STATUS
    } else if reg == UART_REG_SCRATCH {
        uart.scratch
    } else {
        0
    }
}

/// Writes `data` to the register at `addr`.
pub fn write_reg(uart: &mut IoUART, uart_rw: &mut UartConsole, addr: u32, data: u8)
    ensures
        (*final(uart), final(uart_rw)@) == old(uart).write_reg(old(uart_rw)@, addr, data),
{
    let reg = addr & IOADDR_UART_MASK;
    if reg == UART_REG_TXBUF {
        if 0 != (uart.line_control & UART_REG_LINECTL_DLAB) {
            uart.divisor[0] = data;
        } else {
            if data == ASCII_LF {
                let _ = uart_rw.write(ASCII_CR as char);
            }
            let _ = uart_rw.write(data as char);
            if 0 != (uart.int_enable & UART_REG_INTEN_TX_DATA_EMPTY) {
                if uart.int_ident == UART_REG_INTID_NO_INT {
                    uart.int_ident = UART_REG_INTID_TX_DATA_EMPTY;
                }
            }
            assert(uart_rw@.tx =~= old(uart_rw)@.tx + IoUART::tx_chars(data));
        }
    } else if reg == UART_REG_INTEN {
        if 0 != (uart.line_control & UART_REG_LINECTL_DLAB) {
            uart.divisor[1] = data;
        } else {
            uart.int_enable = data;
            let _ = read_line_status(uart, uart_rw);
        }
    } else if reg == UART_REG_LINECTL {
        uart.line_control = data;
    } else if reg == UART_REG_MODEMCTL {
        uart.modem_control = data;
    } else if reg == UART_REG_SCRATCH {
        uart.scratch = data;
    }
}

} // verus!
