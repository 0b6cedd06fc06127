//! # dsmr-parse
//!
//! A small library for parsing DSMR 5 (Dutch Smart Meter Requirements) telegrams from Dutch electricity meters.
//!
//! The central struct is [Telegram] with its method [Telegram::read_from]. Pass it the bytes that
//! the meter sent, and it will try to read a valid and conforming DSMR telegram with the correct
//! CRC from them. Every function of the library is verified with Verus against the contract that
//! it carries; [`parser::read`] states what a read does, and [`laws`] states what holds of every
//! read.
//!
//! ## Usage
//!
//! ### Reading from a byte slice
//!
//! ```
//! use dsmr_parse::Telegram;
//!
//! let telegram_data = b"/XMX5LGBBFG1009394887\r\n\r\n1-3:0.2.8(42)\r\n0-0:1.0.0(190101125431W)\r\n1-0:1.8.1(004169.415*kWh)\r\n!1135\r\n";
//!
//! match Telegram::read_from(telegram_data.as_slice()) {
//!     Ok(Some(telegram)) => println!("Read telegram: {telegram:?}"),
//!     Ok(None) => println!("No complete telegram in data"),
//!     Err(e) => eprintln!("Parse error: {e:?}"),
//! }
//! ```
//!
//! ### Reading telegram after telegram
//!
//! ```
//! use dsmr_parse::{LineReader, Telegram};
//!
//! # let received: &[u8] = b"";
//! let mut lines = LineReader::new(received);
//! while let Ok(Some(telegram)) = Telegram::read_next(&mut lines) {
//!     println!("Read telegram: {telegram:?}");
//! }
//! ```
//!
//! ### Reading as the bytes come in
//!
//! A source that hands out its bytes one at a time, such as a serial port, feeds a
//! [`line_reader::LineBuffer`], and each line that comes out of it goes to a [`TelegramParser`].
//!
//! ## Potential Pitfalls
//!
//! - CRC Validation: telegrams with incorrect CRC checksums will be rejected. Ensure data integrity during transmission,
//!   especially when reading from serial ports with poor connections.
//! - Serial Port Configuration: DSMR meters typically use 115200 baud, 8N1: 8 data bits, no parity, 1 stop bit. Incorrect
//!   settings will result in garbled data and parse errors.
//! - Floating-point numbers are kept as the text that was sent: see [`FloatLiteral`].
//!
//! ## The protocol
//!
//! The telegrams are those of the companion standard DSMR 5.0.2 of Netbeheer Nederland.

pub mod ascii;
pub mod code_line;
pub mod crc;
pub mod laws;
pub mod line_reader;
pub mod number;
pub mod parser;
pub mod telegram;
pub mod text;
pub mod tst;
pub mod unit_value;
pub mod values;
pub mod zoned;

pub use code_line::{ParsedLine, ParsedObis};
pub use line_reader::LineReader;
pub use number::FloatLiteral;
pub use parser::{Event, ParserState, TelegramParser};
pub use telegram::error::Error;
pub use telegram::{Field, Telegram};
pub use tst::Tst;
pub use unit_value::UnitValue;
pub use values::PowerFailureEntry;
