//! The record that a telegram is read into, and the table that says which
//! code fills which of its fields.

use vstd::prelude::*;
use vstd::string::*;
use vstd::utf8::{decode_utf8, valid_utf8};

use crate::ascii::is_text;
use crate::code_line::{LineView, ParsedLine};
use crate::number::{parse_u32, parse_unsigned, FloatLiteral};
use crate::telegram::error::Error;
use crate::text::str_from_utf8;
use crate::tst::{tst_of, Tst};
use crate::unit_value::{unit_float_of, unit_u16_of, UnitValue, UnitValueView};
use crate::values::{
    log_of, octets_of, parse_buffer, parse_mbus_value, parse_octet_string, reading_date_part,
    reading_value_part, PowerFailureEntry, PowerFailureView,
};

pub mod error;

verus! {

/// The characters of a text that may be absent.
pub open spec fn text_view(text: Option<String>) -> Option<Seq<char>> {
    match text {
        Some(t) => Some(t@),
        None => None,
    }
}

/// The view of a number with its unit that may be absent.
pub open spec fn unit_view<T: View>(value: Option<UnitValue<T>>) -> Option<UnitValueView<T::V>> {
    match value {
        Some(v) => Some(v@),
        None => None,
    }
}

/// The views of the entries of a power failure log.
pub open spec fn log_view(log: Seq<PowerFailureEntry>) -> Seq<PowerFailureView> {
    log.map_values(|e: PowerFailureEntry| e@)
}

/// Valid telegram
#[derive(Debug, PartialEq, Clone)]
pub struct Telegram {
    pub ident: String,
    pub version: Option<String>,
    pub electricity_date: Option<Tst>,
    pub electricity_equipment_id: Option<String>,
    pub electricity_consumed_tariff_1: Option<UnitValue<FloatLiteral>>,
    pub electricity_consumed_tariff_2: Option<UnitValue<FloatLiteral>>,
    pub electricity_generated_tariff_1: Option<UnitValue<FloatLiteral>>,
    pub electricity_generated_tariff_2: Option<UnitValue<FloatLiteral>>,
    pub current_tariff: Option<String>,
    pub power: Option<UnitValue<FloatLiteral>>,
    pub return_power: Option<UnitValue<FloatLiteral>>,
    pub power_failure_count: Option<u32>,
    pub long_power_failure_count: Option<u32>,
    pub power_failure_log: Vec<PowerFailureEntry>,
    pub voltage_sag_l1_count: Option<u32>,
    pub voltage_sag_l2_count: Option<u32>,
    pub voltage_sag_l3_count: Option<u32>,
    pub voltage_swell_l1_count: Option<u32>,
    pub voltage_swell_l2_count: Option<u32>,
    pub voltage_swell_l3_count: Option<u32>,
    pub message: Option<String>,
    pub voltage_l1: Option<UnitValue<FloatLiteral>>,
    pub voltage_l2: Option<UnitValue<FloatLiteral>>,
    pub voltage_l3: Option<UnitValue<FloatLiteral>>,
    pub current_l1: Option<UnitValue<u16>>,
    pub current_l2: Option<UnitValue<u16>>,
    pub current_l3: Option<UnitValue<u16>>,
    pub power_l1: Option<UnitValue<FloatLiteral>>,
    pub power_l2: Option<UnitValue<FloatLiteral>>,
    pub power_l3: Option<UnitValue<FloatLiteral>>,
    pub return_power_l1: Option<UnitValue<FloatLiteral>>,
    pub return_power_l2: Option<UnitValue<FloatLiteral>>,
    pub return_power_l3: Option<UnitValue<FloatLiteral>>,
    pub device_type: Option<String>,
    pub gas_equipment_id: Option<String>,
    pub gas_date: Option<Tst>,
    pub gas_consumed: Option<UnitValue<FloatLiteral>>,
}

/// What a [`Telegram`] holds: texts by their characters, and numbers with
/// their units by their views.
pub struct TelegramView {
    pub ident: Seq<char>,
    pub version: Option<Seq<char>>,
    pub electricity_date: Option<Tst>,
    pub electricity_equipment_id: Option<Seq<char>>,
    pub electricity_consumed_tariff_1: Option<UnitValueView<Seq<u8>>>,
    pub electricity_consumed_tariff_2: Option<UnitValueView<Seq<u8>>>,
    pub electricity_generated_tariff_1: Option<UnitValueView<Seq<u8>>>,
    pub electricity_generated_tariff_2: Option<UnitValueView<Seq<u8>>>,
    pub current_tariff: Option<Seq<char>>,
    pub power: Option<UnitValueView<Seq<u8>>>,
    pub return_power: Option<UnitValueView<Seq<u8>>>,
    pub power_failure_count: Option<u32>,
    pub long_power_failure_count: Option<u32>,
    pub power_failure_log: Seq<PowerFailureView>,
    pub voltage_sag_l1_count: Option<u32>,
    pub voltage_sag_l2_count: Option<u32>,
    pub voltage_sag_l3_count: Option<u32>,
    pub voltage_swell_l1_count: Option<u32>,
    pub voltage_swell_l2_count: Option<u32>,
    pub voltage_swell_l3_count: Option<u32>,
    pub message: Option<Seq<char>>,
    pub voltage_l1: Option<UnitValueView<Seq<u8>>>,
    pub voltage_l2: Option<UnitValueView<Seq<u8>>>,
    pub voltage_l3: Option<UnitValueView<Seq<u8>>>,
    pub current_l1: Option<UnitValueView<u16>>,
    pub current_l2: Option<UnitValueView<u16>>,
    pub current_l3: Option<UnitValueView<u16>>,
    pub power_l1: Option<UnitValueView<Seq<u8>>>,
    pub power_l2: Option<UnitValueView<Seq<u8>>>,
    pub power_l3: Option<UnitValueView<Seq<u8>>>,
    pub return_power_l1: Option<UnitValueView<Seq<u8>>>,
    pub return_power_l2: Option<UnitValueView<Seq<u8>>>,
    pub return_power_l3: Option<UnitValueView<Seq<u8>>>,
    pub device_type: Option<Seq<char>>,
    pub gas_equipment_id: Option<Seq<char>>,
    pub gas_date: Option<Tst>,
    pub gas_consumed: Option<UnitValueView<Seq<u8>>>,
}

impl View for Telegram {
    type V = TelegramView;

    open spec fn view(&self) -> TelegramView {
        TelegramView {
            ident: self.ident@,
            version: text_view(self.version),
            electricity_date: self.electricity_date,
            electricity_equipment_id: text_view(self.electricity_equipment_id),
            electricity_consumed_tariff_1: unit_view(self.electricity_consumed_tariff_1),
            electricity_consumed_tariff_2: unit_view(self.electricity_consumed_tariff_2),
            electricity_generated_tariff_1: unit_view(self.electricity_generated_tariff_1),
            electricity_generated_tariff_2: unit_view(self.electricity_generated_tariff_2),
            current_tariff: text_view(self.current_tariff),
            power: unit_view(self.power),
            return_power: unit_view(self.return_power),
            power_failure_count: self.power_failure_count,
            long_power_failure_count: self.long_power_failure_count,
            power_failure_log: log_view(self.power_failure_log@),
            voltage_sag_l1_count: self.voltage_sag_l1_count,
            voltage_sag_l2_count: self.voltage_sag_l2_count,
            voltage_sag_l3_count: self.voltage_sag_l3_count,
            voltage_swell_l1_count: self.voltage_swell_l1_count,
            voltage_swell_l2_count: self.voltage_swell_l2_count,
            voltage_swell_l3_count: self.voltage_swell_l3_count,
            message: text_view(self.message),
            voltage_l1: unit_view(self.voltage_l1),
            voltage_l2: unit_view(self.voltage_l2),
            voltage_l3: unit_view(self.voltage_l3),
            current_l1: unit_view(self.current_l1),
            current_l2: unit_view(self.current_l2),
            current_l3: unit_view(self.current_l3),
            power_l1: unit_view(self.power_l1),
            power_l2: unit_view(self.power_l2),
            power_l3: unit_view(self.power_l3),
            return_power_l1: unit_view(self.return_power_l1),
            return_power_l2: unit_view(self.return_power_l2),
            return_power_l3: unit_view(self.return_power_l3),
            device_type: text_view(self.device_type),
            gas_equipment_id: text_view(self.gas_equipment_id),
            gas_date: self.gas_date,
            gas_consumed: unit_view(self.gas_consumed),
        }
    }
}

impl TelegramView {
    /// The record of a telegram of which nothing was read yet.
    pub open spec fn empty() -> TelegramView {
        TelegramView {
            ident: Seq::empty(),
            version: None,
            electricity_date: None,
            electricity_equipment_id: None,
            electricity_consumed_tariff_1: None,
            electricity_consumed_tariff_2: None,
            electricity_generated_tariff_1: None,
            electricity_generated_tariff_2: None,
            current_tariff: None,
            power: None,
            return_power: None,
            power_failure_count: None,
            long_power_failure_count: None,
            power_failure_log: Seq::empty(),
            voltage_sag_l1_count: None,
            voltage_sag_l2_count: None,
            voltage_sag_l3_count: None,
            voltage_swell_l1_count: None,
            voltage_swell_l2_count: None,
            voltage_swell_l3_count: None,
            message: None,
            voltage_l1: None,
            voltage_l2: None,
            voltage_l3: None,
            current_l1: None,
            current_l2: None,
            current_l3: None,
            power_l1: None,
            power_l2: None,
            power_l3: None,
            return_power_l1: None,
            return_power_l2: None,
            return_power_l3: None,
            device_type: None,
            gas_equipment_id: None,
            gas_date: None,
            gas_consumed: None,
        }
    }

    /// This record with a text in `field`.
    pub open spec fn with_text(self, field: TextField, value: Seq<char>) -> TelegramView {
        match field {
            TextField::Version => TelegramView { version: Some(value), ..self },
            TextField::DeviceType => TelegramView { device_type: Some(value), ..self },
        }
    }

    /// This record with the outcome of decoding an octet string in `field`.
    pub open spec fn with_octets(self, field: OctetField, value: Option<Seq<char>>) -> TelegramView {
        match field {
            OctetField::ElectricityEquipmentId => TelegramView { electricity_equipment_id: value, ..self },
            OctetField::CurrentTariff => TelegramView { current_tariff: value, ..self },
            OctetField::Message => TelegramView { message: value, ..self },
            OctetField::GasEquipmentId => TelegramView { gas_equipment_id: value, ..self },
        }
    }

    /// This record with a floating-point number in `field`.
    pub open spec fn with_float(self, field: FloatField, value: Option<UnitValueView<Seq<u8>>>) -> TelegramView {
        match field {
            FloatField::ElectricityConsumedTariff1 => TelegramView { electricity_consumed_tariff_1: value, ..self },
            FloatField::ElectricityConsumedTariff2 => TelegramView { electricity_consumed_tariff_2: value, ..self },
            FloatField::ElectricityGeneratedTariff1 => TelegramView { electricity_generated_tariff_1: value, ..self },
            FloatField::ElectricityGeneratedTariff2 => TelegramView { electricity_generated_tariff_2: value, ..self },
            FloatField::Power => TelegramView { power: value, ..self },
            FloatField::ReturnPower => TelegramView { return_power: value, ..self },
            FloatField::VoltageL1 => TelegramView { voltage_l1: value, ..self },
            FloatField::VoltageL2 => TelegramView { voltage_l2: value, ..self },
            FloatField::VoltageL3 => TelegramView { voltage_l3: value, ..self },
            FloatField::PowerL1 => TelegramView { power_l1: value, ..self },
            FloatField::PowerL2 => TelegramView { power_l2: value, ..self },
            FloatField::PowerL3 => TelegramView { power_l3: value, ..self },
            FloatField::ReturnPowerL1 => TelegramView { return_power_l1: value, ..self },
            FloatField::ReturnPowerL2 => TelegramView { return_power_l2: value, ..self },
            FloatField::ReturnPowerL3 => TelegramView { return_power_l3: value, ..self },
        }
    }

    /// This record with a count in `field`.
    pub open spec fn with_count(self, field: CountField, value: Option<u32>) -> TelegramView {
        match field {
            CountField::PowerFailureCount => TelegramView { power_failure_count: value, ..self },
            CountField::LongPowerFailureCount => TelegramView { long_power_failure_count: value, ..self },
            CountField::VoltageSagL1Count => TelegramView { voltage_sag_l1_count: value, ..self },
            CountField::VoltageSagL2Count => TelegramView { voltage_sag_l2_count: value, ..self },
            CountField::VoltageSagL3Count => TelegramView { voltage_sag_l3_count: value, ..self },
            CountField::VoltageSwellL1Count => TelegramView { voltage_swell_l1_count: value, ..self },
            CountField::VoltageSwellL2Count => TelegramView { voltage_swell_l2_count: value, ..self },
            CountField::VoltageSwellL3Count => TelegramView { voltage_swell_l3_count: value, ..self },
        }
    }

    /// This record with a current in `field`.
    pub open spec fn with_current(self, field: CurrentField, value: Option<UnitValueView<u16>>) -> TelegramView {
        match field {
            CurrentField::CurrentL1 => TelegramView { current_l1: value, ..self },
            CurrentField::CurrentL2 => TelegramView { current_l2: value, ..self },
            CurrentField::CurrentL3 => TelegramView { current_l3: value, ..self },
        }
    }

}

impl Default for Telegram {
    fn default() -> (r: Self)
        ensures
            r@ == TelegramView::empty(),
    {
        let r = Telegram {
            ident: String::new(),
            version: None,
            electricity_date: None,
            electricity_equipment_id: None,
            electricity_consumed_tariff_1: None,
            electricity_consumed_tariff_2: None,
            electricity_generated_tariff_1: None,
            electricity_generated_tariff_2: None,
            current_tariff: None,
            power: None,
            return_power: None,
            power_failure_count: None,
            long_power_failure_count: None,
            power_failure_log: Vec::new(),
            voltage_sag_l1_count: None,
            voltage_sag_l2_count: None,
            voltage_sag_l3_count: None,
            voltage_swell_l1_count: None,
            voltage_swell_l2_count: None,
            voltage_swell_l3_count: None,
            message: None,
            voltage_l1: None,
            voltage_l2: None,
            voltage_l3: None,
            current_l1: None,
            current_l2: None,
            current_l3: None,
            power_l1: None,
            power_l2: None,
            power_l3: None,
            return_power_l1: None,
            return_power_l2: None,
            return_power_l3: None,
            device_type: None,
            gas_equipment_id: None,
            gas_date: None,
            gas_consumed: None,
        };
        assert(r.power_failure_log@.map_values(|e: PowerFailureEntry| e@) =~= Seq::empty());
        r
    }
}

impl Telegram {
    /// Puts a text into `field`.
    pub fn set_text(&mut self, field: TextField, value: String)
        ensures
            final(self)@ == old(self)@.with_text(field, value@),
    {
        match field {
            TextField::Version => {
                self.version = Some(value);
            },
            TextField::DeviceType => {
                self.device_type = Some(value);
            },
        }
    }

    /// Puts the outcome of decoding an octet string into `field`.
    pub fn set_octets(&mut self, field: OctetField, value: Option<String>)
        ensures
            final(self)@ == old(self)@.with_octets(field, text_view(value)),
    {
        match field {
            OctetField::ElectricityEquipmentId => {
                self.electricity_equipment_id = value;
            },
            OctetField::CurrentTariff => {
                self.current_tariff = value;
            },
            OctetField::Message => {
                self.message = value;
            },
            OctetField::GasEquipmentId => {
                self.gas_equipment_id = value;
            },
        }
    }

    /// Puts a floating-point number into `field`.
    pub fn set_float(&mut self, field: FloatField, value: Option<UnitValue<FloatLiteral>>)
        ensures
            final(self)@ == old(self)@.with_float(field, unit_view(value)),
    {
        match field {
            FloatField::ElectricityConsumedTariff1 => {
                self.electricity_consumed_tariff_1 = value;
            },
            FloatField::ElectricityConsumedTariff2 => {
                self.electricity_consumed_tariff_2 = value;
            },
            FloatField::ElectricityGeneratedTariff1 => {
                self.electricity_generated_tariff_1 = value;
            },
            FloatField::ElectricityGeneratedTariff2 => {
                self.electricity_generated_tariff_2 = value;
            },
            FloatField::Power => {
                self.power = value;
            },
            FloatField::ReturnPower => {
                self.return_power = value;
            },
            FloatField::VoltageL1 => {
                self.voltage_l1 = value;
            },
            FloatField::VoltageL2 => {
                self.voltage_l2 = value;
            },
            FloatField::VoltageL3 => {
                self.voltage_l3 = value;
            },
            FloatField::PowerL1 => {
                self.power_l1 = value;
            },
            FloatField::PowerL2 => {
                self.power_l2 = value;
            },
            FloatField::PowerL3 => {
                self.power_l3 = value;
            },
            FloatField::ReturnPowerL1 => {
                self.return_power_l1 = value;
            },
            FloatField::ReturnPowerL2 => {
                self.return_power_l2 = value;
            },
            FloatField::ReturnPowerL3 => {
                self.return_power_l3 = value;
            },
        }
    }

    /// Puts a count into `field`.
    pub fn set_count(&mut self, field: CountField, value: Option<u32>)
        ensures
            final(self)@ == old(self)@.with_count(field, value),
    {
        match field {
            CountField::PowerFailureCount => {
                self.power_failure_count = value;
            },
            CountField::LongPowerFailureCount => {
                self.long_power_failure_count = value;
            },
            CountField::VoltageSagL1Count => {
                self.voltage_sag_l1_count = value;
            },
            CountField::VoltageSagL2Count => {
                self.voltage_sag_l2_count = value;
            },
            CountField::VoltageSagL3Count => {
                self.voltage_sag_l3_count = value;
            },
            CountField::VoltageSwellL1Count => {
                self.voltage_swell_l1_count = value;
            },
            CountField::VoltageSwellL2Count => {
                self.voltage_swell_l2_count = value;
            },
            CountField::VoltageSwellL3Count => {
                self.voltage_swell_l3_count = value;
            },
        }
    }

    /// Puts a current into `field`.
    pub fn set_current(&mut self, field: CurrentField, value: Option<UnitValue<u16>>)
        ensures
            final(self)@ == old(self)@.with_current(field, unit_view(value)),
    {
        match field {
            CurrentField::CurrentL1 => {
                self.current_l1 = value;
            },
            CurrentField::CurrentL2 => {
                self.current_l2 = value;
            },
            CurrentField::CurrentL3 => {
                self.current_l3 = value;
            },
        }
    }

}

/// The fields that hold a text as it was sent.
#[derive(Debug, Clone, Copy, PartialEq, Eq, Structural)]
pub enum TextField {
    Version,
    DeviceType,
}

/// The fields that hold a text that was sent as an octet string.
#[derive(Debug, Clone, Copy, PartialEq, Eq, Structural)]
pub enum OctetField {
    ElectricityEquipmentId,
    CurrentTariff,
    Message,
    GasEquipmentId,
}

/// The fields that hold a floating-point number with its unit.
#[derive(Debug, Clone, Copy, PartialEq, Eq, Structural)]
pub enum FloatField {
    ElectricityConsumedTariff1,
    ElectricityConsumedTariff2,
    ElectricityGeneratedTariff1,
    ElectricityGeneratedTariff2,
    Power,
    ReturnPower,
    VoltageL1,
    VoltageL2,
    VoltageL3,
    PowerL1,
    PowerL2,
    PowerL3,
    ReturnPowerL1,
    ReturnPowerL2,
    ReturnPowerL3,
}

/// The fields that hold a count.
#[derive(Debug, Clone, Copy, PartialEq, Eq, Structural)]
pub enum CountField {
    PowerFailureCount,
    LongPowerFailureCount,
    VoltageSagL1Count,
    VoltageSagL2Count,
    VoltageSagL3Count,
    VoltageSwellL1Count,
    VoltageSwellL2Count,
    VoltageSwellL3Count,
}

/// The fields that hold a current with its unit.
#[derive(Debug, Clone, Copy, PartialEq, Eq, Structural)]
pub enum CurrentField {
    CurrentL1,
    CurrentL2,
    CurrentL3,
}

/// The field that the code `path` stands for, if it stands for one. The
/// code is compared byte for byte.
#[verifier::opaque]
pub open spec fn field_of(path: Seq<u8>) -> Option<Field> {
    if path == "0.2.8".spec_bytes() {
        Some(Field::Text(TextField::Version))
    } else if path == "24.1.0".spec_bytes() {
        Some(Field::Text(TextField::DeviceType))
    } else if path == "1.0.0".spec_bytes() {
        Some(Field::ElectricityDate)
    } else if path == "96.1.1".spec_bytes() {
        Some(Field::Octets(OctetField::ElectricityEquipmentId))
    } else if path == "96.14.0".spec_bytes() {
        Some(Field::Octets(OctetField::CurrentTariff))
    } else if path == "96.13.0".spec_bytes() {
        Some(Field::Octets(OctetField::Message))
    } else if path == "96.1.0".spec_bytes() {
        Some(Field::Octets(OctetField::GasEquipmentId))
    } else if path == "1.8.1".spec_bytes() {
        Some(Field::Float(FloatField::ElectricityConsumedTariff1))
    } else if path == "1.8.2".spec_bytes() {
        Some(Field::Float(FloatField::ElectricityConsumedTariff2))
    } else if path == "2.8.1".spec_bytes() {
        Some(Field::Float(FloatField::ElectricityGeneratedTariff1))
    } else if path == "2.8.2".spec_bytes() {
        Some(Field::Float(FloatField::ElectricityGeneratedTariff2))
    } else if path == "1.7.0".spec_bytes() {
        Some(Field::Float(FloatField::Power))
    } else if path == "2.7.0".spec_bytes() {
        Some(Field::Float(FloatField::ReturnPower))
    } else if path == "32.7.0".spec_bytes() {
        Some(Field::Float(FloatField::VoltageL1))
    } else if path == "52.7.0".spec_bytes() {
        Some(Field::Float(FloatField::VoltageL2))
    } else if path == "72.7.0".spec_bytes() {
        Some(Field::Float(FloatField::VoltageL3))
    } else if path == "21.7.0".spec_bytes() {
        Some(Field::Float(FloatField::PowerL1))
    } else if path == "41.7.0".spec_bytes() {
        Some(Field::Float(FloatField::PowerL2))
    } else if path == "61.7.0".spec_bytes() {
        Some(Field::Float(FloatField::PowerL3))
    } else if path == "22.7.0".spec_bytes() {
        Some(Field::Float(FloatField::ReturnPowerL1))
    } else if path == "42.7.0".spec_bytes() {
        Some(Field::Float(FloatField::ReturnPowerL2))
    } else if path == "62.7.0".spec_bytes() {
        Some(Field::Float(FloatField::ReturnPowerL3))
    } else if path == "96.7.21".spec_bytes() {
        Some(Field::Count(CountField::PowerFailureCount))
    } else if path == "96.7.9".spec_bytes() {
        Some(Field::Count(CountField::LongPowerFailureCount))
    } else if path == "32.32.0".spec_bytes() {
        Some(Field::Count(CountField::VoltageSagL1Count))
    } else if path == "52.32.0".spec_bytes() {
        Some(Field::Count(CountField::VoltageSagL2Count))
    } else if path == "72.32.0".spec_bytes() {
        Some(Field::Count(CountField::VoltageSagL3Count))
    } else if path == "32.36.0".spec_bytes() {
        Some(Field::Count(CountField::VoltageSwellL1Count))
    } else if path == "52.36.0".spec_bytes() {
        Some(Field::Count(CountField::VoltageSwellL2Count))
    } else if path == "72.36.0".spec_bytes() {
        Some(Field::Count(CountField::VoltageSwellL3Count))
    } else if path == "31.7.0".spec_bytes() {
        Some(Field::Current(CurrentField::CurrentL1))
    } else if path == "51.7.0".spec_bytes() {
        Some(Field::Current(CurrentField::CurrentL2))
    } else if path == "71.7.0".spec_bytes() {
        Some(Field::Current(CurrentField::CurrentL3))
    } else if path == "99.97.0".spec_bytes() {
        Some(Field::PowerFailureLog)
    } else if path == "24.2.1".spec_bytes() {
        Some(Field::GasReading)
    } else {
        None
    }
}

impl Field {
    /// The field that the code `path` stands for: see [`field_of`].
    pub fn lookup(path: &[u8]) -> (r: Option<Field>)
        ensures
            r == field_of(path@),
    {
        reveal(field_of);
        if is_text(path, "0.2.8") {
            Some(Field::Text(TextField::Version))
        } else if is_text(path, "24.1.0") {
            Some(Field::Text(TextField::DeviceType))
        } else if is_text(path, "1.0.0") {
            Some(Field::ElectricityDate)
        } else if is_text(path, "96.1.1") {
            Some(Field::Octets(OctetField::ElectricityEquipmentId))
        } else if is_text(path, "96.14.0") {
            Some(Field::Octets(OctetField::CurrentTariff))
        } else if is_text(path, "96.13.0") {
            Some(Field::Octets(OctetField::Message))
        } else if is_text(path, "96.1.0") {
            Some(Field::Octets(OctetField::GasEquipmentId))
        } else if is_text(path, "1.8.1") {
            Some(Field::Float(FloatField::ElectricityConsumedTariff1))
        } else if is_text(path, "1.8.2") {
            Some(Field::Float(FloatField::ElectricityConsumedTariff2))
        } else if is_text(path, "2.8.1") {
            Some(Field::Float(FloatField::ElectricityGeneratedTariff1))
        } else if is_text(path, "2.8.2") {
            Some(Field::Float(FloatField::ElectricityGeneratedTariff2))
        } else if is_text(path, "1.7.0") {
            Some(Field::Float(FloatField::Power))
        } else if is_text(path, "2.7.0") {
            Some(Field::Float(FloatField::ReturnPower))
        } else if is_text(path, "32.7.0") {
            Some(Field::Float(FloatField::VoltageL1))
        } else if is_text(path, "52.7.0") {
            Some(Field::Float(FloatField::VoltageL2))
        } else if is_text(path, "72.7.0") {
            Some(Field::Float(FloatField::VoltageL3))
        } else if is_text(path, "21.7.0") {
            Some(Field::Float(FloatField::PowerL1))
        } else if is_text(path, "41.7.0") {
            Some(Field::Float(FloatField::PowerL2))
        } else if is_text(path, "61.7.0") {
            Some(Field::Float(FloatField::PowerL3))
        } else if is_text(path, "22.7.0") {
            Some(Field::Float(FloatField::ReturnPowerL1))
        } else if is_text(path, "42.7.0") {
            Some(Field::Float(FloatField::ReturnPowerL2))
        } else if is_text(path, "62.7.0") {
            Some(Field::Float(FloatField::ReturnPowerL3))
        } else if is_text(path, "96.7.21") {
            Some(Field::Count(CountField::PowerFailureCount))
        } else if is_text(path, "96.7.9") {
            Some(Field::Count(CountField::LongPowerFailureCount))
        } else if is_text(path, "32.32.0") {
            Some(Field::Count(CountField::VoltageSagL1Count))
        } else if is_text(path, "52.32.0") {
            Some(Field::Count(CountField::VoltageSagL2Count))
        } else if is_text(path, "72.32.0") {
            Some(Field::Count(CountField::VoltageSagL3Count))
        } else if is_text(path, "32.36.0") {
            Some(Field::Count(CountField::VoltageSwellL1Count))
        } else if is_text(path, "52.36.0") {
            Some(Field::Count(CountField::VoltageSwellL2Count))
        } else if is_text(path, "72.36.0") {
            Some(Field::Count(CountField::VoltageSwellL3Count))
        } else if is_text(path, "31.7.0") {
            Some(Field::Current(CurrentField::CurrentL1))
        } else if is_text(path, "51.7.0") {
            Some(Field::Current(CurrentField::CurrentL2))
        } else if is_text(path, "71.7.0") {
            Some(Field::Current(CurrentField::CurrentL3))
        } else if is_text(path, "99.97.0") {
            Some(Field::PowerFailureLog)
        } else if is_text(path, "24.2.1") {
            Some(Field::GasReading)
        } else {
            None
        }
    }
}

/// What a code stands for: the field it fills, grouped by the shape of the
/// value that the field holds.
#[derive(Debug, Clone, Copy, PartialEq, Eq, Structural)]
pub enum Field {
    /// A text, taken as it was sent.
    Text(TextField),
    /// A text, sent as an octet string.
    Octets(OctetField),
    /// The time stamp of the telegram.
    ElectricityDate,
    /// A floating-point number with its unit.
    Float(FloatField),
    /// A count.
    Count(CountField),
    /// A current with its unit.
    Current(CurrentField),
    /// The log of power failures: a list of pairs of a time stamp and a
    /// duration.
    PowerFailureLog,
    /// The gas reading: a time stamp and a floating-point number with its
    /// unit.
    GasReading,
}

/// What becomes of the record `t` when `line`, whose code stands for
/// `field`, is stored in it.
///
/// A text that is not valid UTF-8 and a number that is none end the read. An
/// octet string or a time stamp that is none leaves its field empty, and an
/// entry of the power failure log that is none is left out.
#[verifier::opaque]
pub open spec fn stored(t: TelegramView, field: Field, line: LineView) -> Result<
    TelegramView,
    Error,
> {
    match field {
        Field::Text(f) => if valid_utf8(line.value) {
            Ok(t.with_text(f, decode_utf8(line.value)))
        } else {
            Err(Error::NonUtf8Parse)
        },
        Field::Octets(f) => Ok(t.with_octets(f, octets_of(line.value))),
        Field::ElectricityDate => Ok(TelegramView { electricity_date: tst_of(line.value), ..t }),
        Field::Float(f) => match unit_float_of(line.value) {
            Some(v) => Ok(t.with_float(f, Some(v))),
            None => Err(Error::InvalidFloat),
        },
        Field::Count(f) => match parse_unsigned(line.value, 10, 0xffff_ffff) {
            Some(v) => Ok(t.with_count(f, Some(v as u32))),
            None => Err(Error::InvalidInt),
        },
        Field::Current(f) => match unit_u16_of(line.value) {
            Some(v) => Ok(t.with_current(f, Some(v))),
            None => Err(Error::InvalidInt),
        },
        Field::PowerFailureLog => Ok(TelegramView { power_failure_log: log_of(line.span), ..t }),
        Field::GasReading => {
            let dated = TelegramView { gas_date: tst_of(reading_date_part(line.span)), ..t };
            match reading_value_part(line.span) {
                None => Ok(dated),
                Some(number) => match unit_float_of(number) {
                    Some(v) => Ok(TelegramView { gas_consumed: Some(v), ..dated }),
                    None => Err(Error::InvalidFloat),
                },
            }
        },
    }
}

impl Telegram {
    /// Stores `line`, whose code stands for `field`: see [`stored`]. After a
    /// failure the record is of no use.
    pub fn store(&mut self, field: Field, line: &ParsedLine) -> (r: Result<(), Error>)
        ensures
            match stored(old(self)@, field, line@) {
                Ok(t) => r.is_ok() && final(self)@ == t,
                Err(e) => r == Err::<(), Error>(e),
            },
    {
        reveal(stored);
        match field {
            Field::Text(f) => match str_from_utf8(line.value) {
                Some(text) => {
                    self.set_text(f, text.to_owned());
                    Ok(())
                },
                None => Err(Error::NonUtf8Parse),
            },
            Field::Octets(f) => {
                self.set_octets(f, parse_octet_string(line.value));
                Ok(())
            },
            Field::ElectricityDate => {
                self.electricity_date = Tst::try_from_bytes(line.value);
                Ok(())
            },
            Field::Float(f) => match UnitValue::<FloatLiteral>::from_bytes(line.value) {
                Some(v) => {
                    self.set_float(f, Some(v));
                    Ok(())
                },
                None => Err(Error::InvalidFloat),
            },
            Field::Count(f) => match parse_u32(line.value) {
                Some(v) => {
                    self.set_count(f, Some(v));
                    Ok(())
                },
                None => Err(Error::InvalidInt),
            },
            Field::Current(f) => match UnitValue::<u16>::from_bytes(line.value) {
                Some(v) => {
                    self.set_current(f, Some(v));
                    Ok(())
                },
                None => Err(Error::InvalidInt),
            },
            Field::PowerFailureLog => {
                self.power_failure_log = parse_buffer(line.span);
                Ok(())
            },
            Field::GasReading => {
                let (date, number) = parse_mbus_value(line.span);
                self.gas_date = Tst::try_from_bytes(date);
                match number {
                    None => Ok(()),
                    Some(number) => match UnitValue::<FloatLiteral>::from_bytes(number) {
                        Some(v) => {
                            self.gas_consumed = Some(v);
                            Ok(())
                        },
                        None => Err(Error::InvalidFloat),
                    },
                }
            },
        }
    }
}

} // verus!
