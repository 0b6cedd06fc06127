use dsmr_parse::{Error, FloatLiteral, PowerFailureEntry, Telegram, Tst, UnitValue};

const TELEGRAM: &[u8] = b"\
/XMX5LGBBFG1098765432\r\n\
\r\n\
1-3:0.2.8(42)\r\n\
0-0:1.0.0(190101125431W)\r\n\
0-0:96.1.1(4530303334353637383930313233343536)\r\n\
1-0:1.8.1(004169.415*kWh)\r\n\
1-0:1.8.2(004884.452*kWh)\r\n\
1-0:2.8.1(000000.000*kWh)\r\n\
1-0:2.8.2(000000.000*kWh)\r\n\
0-0:96.14.0(0001)\r\n\
1-0:1.7.0(00.741*kW)\r\n\
1-0:2.7.0(00.000*kW)\r\n\
0-0:96.7.21(00002)\r\n\
0-0:96.7.9(00000)\r\n\
1-0:99.97.0(0)(0-0:96.7.19)\r\n\
1-0:32.32.0(00000)\r\n\
1-0:32.36.0(00000)\r\n\
0-0:96.13.0()\r\n\
1-0:31.7.0(004*A)\r\n\
1-0:21.7.0(00.741*kW)\r\n\
1-0:22.7.0(00.000*kW)\r\n\
0-1:24.1.0(003)\r\n\
0-1:96.1.0(4730303632373439353036383732353930)\r\n\
0-1:24.2.1(190101120000W)(01619.203*m3)\r\n\
!47BE\r\n";

const TELEGRAM2: &[u8] = b"\
/ISK5\\2M550T-4567\r\n\
\r\n\
1-3:0.2.8(50)\r\n\
0-0:1.0.0(230309191049W)\r\n\
0-0:96.1.1(4530303837363534323130393837363534)\r\n\
1-0:1.8.1(000002.232*kWh)\r\n\
1-0:1.8.2(000000.000*kWh)\r\n\
1-0:2.8.1(000000.000*kWh)\r\n\
1-0:2.8.2(000000.000*kWh)\r\n\
0-0:96.14.0(0001)\r\n\
1-0:1.7.0(00.277*kW)\r\n\
1-0:2.7.0(00.000*kW)\r\n\
0-0:96.7.21(00005)\r\n\
0-0:96.7.9(00003)\r\n\
1-0:99.97.0(1)(0-0:96.7.19)(201106154035W)(0000000518*s)\r\n\
1-0:32.32.0(00000)\r\n\
1-0:52.32.0(00000)\r\n\
1-0:72.32.0(00000)\r\n\
1-0:32.36.0(00001)\r\n\
1-0:52.36.0(00001)\r\n\
1-0:72.36.0(00001)\r\n\
0-0:96.13.0()\r\n\
1-0:32.7.0(232.0*V)\r\n\
1-0:52.7.0(233.6*V)\r\n\
1-0:72.7.0(239.6*V)\r\n\
1-0:31.7.0(000*A)\r\n\
1-0:51.7.0(000*A)\r\n\
1-0:71.7.0(001*A)\r\n\
1-0:21.7.0(00.023*kW)\r\n\
1-0:41.7.0(00.064*kW)\r\n\
1-0:61.7.0(00.206*kW)\r\n\
1-0:22.7.0(00.000*kW)\r\n\
1-0:42.7.0(00.000*kW)\r\n\
1-0:62.7.0(00.000*kW)\r\n\
0-1:24.1.0(003)\r\n\
0-1:96.1.0()\r\n\
0-1:24.2.1(230309191001W)(00000.595*m3)\r\n\
!75D4\r\n";

const TELEGRAM3: &[u8] = b"\
/ISk5\\2MT382-1000\r\n\
\r\n\
1-3:0.2.8(50)\r\n\
0-0:1.0.0(101209113020W)\r\n\
0-0:96.1.1(4B384547303034303436333935353037)\r\n\
1-0:1.8.1(123456.789*kWh)\r\n\
1-0:1.8.2(123456.789*kWh)\r\n\
1-0:2.8.1(123456.789*kWh)\r\n\
1-0:2.8.2(123456.789*kWh)\r\n\
0-0:96.14.0(0002)\r\n\
1-0:1.7.0(01.193*kW)\r\n\
1-0:2.7.0(00.000*kW)\r\n\
0-0:96.7.21(00004)\r\n\
0-0:96.7.9(00002)\r\n\
1-0:99.97.0(2)(0-0:96.7.19)(101208152415W)(0000000240*s)(101208151004W)(0000000301*s)\r\n\
1-0:32.32.0(00002)\r\n\
1-0:52.32.0(00001)\r\n\
1-0:72.32.0(00000)\r\n\
1-0:32.36.0(00000)\r\n\
1-0:52.36.0(00003)\r\n\
1-0:72.36.0(00000)\r\n\
0-0:96.13.0(303132333435363738393A3B3C3D3E3F303132333435363738393A3B3C3D3E3F303132333435363738393A3B3C3D3E3F303132333435363738393A3B3C3D3E3F303132333435363738393A3B3C3D3E3F)\r\n\
1-0:32.7.0(220.1*V)\r\n\
1-0:52.7.0(220.2*V)\r\n\
1-0:72.7.0(220.3*V)\r\n\
1-0:31.7.0(001*A)\r\n\
1-0:51.7.0(002*A)\r\n\
1-0:71.7.0(003*A)\r\n\
1-0:21.7.0(01.111*kW)\r\n\
1-0:41.7.0(02.222*kW)\r\n\
1-0:61.7.0(03.333*kW)\r\n\
1-0:22.7.0(04.444*kW)\r\n\
1-0:42.7.0(05.555*kW)\r\n\
1-0:62.7.0(06.666*kW)\r\n\
0-1:24.1.0(003)\r\n\
0-1:96.1.0(3232323241424344313233343536373839)\r\n\
0-1:24.2.1(101209112500W)(12785.123*m3)\r\n\
!E47C\r\n";

/// A telegram with its floating-point numbers turned into machine numbers.
#[derive(Debug, PartialEq)]
struct Decoded {
    ident: String,
    version: Option<String>,
    electricity_date: Option<Tst>,
    electricity_equipment_id: Option<String>,
    electricity_consumed_tariff_1: Option<UnitValue<f64>>,
    electricity_consumed_tariff_2: Option<UnitValue<f64>>,
    electricity_generated_tariff_1: Option<UnitValue<f64>>,
    electricity_generated_tariff_2: Option<UnitValue<f64>>,
    current_tariff: Option<String>,
    power: Option<UnitValue<f64>>,
    return_power: Option<UnitValue<f64>>,
    power_failure_count: Option<u32>,
    long_power_failure_count: Option<u32>,
    power_failure_log: Vec<PowerFailureEntry>,
    voltage_sag_l1_count: Option<u32>,
    voltage_sag_l2_count: Option<u32>,
    voltage_sag_l3_count: Option<u32>,
    voltage_swell_l1_count: Option<u32>,
    voltage_swell_l2_count: Option<u32>,
    voltage_swell_l3_count: Option<u32>,
    message: Option<String>,
    voltage_l1: Option<UnitValue<f64>>,
    voltage_l2: Option<UnitValue<f64>>,
    voltage_l3: Option<UnitValue<f64>>,
    current_l1: Option<UnitValue<u16>>,
    current_l2: Option<UnitValue<u16>>,
    current_l3: Option<UnitValue<u16>>,
    power_l1: Option<UnitValue<f64>>,
    power_l2: Option<UnitValue<f64>>,
    power_l3: Option<UnitValue<f64>>,
    return_power_l1: Option<UnitValue<f64>>,
    return_power_l2: Option<UnitValue<f64>>,
    return_power_l3: Option<UnitValue<f64>>,
    device_type: Option<String>,
    gas_equipment_id: Option<String>,
    gas_date: Option<Tst>,
    gas_consumed: Option<UnitValue<f64>>,
}

fn number(value: Option<UnitValue<FloatLiteral>>) -> Option<UnitValue<f64>> {
    value.map(|v| UnitValue {
        value: std::str::from_utf8(v.value.as_bytes()).unwrap().parse().unwrap(),
        unit: v.unit,
    })
}

fn decoded(t: Telegram) -> Decoded {
    Decoded {
        ident: t.ident,
        version: t.version,
        electricity_date: t.electricity_date,
        electricity_equipment_id: t.electricity_equipment_id,
        electricity_consumed_tariff_1: number(t.electricity_consumed_tariff_1),
        electricity_consumed_tariff_2: number(t.electricity_consumed_tariff_2),
        electricity_generated_tariff_1: number(t.electricity_generated_tariff_1),
        electricity_generated_tariff_2: number(t.electricity_generated_tariff_2),
        current_tariff: t.current_tariff,
        power: number(t.power),
        return_power: number(t.return_power),
        power_failure_count: t.power_failure_count,
        long_power_failure_count: t.long_power_failure_count,
        power_failure_log: t.power_failure_log,
        voltage_sag_l1_count: t.voltage_sag_l1_count,
        voltage_sag_l2_count: t.voltage_sag_l2_count,
        voltage_sag_l3_count: t.voltage_sag_l3_count,
        voltage_swell_l1_count: t.voltage_swell_l1_count,
        voltage_swell_l2_count: t.voltage_swell_l2_count,
        voltage_swell_l3_count: t.voltage_swell_l3_count,
        message: t.message,
        voltage_l1: number(t.voltage_l1),
        voltage_l2: number(t.voltage_l2),
        voltage_l3: number(t.voltage_l3),
        current_l1: t.current_l1,
        current_l2: t.current_l2,
        current_l3: t.current_l3,
        power_l1: number(t.power_l1),
        power_l2: number(t.power_l2),
        power_l3: number(t.power_l3),
        return_power_l1: number(t.return_power_l1),
        return_power_l2: number(t.return_power_l2),
        return_power_l3: number(t.return_power_l3),
        device_type: t.device_type,
        gas_equipment_id: t.gas_equipment_id,
        gas_date: t.gas_date,
        gas_consumed: number(t.gas_consumed),
    }
}

#[test]
fn test_read_from() {
    let message = TELEGRAM;
    let tgrm = Telegram::read_from(message);
    assert!(matches!(tgrm, Ok(Some(..))));
    let tgrm_ref = Decoded {
        ident: "XMX5LGBBFG1098765432".to_string(),
        version: Some("42".to_string()),
        electricity_date: Some(Tst {
            year: 2019,
            month: 1,
            day: 1,
            hour: 12,
            minute: 54,
            second: 31,
            dst: false,
        }),
        electricity_equipment_id: Some("E0034567890123456".to_string()),
        electricity_consumed_tariff_1: Some(UnitValue::with_unit(4169.415, "kWh")),
        electricity_consumed_tariff_2: Some(UnitValue::with_unit(4884.452, "kWh")),
        electricity_generated_tariff_1: Some(UnitValue::with_unit(0., "kWh")),
        electricity_generated_tariff_2: Some(UnitValue::with_unit(0., "kWh")),
        current_tariff: Some("\0\u{1}".to_string()),
        power: Some(UnitValue::with_unit(0.741, "kW")),
        return_power: Some(UnitValue::with_unit(0., "kW")),
        power_failure_count: Some(2),
        long_power_failure_count: Some(0),
        power_failure_log: vec![],
        voltage_sag_l1_count: Some(0),
        voltage_sag_l2_count: None,
        voltage_sag_l3_count: None,
        voltage_swell_l1_count: Some(0),
        voltage_swell_l2_count: None,
        voltage_swell_l3_count: None,
        message: Some("".to_string()),
        voltage_l1: None,
        voltage_l2: None,
        voltage_l3: None,
        current_l1: Some(UnitValue::with_unit(4, "A")),
        current_l2: None,
        current_l3: None,
        power_l1: Some(UnitValue::with_unit(0.741, "kW")),
        power_l2: None,
        power_l3: None,
        return_power_l1: Some(UnitValue::with_unit(0.0, "kW")),
        return_power_l2: None,
        return_power_l3: None,
        device_type: Some("003".to_string()),
        gas_equipment_id: Some("G0062749506872590".to_string()),
        gas_date: Some(Tst {
            year: 2019,
            month: 1,
            day: 1,
            hour: 12,
            minute: 0,
            second: 0,
            dst: false,
        }),
        gas_consumed: Some(UnitValue::with_unit(1619.203, "m3")),
    };
    assert_eq!(tgrm.unwrap().map(decoded), Some(tgrm_ref));
}

#[test]
fn test_read_from2() {
    let message = TELEGRAM2;
    let tgrm = Telegram::read_from(message);
    assert!(matches!(tgrm, Ok(Some(..))));
    let tgrm_ref = Decoded {
        ident: "ISK5\\2M550T-4567".to_string(),
        version: Some("50".to_string()),
        electricity_date: Some(Tst {
            year: 2023,
            month: 3,
            day: 9,
            hour: 19,
            minute: 10,
            second: 49,
            dst: false,
        }),
        electricity_equipment_id: Some("E0087654210987654".to_string()),
        electricity_consumed_tariff_1: Some(UnitValue::with_unit(2.232, "kWh")),
        electricity_consumed_tariff_2: Some(UnitValue::with_unit(0., "kWh")),
        electricity_generated_tariff_1: Some(UnitValue::with_unit(0., "kWh")),
        electricity_generated_tariff_2: Some(UnitValue::with_unit(0., "kWh")),
        current_tariff: Some("\0\u{1}".to_string()),
        power: Some(UnitValue::with_unit(0.277, "kW")),
        return_power: Some(UnitValue::with_unit(0., "kW")),
        power_failure_count: Some(5),
        long_power_failure_count: Some(3),
        power_failure_log: vec![PowerFailureEntry {
            end_date: Tst {
                year: 2020,
                month: 11,
                day: 6,
                hour: 15,
                minute: 40,
                second: 35,
                dst: false,
            },
            duration: UnitValue::with_unit(518, "s"),
        }],
        voltage_sag_l1_count: Some(0),
        voltage_sag_l2_count: Some(0),
        voltage_sag_l3_count: Some(0),
        voltage_swell_l1_count: Some(1),
        voltage_swell_l2_count: Some(1),
        voltage_swell_l3_count: Some(1),
        message: Some("".to_string()),
        voltage_l1: Some(UnitValue::with_unit(232., "V")),
        voltage_l2: Some(UnitValue::with_unit(233.6, "V")),
        voltage_l3: Some(UnitValue::with_unit(239.6, "V")),
        current_l1: Some(UnitValue::with_unit(0, "A")),
        current_l2: Some(UnitValue::with_unit(0, "A")),
        current_l3: Some(UnitValue::with_unit(1, "A")),
        power_l1: Some(UnitValue::with_unit(0.023, "kW")),
        power_l2: Some(UnitValue::with_unit(0.064, "kW")),
        power_l3: Some(UnitValue::with_unit(0.206, "kW")),
        return_power_l1: Some(UnitValue::with_unit(0.0, "kW")),
        return_power_l2: Some(UnitValue::with_unit(0.0, "kW")),
        return_power_l3: Some(UnitValue::with_unit(0.0, "kW")),
        device_type: Some("003".to_string()),
        gas_equipment_id: Some("".to_string()),
        gas_date: Some(Tst {
            year: 2023,
            month: 3,
            day: 9,
            hour: 19,
            minute: 10,
            second: 1,
            dst: false,
        }),
        gas_consumed: Some(UnitValue::with_unit(0.595, "m3")),
    };
    assert_eq!(tgrm.unwrap().map(decoded), Some(tgrm_ref));
}

#[test]
fn test_read_from3() {
    let message = TELEGRAM3;
    let tgrm = Telegram::read_from(message);
    assert!(matches!(tgrm, Ok(Some(..))));
    let tgrm_ref = Decoded {
        ident: "ISk5\\2MT382-1000".to_string(),
        version: Some("50".to_string()),
        electricity_date: Some(Tst {
            year: 2010,
            month: 12,
            day: 9,
            hour: 11,
            minute: 30,
            second: 20,
            dst: false,
        }),
        electricity_equipment_id: Some("K8EG004046395507".to_string()),
        electricity_consumed_tariff_1: Some(UnitValue::with_unit(123456.789, "kWh")),
        electricity_consumed_tariff_2: Some(UnitValue::with_unit(123456.789, "kWh")),
        electricity_generated_tariff_1: Some(UnitValue::with_unit(123456.789, "kWh")),
        electricity_generated_tariff_2: Some(UnitValue::with_unit(123456.789, "kWh")),
        current_tariff: Some("\0\u{2}".to_string()),
        power: Some(UnitValue::with_unit(1.193, "kW")),
        return_power: Some(UnitValue::with_unit(0.0, "kW")),
        power_failure_count: Some(4),
        long_power_failure_count: Some(2),
        power_failure_log: vec![
            PowerFailureEntry {
                end_date: Tst {
                    year: 2010,
                    month: 12,
                    day: 8,
                    hour: 15,
                    minute: 24,
                    second: 15,
                    dst: false,
                },
                duration: UnitValue::with_unit(240, "s"),
            },
            PowerFailureEntry {
                end_date: Tst {
                    year: 2010,
                    month: 12,
                    day: 8,
                    hour: 15,
                    minute: 10,
                    second: 4,
                    dst: false,
                },
                duration: UnitValue::with_unit(301, "s"),
            },
        ],
        voltage_sag_l1_count: Some(2),
        voltage_sag_l2_count: Some(1),
        voltage_sag_l3_count: Some(0),
        voltage_swell_l1_count: Some(0),
        voltage_swell_l2_count: Some(3),
        voltage_swell_l3_count: Some(0),
        message: Some("0123456789:;<=>?0123456789:;<=>?0123456789:;<=>?0123456789:;<=>?0123456789:;<=>?".to_string()),
        voltage_l1: Some(UnitValue::with_unit(220.1, "V")),
        voltage_l2: Some(UnitValue::with_unit(220.2, "V")),
        voltage_l3: Some(UnitValue::with_unit(220.3, "V")),
        current_l1: Some(UnitValue::with_unit(1, "A")),
        current_l2: Some(UnitValue::with_unit(2, "A")),
        current_l3: Some(UnitValue::with_unit(3, "A")),
        power_l1: Some(UnitValue::with_unit(1.111, "kW")),
        power_l2: Some(UnitValue::with_unit(2.222, "kW")),
        power_l3: Some(UnitValue::with_unit(3.333, "kW")),
        return_power_l1: Some(UnitValue::with_unit(4.444, "kW")),
        return_power_l2: Some(UnitValue::with_unit(5.555, "kW")),
        return_power_l3: Some(UnitValue::with_unit(6.666, "kW")),
        device_type: Some("003".to_string()),
        gas_equipment_id: Some("2222ABCD123456789".to_string()),
        gas_date: Some(Tst {
            year: 2010,
            month: 12,
            day: 9,
            hour: 11,
            minute: 25,
            second: 0,
            dst: false,
        }),
        gas_consumed: Some(UnitValue::with_unit(12785.123, "m3")),
    };
    assert_eq!(tgrm.unwrap().map(decoded), Some(tgrm_ref));
}

#[test]
fn test_empty() {
    let tgrm = Telegram::read_from(b"" as &[u8]);
    assert!(matches!(tgrm, Ok(None)));

    let tgrm = Telegram::read_from(b"Garbage" as &[u8]);
    assert!(matches!(tgrm, Ok(None)));
}

#[test]
fn input_without_an_identifier_line_holds_no_telegram() {
    assert_eq!(Telegram::read_from(b"\r\n"), Ok(None));
    assert_eq!(Telegram::read_from(b"Garbage\r\nmore\r\n"), Ok(None));
    assert_eq!(Telegram::read_from(b"1-3:0.2.8(42)\r\n!0000\r\n"), Ok(None));
    assert_eq!(Telegram::read_from(b"x/ABC\r\n\r\n!0000\r\n"), Ok(None));
}

#[test]
fn telegram_without_a_trailer_line_is_no_telegram() {
    let whole = TELEGRAM;
    let cut = whole.len() - b"!47BE\r\n".len();
    assert_eq!(Telegram::read_from(&whole[..cut]), Ok(None));
    // The trailer line counts only once its line feed is in.
    assert_eq!(Telegram::read_from(&whole[..whole.len() - 1]), Ok(None));
    assert_eq!(Telegram::read_from(b"/ABC\r\n"), Ok(None));
    assert_eq!(Telegram::read_from(b"/ABC\r\n\r\n1-3:0.2.8(42)\r\n"), Ok(None));
}

#[test]
fn flipped_checksum_digit_is_a_mismatch_that_reports_the_computed_checksum() {
    let mut message = TELEGRAM.to_vec();
    let at = message.len() - 3;
    assert_eq!(message[at], b'E');
    message[at] = b'F';
    assert_eq!(Telegram::read_from(&message), Err(Error::CrcMismatch(0x47BE, 0x47BF)));

    let mut message = TELEGRAM3.to_vec();
    let at = message.len() - 6;
    assert_eq!(message[at], b'E');
    message[at] = b'0';
    assert_eq!(Telegram::read_from(&message), Err(Error::CrcMismatch(0xE47C, 0x047C)));
}

#[test]
fn changed_data_byte_is_a_mismatch() {
    let mut message = TELEGRAM.to_vec();
    let at = message.iter().position(|b| *b == b'(').unwrap() + 1;
    assert_eq!(message[at], b'4');
    message[at] = b'5';
    assert!(matches!(
        Telegram::read_from(&message),
        Err(Error::CrcMismatch(computed, 0x47BE)) if computed != 0x47BE
    ));
}

#[test]
fn checksum_is_the_arc_crc_of_the_bytes_up_to_the_bang() {
    for message in [TELEGRAM, TELEGRAM2, TELEGRAM3] {
        let bang = message.iter().rposition(|b| *b == b'!').unwrap();
        let computed = crc16::State::<crc16::ARC>::calculate(&message[..=bang]);
        let given = u16::from_str_radix(std::str::from_utf8(&message[bang + 1..bang + 5]).unwrap(), 16).unwrap();
        assert_eq!(computed, given);
        assert!(matches!(Telegram::read_from(message), Ok(Some(_))));
    }
}

#[test]
fn checksum_counts_a_bare_line_feed_as_a_full_line_end() {
    let message: Vec<u8> = TELEGRAM.iter().copied().filter(|b| *b != b'\r').collect();
    let read = Telegram::read_from(&message).unwrap().unwrap();
    assert_eq!(read.ident, "XMX5LGBBFG1098765432");
    assert_eq!(Some(read), Telegram::read_from(TELEGRAM).unwrap());
}

#[test]
fn end_to_end() {
    let message = b"/XMX5LGBBFG1009394887\r\n\r\n1-3:0.2.8(42)\r\n0-0:1.0.0(190101125431W)\r\n1-0:1.8.1(004169.415*kWh)\r\n!1234\r\n";
    let covered = &message[..message.len() - b"1234\r\n".len()];
    let computed = crc16::State::<crc16::ARC>::calculate(covered);
    assert_eq!(computed, 0x1135);
    assert_eq!(Telegram::read_from(message), Err(Error::CrcMismatch(0x1135, 0x1234)));

    let mut message = covered.to_vec();
    message.extend_from_slice(b"1135\r\n");
    let read = Telegram::read_from(&message).unwrap().unwrap();
    assert_eq!(read.ident, "XMX5LGBBFG1009394887");
    assert_eq!(read.version, Some("42".to_string()));
    assert_eq!(
        read.electricity_date,
        Some(Tst {
            year: 2019,
            month: 1,
            day: 1,
            hour: 12,
            minute: 54,
            second: 31,
            dst: false,
        })
    );
    assert_eq!(
        number(read.electricity_consumed_tariff_1.clone()),
        Some(UnitValue::with_unit(4169.415, "kWh"))
    );
    let only = Decoded {
        ident: "XMX5LGBBFG1009394887".to_string(),
        version: Some("42".to_string()),
        electricity_date: read.electricity_date,
        electricity_equipment_id: None,
        electricity_consumed_tariff_1: Some(UnitValue::with_unit(4169.415, "kWh")),
        electricity_consumed_tariff_2: None,
        electricity_generated_tariff_1: None,
        electricity_generated_tariff_2: None,
        current_tariff: None,
        power: None,
        return_power: None,
        power_failure_count: None,
        long_power_failure_count: None,
        power_failure_log: vec![],
        voltage_sag_l1_count: None,
        voltage_sag_l2_count: None,
        voltage_sag_l3_count: None,
        voltage_swell_l1_count: None,
        voltage_swell_l2_count: None,
        voltage_swell_l3_count: None,
        message: None,
        voltage_l1: None,
        voltage_l2: None,
        voltage_l3: None,
        current_l1: None,
        current_l2: None,
        current_l3: None,
        power_l1: None,
        power_l2: None,
        power_l3: None,
        return_power_l1: None,
        return_power_l2: None,
        return_power_l3: None,
        device_type: None,
        gas_equipment_id: None,
        gas_date: None,
        gas_consumed: None,
    };
    assert_eq!(decoded(read), only);
}

#[test]
fn default_telegram_is_empty() {
    let empty = Telegram::default();
    assert_eq!(empty.ident, "");
    assert_eq!(empty.version, None);
    assert_eq!(empty.power_failure_log, vec![]);
    assert_eq!(empty.gas_consumed, None);
}
