use rpizw_test::ads7830::{
    AdcInput, Differential, Reference, Selector, Single, ADS7830, CH0, CH1, CH2, CH3, CH4, CH5,
    CH6, CH7,
};
use rpizw_test::ads7830::channel_code;
use rpizw_test::ads7830::command_byte;
use rpizw_test::sim::SimBus;
use rpizw_test::utils::convert_nb_error;

fn all_selectors() -> Vec<Selector> {
    vec![
        Selector::DiffCh0Ch1,
        Selector::DiffCh2Ch3,
        Selector::DiffCh4Ch5,
        Selector::DiffCh6Ch7,
        Selector::DiffCh1Ch0,
        Selector::DiffCh3Ch2,
        Selector::DiffCh5Ch4,
        Selector::DiffCh7Ch6,
        Selector::SingleCh0,
        Selector::SingleCh1,
        Selector::SingleCh2,
        Selector::SingleCh3,
        Selector::SingleCh4,
        Selector::SingleCh5,
        Selector::SingleCh6,
        Selector::SingleCh7,
    ]
}

#[test]
fn selector_codes_match_table() {
    assert_eq!(channel_code(Selector::DiffCh0Ch1), 0b0000);
    assert_eq!(channel_code(Selector::DiffCh2Ch3), 0b0001);
    assert_eq!(channel_code(Selector::DiffCh4Ch5), 0b0010);
    assert_eq!(channel_code(Selector::DiffCh6Ch7), 0b0011);
    assert_eq!(channel_code(Selector::DiffCh1Ch0), 0b0100);
    assert_eq!(channel_code(Selector::DiffCh3Ch2), 0b0101);
    assert_eq!(channel_code(Selector::DiffCh5Ch4), 0b0110);
    assert_eq!(channel_code(Selector::DiffCh7Ch6), 0b0111);
    assert_eq!(channel_code(Selector::SingleCh0), 0b1000);
    assert_eq!(channel_code(Selector::SingleCh1), 0b1100);
    assert_eq!(channel_code(Selector::SingleCh2), 0b1001);
    assert_eq!(channel_code(Selector::SingleCh3), 0b1101);
    assert_eq!(channel_code(Selector::SingleCh4), 0b1010);
    assert_eq!(channel_code(Selector::SingleCh5), 0b1110);
    assert_eq!(channel_code(Selector::SingleCh6), 0b1011);
    assert_eq!(channel_code(Selector::SingleCh7), 0b1111);
}

#[test]
fn selector_codes_are_distinct() {
    let sels = all_selectors();
    for (i, a) in sels.iter().enumerate() {
        for (j, b) in sels.iter().enumerate() {
            if i != j {
                assert_ne!(channel_code(*a), channel_code(*b));
            }
        }
    }
}

#[test]
fn typestate_channels_match_table() {
    assert_eq!(<Differential<CH0, CH1> as AdcInput>::channel(), 0b0000);
    assert_eq!(<Differential<CH2, CH3> as AdcInput>::channel(), 0b0001);
    assert_eq!(<Differential<CH4, CH5> as AdcInput>::channel(), 0b0010);
    assert_eq!(<Differential<CH6, CH7> as AdcInput>::channel(), 0b0011);
    assert_eq!(<Differential<CH1, CH0> as AdcInput>::channel(), 0b0100);
    assert_eq!(<Differential<CH3, CH2> as AdcInput>::channel(), 0b0101);
    assert_eq!(<Differential<CH5, CH4> as AdcInput>::channel(), 0b0110);
    assert_eq!(<Differential<CH7, CH6> as AdcInput>::channel(), 0b0111);
    assert_eq!(<Single<CH0> as AdcInput>::channel(), 0b1000);
    assert_eq!(<Single<CH1> as AdcInput>::channel(), 0b1100);
    assert_eq!(<Single<CH2> as AdcInput>::channel(), 0b1001);
    assert_eq!(<Single<CH3> as AdcInput>::channel(), 0b1101);
    assert_eq!(<Single<CH4> as AdcInput>::channel(), 0b1010);
    assert_eq!(<Single<CH5> as AdcInput>::channel(), 0b1110);
    assert_eq!(<Single<CH6> as AdcInput>::channel(), 0b1011);
    assert_eq!(<Single<CH7> as AdcInput>::channel(), 0b1111);
}

#[test]
fn command_byte_single_ch0_internal() {
    let c = command_byte(Selector::SingleCh0, Reference::Internal);
    assert_eq!(c, 0x84);
    assert_eq!(c >> 7, 1);
    assert_eq!((c >> 4) & 0xf, 0b1000);
    assert_eq!((c >> 3) & 1, 0);
    assert_eq!((c >> 2) & 1, 1);
    assert_eq!(c & 3, 0);
}

#[test]
fn command_byte_reference_bit() {
    let internal = command_byte(Selector::SingleCh3, Reference::Internal);
    let external = command_byte(Selector::SingleCh3, Reference::External);
    assert_eq!((internal >> 3) & 1, 0);
    assert_eq!((external >> 3) & 1, 1);
    assert_eq!(internal, 0b1101_0100);
    assert_eq!(external, 0b1101_1100);
}

#[test]
fn command_byte_always_has_start_and_power_bits() {
    for s in all_selectors() {
        for m in [Reference::Internal, Reference::External] {
            let c = command_byte(s, m);
            assert_eq!(c >> 7, 1);
            assert_eq!((c >> 2) & 1, 1);
            assert_eq!(c & 3, 0);
        }
    }
}

#[test]
fn read_sends_one_command_byte_and_returns_the_answer() {
    let bus = SimBus::new(42);
    let mut adc = ADS7830::new(bus, 0x4b, Reference::Internal);
    let mut ch: Single<CH0> = Single::new();
    let got = adc.read(&mut ch).unwrap();
    assert_eq!(got, 42);
    assert_eq!(adc.i2c.raw.log, vec![(0x4b, 0x84)]);

    let mut diff: Differential<CH2, CH3> = Differential::new();
    let got = adc.read(&mut diff).unwrap();
    assert_eq!(got, 42);
    assert_eq!(adc.i2c.raw.log, vec![(0x4b, 0x84), (0x4b, 0x94)]);
}

#[test]
fn read_uses_the_stored_reference_mode() {
    let bus = SimBus::new(0);
    let mut adc = ADS7830::new(bus, 0x48, Reference::External);
    let mut ch: Single<CH0> = Single::new();
    adc.read(&mut ch).unwrap();
    assert_eq!(adc.i2c.raw.log, vec![(0x48, 0x8c)]);
}

#[test]
fn stored_reference_and_address_are_returned_unchanged() {
    let adc = ADS7830::new(SimBus::new(0), 0x4b, Reference::Internal);
    assert_eq!(adc.reference_mode(), Reference::Internal);
    assert_eq!(adc.address(), 0x4b);
    assert_eq!(adc.reference_mode(), Reference::Internal);
    assert_eq!(adc.address(), 0x4b);

    let adc = ADS7830::new(SimBus::new(0), 0x20, Reference::External);
    assert_eq!(adc.reference_mode(), Reference::External);
    assert_eq!(adc.address(), 0x20);
}

#[test]
fn convert_nb_error_flattens_all_cases() {
    let ok: Result<u8, nb::Error<&str>> = Ok(7);
    assert_eq!(convert_nb_error(ok), Ok(Some(7)));

    let block: Result<u8, nb::Error<&str>> = Err(nb::Error::WouldBlock);
    assert_eq!(convert_nb_error(block), Ok(None));

    let fault: Result<u8, nb::Error<&str>> = Err(nb::Error::Other("bus fault"));
    assert_eq!(convert_nb_error(fault), Err("bus fault"));
}

#[test]
fn voltage_round_trip_at_3v3() {
    let reference = 3.3_f64;
    for v in 0..=255u8 {
        let bus = SimBus::new(v);
        let mut adc = ADS7830::new(bus, 0x4b, Reference::Internal);
        let mut ch: Single<CH0> = Single::new();
        let sample = convert_nb_error(adc.read(&mut ch)).unwrap().unwrap();
        assert_eq!(sample, v);
        let voltage = sample as f64 / 255.0 * reference;
        assert_eq!(voltage, v as f64 / 255.0 * 3.3);
    }
    let zero = 0u8 as f64 / 255.0 * reference;
    assert_eq!(zero, 0.0);
    let full = 255u8 as f64 / 255.0 * reference;
    assert_eq!(full, 3.3);
}
