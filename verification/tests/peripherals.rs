//! The peripheral value types: bit decoding, wire codes, and the
//! configuration models.

use robot_hal::can::CanStreamMessage;
use robot_hal::dio::{DigitalInput, DigitalOutput, PwmGenerator};
use robot_hal::driverstation::{
    station_of_id, AllianceStation, AllianceStationID, ControlWord, MatchInfo, MatchType,
};
use robot_hal::encoder::{Encoder, EncodingType, IndexingType};
use robot_hal::enums::{AccelerometerRange, AnalogTriggerType, CounterMode, RuntimeType};
use robot_hal::error::HalError;
use robot_hal::halio::RobotIoPort;
use robot_hal::handle::{
    transmute_handle, AnalogInputHandle, DigitalHandle, DigitalPwmHandle, EncoderHandle,
    GyroHandle, Handle, InterruptHandle, SolenoidHandle,
};
use robot_hal::interrupt::InterruptHandler;
use robot_hal::joystick::{Buttons, Descriptor, Joystick, JoystickType, Povs};
use robot_hal::pdp::PowerDistributionPanel;
use robot_hal::pwm::{Pwm, PwmConfig};
use robot_hal::registry::check_invalid;
use robot_hal::relay::{AnyRelay, DoubleRelay, DualValue, Relay};
use robot_hal::serial::{FlowControl, Parity, Port, Serial, StopBits, WriteMode};
use robot_hal::solenoid::Solenoid;
use robot_hal::spi::{transfer_outcome, BitDirection, Polarity, SampleEdge, Spi, SpiPort};
use robot_hal::structs;

#[test]
fn control_word_bits_unpack_from_the_least_significant_bit_up() {
    let raw = ControlWord(0b101011);
    assert!(raw.enabled());
    assert!(raw.autonomous());
    assert!(!raw.test());
    assert!(raw.emergency_stop());
    assert!(!raw.fms_attached());
    assert!(raw.ds_attached());

    let word = structs::ControlWord::from(raw);
    assert!(word.enabled && word.autonomous && word.stopped && word.ds_attached);
    assert!(!word.test && !word.fms_attached);

    let off = structs::ControlWord::all_off();
    assert_eq!(off, structs::ControlWord::from(ControlWord(0)));
}

#[test]
fn alliance_stations_decode_to_color_and_position() {
    assert_eq!(station_of_id(AllianceStationID::Red1), AllianceStation::Red(1));
    assert_eq!(station_of_id(AllianceStationID::Red3), AllianceStation::Red(3));
    assert_eq!(station_of_id(AllianceStationID::Blue2), AllianceStation::Blue(2));
    assert_eq!(AllianceStationID::Blue3.as_i32(), 5);
    assert_eq!(AllianceStationID::Red1.as_i32(), 0);
}

#[test]
fn match_info_carries_the_decoded_fields() {
    let info = MatchInfo::new(
        String::from("district event"),
        MatchType::Qualification,
        12,
        1,
        String::from("LLL"),
    );
    assert_eq!(info.event_name, "district event");
    assert_eq!(info.match_type, MatchType::Qualification);
    assert_eq!(info.match_number, 12);
    assert_eq!(info.replay_number, 1);
    assert_eq!(info.game_specific_message, "LLL");
}

#[test]
fn joystick_buttons_spread_the_bitmask_one_flag_per_bit() {
    let raw = Buttons { buttons: 0b1010, count: 4 };
    let buttons = structs::JoystickButtons::from(raw);
    assert_eq!(buttons.buttons_down.len(), 32);
    assert!(!buttons.buttons_down[0]);
    assert!(buttons.buttons_down[1]);
    assert!(!buttons.buttons_down[2]);
    assert!(buttons.buttons_down[3]);
    assert!(!buttons.buttons_down[31]);
    assert_eq!(buttons.count, 4);

    let all = structs::JoystickButtons::from(Buttons { buttons: u32::MAX, count: 32 });
    assert!(all.buttons_down.iter().all(|b| *b));
}

#[test]
fn joystick_records_convert_field_for_field() {
    let povs = Povs { count: 2, povs: [90, 270, 0, 0, 0, 0, 0, 0, 0, 0, 0, 0] };
    let converted = structs::JoystickPovs::from(povs);
    assert_eq!(converted.count, 2);
    assert_eq!(converted.povs[0], 90);
    assert_eq!(converted.povs[1], 270);

    let descriptor = Descriptor {
        is_xbox: 1,
        stick_type: 20,
        name: String::from("gamepad"),
        axis_count: 4,
        axis_types: [0; 12],
        pov_count: 1,
        button_count: 10,
    };
    assert!(descriptor.is_xbox());
    assert_eq!(descriptor.get_type(), 20);
    assert_eq!(descriptor.name(), "gamepad");

    let converted = structs::JoystickDescriptor::from(descriptor);
    assert!(converted.is_xbox);
    assert_eq!(converted.stick_type, JoystickType::Unknown(20));
    assert_eq!(converted.name, "gamepad");
    assert_eq!(converted.button_count, 10);

    assert_eq!(Joystick::new(2).number, 2);
    assert_eq!(JoystickType::from(-3), JoystickType::Unknown(-3));
}

#[test]
fn a_dual_relay_maps_the_four_states_onto_its_halves() {
    let forward = Relay::from_handle(robot_hal::handle::RelayHandle(11));
    let reverse = Relay::from_handle(robot_hal::handle::RelayHandle(12));
    let mut double = DoubleRelay::from_relays(forward, reverse);

    assert_eq!(double.get(), DualValue::Off);
    double.set(DualValue::Forward);
    assert_eq!(double.get(), DualValue::Forward);
    double.set(DualValue::On);
    assert_eq!(double.get(), DualValue::On);
    double.set(DualValue::Reverse);
    assert_eq!(double.get(), DualValue::Reverse);
    double.set(DualValue::Off);
    assert_eq!(double.get(), DualValue::Off);
}

#[test]
fn any_relay_reports_on_or_off_for_a_single_direction() {
    let mut relay = AnyRelay::Forward(Relay::from_handle(robot_hal::handle::RelayHandle(5)));
    assert_eq!(relay.get(), DualValue::Off);
    relay.set(DualValue::Forward);
    assert_eq!(relay.get(), DualValue::On);
    relay.set(DualValue::Off);
    assert_eq!(relay.get(), DualValue::Off);

    let mut relay = AnyRelay::Backward(Relay::from_handle(robot_hal::handle::RelayHandle(6)));
    relay.set(DualValue::Reverse);
    assert_eq!(relay.get(), DualValue::On);
}

#[test]
fn serial_wire_codes_match_the_native_header() {
    assert_eq!(Port::Onboard.as_i32(), 0);
    assert_eq!(Port::USB2.as_i32(), 3);
    assert_eq!(Parity::Disabled.as_i32(), 0);
    assert_eq!(Parity::Space.as_i32(), 4);
    assert_eq!(StopBits::One.as_i32(), 10);
    assert_eq!(StopBits::OnePointFive.as_i32(), 15);
    assert_eq!(StopBits::Two.as_i32(), 20);
    assert_eq!(FlowControl::Disabled.as_i32(), 0);
    assert_eq!(FlowControl::DtsDsr.as_i32(), 4);
    assert_eq!(WriteMode::FlushOnAccess.as_i32(), 1);
    assert_eq!(WriteMode::FlushWhenFull.as_i32(), 2);
}

#[test]
fn a_serial_port_remembers_what_was_commanded() {
    let mut serial = Serial::initialize(Port::MXP);
    assert_eq!(serial.baud_rate, None);
    serial.set_baud_rate(115200);
    serial.set_data_bits(8);
    serial.set_parity(Parity::Even);
    serial.set_stop_bits(StopBits::Two);
    serial.set_write_mode(WriteMode::FlushWhenFull);
    serial.set_flow_control(FlowControl::RtsCts);
    serial.enable_termination(b'\n');
    assert_eq!(serial.baud_rate, Some(115200));
    assert_eq!(serial.data_bits, Some(8));
    assert_eq!(serial.parity, Some(Parity::Even));
    assert_eq!(serial.stop_bits, Some(StopBits::Two));
    assert_eq!(serial.write_mode, Some(WriteMode::FlushWhenFull));
    assert_eq!(serial.flow_control, Some(FlowControl::RtsCts));
    assert_eq!(serial.termination, Some(b'\n'));
    serial.disable_termination();
    assert_eq!(serial.termination, None);
}

#[test]
fn spi_options_pack_in_the_native_order() {
    let mut spi = Spi::initialize(SpiPort::CS2);
    assert_eq!(spi.options(), (false, false, false));
    spi.set_msb_first(BitDirection::MsbFirst);
    spi.set_sample_edge(SampleEdge::FallingEdge);
    spi.set_clock_polarity(Polarity::ActiveLow);
    assert_eq!(spi.options(), (true, true, true));
    spi.set_msb_first(BitDirection::LsbFirst);
    spi.set_sample_edge(SampleEdge::RisingEdge);
    spi.set_clock_polarity(Polarity::ActiveHigh);
    assert_eq!(spi.options(), (false, false, false));
    spi.set_speed(500_000);
    assert_eq!(SpiPort::MXP.as_i32(), 4);
    assert_eq!(SpiPort::CS0.as_i32(), 0);
}

#[test]
fn an_io_port_recovers_only_its_own_bus() {
    let serial = RobotIoPort::Serial(Port::Onboard);
    assert!(serial.as_serial().is_ok());
    assert_eq!(serial.as_spi(), Err(HalError::Other));
    assert_eq!(serial.as_i2c(), Err(HalError::Other));

    let i2c = RobotIoPort::I2c(1, 0x68);
    assert_eq!(i2c.as_i2c(), Ok((1, 0x68)));
    assert_eq!(i2c.as_serial(), Err(HalError::Other));

    let spi = RobotIoPort::Spi(SpiPort::CS1);
    assert_eq!(spi.as_spi(), Ok(SpiPort::CS1));
}

#[test]
fn wire_enumerations_decode_their_codes_and_refuse_the_rest() {
    assert_eq!(AnalogTriggerType::from_wire(2), Some(AnalogTriggerType::RisingPulse));
    assert_eq!(AnalogTriggerType::from_wire(4), None);
    assert_eq!(AnalogTriggerType::InWindow.as_i32(), 0);
    assert_eq!(CounterMode::from_wire(3), Some(CounterMode::ExternalDirection));
    assert_eq!(CounterMode::from_wire(-1), None);
    assert_eq!(RuntimeType::from_wire(0), Some(RuntimeType::Native));
    assert_eq!(RuntimeType::from_wire(1), Some(RuntimeType::Mock));
    assert_eq!(RuntimeType::from_wire(2), None);
    assert_eq!(
        AccelerometerRange::from_wire(1),
        Some(AccelerometerRange::AccelerometerRange4G)
    );
    assert_eq!(AccelerometerRange::from_wire(3), None);
    assert!(AccelerometerRange::AccelerometerRange2G < AccelerometerRange::AccelerometerRange8G);
}

#[test]
fn digital_channels_validate_before_any_native_call() {
    let input = DigitalInput::new(4, 26, DigitalHandle(40)).unwrap();
    assert_eq!(input.channel(), 4);
    assert_eq!(
        DigitalInput::new(26, 26, DigitalHandle(41)),
        Err(HalError::InvalidChannel(26))
    );

    let mut output = DigitalOutput::new(5, 26, DigitalHandle(42)).unwrap();
    assert!(!output.get());
    output.set(true);
    assert!(output.get());
    assert_eq!(
        DigitalOutput::new(-2, 26, DigitalHandle(43)),
        Err(HalError::InvalidChannel(-2))
    );

    let generator = PwmGenerator::new(DigitalPwmHandle(7), &output);
    let _ = generator;
}

#[test]
fn encoders_scale_counts_by_their_encoding() {
    let encoder = Encoder::initialize(EncoderHandle(3), EncodingType::Encoder4X, false);
    assert_eq!(encoder.get_encoding_scale(), 4);
    assert_eq!(encoder.get_encoding_type(), EncodingType::Encoder4X);
    assert_eq!(encoder.counts_to_cycles(100), 25);
    assert!(!encoder.get_direction_reversed());

    let encoder = Encoder::initialize(EncoderHandle(4), EncodingType::Encoder1X, true);
    assert_eq!(encoder.get_encoding_scale(), 1);
    assert_eq!(encoder.counts_to_cycles(100), 100);
    assert!(encoder.get_direction_reversed());

    assert_eq!(IndexingType::ResetOnRisingEdge.as_i32(), 3);
    assert_eq!(EncodingType::Encoder2X.as_i32(), 1);
}

#[test]
fn the_power_panel_validates_its_module_and_channels() {
    let panel = PowerDistributionPanel::new(0, 4).unwrap();
    assert_eq!(panel.module(), 0);
    assert!(panel.check_current_channel(15, 16).is_ok());
    assert_eq!(
        panel.check_current_channel(16, 16),
        Err(HalError::InvalidChannel(16))
    );
    assert_eq!(
        PowerDistributionPanel::new(7, 4),
        Err(HalError::InvalidModule(7))
    );
}

#[test]
fn solenoids_validate_channel_then_module() {
    let mut solenoid = Solenoid::with_module(0, 3, 8, 2, SolenoidHandle(60)).unwrap();
    assert!(!solenoid.get());
    solenoid.set(true);
    assert!(solenoid.get());

    assert_eq!(
        Solenoid::with_module(0, 8, 8, 2, SolenoidHandle(61)),
        Err(HalError::InvalidChannel(8))
    );
    assert_eq!(
        Solenoid::with_module(2, 3, 8, 2, SolenoidHandle(62)),
        Err(HalError::InvalidModule(2))
    );
    // the channel is checked before the module, as the native library's own
    // checks are least trustworthy for channels
    assert_eq!(
        Solenoid::with_module(9, 9, 8, 2, SolenoidHandle(63)),
        Err(HalError::InvalidChannel(9))
    );

    let blacklisted = Solenoid::new(2, 8, 2, SolenoidHandle(64)).unwrap();
    assert!(blacklisted.is_blacklisted(0b0100));
    assert!(!blacklisted.is_blacklisted(0b1011));
}

#[test]
fn pwm_ports_keep_their_raw_configuration() {
    let mut pwm = Pwm::initialize(DigitalHandle(9));
    assert_eq!(pwm.get_config_raw(), None);
    let config = PwmConfig {
        max_pwm: 2000,
        deadband_max_pwm: 1550,
        center_pwm: 1500,
        deadband_min_pwm: 1450,
        min_pwm: 1000,
    };
    pwm.set_config_raw(config);
    assert_eq!(pwm.get_config_raw(), Some(config));
}

#[test]
fn can_messages_carry_at_most_eight_payload_bytes() {
    let message = CanStreamMessage::new(0x2041880, 123456, [1, 2, 3, 4, 5, 6, 7, 8], 8);
    assert_eq!(message.message_id, 0x2041880);
    assert_eq!(message.timestamp, 123456);
    assert_eq!(message.data[0], 1);
    assert_eq!(message.data_size, 8);
}

#[test]
fn interrupt_handlers_track_enablement_and_edges() {
    let mut handler = InterruptHandler::new(InterruptHandle(77));
    handler.enable();
    handler.set_up_source_edge(false, true);
    handler.disable();
    let _ = handler;
}

#[test]
fn typed_handles_wrap_and_recover_their_wire_value() {
    let analog = AnalogInputHandle::new(42);
    assert_eq!(analog.get_handle(), 42);
    assert_eq!(AnalogInputHandle(42), analog);
    let gyro: Box<GyroHandle> = transmute_handle(&analog);
    assert_eq!(gyro.get_handle(), 42);
}

#[test]
fn a_byte_transfer_reports_its_count_or_fails() {
    assert_eq!(transfer_outcome(0), Ok(0));
    assert_eq!(transfer_outcome(12), Ok(12));
    assert_eq!(transfer_outcome(-1), Err(HalError::Other));
    assert_eq!(transfer_outcome(i32::MIN), Err(HalError::Other));
}

#[test]
fn a_zero_port_lookup_is_the_invalid_sentinel() {
    assert_eq!(check_invalid(0), None);
    assert_eq!(check_invalid(25), Some(25));
    assert_eq!(check_invalid(-3), Some(-3));
}
