use vstd::prelude::*;

verus! {

/// Marker for unsigned 32-bit formats
pub struct Unsigned32;

/// Marker for signed 32-bit formats
pub struct Signed32;

/// Marker for unsigned 16-bit formats
pub struct Unsigned16;

/// Marker for signed 16-bit formats
pub struct Signed16;

/// Conversion trigger configuration
#[derive(Clone, Copy, Debug, PartialEq, Eq, Structural)]
pub enum ConversionTrigger {
    /// Internal counter ends sampling and starts conversion (auto convert).
    /// Sample time: u8_value * Tad, u8_value must be greater than 0 and less than 32.
    Auto(u8),
    /// CTMU ends sampling and starts conversion
    Cmtu,
    /// Timer 3 period match ends sampling and starts conversion
    Timer3,
    ///  Active transition on INT0 pin ends sampling and starts conversion
    Int0,
    /// Clearing SAMP bit ends sampling and starts conversion (manual)
    Manual,
}

/// Voltage reference configuration
#[derive(Clone, Copy, Debug, PartialEq, Eq, Structural)]
pub enum VoltageReference {
    /// Vrefh = AVDD, Vrefl = AVSS
    AvddAvss,
    /// Vrefh = external Vref+ pin, Vrefl = AVSS
    ExtAvss,
    /// Vrefh = AVDD, Vrefl = external Vref- pin
    AvddExt,
    /// Vrefh = external Vref+ pin, Vrefl = external Vref- pin
    ExtExt,
}

impl VoltageReference {
    /// Value of the VCFG field.
    pub open spec fn value(self) -> u8 {
        match self {
            VoltageReference::AvddAvss => 0b000,
            VoltageReference::ExtAvss => 0b001,
            VoltageReference::AvddExt => 0b010,
            VoltageReference::ExtExt => 0b11,
        }
    }

    /// Value of the VCFG field.
    pub fn bits(self) -> (r: u8)
        ensures
            r == self.value(),
    {
        match self {
            VoltageReference::AvddAvss => 0b000,
            VoltageReference::ExtAvss => 0b001,
            VoltageReference::AvddExt => 0b010,
            VoltageReference::ExtExt => 0b11,
        }
    }
}

/// ADC result buffer mode
#[derive(Clone, Copy, Debug, PartialEq, Eq, Structural)]
pub enum ResultBufferMode {
    /// Buffer configured as one 16-word buffer ADC1BUFF-ADC1BUF0
    SingleBuffer,
    /// Buffer configured as two 8-word buffers, ADC1BUF7-ADC1BUF0, ADC1BUFF-ADCBUF8
    DoubleBuffer,
}

/// ADC Conversion clock configuration
#[derive(Clone, Copy, Debug, PartialEq, Eq, Structural)]
pub enum ConversionClock {
    /// Half of the FRC clock frequency
    Frc,
    /// From peripheral bus clock: PB / (2 * u8_value + 1)
    Pb(u8),
}

/// Negative input selection
#[derive(Clone, Copy, Debug, PartialEq, Eq, Structural)]
pub enum NegativeInput {
    /// Low ADC reference voltage Vrefl
    Vrefl,
    /// Analog input AN1
    An1,
}

impl NegativeInput {
    /// Value of the CH0NA / CH0NB bit.
    pub fn bit(self) -> (r: bool)
        ensures
            r == (self == NegativeInput::An1),
    {
        match self {
            NegativeInput::Vrefl => false,
            NegativeInput::An1 => true,
        }
    }
}

/// Input scan configuration
#[derive(Clone, Copy, Debug, PartialEq, Eq, Structural)]
pub enum InputScan {
    /// Scan mode disabled.
    /// The u8 value selects the analog input.
    Off(u8),
    /// Scan mode enabled.
    /// The u32 value is a bit mask for selecting the inputs to be scanned.
    On(u32),
}

/// ADC configuration
pub struct AdcConfiguration {
    pub conversion_trigger: ConversionTrigger,
    pub auto_sample: bool,
    pub voltage_reference: VoltageReference,
    pub offset_calibration: bool,
    pub conversions_per_irq: u8,
    pub alt_sample_mode: bool,
    pub result_buffer_mode: ResultBufferMode,
    pub conversion_clock: ConversionClock,
}

/// Field values of the control registers for a configuration.
#[derive(Clone, Copy, Debug, PartialEq, Eq, Structural)]
pub struct AdcFields {
    /// AD1CON1.SSRC: conversion trigger source.
    pub ssrc: u8,
    /// AD1CON1.ASAM: automatic sampling.
    pub asam: bool,
    /// AD1CON2.VCFG: voltage reference.
    pub vcfg: u8,
    /// AD1CON2.OFFCAL: offset calibration.
    pub offcal: bool,
    /// AD1CON2.BUFM: two 8-word buffers.
    pub bufm: bool,
    /// AD1CON2.SMPI: conversions per interrupt.
    pub smpi: u8,
    /// AD1CON2.ALTS: alternate sample mode.
    pub alts: bool,
    /// AD1CON3.ADRC: FRC conversion clock.
    pub adrc: bool,
    /// AD1CON3.SAMC: auto-sample time.
    pub samc: u8,
    /// AD1CON3.ADCS: peripheral bus clock divisor.
    pub adcs: u8,
}

impl AdcConfiguration {
    /// A configuration is valid when an automatic trigger has a sample time
    /// of 1 to 31 and there are 1 to 16 conversions per interrupt.
    pub open spec fn valid(&self) -> bool {
        &&& (self.conversion_trigger matches ConversionTrigger::Auto(d) ==> 0 < d <= 31)
        &&& 0 < self.conversions_per_irq <= 16
    }

    /// Create a configuration for manually sampling a single channel
    pub fn default() -> (r: Self)
        ensures
            r.valid(),
            r.conversion_trigger == ConversionTrigger::Auto(31),
            !r.auto_sample,
            r.voltage_reference == VoltageReference::AvddAvss,
            !r.offset_calibration,
            r.conversions_per_irq == 1,
            !r.alt_sample_mode,
            r.result_buffer_mode == ResultBufferMode::SingleBuffer,
            r.conversion_clock == ConversionClock::Frc,
    {
        AdcConfiguration {
            conversion_trigger: ConversionTrigger::Auto(31),
            auto_sample: false,
            voltage_reference: VoltageReference::AvddAvss,
            offset_calibration: false,
            conversions_per_irq: 1,
            alt_sample_mode: false,
            result_buffer_mode: ResultBufferMode::SingleBuffer,
            conversion_clock: ConversionClock::Frc,
        }
    }

    /// Set the conversion trigger. A sample time of automatic conversion
    /// must lie in 1..=31.
    pub fn conversion_trigger(&mut self, conversion_trigger: ConversionTrigger)
        requires
            conversion_trigger matches ConversionTrigger::Auto(d) ==> 0 < d <= 31,
        ensures
            *final(self) == (AdcConfiguration { conversion_trigger, ..*old(self) }),
    {
        self.conversion_trigger = conversion_trigger;
    }

    /// Activate or deactivate automatic sampling
    pub fn auto_sample(&mut self, auto_sample: bool)
        ensures
            *final(self) == (AdcConfiguration { auto_sample, ..*old(self) }),
    {
        self.auto_sample = auto_sample;
    }

    /// Configure the voltage reference sources
    pub fn voltage_reference(&mut self, voltage_reference: VoltageReference)
        ensures
            *final(self) == (AdcConfiguration { voltage_reference, ..*old(self) }),
    {
        self.voltage_reference = voltage_reference;
    }

    /// Activate or deactivate the offset calibration mode
    pub fn offset_calibration(&mut self, offset_calibration: bool)
        ensures
            *final(self) == (AdcConfiguration { offset_calibration, ..*old(self) }),
    {
        self.offset_calibration = offset_calibration;
    }

    /// Set the number of conversions per IRQ, between 1 and 16.
    pub fn conversions_per_irq(&mut self, conversions_per_irq: u8)
        requires
            0 < conversions_per_irq <= 16,
        ensures
            *final(self) == (AdcConfiguration { conversions_per_irq, ..*old(self) }),
    {
        self.conversions_per_irq = conversions_per_irq;
    }

    /// Activate or deactivate the Alternate Sample Mode
    pub fn alt_sample_mode(&mut self, alt_sample_mode: bool)
        ensures
            *final(self) == (AdcConfiguration { alt_sample_mode, ..*old(self) }),
    {
        self.alt_sample_mode = alt_sample_mode;
    }

    /// Set result buffer mode
    pub fn result_buffer_mode(&mut self, result_buffer_mode: ResultBufferMode)
        ensures
            *final(self) == (AdcConfiguration { result_buffer_mode, ..*old(self) }),
    {
        self.result_buffer_mode = result_buffer_mode;
    }

    /// Set the conversion clock
    pub fn conversion_clock(&mut self, conversion_clock: ConversionClock)
        ensures
            *final(self) == (AdcConfiguration { conversion_clock, ..*old(self) }),
    {
        self.conversion_clock = conversion_clock;
    }

    /// The register fields that put this configuration into effect.
    pub fn register_fields(&self) -> (r: AdcFields)
        ensures
            r.ssrc == match self.conversion_trigger {
                ConversionTrigger::Auto(_) => 0b111u8,
                ConversionTrigger::Cmtu => 0b011u8,
                ConversionTrigger::Timer3 => 0b010u8,
                ConversionTrigger::Int0 => 0b001u8,
                ConversionTrigger::Manual => 0b000u8,
            },
            r.samc == match self.conversion_trigger {
                ConversionTrigger::Auto(samc) => samc,
                _ => 0u8,
            },
            r.asam == self.auto_sample,
            r.vcfg == self.voltage_reference.value(),
            r.offcal == self.offset_calibration,
            r.bufm == (self.result_buffer_mode == ResultBufferMode::DoubleBuffer),
            r.smpi == self.conversions_per_irq,
            r.alts == self.alt_sample_mode,
            r.adrc == (self.conversion_clock == ConversionClock::Frc),
            r.adcs == match self.conversion_clock {
                ConversionClock::Pb(adcs) => adcs,
                ConversionClock::Frc => 0u8,
            },
    {
        let (ssrc, samc): (u8, u8) = match self.conversion_trigger {
            ConversionTrigger::Auto(samc) => (0b111, samc),
            ConversionTrigger::Cmtu => (0b011, 0),
            ConversionTrigger::Timer3 => (0b010, 0),
            ConversionTrigger::Int0 => (0b001, 0),
            ConversionTrigger::Manual => (0b000, 0),
        };
        let (adrc, adcs): (bool, u8) = match self.conversion_clock {
            ConversionClock::Pb(adcs) => (false, adcs),
            ConversionClock::Frc => (true, 0),
        };
        AdcFields {
            ssrc,
            asam: self.auto_sample,
            vcfg: self.voltage_reference.bits(),
            offcal: self.offset_calibration,
            bufm: match self.result_buffer_mode {
                ResultBufferMode::SingleBuffer => false,
                ResultBufferMode::DoubleBuffer => true,
            },
            smpi: self.conversions_per_irq,
            alts: self.alt_sample_mode,
            adrc,
            samc,
            adcs,
        }
    }
}

/// Value of the FORM field for a data format, with the fractional variant
/// selected by setting bit 1.
pub fn form_bits(format: u8, fractional: bool) -> (r: u8)
    ensures
        r == (if fractional { format | 0b010 } else { format }),
{
    if fractional {
        format | 0b010
    } else {
        format
    }
}

} // verus!
