use vstd::prelude::*;
use crate::config::field::{spec_with_field, with_field};

verus! {

/// Length of config word sector in words
pub const CONFIG_SECTOR_LENGTH: usize = 4;

/// Alternate I/O Select for I2C1
#[allow(non_camel_case_types)]
#[derive(Clone, Copy, Debug, PartialEq, Eq)]
pub enum AI2C1 {
    /// I2C1 uses the ASDA1/ASCL1 pins
    ON,

    /// I2C1 uses the SDA1/SCL1 pins
    OFF,
}

impl AI2C1 {
    /// Value of the setting in its field of the configuration word.
    pub open spec fn value(self) -> u32 {
        match self {
            AI2C1::ON => 0x1,
            AI2C1::OFF => 0x0,
        }
    }

    /// Value of the setting in its field of the configuration word.
    pub fn bits(self) -> (r: u32)
        ensures
            r == self.value(),
    {
        match self {
            AI2C1::ON => 0x1,
            AI2C1::OFF => 0x0,
        }
    }
}

/// Alternate I/O Select for I2C2
#[allow(non_camel_case_types)]
#[derive(Clone, Copy, Debug, PartialEq, Eq)]
pub enum AI2C2 {
    /// I2C2 uses the ASDA2/ASCL2 pins
    ON,

    /// I2C2 uses the SDA2/SCL2 pins
    OFF,
}

impl AI2C2 {
    /// Value of the setting in its field of the configuration word.
    pub open spec fn value(self) -> u32 {
        match self {
            AI2C2::ON => 0x1,
            AI2C2::OFF => 0x0,
        }
    }

    /// Value of the setting in its field of the configuration word.
    pub fn bits(self) -> (r: u32)
        ensures
            r == self.value(),
    {
        match self {
            AI2C2::ON => 0x1,
            AI2C2::OFF => 0x0,
        }
    }
}

/// Peripheral Module Disable Configuration
#[allow(non_camel_case_types)]
#[derive(Clone, Copy, Debug, PartialEq, Eq)]
pub enum PMDL1WAY {
    /// Allow only one reconfiguration
    ON,

    /// Allow multiple reconfigurations
    OFF,
}

impl PMDL1WAY {
    /// Value of the setting in its field of the configuration word.
    pub open spec fn value(self) -> u32 {
        match self {
            PMDL1WAY::ON => 0x1,
            PMDL1WAY::OFF => 0x0,
        }
    }

    /// Value of the setting in its field of the configuration word.
    pub fn bits(self) -> (r: u32)
        ensures
            r == self.value(),
    {
        match self {
            PMDL1WAY::ON => 0x1,
            PMDL1WAY::OFF => 0x0,
        }
    }
}

/// Peripheral Pin Select Configuration
#[allow(non_camel_case_types)]
#[derive(Clone, Copy, Debug, PartialEq, Eq)]
pub enum IOL1WAY {
    /// Allow only one reconfiguration
    ON,

    /// Allow multiple reconfigurations
    OFF,
}

impl IOL1WAY {
    /// Value of the setting in its field of the configuration word.
    pub open spec fn value(self) -> u32 {
        match self {
            IOL1WAY::ON => 0x1,
            IOL1WAY::OFF => 0x0,
        }
    }

    /// Value of the setting in its field of the configuration word.
    pub fn bits(self) -> (r: u32)
        ensures
            r == self.value(),
    {
        match self {
            IOL1WAY::ON => 0x1,
            IOL1WAY::OFF => 0x0,
        }
    }
}

/// PLL Input Divider
#[allow(non_camel_case_types)]
#[derive(Clone, Copy, Debug, PartialEq, Eq)]
pub enum FPLLIDIV {
    /// 1x Divider
    DIV_1,

    /// 2x Divider
    DIV_2,

    /// 3x Divider
    DIV_3,

    /// 4x Divider
    DIV_4,

    /// 5x Divider
    DIV_5,

    /// 6x Divider
    DIV_6,

    /// 10x Divider
    DIV_10,

    /// 12x Divider
    DIV_12,
}

impl FPLLIDIV {
    /// Value of the setting in its field of the configuration word.
    pub open spec fn value(self) -> u32 {
        match self {
            FPLLIDIV::DIV_1 => 0x0,
            FPLLIDIV::DIV_2 => 0x1,
            FPLLIDIV::DIV_3 => 0x2,
            FPLLIDIV::DIV_4 => 0x3,
            FPLLIDIV::DIV_5 => 0x4,
            FPLLIDIV::DIV_6 => 0x5,
            FPLLIDIV::DIV_10 => 0x6,
            FPLLIDIV::DIV_12 => 0x7,
        }
    }

    /// Value of the setting in its field of the configuration word.
    pub fn bits(self) -> (r: u32)
        ensures
            r == self.value(),
    {
        match self {
            FPLLIDIV::DIV_1 => 0x0,
            FPLLIDIV::DIV_2 => 0x1,
            FPLLIDIV::DIV_3 => 0x2,
            FPLLIDIV::DIV_4 => 0x3,
            FPLLIDIV::DIV_5 => 0x4,
            FPLLIDIV::DIV_6 => 0x5,
            FPLLIDIV::DIV_10 => 0x6,
            FPLLIDIV::DIV_12 => 0x7,
        }
    }
}

/// PLL Multiplier
#[allow(non_camel_case_types)]
#[derive(Clone, Copy, Debug, PartialEq, Eq)]
pub enum FPLLMUL {
    /// 15x Multiplier
    MUL_15,

    /// 16x Multiplier
    MUL_16,

    /// 17x Multiplier
    MUL_17,

    /// 18x Multiplier
    MUL_18,

    /// 19x Multiplier
    MUL_19,

    /// 20x Multiplier
    MUL_20,

    /// 21x Multiplier
    MUL_21,

    /// 24x Multiplier
    MUL_24,
}

impl FPLLMUL {
    /// Value of the setting in its field of the configuration word.
    pub open spec fn value(self) -> u32 {
        match self {
            FPLLMUL::MUL_15 => 0x0,
            FPLLMUL::MUL_16 => 0x1,
            FPLLMUL::MUL_17 => 0x2,
            FPLLMUL::MUL_18 => 0x3,
            FPLLMUL::MUL_19 => 0x4,
            FPLLMUL::MUL_20 => 0x5,
            FPLLMUL::MUL_21 => 0x6,
            FPLLMUL::MUL_24 => 0x7,
        }
    }

    /// Value of the setting in its field of the configuration word.
    pub fn bits(self) -> (r: u32)
        ensures
            r == self.value(),
    {
        match self {
            FPLLMUL::MUL_15 => 0x0,
            FPLLMUL::MUL_16 => 0x1,
            FPLLMUL::MUL_17 => 0x2,
            FPLLMUL::MUL_18 => 0x3,
            FPLLMUL::MUL_19 => 0x4,
            FPLLMUL::MUL_20 => 0x5,
            FPLLMUL::MUL_21 => 0x6,
            FPLLMUL::MUL_24 => 0x7,
        }
    }
}

/// System PLL Input Clock Selection
#[allow(non_camel_case_types)]
#[derive(Clone, Copy, Debug, PartialEq, Eq)]
pub enum FPLLICLK {
    /// POSC is input to the System PLL
    PLL_POSC,

    /// FRC is input to the System PLL
    PLL_FRC,
}

impl FPLLICLK {
    /// Value of the setting in its field of the configuration word.
    pub open spec fn value(self) -> u32 {
        match self {
            FPLLICLK::PLL_POSC => 0x0,
            FPLLICLK::PLL_FRC => 0x1,
        }
    }

    /// Value of the setting in its field of the configuration word.
    pub fn bits(self) -> (r: u32)
        ensures
            r == self.value(),
    {
        match self {
            FPLLICLK::PLL_POSC => 0x0,
            FPLLICLK::PLL_FRC => 0x1,
        }
    }
}

/// System PLL Output Clock Divider
#[allow(non_camel_case_types)]
#[derive(Clone, Copy, Debug, PartialEq, Eq)]
pub enum FPLLODIV {
    /// PLL Divide by 1
    DIV_1,

    /// PLL Divide by 2
    DIV_2,

    /// PLL Divide by 4
    DIV_4,

    /// PLL Divide by 8
    DIV_8,

    /// PLL Divide by 16
    DIV_16,

    /// PLL Divide by 32
    DIV_32,

    /// PLL Divide by 64
    DIV_64,

    /// PLL Divide by 256
    DIV_256,
}

impl FPLLODIV {
    /// Value of the setting in its field of the configuration word.
    pub open spec fn value(self) -> u32 {
        match self {
            FPLLODIV::DIV_1 => 0x0,
            FPLLODIV::DIV_2 => 0x1,
            FPLLODIV::DIV_4 => 0x2,
            FPLLODIV::DIV_8 => 0x3,
            FPLLODIV::DIV_16 => 0x4,
            FPLLODIV::DIV_32 => 0x5,
            FPLLODIV::DIV_64 => 0x6,
            FPLLODIV::DIV_256 => 0x7,
        }
    }

    /// Value of the setting in its field of the configuration word.
    pub fn bits(self) -> (r: u32)
        ensures
            r == self.value(),
    {
        match self {
            FPLLODIV::DIV_1 => 0x0,
            FPLLODIV::DIV_2 => 0x1,
            FPLLODIV::DIV_4 => 0x2,
            FPLLODIV::DIV_8 => 0x3,
            FPLLODIV::DIV_16 => 0x4,
            FPLLODIV::DIV_32 => 0x5,
            FPLLODIV::DIV_64 => 0x6,
            FPLLODIV::DIV_256 => 0x7,
        }
    }
}

/// Brown-Out Reset (BOR) Enable
#[allow(non_camel_case_types)]
#[derive(Clone, Copy, Debug, PartialEq, Eq)]
pub enum BOREN {
    /// Disable BOR
    OFF,

    /// Enable BOR
    ON,
}

impl BOREN {
    /// Value of the setting in its field of the configuration word.
    pub open spec fn value(self) -> u32 {
        match self {
            BOREN::OFF => 0x0,
            BOREN::ON => 0x1,
        }
    }

    /// Value of the setting in its field of the configuration word.
    pub fn bits(self) -> (r: u32)
        ensures
            r == self.value(),
    {
        match self {
            BOREN::OFF => 0x0,
            BOREN::ON => 0x1,
        }
    }
}

/// Deep Sleep BOR Enable
#[allow(non_camel_case_types)]
#[derive(Clone, Copy, Debug, PartialEq, Eq)]
pub enum DSBOREN {
    /// Disable ZPBOR during Deep Sleep Mode
    OFF,

    /// Enable ZPBOR during Deep Sleep Mode
    ON,
}

impl DSBOREN {
    /// Value of the setting in its field of the configuration word.
    pub open spec fn value(self) -> u32 {
        match self {
            DSBOREN::OFF => 0x0,
            DSBOREN::ON => 0x1,
        }
    }

    /// Value of the setting in its field of the configuration word.
    pub fn bits(self) -> (r: u32)
        ensures
            r == self.value(),
    {
        match self {
            DSBOREN::OFF => 0x0,
            DSBOREN::ON => 0x1,
        }
    }
}

/// Deep Sleep Watchdog Timer Postscaler
#[allow(non_camel_case_types)]
#[derive(Clone, Copy, Debug, PartialEq, Eq)]
pub enum DSWDTPS {
    /// 1:2^5
    DSPS1,

    /// 1:2^6
    DSPS2,

    /// 1:2^7
    DSPS3,

    /// 1:2^8
    DSPS4,

    /// 1:2^9
    DSPS5,

    /// 1:2^10
    DSPS6,

    /// 1:2^11
    DSPS7,

    /// 1:2^12
    DSPS8,

    /// 1:2^13
    DSPS9,

    /// 1:2^14
    DSPS10,

    /// 1:2^15
    DSPS11,

    /// 1:2^16
    DSPS12,

    /// 1:2^17
    DSPS13,

    /// 1:2^18
    DSPS14,

    /// 1:2^19
    DSPS15,

    /// 1:2^20
    DSPS16,

    /// 1:2^21
    DSPS17,

    /// 1:2^22
    DSPS18,

    /// 1:2^23
    DSPS19,

    /// 1:2^24
    DSPS20,

    /// 1:2^25
    DSPS21,

    /// 1:2^26
    DSPS22,

    /// 1:2^27
    DSPS23,

    /// 1:2^28
    DSPS24,

    /// 1:2^29
    DSPS25,

    /// 1:2^30
    DSPS26,

    /// 1:2^31
    DSPS27,

    /// 1:2^32
    DSPS28,

    /// 1:2^33
    DSPS29,

    /// 1:2^34
    DSPS30,

    /// 1:2^35
    DSPS31,

    /// 1:2^36
    DSPS32,
}

impl DSWDTPS {
    /// Value of the setting in its field of the configuration word.
    pub open spec fn value(self) -> u32 {
        match self {
            DSWDTPS::DSPS1 => 0x0,
            DSWDTPS::DSPS2 => 0x1,
            DSWDTPS::DSPS3 => 0x2,
            DSWDTPS::DSPS4 => 0x3,
            DSWDTPS::DSPS5 => 0x4,
            DSWDTPS::DSPS6 => 0x5,
            DSWDTPS::DSPS7 => 0x6,
            DSWDTPS::DSPS8 => 0x7,
            DSWDTPS::DSPS9 => 0x8,
            DSWDTPS::DSPS10 => 0x9,
            DSWDTPS::DSPS11 => 0xa,
            DSWDTPS::DSPS12 => 0xb,
            DSWDTPS::DSPS13 => 0xc,
            DSWDTPS::DSPS14 => 0xd,
            DSWDTPS::DSPS15 => 0xe,
            DSWDTPS::DSPS16 => 0xf,
            DSWDTPS::DSPS17 => 0x10,
            DSWDTPS::DSPS18 => 0x11,
            DSWDTPS::DSPS19 => 0x12,
            DSWDTPS::DSPS20 => 0x13,
            DSWDTPS::DSPS21 => 0x14,
            DSWDTPS::DSPS22 => 0x15,
            DSWDTPS::DSPS23 => 0x16,
            DSWDTPS::DSPS24 => 0x17,
            DSWDTPS::DSPS25 => 0x18,
            DSWDTPS::DSPS26 => 0x19,
            DSWDTPS::DSPS27 => 0x1a,
            DSWDTPS::DSPS28 => 0x1b,
            DSWDTPS::DSPS29 => 0x1c,
            DSWDTPS::DSPS30 => 0x1d,
            DSWDTPS::DSPS31 => 0x1e,
            DSWDTPS::DSPS32 => 0x1f,
        }
    }

    /// Value of the setting in its field of the configuration word.
    pub fn bits(self) -> (r: u32)
        ensures
            r == self.value(),
    {
        match self {
            DSWDTPS::DSPS1 => 0x0,
            DSWDTPS::DSPS2 => 0x1,
            DSWDTPS::DSPS3 => 0x2,
            DSWDTPS::DSPS4 => 0x3,
            DSWDTPS::DSPS5 => 0x4,
            DSWDTPS::DSPS6 => 0x5,
            DSWDTPS::DSPS7 => 0x6,
            DSWDTPS::DSPS8 => 0x7,
            DSWDTPS::DSPS9 => 0x8,
            DSWDTPS::DSPS10 => 0x9,
            DSWDTPS::DSPS11 => 0xa,
            DSWDTPS::DSPS12 => 0xb,
            DSWDTPS::DSPS13 => 0xc,
            DSWDTPS::DSPS14 => 0xd,
            DSWDTPS::DSPS15 => 0xe,
            DSWDTPS::DSPS16 => 0xf,
            DSWDTPS::DSPS17 => 0x10,
            DSWDTPS::DSPS18 => 0x11,
            DSWDTPS::DSPS19 => 0x12,
            DSWDTPS::DSPS20 => 0x13,
            DSWDTPS::DSPS21 => 0x14,
            DSWDTPS::DSPS22 => 0x15,
            DSWDTPS::DSPS23 => 0x16,
            DSWDTPS::DSPS24 => 0x17,
            DSWDTPS::DSPS25 => 0x18,
            DSWDTPS::DSPS26 => 0x19,
            DSWDTPS::DSPS27 => 0x1a,
            DSWDTPS::DSPS28 => 0x1b,
            DSWDTPS::DSPS29 => 0x1c,
            DSWDTPS::DSPS30 => 0x1d,
            DSWDTPS::DSPS31 => 0x1e,
            DSWDTPS::DSPS32 => 0x1f,
        }
    }
}

/// Deep Sleep WDT Reference Clock Selection
#[allow(non_camel_case_types)]
#[derive(Clone, Copy, Debug, PartialEq, Eq)]
pub enum DSWDTOSC {
    /// Select SOSC as DSWDT Reference Clock
    SOSC,

    /// Select LPRC as DSWDT Reference clock
    LPRC,
}

impl DSWDTOSC {
    /// Value of the setting in its field of the configuration word.
    pub open spec fn value(self) -> u32 {
        match self {
            DSWDTOSC::SOSC => 0x0,
            DSWDTOSC::LPRC => 0x1,
        }
    }

    /// Value of the setting in its field of the configuration word.
    pub fn bits(self) -> (r: u32)
        ensures
            r == self.value(),
    {
        match self {
            DSWDTOSC::SOSC => 0x0,
            DSWDTOSC::LPRC => 0x1,
        }
    }
}

/// Deep Sleep Watchdog Timer Enable
#[allow(non_camel_case_types)]
#[derive(Clone, Copy, Debug, PartialEq, Eq)]
pub enum DSWDTEN {
    /// Disable DSWDT during Deep Sleep Mode
    OFF,

    /// Enable DSWDT during Deep Sleep Mode
    ON,
}

impl DSWDTEN {
    /// Value of the setting in its field of the configuration word.
    pub open spec fn value(self) -> u32 {
        match self {
            DSWDTEN::OFF => 0x0,
            DSWDTEN::ON => 0x1,
        }
    }

    /// Value of the setting in its field of the configuration word.
    pub fn bits(self) -> (r: u32)
        ensures
            r == self.value(),
    {
        match self {
            DSWDTEN::OFF => 0x0,
            DSWDTEN::ON => 0x1,
        }
    }
}

/// Deep Sleep Enable
#[allow(non_camel_case_types)]
#[derive(Clone, Copy, Debug, PartialEq, Eq)]
pub enum FDSEN {
    /// Disable DSEN bit in DSCON
    OFF,

    /// Enable DSEN bit in DSCON
    ON,
}

impl FDSEN {
    /// Value of the setting in its field of the configuration word.
    pub open spec fn value(self) -> u32 {
        match self {
            FDSEN::OFF => 0x0,
            FDSEN::ON => 0x1,
        }
    }

    /// Value of the setting in its field of the configuration word.
    pub fn bits(self) -> (r: u32)
        ensures
            r == self.value(),
    {
        match self {
            FDSEN::OFF => 0x0,
            FDSEN::ON => 0x1,
        }
    }
}

/// Oscillator Selection Bits
#[allow(non_camel_case_types)]
#[derive(Clone, Copy, Debug, PartialEq, Eq)]
pub enum FNOSC {
    /// Fast RC Osc (FRC)
    FRC,

    /// System PLL
    SPLL,

    /// Primary Osc (HS,EC, XT)
    POSC,

    /// Low Power Secondary Osc (SOSC)
    SOSC,

    /// Low Power RC Osc (LPRC)
    LPRC,
}

impl FNOSC {
    /// Value of the setting in its field of the configuration word.
    pub open spec fn value(self) -> u32 {
        match self {
            FNOSC::FRC => 0x0,
            FNOSC::SPLL => 0x1,
            FNOSC::POSC => 0x2,
            FNOSC::SOSC => 0x4,
            FNOSC::LPRC => 0x5,
        }
    }

    /// Value of the setting in its field of the configuration word.
    pub fn bits(self) -> (r: u32)
        ensures
            r == self.value(),
    {
        match self {
            FNOSC::FRC => 0x0,
            FNOSC::SPLL => 0x1,
            FNOSC::POSC => 0x2,
            FNOSC::SOSC => 0x4,
            FNOSC::LPRC => 0x5,
        }
    }
}

/// Secondary Oscillator Enable
#[allow(non_camel_case_types)]
#[derive(Clone, Copy, Debug, PartialEq, Eq)]
pub enum FSOSCEN {
    /// Disabled
    OFF,

    /// Enabled
    ON,
}

impl FSOSCEN {
    /// Value of the setting in its field of the configuration word.
    pub open spec fn value(self) -> u32 {
        match self {
            FSOSCEN::OFF => 0x0,
            FSOSCEN::ON => 0x1,
        }
    }

    /// Value of the setting in its field of the configuration word.
    pub fn bits(self) -> (r: u32)
        ensures
            r == self.value(),
    {
        match self {
            FSOSCEN::OFF => 0x0,
            FSOSCEN::ON => 0x1,
        }
    }
}

/// Internal/External Switch Over
#[allow(non_camel_case_types)]
#[derive(Clone, Copy, Debug, PartialEq, Eq)]
pub enum IESO {
    /// Disabled
    OFF,

    /// Enabled
    ON,
}

impl IESO {
    /// Value of the setting in its field of the configuration word.
    pub open spec fn value(self) -> u32 {
        match self {
            IESO::OFF => 0x0,
            IESO::ON => 0x1,
        }
    }

    /// Value of the setting in its field of the configuration word.
    pub fn bits(self) -> (r: u32)
        ensures
            r == self.value(),
    {
        match self {
            IESO::OFF => 0x0,
            IESO::ON => 0x1,
        }
    }
}

/// Primary Oscillator Configuration
#[allow(non_camel_case_types)]
#[derive(Clone, Copy, Debug, PartialEq, Eq)]
pub enum POSCMOD {
    /// External clock mode
    EC,

    /// XT osc mode
    XT,

    /// HS osc mode
    HS,

    /// Primary osc disabled
    OFF,
}

impl POSCMOD {
    /// Value of the setting in its field of the configuration word.
    pub open spec fn value(self) -> u32 {
        match self {
            POSCMOD::EC => 0x0,
            POSCMOD::XT => 0x1,
            POSCMOD::HS => 0x2,
            POSCMOD::OFF => 0x3,
        }
    }

    /// Value of the setting in its field of the configuration word.
    pub fn bits(self) -> (r: u32)
        ensures
            r == self.value(),
    {
        match self {
            POSCMOD::EC => 0x0,
            POSCMOD::XT => 0x1,
            POSCMOD::HS => 0x2,
            POSCMOD::OFF => 0x3,
        }
    }
}

/// CLKO Output Signal Active on the OSCO Pin
#[allow(non_camel_case_types)]
#[derive(Clone, Copy, Debug, PartialEq, Eq)]
pub enum OSCIOFNC {
    /// Disabled
    OFF,

    /// Enabled
    ON,
}

impl OSCIOFNC {
    /// Value of the setting in its field of the configuration word.
    pub open spec fn value(self) -> u32 {
        match self {
            OSCIOFNC::OFF => 0x1,
            OSCIOFNC::ON => 0x0,
        }
    }

    /// Value of the setting in its field of the configuration word.
    pub fn bits(self) -> (r: u32)
        ensures
            r == self.value(),
    {
        match self {
            OSCIOFNC::OFF => 0x1,
            OSCIOFNC::ON => 0x0,
        }
    }
}

/// Peripheral Clock Divisor
#[allow(non_camel_case_types)]
#[derive(Clone, Copy, Debug, PartialEq, Eq)]
pub enum FPBDIV {
    /// Pb_Clk is Sys_Clk/1
    DIV_1,

    /// Pb_Clk is Sys_Clk/2
    DIV_2,

    /// Pb_Clk is Sys_Clk/4
    DIV_4,

    /// Pb_Clk is Sys_Clk/8
    DIV_8,
}

impl FPBDIV {
    /// Value of the setting in its field of the configuration word.
    pub open spec fn value(self) -> u32 {
        match self {
            FPBDIV::DIV_1 => 0x0,
            FPBDIV::DIV_2 => 0x1,
            FPBDIV::DIV_4 => 0x2,
            FPBDIV::DIV_8 => 0x3,
        }
    }

    /// Value of the setting in its field of the configuration word.
    pub fn bits(self) -> (r: u32)
        ensures
            r == self.value(),
    {
        match self {
            FPBDIV::DIV_1 => 0x0,
            FPBDIV::DIV_2 => 0x1,
            FPBDIV::DIV_4 => 0x2,
            FPBDIV::DIV_8 => 0x3,
        }
    }
}

/// Clock Switching and Monitor Selection
#[allow(non_camel_case_types)]
#[derive(Clone, Copy, Debug, PartialEq, Eq)]
pub enum FCKSM {
    /// Clock Switch Enable, FSCM Enabled
    CSECME,

    /// Clock Switch Enable, FSCM Disabled
    CSECMD,

    /// Clock Switch Disable, FSCM Disabled
    CSDCMD,
}

impl FCKSM {
    /// Value of the setting in its field of the configuration word.
    pub open spec fn value(self) -> u32 {
        match self {
            FCKSM::CSECME => 0x0,
            FCKSM::CSECMD => 0x1,
            FCKSM::CSDCMD => 0x3,
        }
    }

    /// Value of the setting in its field of the configuration word.
    pub fn bits(self) -> (r: u32)
        ensures
            r == self.value(),
    {
        match self {
            FCKSM::CSECME => 0x0,
            FCKSM::CSECMD => 0x1,
            FCKSM::CSDCMD => 0x3,
        }
    }
}

/// Watchdog Timer Postscaler
#[allow(non_camel_case_types)]
#[derive(Clone, Copy, Debug, PartialEq, Eq)]
pub enum WDTPS {
    /// 1:1
    PS1,

    /// 1:2
    PS2,

    /// 1:4
    PS4,

    /// 1:8
    PS8,

    /// 1:16
    PS16,

    /// 1:32
    PS32,

    /// 1:64
    PS64,

    /// 1:128
    PS128,

    /// 1:256
    PS256,

    /// 1:512
    PS512,

    /// 1:1024
    PS1024,

    /// 1:2048
    PS2048,

    /// 1:4096
    PS4096,

    /// 1:8192
    PS8192,

    /// 1:16384
    PS16384,

    /// 1:32768
    PS32768,

    /// 1:65536
    PS65536,

    /// 1:131072
    PS131072,

    /// 1:262144
    PS262144,

    /// 1:524288
    PS524288,

    /// 1:1048576
    PS1048576,
}

impl WDTPS {
    /// Value of the setting in its field of the configuration word.
    pub open spec fn value(self) -> u32 {
        match self {
            WDTPS::PS1 => 0x0,
            WDTPS::PS2 => 0x1,
            WDTPS::PS4 => 0x2,
            WDTPS::PS8 => 0x3,
            WDTPS::PS16 => 0x4,
            WDTPS::PS32 => 0x5,
            WDTPS::PS64 => 0x6,
            WDTPS::PS128 => 0x7,
            WDTPS::PS256 => 0x8,
            WDTPS::PS512 => 0x9,
            WDTPS::PS1024 => 0xa,
            WDTPS::PS2048 => 0xb,
            WDTPS::PS4096 => 0xc,
            WDTPS::PS8192 => 0xd,
            WDTPS::PS16384 => 0xe,
            WDTPS::PS32768 => 0xf,
            WDTPS::PS65536 => 0x10,
            WDTPS::PS131072 => 0x11,
            WDTPS::PS262144 => 0x12,
            WDTPS::PS524288 => 0x13,
            WDTPS::PS1048576 => 0x14,
        }
    }

    /// Value of the setting in its field of the configuration word.
    pub fn bits(self) -> (r: u32)
        ensures
            r == self.value(),
    {
        match self {
            WDTPS::PS1 => 0x0,
            WDTPS::PS2 => 0x1,
            WDTPS::PS4 => 0x2,
            WDTPS::PS8 => 0x3,
            WDTPS::PS16 => 0x4,
            WDTPS::PS32 => 0x5,
            WDTPS::PS64 => 0x6,
            WDTPS::PS128 => 0x7,
            WDTPS::PS256 => 0x8,
            WDTPS::PS512 => 0x9,
            WDTPS::PS1024 => 0xa,
            WDTPS::PS2048 => 0xb,
            WDTPS::PS4096 => 0xc,
            WDTPS::PS8192 => 0xd,
            WDTPS::PS16384 => 0xe,
            WDTPS::PS32768 => 0xf,
            WDTPS::PS65536 => 0x10,
            WDTPS::PS131072 => 0x11,
            WDTPS::PS262144 => 0x12,
            WDTPS::PS524288 => 0x13,
            WDTPS::PS1048576 => 0x14,
        }
    }
}

/// Watchdog Timer Stop During Flash Programming
#[allow(non_camel_case_types)]
#[derive(Clone, Copy, Debug, PartialEq, Eq)]
pub enum WDTSPGM {
    /// Watchdog Timer stops during Flash programming
    ON,

    /// Watchdog Timer runs during Flash programming
    OFF,
}

impl WDTSPGM {
    /// Value of the setting in its field of the configuration word.
    pub open spec fn value(self) -> u32 {
        match self {
            WDTSPGM::ON => 0x1,
            WDTSPGM::OFF => 0x0,
        }
    }

    /// Value of the setting in its field of the configuration word.
    pub fn bits(self) -> (r: u32)
        ensures
            r == self.value(),
    {
        match self {
            WDTSPGM::ON => 0x1,
            WDTSPGM::OFF => 0x0,
        }
    }
}

/// Watchdog Timer Window Enable
#[allow(non_camel_case_types)]
#[derive(Clone, Copy, Debug, PartialEq, Eq)]
pub enum WINDIS {
    /// Watchdog Timer is in Window Mode
    ON,

    /// Watchdog Timer is in Non-Window Mode
    OFF,
}

impl WINDIS {
    /// Value of the setting in its field of the configuration word.
    pub open spec fn value(self) -> u32 {
        match self {
            WINDIS::ON => 0x0,
            WINDIS::OFF => 0x1,
        }
    }

    /// Value of the setting in its field of the configuration word.
    pub fn bits(self) -> (r: u32)
        ensures
            r == self.value(),
    {
        match self {
            WINDIS::ON => 0x0,
            WINDIS::OFF => 0x1,
        }
    }
}

/// Watchdog Timer Enable
#[allow(non_camel_case_types)]
#[derive(Clone, Copy, Debug, PartialEq, Eq)]
pub enum FWDTEN {
    /// WDT Disabled (SWDTEN Bit Controls)
    OFF,

    /// WDT Enabled
    ON,
}

impl FWDTEN {
    /// Value of the setting in its field of the configuration word.
    pub open spec fn value(self) -> u32 {
        match self {
            FWDTEN::OFF => 0x0,
            FWDTEN::ON => 0x1,
        }
    }

    /// Value of the setting in its field of the configuration word.
    pub fn bits(self) -> (r: u32)
        ensures
            r == self.value(),
    {
        match self {
            FWDTEN::OFF => 0x0,
            FWDTEN::ON => 0x1,
        }
    }
}

/// Watchdog Timer Window Size
#[allow(non_camel_case_types)]
#[derive(Clone, Copy, Debug, PartialEq, Eq)]
pub enum FWDTWINSZ {
    /// Window Size is 75%
    WINSZ_75,

    /// Window Size is 50%
    WINSZ_50,

    /// Window Size is 37.5%
    WINSZ_37,

    /// Window Size is 25%
    WINSZ_25,
}

impl FWDTWINSZ {
    /// Value of the setting in its field of the configuration word.
    pub open spec fn value(self) -> u32 {
        match self {
            FWDTWINSZ::WINSZ_75 => 0x0,
            FWDTWINSZ::WINSZ_50 => 0x1,
            FWDTWINSZ::WINSZ_37 => 0x2,
            FWDTWINSZ::WINSZ_25 => 0x3,
        }
    }

    /// Value of the setting in its field of the configuration word.
    pub fn bits(self) -> (r: u32)
        ensures
            r == self.value(),
    {
        match self {
            FWDTWINSZ::WINSZ_75 => 0x0,
            FWDTWINSZ::WINSZ_50 => 0x1,
            FWDTWINSZ::WINSZ_37 => 0x2,
            FWDTWINSZ::WINSZ_25 => 0x3,
        }
    }
}

/// Background Debugger Enable
#[allow(non_camel_case_types)]
#[derive(Clone, Copy, Debug, PartialEq, Eq)]
pub enum DEBUG {
    /// Debugger is Enabled
    ON,

    /// Debugger is Disabled
    OFF,
}

impl DEBUG {
    /// Value of the setting in its field of the configuration word.
    pub open spec fn value(self) -> u32 {
        match self {
            DEBUG::ON => 0x0,
            DEBUG::OFF => 0x3,
        }
    }

    /// Value of the setting in its field of the configuration word.
    pub fn bits(self) -> (r: u32)
        ensures
            r == self.value(),
    {
        match self {
            DEBUG::ON => 0x0,
            DEBUG::OFF => 0x3,
        }
    }
}

/// JTAG Enable
#[allow(non_camel_case_types)]
#[derive(Clone, Copy, Debug, PartialEq, Eq)]
pub enum JTAGEN {
    /// JTAG Port Enabled
    ON,

    /// JTAG Disabled
    OFF,
}

impl JTAGEN {
    /// Value of the setting in its field of the configuration word.
    pub open spec fn value(self) -> u32 {
        match self {
            JTAGEN::ON => 0x1,
            JTAGEN::OFF => 0x0,
        }
    }

    /// Value of the setting in its field of the configuration word.
    pub fn bits(self) -> (r: u32)
        ensures
            r == self.value(),
    {
        match self {
            JTAGEN::ON => 0x1,
            JTAGEN::OFF => 0x0,
        }
    }
}

/// ICE/ICD Comm Channel Select
#[allow(non_camel_case_types)]
#[derive(Clone, Copy, Debug, PartialEq, Eq)]
pub enum ICESEL {
    /// Communicate on PGEC1/PGED1
    ICS_PGx1,

    /// Communicate on PGEC2/PGED2
    ICS_PGx2,

    /// Communicate on PGEC3/PGED3
    ICS_PGx3,

    /// Communicate on PGEC4/PGED4
    ICS_PGx4,
}

impl ICESEL {
    /// Value of the setting in its field of the configuration word.
    pub open spec fn value(self) -> u32 {
        match self {
            ICESEL::ICS_PGx1 => 0x3,
            ICESEL::ICS_PGx2 => 0x2,
            ICESEL::ICS_PGx3 => 0x1,
            ICESEL::ICS_PGx4 => 0x0,
        }
    }

    /// Value of the setting in its field of the configuration word.
    pub fn bits(self) -> (r: u32)
        ensures
            r == self.value(),
    {
        match self {
            ICESEL::ICS_PGx1 => 0x3,
            ICESEL::ICS_PGx2 => 0x2,
            ICESEL::ICS_PGx3 => 0x1,
            ICESEL::ICS_PGx4 => 0x0,
        }
    }
}

/// Program Flash Write Protect
#[allow(non_camel_case_types)]
#[derive(Clone, Copy, Debug, PartialEq, Eq)]
pub enum PWP {
    /// Disable
    OFF,

    /// First 4K
    PWP4K,

    /// First 8K
    PWP8K,

    /// First 12K
    PWP12K,

    /// First 16K
    PWP16K,

    /// First 20K
    PWP20K,

    /// First 24K
    PWP24K,

    /// First 28K
    PWP28K,

    /// First 32K
    PWP32K,

    /// First 36K
    PWP36K,

    /// First 40K
    PWP40K,

    /// First 44K
    PWP44K,

    /// First 48K
    PWP48K,

    /// First 52K
    PWP52K,

    /// First 56K
    PWP56K,

    /// First 60K
    PWP60K,

    /// First 64K
    PWP64K,

    /// First 68K
    PWP68K,

    /// First 72K
    PWP72K,

    /// First 76K
    PWP76K,

    /// First 80K
    PWP80K,

    /// First 84K
    PWP84K,

    /// First 88K
    PWP88K,

    /// First 92K
    PWP92K,

    /// First 96K
    PWP96K,

    /// First 100K
    PWP100K,

    /// First 104K
    PWP104K,

    /// First 108K
    PWP108K,

    /// First 112K
    PWP112K,

    /// First 116K
    PWP116K,

    /// First 120K
    PWP120K,

    /// First 124K
    PWP124K,

    /// First 128K
    PWP128K,

    /// First 132K
    PWP132K,

    /// First 136K
    PWP136K,

    /// First 140K
    PWP140K,

    /// First 144K
    PWP144K,

    /// First 148K
    PWP148K,

    /// First 152K
    PWP152K,

    /// First 156K
    PWP156K,

    /// First 160K
    PWP160K,

    /// First 164K
    PWP164K,

    /// First 168K
    PWP168K,

    /// First 172K
    PWP172K,

    /// First 176K
    PWP176K,

    /// First 180K
    PWP180K,

    /// First 184K
    PWP184K,

    /// First 188K
    PWP188K,

    /// First 192K
    PWP192K,

    /// First 196K
    PWP196K,

    /// First 200K
    PWP200K,

    /// First 204K
    PWP204K,

    /// First 208K
    PWP208K,

    /// First 212K
    PWP212K,

    /// First 216K
    PWP216K,

    /// First 220K
    PWP220K,

    /// First 224K
    PWP224K,

    /// First 228K
    PWP228K,

    /// First 232K
    PWP232K,

    /// First 236K
    PWP236K,

    /// First 240K
    PWP240K,

    /// First 244K
    PWP244K,

    /// First 248K
    PWP248K,

    /// First 252K
    PWP252K,

    /// First 256K
    PWP256K,
}

impl PWP {
    /// Value of the setting in its field of the configuration word.
    pub open spec fn value(self) -> u32 {
        match self {
            PWP::OFF => 0xff,
            PWP::PWP4K => 0xfe,
            PWP::PWP8K => 0xfd,
            PWP::PWP12K => 0xfc,
            PWP::PWP16K => 0xfb,
            PWP::PWP20K => 0xfa,
            PWP::PWP24K => 0xf9,
            PWP::PWP28K => 0xf8,
            PWP::PWP32K => 0xf7,
            PWP::PWP36K => 0xf6,
            PWP::PWP40K => 0xf5,
            PWP::PWP44K => 0xf4,
            PWP::PWP48K => 0xf3,
            PWP::PWP52K => 0xf2,
            PWP::PWP56K => 0xf1,
            PWP::PWP60K => 0xf0,
            PWP::PWP64K => 0xef,
            PWP::PWP68K => 0xee,
            PWP::PWP72K => 0xed,
            PWP::PWP76K => 0xec,
            PWP::PWP80K => 0xeb,
            PWP::PWP84K => 0xea,
            PWP::PWP88K => 0xe9,
            PWP::PWP92K => 0xe8,
            PWP::PWP96K => 0xe7,
            PWP::PWP100K => 0xe6,
            PWP::PWP104K => 0xe5,
            PWP::PWP108K => 0xe4,
            PWP::PWP112K => 0xe3,
            PWP::PWP116K => 0xe2,
            PWP::PWP120K => 0xe1,
            PWP::PWP124K => 0xe0,
            PWP::PWP128K => 0xdf,
            PWP::PWP132K => 0xde,
            PWP::PWP136K => 0xdd,
            PWP::PWP140K => 0xdc,
            PWP::PWP144K => 0xdb,
            PWP::PWP148K => 0xda,
            PWP::PWP152K => 0xd9,
            PWP::PWP156K => 0xd8,
            PWP::PWP160K => 0xd7,
            PWP::PWP164K => 0xd6,
            PWP::PWP168K => 0xd5,
            PWP::PWP172K => 0xd4,
            PWP::PWP176K => 0xd3,
            PWP::PWP180K => 0xd2,
            PWP::PWP184K => 0xd1,
            PWP::PWP188K => 0xd0,
            PWP::PWP192K => 0xcf,
            PWP::PWP196K => 0xce,
            PWP::PWP200K => 0xcd,
            PWP::PWP204K => 0xcc,
            PWP::PWP208K => 0xcb,
            PWP::PWP212K => 0xca,
            PWP::PWP216K => 0xc9,
            PWP::PWP220K => 0xc8,
            PWP::PWP224K => 0xc7,
            PWP::PWP228K => 0xc6,
            PWP::PWP232K => 0xc5,
            PWP::PWP236K => 0xc4,
            PWP::PWP240K => 0xc3,
            PWP::PWP244K => 0xc2,
            PWP::PWP248K => 0xc1,
            PWP::PWP252K => 0xc0,
            PWP::PWP256K => 0xbf,
        }
    }

    /// Value of the setting in its field of the configuration word.
    pub fn bits(self) -> (r: u32)
        ensures
            r == self.value(),
    {
        match self {
            PWP::OFF => 0xff,
            PWP::PWP4K => 0xfe,
            PWP::PWP8K => 0xfd,
            PWP::PWP12K => 0xfc,
            PWP::PWP16K => 0xfb,
            PWP::PWP20K => 0xfa,
            PWP::PWP24K => 0xf9,
            PWP::PWP28K => 0xf8,
            PWP::PWP32K => 0xf7,
            PWP::PWP36K => 0xf6,
            PWP::PWP40K => 0xf5,
            PWP::PWP44K => 0xf4,
            PWP::PWP48K => 0xf3,
            PWP::PWP52K => 0xf2,
            PWP::PWP56K => 0xf1,
            PWP::PWP60K => 0xf0,
            PWP::PWP64K => 0xef,
            PWP::PWP68K => 0xee,
            PWP::PWP72K => 0xed,
            PWP::PWP76K => 0xec,
            PWP::PWP80K => 0xeb,
            PWP::PWP84K => 0xea,
            PWP::PWP88K => 0xe9,
            PWP::PWP92K => 0xe8,
            PWP::PWP96K => 0xe7,
            PWP::PWP100K => 0xe6,
            PWP::PWP104K => 0xe5,
            PWP::PWP108K => 0xe4,
            PWP::PWP112K => 0xe3,
            PWP::PWP116K => 0xe2,
            PWP::PWP120K => 0xe1,
            PWP::PWP124K => 0xe0,
            PWP::PWP128K => 0xdf,
            PWP::PWP132K => 0xde,
            PWP::PWP136K => 0xdd,
            PWP::PWP140K => 0xdc,
            PWP::PWP144K => 0xdb,
            PWP::PWP148K => 0xda,
            PWP::PWP152K => 0xd9,
            PWP::PWP156K => 0xd8,
            PWP::PWP160K => 0xd7,
            PWP::PWP164K => 0xd6,
            PWP::PWP168K => 0xd5,
            PWP::PWP172K => 0xd4,
            PWP::PWP176K => 0xd3,
            PWP::PWP180K => 0xd2,
            PWP::PWP184K => 0xd1,
            PWP::PWP188K => 0xd0,
            PWP::PWP192K => 0xcf,
            PWP::PWP196K => 0xce,
            PWP::PWP200K => 0xcd,
            PWP::PWP204K => 0xcc,
            PWP::PWP208K => 0xcb,
            PWP::PWP212K => 0xca,
            PWP::PWP216K => 0xc9,
            PWP::PWP220K => 0xc8,
            PWP::PWP224K => 0xc7,
            PWP::PWP228K => 0xc6,
            PWP::PWP232K => 0xc5,
            PWP::PWP236K => 0xc4,
            PWP::PWP240K => 0xc3,
            PWP::PWP244K => 0xc2,
            PWP::PWP248K => 0xc1,
            PWP::PWP252K => 0xc0,
            PWP::PWP256K => 0xbf,
        }
    }
}

/// Soft Master Clear Enable
#[allow(non_camel_case_types)]
#[derive(Clone, Copy, Debug, PartialEq, Eq)]
pub enum SMCLR {
    /// MCLR pin generates an emulated POR Reset
    MCLR_POR,

    /// MCLR pin generates a normal system Reset
    MCLR_NORM,
}

impl SMCLR {
    /// Value of the setting in its field of the configuration word.
    pub open spec fn value(self) -> u32 {
        match self {
            SMCLR::MCLR_POR => 0x0,
            SMCLR::MCLR_NORM => 0x1,
        }
    }

    /// Value of the setting in its field of the configuration word.
    pub fn bits(self) -> (r: u32)
        ensures
            r == self.value(),
    {
        match self {
            SMCLR::MCLR_POR => 0x0,
            SMCLR::MCLR_NORM => 0x1,
        }
    }
}

/// Boot Flash Write Protect bit
#[allow(non_camel_case_types)]
#[derive(Clone, Copy, Debug, PartialEq, Eq)]
pub enum BWP {
    /// Protection Enabled
    ON,

    /// Protection Disabled
    OFF,
}

impl BWP {
    /// Value of the setting in its field of the configuration word.
    pub open spec fn value(self) -> u32 {
        match self {
            BWP::ON => 0x0,
            BWP::OFF => 0x1,
        }
    }

    /// Value of the setting in its field of the configuration word.
    pub fn bits(self) -> (r: u32)
        ensures
            r == self.value(),
    {
        match self {
            BWP::ON => 0x0,
            BWP::OFF => 0x1,
        }
    }
}

/// Code Protect
#[allow(non_camel_case_types)]
#[derive(Clone, Copy, Debug, PartialEq, Eq)]
pub enum CP {
    /// Protection Enabled
    ON,

    /// Protection Disabled
    OFF,
}

impl CP {
    /// Value of the setting in its field of the configuration word.
    pub open spec fn value(self) -> u32 {
        match self {
            CP::ON => 0x0,
            CP::OFF => 0x1,
        }
    }

    /// Value of the setting in its field of the configuration word.
    pub fn bits(self) -> (r: u32)
        ensures
            r == self.value(),
    {
        match self {
            CP::ON => 0x0,
            CP::OFF => 0x1,
        }
    }
}

/// Configuration words, in the order in which they are stored
#[allow(non_snake_case)]
pub struct ConfigSector {
    DEVCFG3: u32,
    DEVCFG2: u32,
    DEVCFG1: u32,
    DEVCFG0: u32,
}

impl ConfigSector {
    /// The words in the order in which they are stored.
    pub open spec fn view(self) -> Seq<u32> {
        seq![self.spec_devcfg3(), self.spec_devcfg2(), self.spec_devcfg1(), self.spec_devcfg0()]
    }

    /// The word DEVCFG3.
    pub closed spec fn spec_devcfg3(self) -> u32 {
        self.DEVCFG3
    }

    /// The word DEVCFG2.
    pub closed spec fn spec_devcfg2(self) -> u32 {
        self.DEVCFG2
    }

    /// The word DEVCFG1.
    pub closed spec fn spec_devcfg1(self) -> u32 {
        self.DEVCFG1
    }

    /// The word DEVCFG0.
    pub closed spec fn spec_devcfg0(self) -> u32 {
        self.DEVCFG0
    }

    /// Create a builder
    pub fn default() -> (r: ConfigSectorBuilder)
        ensures
            r@ =~= seq![0xffffffffu32, 0xffffffffu32, 0xffffffffu32, 0xffffffffu32],
    {
        ConfigSectorBuilder {
            DEVCFG3: 0xffffffff,
            DEVCFG2: 0xffffffff,
            DEVCFG1: 0xffffffff,
            DEVCFG0: 0xffffffff,
        }
    }

    /// Convert into a array of 32 bit words consuming this ConfigSector
    pub fn into_array(self) -> (r: [u32; CONFIG_SECTOR_LENGTH])
        ensures
            r@ =~= self@,
    {
        [self.DEVCFG3, self.DEVCFG2, self.DEVCFG1, self.DEVCFG0]
    }
}

/// Configuration word sector builder
#[allow(non_snake_case)]
pub struct ConfigSectorBuilder {
    DEVCFG3: u32,
    DEVCFG2: u32,
    DEVCFG1: u32,
    DEVCFG0: u32,
}

impl ConfigSectorBuilder {
    /// The words in the order in which they are stored.
    pub open spec fn view(self) -> Seq<u32> {
        seq![self.spec_devcfg3(), self.spec_devcfg2(), self.spec_devcfg1(), self.spec_devcfg0()]
    }

    /// The word DEVCFG3.
    pub closed spec fn spec_devcfg3(self) -> u32 {
        self.DEVCFG3
    }

    /// The word DEVCFG2.
    pub closed spec fn spec_devcfg2(self) -> u32 {
        self.DEVCFG2
    }

    /// The word DEVCFG1.
    pub closed spec fn spec_devcfg1(self) -> u32 {
        self.DEVCFG1
    }

    /// The word DEVCFG0.
    pub closed spec fn spec_devcfg0(self) -> u32 {
        self.DEVCFG0
    }

    /// Set the `USERID` setting in DEVCFG3.
    #[allow(non_snake_case)]
    pub fn USERID(self, v: u16) -> (r: Self)
        ensures
            r@ =~= self@.update(0, spec_with_field(self@[0], 0x0000ffff, 0, v as u32)),
    {
        let mut s = self;
        s.DEVCFG3 = with_field(s.DEVCFG3, 0x0000ffff, 0, v as u32);
        s
    }

    /// Set the `AI2C1` setting in DEVCFG3.
    #[allow(non_snake_case)]
    pub fn AI2C1(self, v: AI2C1) -> (r: Self)
        ensures
            r@ =~= self@.update(0, spec_with_field(self@[0], 0x00400000, 22, v.value())),
    {
        let mut s = self;
        s.DEVCFG3 = with_field(s.DEVCFG3, 0x00400000, 22, v.bits());
        s
    }

    /// Set the `AI2C2` setting in DEVCFG3.
    #[allow(non_snake_case)]
    pub fn AI2C2(self, v: AI2C2) -> (r: Self)
        ensures
            r@ =~= self@.update(0, spec_with_field(self@[0], 0x00800000, 23, v.value())),
    {
        let mut s = self;
        s.DEVCFG3 = with_field(s.DEVCFG3, 0x00800000, 23, v.bits());
        s
    }

    /// Set the `PMDL1WAY` setting in DEVCFG3.
    #[allow(non_snake_case)]
    pub fn PMDL1WAY(self, v: PMDL1WAY) -> (r: Self)
        ensures
            r@ =~= self@.update(0, spec_with_field(self@[0], 0x10000000, 28, v.value())),
    {
        let mut s = self;
        s.DEVCFG3 = with_field(s.DEVCFG3, 0x10000000, 28, v.bits());
        s
    }

    /// Set the `IOL1WAY` setting in DEVCFG3.
    #[allow(non_snake_case)]
    pub fn IOL1WAY(self, v: IOL1WAY) -> (r: Self)
        ensures
            r@ =~= self@.update(0, spec_with_field(self@[0], 0x20000000, 29, v.value())),
    {
        let mut s = self;
        s.DEVCFG3 = with_field(s.DEVCFG3, 0x20000000, 29, v.bits());
        s
    }

    /// Set the `FPLLIDIV` setting in DEVCFG2.
    #[allow(non_snake_case)]
    pub fn FPLLIDIV(self, v: FPLLIDIV) -> (r: Self)
        ensures
            r@ =~= self@.update(1, spec_with_field(self@[1], 0x00000007, 0, v.value())),
    {
        let mut s = self;
        s.DEVCFG2 = with_field(s.DEVCFG2, 0x00000007, 0, v.bits());
        s
    }

    /// Set the `FPLLMUL` setting in DEVCFG2.
    #[allow(non_snake_case)]
    pub fn FPLLMUL(self, v: FPLLMUL) -> (r: Self)
        ensures
            r@ =~= self@.update(1, spec_with_field(self@[1], 0x00000070, 4, v.value())),
    {
        let mut s = self;
        s.DEVCFG2 = with_field(s.DEVCFG2, 0x00000070, 4, v.bits());
        s
    }

    /// Set the `FPLLICLK` setting in DEVCFG2.
    #[allow(non_snake_case)]
    pub fn FPLLICLK(self, v: FPLLICLK) -> (r: Self)
        ensures
            r@ =~= self@.update(1, spec_with_field(self@[1], 0x00000080, 7, v.value())),
    {
        let mut s = self;
        s.DEVCFG2 = with_field(s.DEVCFG2, 0x00000080, 7, v.bits());
        s
    }

    /// Set the `FPLLODIV` setting in DEVCFG2.
    #[allow(non_snake_case)]
    pub fn FPLLODIV(self, v: FPLLODIV) -> (r: Self)
        ensures
            r@ =~= self@.update(1, spec_with_field(self@[1], 0x00070000, 16, v.value())),
    {
        let mut s = self;
        s.DEVCFG2 = with_field(s.DEVCFG2, 0x00070000, 16, v.bits());
        s
    }

    /// Set the `BOREN` setting in DEVCFG2.
    #[allow(non_snake_case)]
    pub fn BOREN(self, v: BOREN) -> (r: Self)
        ensures
            r@ =~= self@.update(1, spec_with_field(self@[1], 0x00100000, 20, v.value())),
    {
        let mut s = self;
        s.DEVCFG2 = with_field(s.DEVCFG2, 0x00100000, 20, v.bits());
        s
    }

    /// Set the `DSBOREN` setting in DEVCFG2.
    #[allow(non_snake_case)]
    pub fn DSBOREN(self, v: DSBOREN) -> (r: Self)
        ensures
            r@ =~= self@.update(1, spec_with_field(self@[1], 0x00800000, 23, v.value())),
    {
        let mut s = self;
        s.DEVCFG2 = with_field(s.DEVCFG2, 0x00800000, 23, v.bits());
        s
    }

    /// Set the `DSWDTPS` setting in DEVCFG2.
    #[allow(non_snake_case)]
    pub fn DSWDTPS(self, v: DSWDTPS) -> (r: Self)
        ensures
            r@ =~= self@.update(1, spec_with_field(self@[1], 0x1f000000, 24, v.value())),
    {
        let mut s = self;
        s.DEVCFG2 = with_field(s.DEVCFG2, 0x1f000000, 24, v.bits());
        s
    }

    /// Set the `DSWDTOSC` setting in DEVCFG2.
    #[allow(non_snake_case)]
    pub fn DSWDTOSC(self, v: DSWDTOSC) -> (r: Self)
        ensures
            r@ =~= self@.update(1, spec_with_field(self@[1], 0x20000000, 29, v.value())),
    {
        let mut s = self;
        s.DEVCFG2 = with_field(s.DEVCFG2, 0x20000000, 29, v.bits());
        s
    }

    /// Set the `DSWDTEN` setting in DEVCFG2.
    #[allow(non_snake_case)]
    pub fn DSWDTEN(self, v: DSWDTEN) -> (r: Self)
        ensures
            r@ =~= self@.update(1, spec_with_field(self@[1], 0x40000000, 30, v.value())),
    {
        let mut s = self;
        s.DEVCFG2 = with_field(s.DEVCFG2, 0x40000000, 30, v.bits());
        s
    }

    /// Set the `FDSEN` setting in DEVCFG2.
    #[allow(non_snake_case)]
    pub fn FDSEN(self, v: FDSEN) -> (r: Self)
        ensures
            r@ =~= self@.update(1, spec_with_field(self@[1], 0x80000000, 31, v.value())),
    {
        let mut s = self;
        s.DEVCFG2 = with_field(s.DEVCFG2, 0x80000000, 31, v.bits());
        s
    }

    /// Set the `FNOSC` setting in DEVCFG1.
    #[allow(non_snake_case)]
    pub fn FNOSC(self, v: FNOSC) -> (r: Self)
        ensures
            r@ =~= self@.update(2, spec_with_field(self@[2], 0x00000007, 0, v.value())),
    {
        let mut s = self;
        s.DEVCFG1 = with_field(s.DEVCFG1, 0x00000007, 0, v.bits());
        s
    }

    /// Set the `FSOSCEN` setting in DEVCFG1.
    #[allow(non_snake_case)]
    pub fn FSOSCEN(self, v: FSOSCEN) -> (r: Self)
        ensures
            r@ =~= self@.update(2, spec_with_field(self@[2], 0x00000020, 5, v.value())),
    {
        let mut s = self;
        s.DEVCFG1 = with_field(s.DEVCFG1, 0x00000020, 5, v.bits());
        s
    }

    /// Set the `IESO` setting in DEVCFG1.
    #[allow(non_snake_case)]
    pub fn IESO(self, v: IESO) -> (r: Self)
        ensures
            r@ =~= self@.update(2, spec_with_field(self@[2], 0x00000080, 7, v.value())),
    {
        let mut s = self;
        s.DEVCFG1 = with_field(s.DEVCFG1, 0x00000080, 7, v.bits());
        s
    }

    /// Set the `POSCMOD` setting in DEVCFG1.
    #[allow(non_snake_case)]
    pub fn POSCMOD(self, v: POSCMOD) -> (r: Self)
        ensures
            r@ =~= self@.update(2, spec_with_field(self@[2], 0x00000300, 8, v.value())),
    {
        let mut s = self;
        s.DEVCFG1 = with_field(s.DEVCFG1, 0x00000300, 8, v.bits());
        s
    }

    /// Set the `OSCIOFNC` setting in DEVCFG1.
    #[allow(non_snake_case)]
    pub fn OSCIOFNC(self, v: OSCIOFNC) -> (r: Self)
        ensures
            r@ =~= self@.update(2, spec_with_field(self@[2], 0x00000400, 10, v.value())),
    {
        let mut s = self;
        s.DEVCFG1 = with_field(s.DEVCFG1, 0x00000400, 10, v.bits());
        s
    }

    /// Set the `FPBDIV` setting in DEVCFG1.
    #[allow(non_snake_case)]
    pub fn FPBDIV(self, v: FPBDIV) -> (r: Self)
        ensures
            r@ =~= self@.update(2, spec_with_field(self@[2], 0x00003000, 12, v.value())),
    {
        let mut s = self;
        s.DEVCFG1 = with_field(s.DEVCFG1, 0x00003000, 12, v.bits());
        s
    }

    /// Set the `FCKSM` setting in DEVCFG1.
    #[allow(non_snake_case)]
    pub fn FCKSM(self, v: FCKSM) -> (r: Self)
        ensures
            r@ =~= self@.update(2, spec_with_field(self@[2], 0x0000c000, 14, v.value())),
    {
        let mut s = self;
        s.DEVCFG1 = with_field(s.DEVCFG1, 0x0000c000, 14, v.bits());
        s
    }

    /// Set the `WDTPS` setting in DEVCFG1.
    #[allow(non_snake_case)]
    pub fn WDTPS(self, v: WDTPS) -> (r: Self)
        ensures
            r@ =~= self@.update(2, spec_with_field(self@[2], 0x001f0000, 16, v.value())),
    {
        let mut s = self;
        s.DEVCFG1 = with_field(s.DEVCFG1, 0x001f0000, 16, v.bits());
        s
    }

    /// Set the `WDTSPGM` setting in DEVCFG1.
    #[allow(non_snake_case)]
    pub fn WDTSPGM(self, v: WDTSPGM) -> (r: Self)
        ensures
            r@ =~= self@.update(2, spec_with_field(self@[2], 0x00200000, 21, v.value())),
    {
        let mut s = self;
        s.DEVCFG1 = with_field(s.DEVCFG1, 0x00200000, 21, v.bits());
        s
    }

    /// Set the `WINDIS` setting in DEVCFG1.
    #[allow(non_snake_case)]
    pub fn WINDIS(self, v: WINDIS) -> (r: Self)
        ensures
            r@ =~= self@.update(2, spec_with_field(self@[2], 0x00400000, 22, v.value())),
    {
        let mut s = self;
        s.DEVCFG1 = with_field(s.DEVCFG1, 0x00400000, 22, v.bits());
        s
    }

    /// Set the `FWDTEN` setting in DEVCFG1.
    #[allow(non_snake_case)]
    pub fn FWDTEN(self, v: FWDTEN) -> (r: Self)
        ensures
            r@ =~= self@.update(2, spec_with_field(self@[2], 0x00800000, 23, v.value())),
    {
        let mut s = self;
        s.DEVCFG1 = with_field(s.DEVCFG1, 0x00800000, 23, v.bits());
        s
    }

    /// Set the `FWDTWINSZ` setting in DEVCFG1.
    #[allow(non_snake_case)]
    pub fn FWDTWINSZ(self, v: FWDTWINSZ) -> (r: Self)
        ensures
            r@ =~= self@.update(2, spec_with_field(self@[2], 0x03000000, 24, v.value())),
    {
        let mut s = self;
        s.DEVCFG1 = with_field(s.DEVCFG1, 0x03000000, 24, v.bits());
        s
    }

    /// Set the `DEBUG` setting in DEVCFG0.
    #[allow(non_snake_case)]
    pub fn DEBUG(self, v: DEBUG) -> (r: Self)
        ensures
            r@ =~= self@.update(3, spec_with_field(self@[3], 0x00000003, 0, v.value())),
    {
        let mut s = self;
        s.DEVCFG0 = with_field(s.DEVCFG0, 0x00000003, 0, v.bits());
        s
    }

    /// Set the `JTAGEN` setting in DEVCFG0.
    #[allow(non_snake_case)]
    pub fn JTAGEN(self, v: JTAGEN) -> (r: Self)
        ensures
            r@ =~= self@.update(3, spec_with_field(self@[3], 0x00000004, 2, v.value())),
    {
        let mut s = self;
        s.DEVCFG0 = with_field(s.DEVCFG0, 0x00000004, 2, v.bits());
        s
    }

    /// Set the `ICESEL` setting in DEVCFG0.
    #[allow(non_snake_case)]
    pub fn ICESEL(self, v: ICESEL) -> (r: Self)
        ensures
            r@ =~= self@.update(3, spec_with_field(self@[3], 0x00000018, 3, v.value())),
    {
        let mut s = self;
        s.DEVCFG0 = with_field(s.DEVCFG0, 0x00000018, 3, v.bits());
        s
    }

    /// Set the `PWP` setting in DEVCFG0.
    #[allow(non_snake_case)]
    pub fn PWP(self, v: PWP) -> (r: Self)
        ensures
            r@ =~= self@.update(3, spec_with_field(self@[3], 0x000ff000, 12, v.value())),
    {
        let mut s = self;
        s.DEVCFG0 = with_field(s.DEVCFG0, 0x000ff000, 12, v.bits());
        s
    }

    /// Set the `SMCLR` setting in DEVCFG0.
    #[allow(non_snake_case)]
    pub fn SMCLR(self, v: SMCLR) -> (r: Self)
        ensures
            r@ =~= self@.update(3, spec_with_field(self@[3], 0x00800000, 23, v.value())),
    {
        let mut s = self;
        s.DEVCFG0 = with_field(s.DEVCFG0, 0x00800000, 23, v.bits());
        s
    }

    /// Set the `BWP` setting in DEVCFG0.
    #[allow(non_snake_case)]
    pub fn BWP(self, v: BWP) -> (r: Self)
        ensures
            r@ =~= self@.update(3, spec_with_field(self@[3], 0x01000000, 24, v.value())),
    {
        let mut s = self;
        s.DEVCFG0 = with_field(s.DEVCFG0, 0x01000000, 24, v.bits());
        s
    }

    /// Set the `CP` setting in DEVCFG0.
    #[allow(non_snake_case)]
    pub fn CP(self, v: CP) -> (r: Self)
        ensures
            r@ =~= self@.update(3, spec_with_field(self@[3], 0x10000000, 28, v.value())),
    {
        let mut s = self;
        s.DEVCFG0 = with_field(s.DEVCFG0, 0x10000000, 28, v.bits());
        s
    }

    /// Finish the configuration.
    pub fn build(self) -> (r: ConfigSector)
        ensures
            r@ =~= self@,
    {
        ConfigSector {
            DEVCFG3: self.DEVCFG3,
            DEVCFG2: self.DEVCFG2,
            DEVCFG1: self.DEVCFG1,
            DEVCFG0: self.DEVCFG0,
        }
    }
}

} // verus!
