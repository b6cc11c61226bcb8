use vstd::prelude::*;
use crate::config::field::{spec_with_field, with_field};

verus! {

/// Length of config word sector in words
pub const CONFIG_SECTOR_LENGTH: usize = 4;

/// Shadow Register Set Priority Select
#[allow(non_camel_case_types)]
#[derive(Clone, Copy, Debug, PartialEq, Eq)]
pub enum FSRSSEL {
    /// SRS Priority 0
    PRIORITY_0,

    /// SRS Priority 1
    PRIORITY_1,

    /// SRS Priority 2
    PRIORITY_2,

    /// SRS Priority 3
    PRIORITY_3,

    /// SRS Priority 4
    PRIORITY_4,

    /// SRS Priority 5
    PRIORITY_5,

    /// SRS Priority 6
    PRIORITY_6,

    /// SRS Priority 7
    PRIORITY_7,
}

impl FSRSSEL {
    /// Value of the setting in its field of the configuration word.
    pub open spec fn value(self) -> u32 {
        match self {
            FSRSSEL::PRIORITY_0 => 0x0,
            FSRSSEL::PRIORITY_1 => 0x1,
            FSRSSEL::PRIORITY_2 => 0x2,
            FSRSSEL::PRIORITY_3 => 0x3,
            FSRSSEL::PRIORITY_4 => 0x4,
            FSRSSEL::PRIORITY_5 => 0x5,
            FSRSSEL::PRIORITY_6 => 0x6,
            FSRSSEL::PRIORITY_7 => 0x7,
        }
    }

    /// Value of the setting in its field of the configuration word.
    pub fn bits(self) -> (r: u32)
        ensures
            r == self.value(),
    {
        match self {
            FSRSSEL::PRIORITY_0 => 0x0,
            FSRSSEL::PRIORITY_1 => 0x1,
            FSRSSEL::PRIORITY_2 => 0x2,
            FSRSSEL::PRIORITY_3 => 0x3,
            FSRSSEL::PRIORITY_4 => 0x4,
            FSRSSEL::PRIORITY_5 => 0x5,
            FSRSSEL::PRIORITY_6 => 0x6,
            FSRSSEL::PRIORITY_7 => 0x7,
        }
    }
}

/// Peripheral Module Disable Configuration
#[allow(non_camel_case_types)]
#[derive(Clone, Copy, Debug, PartialEq, Eq)]
pub enum PMDL1WAY {
    /// Allow only one reconfiguration
    ON,

    /// Allow multiple reconfigurations
    OFF,
}

impl PMDL1WAY {
    /// Value of the setting in its field of the configuration word.
    pub open spec fn value(self) -> u32 {
        match self {
            PMDL1WAY::ON => 0x1,
            PMDL1WAY::OFF => 0x0,
        }
    }

    /// Value of the setting in its field of the configuration word.
    pub fn bits(self) -> (r: u32)
        ensures
            r == self.value(),
    {
        match self {
            PMDL1WAY::ON => 0x1,
            PMDL1WAY::OFF => 0x0,
        }
    }
}

/// Peripheral Pin Select Configuration
#[allow(non_camel_case_types)]
#[derive(Clone, Copy, Debug, PartialEq, Eq)]
pub enum IOL1WAY {
    /// Allow only one reconfiguration
    ON,

    /// Allow multiple reconfigurations
    OFF,
}

impl IOL1WAY {
    /// Value of the setting in its field of the configuration word.
    pub open spec fn value(self) -> u32 {
        match self {
            IOL1WAY::ON => 0x1,
            IOL1WAY::OFF => 0x0,
        }
    }

    /// Value of the setting in its field of the configuration word.
    pub fn bits(self) -> (r: u32)
        ensures
            r == self.value(),
    {
        match self {
            IOL1WAY::ON => 0x1,
            IOL1WAY::OFF => 0x0,
        }
    }
}

/// USB USID Selection
#[allow(non_camel_case_types)]
#[derive(Clone, Copy, Debug, PartialEq, Eq)]
pub enum FUSBIDIO {
    /// Controlled by Port Function
    OFF,

    /// Controlled by the USB Module
    ON,
}

impl FUSBIDIO {
    /// Value of the setting in its field of the configuration word.
    pub open spec fn value(self) -> u32 {
        match self {
            FUSBIDIO::OFF => 0x0,
            FUSBIDIO::ON => 0x1,
        }
    }

    /// Value of the setting in its field of the configuration word.
    pub fn bits(self) -> (r: u32)
        ensures
            r == self.value(),
    {
        match self {
            FUSBIDIO::OFF => 0x0,
            FUSBIDIO::ON => 0x1,
        }
    }
}

/// USB VBUS ON Selection
#[allow(non_camel_case_types)]
#[derive(Clone, Copy, Debug, PartialEq, Eq)]
pub enum FVBUSONIO {
    /// Controlled by Port Function
    OFF,

    /// Controlled by USB Module
    ON,
}

impl FVBUSONIO {
    /// Value of the setting in its field of the configuration word.
    pub open spec fn value(self) -> u32 {
        match self {
            FVBUSONIO::OFF => 0x0,
            FVBUSONIO::ON => 0x1,
        }
    }

    /// Value of the setting in its field of the configuration word.
    pub fn bits(self) -> (r: u32)
        ensures
            r == self.value(),
    {
        match self {
            FVBUSONIO::OFF => 0x0,
            FVBUSONIO::ON => 0x1,
        }
    }
}

/// PLL Input Divider
#[allow(non_camel_case_types)]
#[derive(Clone, Copy, Debug, PartialEq, Eq)]
pub enum FPLLIDIV {
    /// 1x Divider
    DIV_1,

    /// 2x Divider
    DIV_2,

    /// 3x Divider
    DIV_3,

    /// 4x Divider
    DIV_4,

    /// 5x Divider
    DIV_5,

    /// 6x Divider
    DIV_6,

    /// 10x Divider
    DIV_10,

    /// 12x Divider
    DIV_12,
}

impl FPLLIDIV {
    /// Value of the setting in its field of the configuration word.
    pub open spec fn value(self) -> u32 {
        match self {
            FPLLIDIV::DIV_1 => 0x0,
            FPLLIDIV::DIV_2 => 0x1,
            FPLLIDIV::DIV_3 => 0x2,
            FPLLIDIV::DIV_4 => 0x3,
            FPLLIDIV::DIV_5 => 0x4,
            FPLLIDIV::DIV_6 => 0x5,
            FPLLIDIV::DIV_10 => 0x6,
            FPLLIDIV::DIV_12 => 0x7,
        }
    }

    /// Value of the setting in its field of the configuration word.
    pub fn bits(self) -> (r: u32)
        ensures
            r == self.value(),
    {
        match self {
            FPLLIDIV::DIV_1 => 0x0,
            FPLLIDIV::DIV_2 => 0x1,
            FPLLIDIV::DIV_3 => 0x2,
            FPLLIDIV::DIV_4 => 0x3,
            FPLLIDIV::DIV_5 => 0x4,
            FPLLIDIV::DIV_6 => 0x5,
            FPLLIDIV::DIV_10 => 0x6,
            FPLLIDIV::DIV_12 => 0x7,
        }
    }
}

/// PLL Multiplier
#[allow(non_camel_case_types)]
#[derive(Clone, Copy, Debug, PartialEq, Eq)]
pub enum FPLLMUL {
    /// 15x Multiplier
    MUL_15,

    /// 16x Multiplier
    MUL_16,

    /// 17x Multiplier
    MUL_17,

    /// 18x Multiplier
    MUL_18,

    /// 19x Multiplier
    MUL_19,

    /// 20x Multiplier
    MUL_20,

    /// 21x Multiplier
    MUL_21,

    /// 24x Multiplier
    MUL_24,
}

impl FPLLMUL {
    /// Value of the setting in its field of the configuration word.
    pub open spec fn value(self) -> u32 {
        match self {
            FPLLMUL::MUL_15 => 0x0,
            FPLLMUL::MUL_16 => 0x1,
            FPLLMUL::MUL_17 => 0x2,
            FPLLMUL::MUL_18 => 0x3,
            FPLLMUL::MUL_19 => 0x4,
            FPLLMUL::MUL_20 => 0x5,
            FPLLMUL::MUL_21 => 0x6,
            FPLLMUL::MUL_24 => 0x7,
        }
    }

    /// Value of the setting in its field of the configuration word.
    pub fn bits(self) -> (r: u32)
        ensures
            r == self.value(),
    {
        match self {
            FPLLMUL::MUL_15 => 0x0,
            FPLLMUL::MUL_16 => 0x1,
            FPLLMUL::MUL_17 => 0x2,
            FPLLMUL::MUL_18 => 0x3,
            FPLLMUL::MUL_19 => 0x4,
            FPLLMUL::MUL_20 => 0x5,
            FPLLMUL::MUL_21 => 0x6,
            FPLLMUL::MUL_24 => 0x7,
        }
    }
}

/// USB PLL Input Divider
#[allow(non_camel_case_types)]
#[derive(Clone, Copy, Debug, PartialEq, Eq)]
pub enum UPLLIDIV {
    /// 1x Divider
    DIV_1,

    /// 2x Divider
    DIV_2,

    /// 3x Divider
    DIV_3,

    /// 4x Divider
    DIV_4,

    /// 5x Divider
    DIV_5,

    /// 6x Divider
    DIV_6,

    /// 10x Divider
    DIV_10,

    /// 12x Divider
    DIV_12,
}

impl UPLLIDIV {
    /// Value of the setting in its field of the configuration word.
    pub open spec fn value(self) -> u32 {
        match self {
            UPLLIDIV::DIV_1 => 0x0,
            UPLLIDIV::DIV_2 => 0x1,
            UPLLIDIV::DIV_3 => 0x2,
            UPLLIDIV::DIV_4 => 0x3,
            UPLLIDIV::DIV_5 => 0x4,
            UPLLIDIV::DIV_6 => 0x5,
            UPLLIDIV::DIV_10 => 0x6,
            UPLLIDIV::DIV_12 => 0x7,
        }
    }

    /// Value of the setting in its field of the configuration word.
    pub fn bits(self) -> (r: u32)
        ensures
            r == self.value(),
    {
        match self {
            UPLLIDIV::DIV_1 => 0x0,
            UPLLIDIV::DIV_2 => 0x1,
            UPLLIDIV::DIV_3 => 0x2,
            UPLLIDIV::DIV_4 => 0x3,
            UPLLIDIV::DIV_5 => 0x4,
            UPLLIDIV::DIV_6 => 0x5,
            UPLLIDIV::DIV_10 => 0x6,
            UPLLIDIV::DIV_12 => 0x7,
        }
    }
}

/// USB PLL Enable
#[allow(non_camel_case_types)]
#[derive(Clone, Copy, Debug, PartialEq, Eq)]
pub enum UPLLEN {
    /// Enabled
    ON,

    /// Disabled and Bypassed
    OFF,
}

impl UPLLEN {
    /// Value of the setting in its field of the configuration word.
    pub open spec fn value(self) -> u32 {
        match self {
            UPLLEN::ON => 0x0,
            UPLLEN::OFF => 0x1,
        }
    }

    /// Value of the setting in its field of the configuration word.
    pub fn bits(self) -> (r: u32)
        ensures
            r == self.value(),
    {
        match self {
            UPLLEN::ON => 0x0,
            UPLLEN::OFF => 0x1,
        }
    }
}

/// System PLL Output Clock Divider
#[allow(non_camel_case_types)]
#[derive(Clone, Copy, Debug, PartialEq, Eq)]
pub enum FPLLODIV {
    /// PLL Divide by 1
    DIV_1,

    /// PLL Divide by 2
    DIV_2,

    /// PLL Divide by 4
    DIV_4,

    /// PLL Divide by 8
    DIV_8,

    /// PLL Divide by 16
    DIV_16,

    /// PLL Divide by 32
    DIV_32,

    /// PLL Divide by 64
    DIV_64,

    /// PLL Divide by 256
    DIV_256,
}

impl FPLLODIV {
    /// Value of the setting in its field of the configuration word.
    pub open spec fn value(self) -> u32 {
        match self {
            FPLLODIV::DIV_1 => 0x0,
            FPLLODIV::DIV_2 => 0x1,
            FPLLODIV::DIV_4 => 0x2,
            FPLLODIV::DIV_8 => 0x3,
            FPLLODIV::DIV_16 => 0x4,
            FPLLODIV::DIV_32 => 0x5,
            FPLLODIV::DIV_64 => 0x6,
            FPLLODIV::DIV_256 => 0x7,
        }
    }

    /// Value of the setting in its field of the configuration word.
    pub fn bits(self) -> (r: u32)
        ensures
            r == self.value(),
    {
        match self {
            FPLLODIV::DIV_1 => 0x0,
            FPLLODIV::DIV_2 => 0x1,
            FPLLODIV::DIV_4 => 0x2,
            FPLLODIV::DIV_8 => 0x3,
            FPLLODIV::DIV_16 => 0x4,
            FPLLODIV::DIV_32 => 0x5,
            FPLLODIV::DIV_64 => 0x6,
            FPLLODIV::DIV_256 => 0x7,
        }
    }
}

/// Oscillator Selection Bits
#[allow(non_camel_case_types)]
#[derive(Clone, Copy, Debug, PartialEq, Eq)]
pub enum FNOSC {
    /// Fast RC Osc (FRC)
    FRC,

    /// Fast RC Osc with PLL
    FRCPLL,

    /// Primary Osc (XT,HS,EC)
    PRI,

    /// Primary Osc w/PLL (XT+,HS+,EC+PLL)
    PRIPLL,

    /// Low Power Secondary Osc (SOSC)
    SOSC,

    /// Low Power RC Osc (LPRC)
    LPRC,

    /// Fast RC Osc w/Div-by-16 (FRC/16)
    FRCDIV16,

    /// Fast RC Osc w/Div-by-N (FRCDIV)
    FRCDIV,
}

impl FNOSC {
    /// Value of the setting in its field of the configuration word.
    pub open spec fn value(self) -> u32 {
        match self {
            FNOSC::FRC => 0x0,
            FNOSC::FRCPLL => 0x1,
            FNOSC::PRI => 0x2,
            FNOSC::PRIPLL => 0x3,
            FNOSC::SOSC => 0x4,
            FNOSC::LPRC => 0x5,
            FNOSC::FRCDIV16 => 0x6,
            FNOSC::FRCDIV => 0x7,
        }
    }

    /// Value of the setting in its field of the configuration word.
    pub fn bits(self) -> (r: u32)
        ensures
            r == self.value(),
    {
        match self {
            FNOSC::FRC => 0x0,
            FNOSC::FRCPLL => 0x1,
            FNOSC::PRI => 0x2,
            FNOSC::PRIPLL => 0x3,
            FNOSC::SOSC => 0x4,
            FNOSC::LPRC => 0x5,
            FNOSC::FRCDIV16 => 0x6,
            FNOSC::FRCDIV => 0x7,
        }
    }
}

/// Secondary Oscillator Enable
#[allow(non_camel_case_types)]
#[derive(Clone, Copy, Debug, PartialEq, Eq)]
pub enum FSOSCEN {
    /// Disabled
    OFF,

    /// Enabled
    ON,
}

impl FSOSCEN {
    /// Value of the setting in its field of the configuration word.
    pub open spec fn value(self) -> u32 {
        match self {
            FSOSCEN::OFF => 0x0,
            FSOSCEN::ON => 0x1,
        }
    }

    /// Value of the setting in its field of the configuration word.
    pub fn bits(self) -> (r: u32)
        ensures
            r == self.value(),
    {
        match self {
            FSOSCEN::OFF => 0x0,
            FSOSCEN::ON => 0x1,
        }
    }
}

/// Internal/External Switch Over
#[allow(non_camel_case_types)]
#[derive(Clone, Copy, Debug, PartialEq, Eq)]
pub enum IESO {
    /// Disabled
    OFF,

    /// Enabled
    ON,
}

impl IESO {
    /// Value of the setting in its field of the configuration word.
    pub open spec fn value(self) -> u32 {
        match self {
            IESO::OFF => 0x0,
            IESO::ON => 0x1,
        }
    }

    /// Value of the setting in its field of the configuration word.
    pub fn bits(self) -> (r: u32)
        ensures
            r == self.value(),
    {
        match self {
            IESO::OFF => 0x0,
            IESO::ON => 0x1,
        }
    }
}

/// Primary Oscillator Configuration
#[allow(non_camel_case_types)]
#[derive(Clone, Copy, Debug, PartialEq, Eq)]
pub enum POSCMOD {
    /// External clock mode
    EC,

    /// XT osc mode
    XT,

    /// HS osc mode
    HS,

    /// Primary osc disabled
    OFF,
}

impl POSCMOD {
    /// Value of the setting in its field of the configuration word.
    pub open spec fn value(self) -> u32 {
        match self {
            POSCMOD::EC => 0x0,
            POSCMOD::XT => 0x1,
            POSCMOD::HS => 0x2,
            POSCMOD::OFF => 0x3,
        }
    }

    /// Value of the setting in its field of the configuration word.
    pub fn bits(self) -> (r: u32)
        ensures
            r == self.value(),
    {
        match self {
            POSCMOD::EC => 0x0,
            POSCMOD::XT => 0x1,
            POSCMOD::HS => 0x2,
            POSCMOD::OFF => 0x3,
        }
    }
}

/// CLKO Output Signal Active on the OSCO Pin
#[allow(non_camel_case_types)]
#[derive(Clone, Copy, Debug, PartialEq, Eq)]
pub enum OSCIOFNC {
    /// Disabled
    OFF,

    /// Enabled
    ON,
}

impl OSCIOFNC {
    /// Value of the setting in its field of the configuration word.
    pub open spec fn value(self) -> u32 {
        match self {
            OSCIOFNC::OFF => 0x1,
            OSCIOFNC::ON => 0x0,
        }
    }

    /// Value of the setting in its field of the configuration word.
    pub fn bits(self) -> (r: u32)
        ensures
            r == self.value(),
    {
        match self {
            OSCIOFNC::OFF => 0x1,
            OSCIOFNC::ON => 0x0,
        }
    }
}

/// Peripheral Clock Divisor
#[allow(non_camel_case_types)]
#[derive(Clone, Copy, Debug, PartialEq, Eq)]
pub enum FPBDIV {
    /// Pb_Clk is Sys_Clk/1
    DIV_1,

    /// Pb_Clk is Sys_Clk/2
    DIV_2,

    /// Pb_Clk is Sys_Clk/4
    DIV_4,

    /// Pb_Clk is Sys_Clk/8
    DIV_8,
}

impl FPBDIV {
    /// Value of the setting in its field of the configuration word.
    pub open spec fn value(self) -> u32 {
        match self {
            FPBDIV::DIV_1 => 0x0,
            FPBDIV::DIV_2 => 0x1,
            FPBDIV::DIV_4 => 0x2,
            FPBDIV::DIV_8 => 0x3,
        }
    }

    /// Value of the setting in its field of the configuration word.
    pub fn bits(self) -> (r: u32)
        ensures
            r == self.value(),
    {
        match self {
            FPBDIV::DIV_1 => 0x0,
            FPBDIV::DIV_2 => 0x1,
            FPBDIV::DIV_4 => 0x2,
            FPBDIV::DIV_8 => 0x3,
        }
    }
}

/// Clock Switching and Monitor Selection
#[allow(non_camel_case_types)]
#[derive(Clone, Copy, Debug, PartialEq, Eq)]
pub enum FCKSM {
    /// Clock Switch Enable, FSCM Enabled
    CSECME,

    /// Clock Switch Enable, FSCM Disabled
    CSECMD,

    /// Clock Switch Disable, FSCM Disabled
    CSDCMD,
}

impl FCKSM {
    /// Value of the setting in its field of the configuration word.
    pub open spec fn value(self) -> u32 {
        match self {
            FCKSM::CSECME => 0x0,
            FCKSM::CSECMD => 0x1,
            FCKSM::CSDCMD => 0x3,
        }
    }

    /// Value of the setting in its field of the configuration word.
    pub fn bits(self) -> (r: u32)
        ensures
            r == self.value(),
    {
        match self {
            FCKSM::CSECME => 0x0,
            FCKSM::CSECMD => 0x1,
            FCKSM::CSDCMD => 0x3,
        }
    }
}

/// Watchdog Timer Postscaler
#[allow(non_camel_case_types)]
#[derive(Clone, Copy, Debug, PartialEq, Eq)]
pub enum WDTPS {
    /// 1:1
    PS1,

    /// 1:2
    PS2,

    /// 1:4
    PS4,

    /// 1:8
    PS8,

    /// 1:16
    PS16,

    /// 1:32
    PS32,

    /// 1:64
    PS64,

    /// 1:128
    PS128,

    /// 1:256
    PS256,

    /// 1:512
    PS512,

    /// 1:1024
    PS1024,

    /// 1:2048
    PS2048,

    /// 1:4096
    PS4096,

    /// 1:8192
    PS8192,

    /// 1:16384
    PS16384,

    /// 1:32768
    PS32768,

    /// 1:65536
    PS65536,

    /// 1:131072
    PS131072,

    /// 1:262144
    PS262144,

    /// 1:524288
    PS524288,

    /// 1:1048576
    PS1048576,
}

impl WDTPS {
    /// Value of the setting in its field of the configuration word.
    pub open spec fn value(self) -> u32 {
        match self {
            WDTPS::PS1 => 0x0,
            WDTPS::PS2 => 0x1,
            WDTPS::PS4 => 0x2,
            WDTPS::PS8 => 0x3,
            WDTPS::PS16 => 0x4,
            WDTPS::PS32 => 0x5,
            WDTPS::PS64 => 0x6,
            WDTPS::PS128 => 0x7,
            WDTPS::PS256 => 0x8,
            WDTPS::PS512 => 0x9,
            WDTPS::PS1024 => 0xa,
            WDTPS::PS2048 => 0xb,
            WDTPS::PS4096 => 0xc,
            WDTPS::PS8192 => 0xd,
            WDTPS::PS16384 => 0xe,
            WDTPS::PS32768 => 0xf,
            WDTPS::PS65536 => 0x10,
            WDTPS::PS131072 => 0x11,
            WDTPS::PS262144 => 0x12,
            WDTPS::PS524288 => 0x13,
            WDTPS::PS1048576 => 0x14,
        }
    }

    /// Value of the setting in its field of the configuration word.
    pub fn bits(self) -> (r: u32)
        ensures
            r == self.value(),
    {
        match self {
            WDTPS::PS1 => 0x0,
            WDTPS::PS2 => 0x1,
            WDTPS::PS4 => 0x2,
            WDTPS::PS8 => 0x3,
            WDTPS::PS16 => 0x4,
            WDTPS::PS32 => 0x5,
            WDTPS::PS64 => 0x6,
            WDTPS::PS128 => 0x7,
            WDTPS::PS256 => 0x8,
            WDTPS::PS512 => 0x9,
            WDTPS::PS1024 => 0xa,
            WDTPS::PS2048 => 0xb,
            WDTPS::PS4096 => 0xc,
            WDTPS::PS8192 => 0xd,
            WDTPS::PS16384 => 0xe,
            WDTPS::PS32768 => 0xf,
            WDTPS::PS65536 => 0x10,
            WDTPS::PS131072 => 0x11,
            WDTPS::PS262144 => 0x12,
            WDTPS::PS524288 => 0x13,
            WDTPS::PS1048576 => 0x14,
        }
    }
}

/// Watchdog Timer Window Enable
#[allow(non_camel_case_types)]
#[derive(Clone, Copy, Debug, PartialEq, Eq)]
pub enum WINDIS {
    /// Watchdog Timer is in Window Mode
    ON,

    /// Watchdog Timer is in Non-Window Mode
    OFF,
}

impl WINDIS {
    /// Value of the setting in its field of the configuration word.
    pub open spec fn value(self) -> u32 {
        match self {
            WINDIS::ON => 0x0,
            WINDIS::OFF => 0x1,
        }
    }

    /// Value of the setting in its field of the configuration word.
    pub fn bits(self) -> (r: u32)
        ensures
            r == self.value(),
    {
        match self {
            WINDIS::ON => 0x0,
            WINDIS::OFF => 0x1,
        }
    }
}

/// Watchdog Timer Enable
#[allow(non_camel_case_types)]
#[derive(Clone, Copy, Debug, PartialEq, Eq)]
pub enum FWDTEN {
    /// WDT Disabled (SWDTEN Bit Controls)
    OFF,

    /// WDT Enabled
    ON,
}

impl FWDTEN {
    /// Value of the setting in its field of the configuration word.
    pub open spec fn value(self) -> u32 {
        match self {
            FWDTEN::OFF => 0x0,
            FWDTEN::ON => 0x1,
        }
    }

    /// Value of the setting in its field of the configuration word.
    pub fn bits(self) -> (r: u32)
        ensures
            r == self.value(),
    {
        match self {
            FWDTEN::OFF => 0x0,
            FWDTEN::ON => 0x1,
        }
    }
}

/// Watchdog Timer Window Size
#[allow(non_camel_case_types)]
#[derive(Clone, Copy, Debug, PartialEq, Eq)]
pub enum FWDTWINSZ {
    /// Window Size is 75%
    WINSZ_75,

    /// Window Size is 50%
    WINSZ_50,

    /// Window Size is 37.5%
    WINSZ_37,

    /// Window Size is 25%
    WINSZ_25,
}

impl FWDTWINSZ {
    /// Value of the setting in its field of the configuration word.
    pub open spec fn value(self) -> u32 {
        match self {
            FWDTWINSZ::WINSZ_75 => 0x0,
            FWDTWINSZ::WINSZ_50 => 0x1,
            FWDTWINSZ::WINSZ_37 => 0x2,
            FWDTWINSZ::WINSZ_25 => 0x3,
        }
    }

    /// Value of the setting in its field of the configuration word.
    pub fn bits(self) -> (r: u32)
        ensures
            r == self.value(),
    {
        match self {
            FWDTWINSZ::WINSZ_75 => 0x0,
            FWDTWINSZ::WINSZ_50 => 0x1,
            FWDTWINSZ::WINSZ_37 => 0x2,
            FWDTWINSZ::WINSZ_25 => 0x3,
        }
    }
}

/// Background Debugger Enable
#[allow(non_camel_case_types)]
#[derive(Clone, Copy, Debug, PartialEq, Eq)]
pub enum DEBUG {
    /// Debugger is Enabled
    ON,

    /// Debugger is Disabled
    OFF,
}

impl DEBUG {
    /// Value of the setting in its field of the configuration word.
    pub open spec fn value(self) -> u32 {
        match self {
            DEBUG::ON => 0x0,
            DEBUG::OFF => 0x3,
        }
    }

    /// Value of the setting in its field of the configuration word.
    pub fn bits(self) -> (r: u32)
        ensures
            r == self.value(),
    {
        match self {
            DEBUG::ON => 0x0,
            DEBUG::OFF => 0x3,
        }
    }
}

/// JTAG Enable
#[allow(non_camel_case_types)]
#[derive(Clone, Copy, Debug, PartialEq, Eq)]
pub enum JTAGEN {
    /// JTAG Port Enabled
    ON,

    /// JTAG Disabled
    OFF,
}

impl JTAGEN {
    /// Value of the setting in its field of the configuration word.
    pub open spec fn value(self) -> u32 {
        match self {
            JTAGEN::ON => 0x1,
            JTAGEN::OFF => 0x0,
        }
    }

    /// Value of the setting in its field of the configuration word.
    pub fn bits(self) -> (r: u32)
        ensures
            r == self.value(),
    {
        match self {
            JTAGEN::ON => 0x1,
            JTAGEN::OFF => 0x0,
        }
    }
}

/// ICE/ICD Comm Channel Select
#[allow(non_camel_case_types)]
#[derive(Clone, Copy, Debug, PartialEq, Eq)]
pub enum ICESEL {
    /// Communicate on PGEC1/PGED1
    ICS_PGx1,

    /// Communicate on PGEC2/PGED2
    ICS_PGx2,

    /// Communicate on PGEC3/PGED3
    ICS_PGx3,
}

impl ICESEL {
    /// Value of the setting in its field of the configuration word.
    pub open spec fn value(self) -> u32 {
        match self {
            ICESEL::ICS_PGx1 => 0x3,
            ICESEL::ICS_PGx2 => 0x2,
            ICESEL::ICS_PGx3 => 0x1,
        }
    }

    /// Value of the setting in its field of the configuration word.
    pub fn bits(self) -> (r: u32)
        ensures
            r == self.value(),
    {
        match self {
            ICESEL::ICS_PGx1 => 0x3,
            ICESEL::ICS_PGx2 => 0x2,
            ICESEL::ICS_PGx3 => 0x1,
        }
    }
}

/// Program Flash Write Protect
#[allow(non_camel_case_types)]
#[derive(Clone, Copy, Debug, PartialEq, Eq)]
pub enum PWP {
    /// Disable
    OFF,

    /// First 4K
    PWP4K,

    /// First 8K
    PWP8K,

    /// First 12K
    PWP12K,

    /// First 16K
    PWP16K,

    /// First 20K
    PWP20K,

    /// First 24K
    PWP24K,

    /// First 28K
    PWP28K,

    /// First 32K
    PWP32K,

    /// First 36K
    PWP36K,

    /// First 40K
    PWP40K,

    /// First 44K
    PWP44K,

    /// First 48K
    PWP48K,

    /// First 52K
    PWP52K,

    /// First 56K
    PWP56K,

    /// First 60K
    PWP60K,

    /// First 64K
    PWP64K,

    /// First 68K
    PWP68K,

    /// First 72K
    PWP72K,

    /// First 76K
    PWP76K,

    /// First 80K
    PWP80K,

    /// First 84K
    PWP84K,

    /// First 88K
    PWP88K,

    /// First 92K
    PWP92K,

    /// First 96K
    PWP96K,

    /// First 100K
    PWP100K,

    /// First 104K
    PWP104K,

    /// First 108K
    PWP108K,

    /// First 112K
    PWP112K,

    /// First 116K
    PWP116K,

    /// First 120K
    PWP120K,

    /// First 124K
    PWP124K,

    /// First 128K
    PWP128K,

    /// First 132K
    PWP132K,

    /// First 136K
    PWP136K,

    /// First 140K
    PWP140K,

    /// First 144K
    PWP144K,

    /// First 148K
    PWP148K,

    /// First 152K
    PWP152K,

    /// First 156K
    PWP156K,

    /// First 160K
    PWP160K,

    /// First 164K
    PWP164K,

    /// First 168K
    PWP168K,

    /// First 172K
    PWP172K,

    /// First 176K
    PWP176K,

    /// First 180K
    PWP180K,

    /// First 184K
    PWP184K,

    /// First 188K
    PWP188K,

    /// First 192K
    PWP192K,

    /// First 196K
    PWP196K,

    /// First 200K
    PWP200K,

    /// First 204K
    PWP204K,

    /// First 208K
    PWP208K,

    /// First 212K
    PWP212K,

    /// First 216K
    PWP216K,

    /// First 220K
    PWP220K,

    /// First 224K
    PWP224K,

    /// First 228K
    PWP228K,

    /// First 232K
    PWP232K,

    /// First 236K
    PWP236K,

    /// First 240K
    PWP240K,

    /// First 244K
    PWP244K,

    /// First 248K
    PWP248K,

    /// First 252K
    PWP252K,

    /// First 256K
    PWP256K,

    /// First 260K
    PWP260K,

    /// First 264K
    PWP264K,

    /// First 268K
    PWP268K,

    /// First 272K
    PWP272K,

    /// First 276K
    PWP276K,

    /// First 280K
    PWP280K,

    /// First 284K
    PWP284K,

    /// First 288K
    PWP288K,

    /// First 292K
    PWP292K,

    /// First 296K
    PWP296K,

    /// First 300K
    PWP300K,

    /// First 304K
    PWP304K,

    /// First 308K
    PWP308K,

    /// First 312K
    PWP312K,

    /// First 316K
    PWP316K,

    /// First 320K
    PWP320K,

    /// First 324K
    PWP324K,

    /// First 328K
    PWP328K,

    /// First 332K
    PWP332K,

    /// First 336K
    PWP336K,

    /// First 340K
    PWP340K,

    /// First 344K
    PWP344K,

    /// First 348K
    PWP348K,

    /// First 352K
    PWP352K,

    /// First 356K
    PWP356K,

    /// First 360K
    PWP360K,

    /// First 364K
    PWP364K,

    /// First 368K
    PWP368K,

    /// First 372K
    PWP372K,

    /// First 376K
    PWP376K,

    /// First 380K
    PWP380K,

    /// First 384K
    PWP384K,

    /// First 388K
    PWP388K,

    /// First 392K
    PWP392K,

    /// First 396K
    PWP396K,

    /// First 400K
    PWP400K,

    /// First 404K
    PWP404K,

    /// First 408K
    PWP408K,

    /// First 412K
    PWP412K,

    /// First 416K
    PWP416K,

    /// First 420K
    PWP420K,

    /// First 424K
    PWP424K,

    /// First 428K
    PWP428K,

    /// First 432K
    PWP432K,

    /// First 436K
    PWP436K,

    /// First 440K
    PWP440K,

    /// First 444K
    PWP444K,

    /// First 448K
    PWP448K,

    /// First 452K
    PWP452K,

    /// First 456K
    PWP456K,

    /// First 460K
    PWP460K,

    /// First 464K
    PWP464K,

    /// First 468K
    PWP468K,

    /// First 472K
    PWP472K,

    /// First 476K
    PWP476K,

    /// First 480K
    PWP480K,

    /// First 484K
    PWP484K,

    /// First 488K
    PWP488K,

    /// First 492K
    PWP492K,

    /// First 496K
    PWP496K,

    /// First 500K
    PWP500K,

    /// First 504K
    PWP504K,

    /// First 508K
    PWP508K,

    /// First 512K
    PWP512K,
}

impl PWP {
    /// Value of the setting in its field of the configuration word.
    pub open spec fn value(self) -> u32 {
        match self {
            PWP::OFF => 0xff,
            PWP::PWP4K => 0xfe,
            PWP::PWP8K => 0xfd,
            PWP::PWP12K => 0xfc,
            PWP::PWP16K => 0xfb,
            PWP::PWP20K => 0xfa,
            PWP::PWP24K => 0xf9,
            PWP::PWP28K => 0xf8,
            PWP::PWP32K => 0xf7,
            PWP::PWP36K => 0xf6,
            PWP::PWP40K => 0xf5,
            PWP::PWP44K => 0xf4,
            PWP::PWP48K => 0xf3,
            PWP::PWP52K => 0xf2,
            PWP::PWP56K => 0xf1,
            PWP::PWP60K => 0xf0,
            PWP::PWP64K => 0xef,
            PWP::PWP68K => 0xee,
            PWP::PWP72K => 0xed,
            PWP::PWP76K => 0xec,
            PWP::PWP80K => 0xeb,
            PWP::PWP84K => 0xea,
            PWP::PWP88K => 0xe9,
            PWP::PWP92K => 0xe8,
            PWP::PWP96K => 0xe7,
            PWP::PWP100K => 0xe6,
            PWP::PWP104K => 0xe5,
            PWP::PWP108K => 0xe4,
            PWP::PWP112K => 0xe3,
            PWP::PWP116K => 0xe2,
            PWP::PWP120K => 0xe1,
            PWP::PWP124K => 0xe0,
            PWP::PWP128K => 0xdf,
            PWP::PWP132K => 0xde,
            PWP::PWP136K => 0xdd,
            PWP::PWP140K => 0xdc,
            PWP::PWP144K => 0xdb,
            PWP::PWP148K => 0xda,
            PWP::PWP152K => 0xd9,
            PWP::PWP156K => 0xd8,
            PWP::PWP160K => 0xd7,
            PWP::PWP164K => 0xd6,
            PWP::PWP168K => 0xd5,
            PWP::PWP172K => 0xd4,
            PWP::PWP176K => 0xd3,
            PWP::PWP180K => 0xd2,
            PWP::PWP184K => 0xd1,
            PWP::PWP188K => 0xd0,
            PWP::PWP192K => 0xcf,
            PWP::PWP196K => 0xce,
            PWP::PWP200K => 0xcd,
            PWP::PWP204K => 0xcc,
            PWP::PWP208K => 0xcb,
            PWP::PWP212K => 0xca,
            PWP::PWP216K => 0xc9,
            PWP::PWP220K => 0xc8,
            PWP::PWP224K => 0xc7,
            PWP::PWP228K => 0xc6,
            PWP::PWP232K => 0xc5,
            PWP::PWP236K => 0xc4,
            PWP::PWP240K => 0xc3,
            PWP::PWP244K => 0xc2,
            PWP::PWP248K => 0xc1,
            PWP::PWP252K => 0xc0,
            PWP::PWP256K => 0xbf,
            PWP::PWP260K => 0xbe,
            PWP::PWP264K => 0xbd,
            PWP::PWP268K => 0xbc,
            PWP::PWP272K => 0xbb,
            PWP::PWP276K => 0xba,
            PWP::PWP280K => 0xb9,
            PWP::PWP284K => 0xb8,
            PWP::PWP288K => 0xb7,
            PWP::PWP292K => 0xb6,
            PWP::PWP296K => 0xb5,
            PWP::PWP300K => 0xb4,
            PWP::PWP304K => 0xb3,
            PWP::PWP308K => 0xb2,
            PWP::PWP312K => 0xb1,
            PWP::PWP316K => 0xb0,
            PWP::PWP320K => 0xaf,
            PWP::PWP324K => 0xae,
            PWP::PWP328K => 0xad,
            PWP::PWP332K => 0xac,
            PWP::PWP336K => 0xab,
            PWP::PWP340K => 0xaa,
            PWP::PWP344K => 0xa9,
            PWP::PWP348K => 0xa8,
            PWP::PWP352K => 0xa7,
            PWP::PWP356K => 0xa6,
            PWP::PWP360K => 0xa5,
            PWP::PWP364K => 0xa4,
            PWP::PWP368K => 0xa3,
            PWP::PWP372K => 0xa2,
            PWP::PWP376K => 0xa1,
            PWP::PWP380K => 0xa0,
            PWP::PWP384K => 0x9f,
            PWP::PWP388K => 0x9e,
            PWP::PWP392K => 0x9d,
            PWP::PWP396K => 0x9c,
            PWP::PWP400K => 0x9b,
            PWP::PWP404K => 0x9a,
            PWP::PWP408K => 0x99,
            PWP::PWP412K => 0x98,
            PWP::PWP416K => 0x97,
            PWP::PWP420K => 0x96,
            PWP::PWP424K => 0x95,
            PWP::PWP428K => 0x94,
            PWP::PWP432K => 0x93,
            PWP::PWP436K => 0x92,
            PWP::PWP440K => 0x91,
            PWP::PWP444K => 0x90,
            PWP::PWP448K => 0x8f,
            PWP::PWP452K => 0x8e,
            PWP::PWP456K => 0x8d,
            PWP::PWP460K => 0x8c,
            PWP::PWP464K => 0x8b,
            PWP::PWP468K => 0x8a,
            PWP::PWP472K => 0x89,
            PWP::PWP476K => 0x88,
            PWP::PWP480K => 0x87,
            PWP::PWP484K => 0x86,
            PWP::PWP488K => 0x85,
            PWP::PWP492K => 0x84,
            PWP::PWP496K => 0x83,
            PWP::PWP500K => 0x82,
            PWP::PWP504K => 0x81,
            PWP::PWP508K => 0x80,
            PWP::PWP512K => 0x7f,
        }
    }

    /// Value of the setting in its field of the configuration word.
    pub fn bits(self) -> (r: u32)
        ensures
            r == self.value(),
    {
        match self {
            PWP::OFF => 0xff,
            PWP::PWP4K => 0xfe,
            PWP::PWP8K => 0xfd,
            PWP::PWP12K => 0xfc,
            PWP::PWP16K => 0xfb,
            PWP::PWP20K => 0xfa,
            PWP::PWP24K => 0xf9,
            PWP::PWP28K => 0xf8,
            PWP::PWP32K => 0xf7,
            PWP::PWP36K => 0xf6,
            PWP::PWP40K => 0xf5,
            PWP::PWP44K => 0xf4,
            PWP::PWP48K => 0xf3,
            PWP::PWP52K => 0xf2,
            PWP::PWP56K => 0xf1,
            PWP::PWP60K => 0xf0,
            PWP::PWP64K => 0xef,
            PWP::PWP68K => 0xee,
            PWP::PWP72K => 0xed,
            PWP::PWP76K => 0xec,
            PWP::PWP80K => 0xeb,
            PWP::PWP84K => 0xea,
            PWP::PWP88K => 0xe9,
            PWP::PWP92K => 0xe8,
            PWP::PWP96K => 0xe7,
            PWP::PWP100K => 0xe6,
            PWP::PWP104K => 0xe5,
            PWP::PWP108K => 0xe4,
            PWP::PWP112K => 0xe3,
            PWP::PWP116K => 0xe2,
            PWP::PWP120K => 0xe1,
            PWP::PWP124K => 0xe0,
            PWP::PWP128K => 0xdf,
            PWP::PWP132K => 0xde,
            PWP::PWP136K => 0xdd,
            PWP::PWP140K => 0xdc,
            PWP::PWP144K => 0xdb,
            PWP::PWP148K => 0xda,
            PWP::PWP152K => 0xd9,
            PWP::PWP156K => 0xd8,
            PWP::PWP160K => 0xd7,
            PWP::PWP164K => 0xd6,
            PWP::PWP168K => 0xd5,
            PWP::PWP172K => 0xd4,
            PWP::PWP176K => 0xd3,
            PWP::PWP180K => 0xd2,
            PWP::PWP184K => 0xd1,
            PWP::PWP188K => 0xd0,
            PWP::PWP192K => 0xcf,
            PWP::PWP196K => 0xce,
            PWP::PWP200K => 0xcd,
            PWP::PWP204K => 0xcc,
            PWP::PWP208K => 0xcb,
            PWP::PWP212K => 0xca,
            PWP::PWP216K => 0xc9,
            PWP::PWP220K => 0xc8,
            PWP::PWP224K => 0xc7,
            PWP::PWP228K => 0xc6,
            PWP::PWP232K => 0xc5,
            PWP::PWP236K => 0xc4,
            PWP::PWP240K => 0xc3,
            PWP::PWP244K => 0xc2,
            PWP::PWP248K => 0xc1,
            PWP::PWP252K => 0xc0,
            PWP::PWP256K => 0xbf,
            PWP::PWP260K => 0xbe,
            PWP::PWP264K => 0xbd,
            PWP::PWP268K => 0xbc,
            PWP::PWP272K => 0xbb,
            PWP::PWP276K => 0xba,
            PWP::PWP280K => 0xb9,
            PWP::PWP284K => 0xb8,
            PWP::PWP288K => 0xb7,
            PWP::PWP292K => 0xb6,
            PWP::PWP296K => 0xb5,
            PWP::PWP300K => 0xb4,
            PWP::PWP304K => 0xb3,
            PWP::PWP308K => 0xb2,
            PWP::PWP312K => 0xb1,
            PWP::PWP316K => 0xb0,
            PWP::PWP320K => 0xaf,
            PWP::PWP324K => 0xae,
            PWP::PWP328K => 0xad,
            PWP::PWP332K => 0xac,
            PWP::PWP336K => 0xab,
            PWP::PWP340K => 0xaa,
            PWP::PWP344K => 0xa9,
            PWP::PWP348K => 0xa8,
            PWP::PWP352K => 0xa7,
            PWP::PWP356K => 0xa6,
            PWP::PWP360K => 0xa5,
            PWP::PWP364K => 0xa4,
            PWP::PWP368K => 0xa3,
            PWP::PWP372K => 0xa2,
            PWP::PWP376K => 0xa1,
            PWP::PWP380K => 0xa0,
            PWP::PWP384K => 0x9f,
            PWP::PWP388K => 0x9e,
            PWP::PWP392K => 0x9d,
            PWP::PWP396K => 0x9c,
            PWP::PWP400K => 0x9b,
            PWP::PWP404K => 0x9a,
            PWP::PWP408K => 0x99,
            PWP::PWP412K => 0x98,
            PWP::PWP416K => 0x97,
            PWP::PWP420K => 0x96,
            PWP::PWP424K => 0x95,
            PWP::PWP428K => 0x94,
            PWP::PWP432K => 0x93,
            PWP::PWP436K => 0x92,
            PWP::PWP440K => 0x91,
            PWP::PWP444K => 0x90,
            PWP::PWP448K => 0x8f,
            PWP::PWP452K => 0x8e,
            PWP::PWP456K => 0x8d,
            PWP::PWP460K => 0x8c,
            PWP::PWP464K => 0x8b,
            PWP::PWP468K => 0x8a,
            PWP::PWP472K => 0x89,
            PWP::PWP476K => 0x88,
            PWP::PWP480K => 0x87,
            PWP::PWP484K => 0x86,
            PWP::PWP488K => 0x85,
            PWP::PWP492K => 0x84,
            PWP::PWP496K => 0x83,
            PWP::PWP500K => 0x82,
            PWP::PWP504K => 0x81,
            PWP::PWP508K => 0x80,
            PWP::PWP512K => 0x7f,
        }
    }
}

/// Boot Flash Write Protect bit
#[allow(non_camel_case_types)]
#[derive(Clone, Copy, Debug, PartialEq, Eq)]
pub enum BWP {
    /// Protection Enabled
    ON,

    /// Protection Disabled
    OFF,
}

impl BWP {
    /// Value of the setting in its field of the configuration word.
    pub open spec fn value(self) -> u32 {
        match self {
            BWP::ON => 0x0,
            BWP::OFF => 0x1,
        }
    }

    /// Value of the setting in its field of the configuration word.
    pub fn bits(self) -> (r: u32)
        ensures
            r == self.value(),
    {
        match self {
            BWP::ON => 0x0,
            BWP::OFF => 0x1,
        }
    }
}

/// Code Protect
#[allow(non_camel_case_types)]
#[derive(Clone, Copy, Debug, PartialEq, Eq)]
pub enum CP {
    /// Protection Enabled
    ON,

    /// Protection Disabled
    OFF,
}

impl CP {
    /// Value of the setting in its field of the configuration word.
    pub open spec fn value(self) -> u32 {
        match self {
            CP::ON => 0x0,
            CP::OFF => 0x1,
        }
    }

    /// Value of the setting in its field of the configuration word.
    pub fn bits(self) -> (r: u32)
        ensures
            r == self.value(),
    {
        match self {
            CP::ON => 0x0,
            CP::OFF => 0x1,
        }
    }
}

/// Configuration words, in the order in which they are stored
#[allow(non_snake_case)]
pub struct ConfigSector {
    DEVCFG3: u32,
    DEVCFG2: u32,
    DEVCFG1: u32,
    DEVCFG0: u32,
}

impl ConfigSector {
    /// The words in the order in which they are stored.
    pub open spec fn view(self) -> Seq<u32> {
        seq![self.spec_devcfg3(), self.spec_devcfg2(), self.spec_devcfg1(), self.spec_devcfg0()]
    }

    /// The word DEVCFG3.
    pub closed spec fn spec_devcfg3(self) -> u32 {
        self.DEVCFG3
    }

    /// The word DEVCFG2.
    pub closed spec fn spec_devcfg2(self) -> u32 {
        self.DEVCFG2
    }

    /// The word DEVCFG1.
    pub closed spec fn spec_devcfg1(self) -> u32 {
        self.DEVCFG1
    }

    /// The word DEVCFG0.
    pub closed spec fn spec_devcfg0(self) -> u32 {
        self.DEVCFG0
    }

    /// Create a builder
    pub fn default() -> (r: ConfigSectorBuilder)
        ensures
            r@ =~= seq![0xffffffffu32, 0xffffffffu32, 0xffffffffu32, 0x7fffffffu32],
    {
        ConfigSectorBuilder {
            DEVCFG3: 0xffffffff,
            DEVCFG2: 0xffffffff,
            DEVCFG1: 0xffffffff,
            DEVCFG0: 0x7fffffff,
        }
    }

    /// Convert into a array of 32 bit words consuming this ConfigSector
    pub fn into_array(self) -> (r: [u32; CONFIG_SECTOR_LENGTH])
        ensures
            r@ =~= self@,
    {
        [self.DEVCFG3, self.DEVCFG2, self.DEVCFG1, self.DEVCFG0]
    }
}

/// Configuration word sector builder
#[allow(non_snake_case)]
pub struct ConfigSectorBuilder {
    DEVCFG3: u32,
    DEVCFG2: u32,
    DEVCFG1: u32,
    DEVCFG0: u32,
}

impl ConfigSectorBuilder {
    /// The words in the order in which they are stored.
    pub open spec fn view(self) -> Seq<u32> {
        seq![self.spec_devcfg3(), self.spec_devcfg2(), self.spec_devcfg1(), self.spec_devcfg0()]
    }

    /// The word DEVCFG3.
    pub closed spec fn spec_devcfg3(self) -> u32 {
        self.DEVCFG3
    }

    /// The word DEVCFG2.
    pub closed spec fn spec_devcfg2(self) -> u32 {
        self.DEVCFG2
    }

    /// The word DEVCFG1.
    pub closed spec fn spec_devcfg1(self) -> u32 {
        self.DEVCFG1
    }

    /// The word DEVCFG0.
    pub closed spec fn spec_devcfg0(self) -> u32 {
        self.DEVCFG0
    }

    /// Set the `USERID` setting in DEVCFG3.
    #[allow(non_snake_case)]
    pub fn USERID(self, v: u16) -> (r: Self)
        ensures
            r@ =~= self@.update(0, spec_with_field(self@[0], 0x0000ffff, 0, v as u32)),
    {
        let mut s = self;
        s.DEVCFG3 = with_field(s.DEVCFG3, 0x0000ffff, 0, v as u32);
        s
    }

    /// Set the `FSRSSEL` setting in DEVCFG3.
    #[allow(non_snake_case)]
    pub fn FSRSSEL(self, v: FSRSSEL) -> (r: Self)
        ensures
            r@ =~= self@.update(0, spec_with_field(self@[0], 0x00070000, 16, v.value())),
    {
        let mut s = self;
        s.DEVCFG3 = with_field(s.DEVCFG3, 0x00070000, 16, v.bits());
        s
    }

    /// Set the `PMDL1WAY` setting in DEVCFG3.
    #[allow(non_snake_case)]
    pub fn PMDL1WAY(self, v: PMDL1WAY) -> (r: Self)
        ensures
            r@ =~= self@.update(0, spec_with_field(self@[0], 0x10000000, 28, v.value())),
    {
        let mut s = self;
        s.DEVCFG3 = with_field(s.DEVCFG3, 0x10000000, 28, v.bits());
        s
    }

    /// Set the `IOL1WAY` setting in DEVCFG3.
    #[allow(non_snake_case)]
    pub fn IOL1WAY(self, v: IOL1WAY) -> (r: Self)
        ensures
            r@ =~= self@.update(0, spec_with_field(self@[0], 0x20000000, 29, v.value())),
    {
        let mut s = self;
        s.DEVCFG3 = with_field(s.DEVCFG3, 0x20000000, 29, v.bits());
        s
    }

    /// Set the `FUSBIDIO` setting in DEVCFG3.
    #[allow(non_snake_case)]
    pub fn FUSBIDIO(self, v: FUSBIDIO) -> (r: Self)
        ensures
            r@ =~= self@.update(0, spec_with_field(self@[0], 0x40000000, 30, v.value())),
    {
        let mut s = self;
        s.DEVCFG3 = with_field(s.DEVCFG3, 0x40000000, 30, v.bits());
        s
    }

    /// Set the `FVBUSONIO` setting in DEVCFG3.
    #[allow(non_snake_case)]
    pub fn FVBUSONIO(self, v: FVBUSONIO) -> (r: Self)
        ensures
            r@ =~= self@.update(0, spec_with_field(self@[0], 0x80000000, 31, v.value())),
    {
        let mut s = self;
        s.DEVCFG3 = with_field(s.DEVCFG3, 0x80000000, 31, v.bits());
        s
    }

    /// Set the `FPLLIDIV` setting in DEVCFG2.
    #[allow(non_snake_case)]
    pub fn FPLLIDIV(self, v: FPLLIDIV) -> (r: Self)
        ensures
            r@ =~= self@.update(1, spec_with_field(self@[1], 0x00000007, 0, v.value())),
    {
        let mut s = self;
        s.DEVCFG2 = with_field(s.DEVCFG2, 0x00000007, 0, v.bits());
        s
    }

    /// Set the `FPLLMUL` setting in DEVCFG2.
    #[allow(non_snake_case)]
    pub fn FPLLMUL(self, v: FPLLMUL) -> (r: Self)
        ensures
            r@ =~= self@.update(1, spec_with_field(self@[1], 0x00000070, 4, v.value())),
    {
        let mut s = self;
        s.DEVCFG2 = with_field(s.DEVCFG2, 0x00000070, 4, v.bits());
        s
    }

    /// Set the `UPLLIDIV` setting in DEVCFG2.
    #[allow(non_snake_case)]
    pub fn UPLLIDIV(self, v: UPLLIDIV) -> (r: Self)
        ensures
            r@ =~= self@.update(1, spec_with_field(self@[1], 0x00000700, 8, v.value())),
    {
        let mut s = self;
        s.DEVCFG2 = with_field(s.DEVCFG2, 0x00000700, 8, v.bits());
        s
    }

    /// Set the `UPLLEN` setting in DEVCFG2.
    #[allow(non_snake_case)]
    pub fn UPLLEN(self, v: UPLLEN) -> (r: Self)
        ensures
            r@ =~= self@.update(1, spec_with_field(self@[1], 0x00008000, 15, v.value())),
    {
        let mut s = self;
        s.DEVCFG2 = with_field(s.DEVCFG2, 0x00008000, 15, v.bits());
        s
    }

    /// Set the `FPLLODIV` setting in DEVCFG2.
    #[allow(non_snake_case)]
    pub fn FPLLODIV(self, v: FPLLODIV) -> (r: Self)
        ensures
            r@ =~= self@.update(1, spec_with_field(self@[1], 0x00070000, 16, v.value())),
    {
        let mut s = self;
        s.DEVCFG2 = with_field(s.DEVCFG2, 0x00070000, 16, v.bits());
        s
    }

    /// Set the `FNOSC` setting in DEVCFG1.
    #[allow(non_snake_case)]
    pub fn FNOSC(self, v: FNOSC) -> (r: Self)
        ensures
            r@ =~= self@.update(2, spec_with_field(self@[2], 0x00000007, 0, v.value())),
    {
        let mut s = self;
        s.DEVCFG1 = with_field(s.DEVCFG1, 0x00000007, 0, v.bits());
        s
    }

    /// Set the `FSOSCEN` setting in DEVCFG1.
    #[allow(non_snake_case)]
    pub fn FSOSCEN(self, v: FSOSCEN) -> (r: Self)
        ensures
            r@ =~= self@.update(2, spec_with_field(self@[2], 0x00000020, 5, v.value())),
    {
        let mut s = self;
        s.DEVCFG1 = with_field(s.DEVCFG1, 0x00000020, 5, v.bits());
        s
    }

    /// Set the `IESO` setting in DEVCFG1.
    #[allow(non_snake_case)]
    pub fn IESO(self, v: IESO) -> (r: Self)
        ensures
            r@ =~= self@.update(2, spec_with_field(self@[2], 0x00000080, 7, v.value())),
    {
        let mut s = self;
        s.DEVCFG1 = with_field(s.DEVCFG1, 0x00000080, 7, v.bits());
        s
    }

    /// Set the `POSCMOD` setting in DEVCFG1.
    #[allow(non_snake_case)]
    pub fn POSCMOD(self, v: POSCMOD) -> (r: Self)
        ensures
            r@ =~= self@.update(2, spec_with_field(self@[2], 0x00000300, 8, v.value())),
    {
        let mut s = self;
        s.DEVCFG1 = with_field(s.DEVCFG1, 0x00000300, 8, v.bits());
        s
    }

    /// Set the `OSCIOFNC` setting in DEVCFG1.
    #[allow(non_snake_case)]
    pub fn OSCIOFNC(self, v: OSCIOFNC) -> (r: Self)
        ensures
            r@ =~= self@.update(2, spec_with_field(self@[2], 0x00000400, 10, v.value())),
    {
        let mut s = self;
        s.DEVCFG1 = with_field(s.DEVCFG1, 0x00000400, 10, v.bits());
        s
    }

    /// Set the `FPBDIV` setting in DEVCFG1.
    #[allow(non_snake_case)]
    pub fn FPBDIV(self, v: FPBDIV) -> (r: Self)
        ensures
            r@ =~= self@.update(2, spec_with_field(self@[2], 0x00003000, 12, v.value())),
    {
        let mut s = self;
        s.DEVCFG1 = with_field(s.DEVCFG1, 0x00003000, 12, v.bits());
        s
    }

    /// Set the `FCKSM` setting in DEVCFG1.
    #[allow(non_snake_case)]
    pub fn FCKSM(self, v: FCKSM) -> (r: Self)
        ensures
            r@ =~= self@.update(2, spec_with_field(self@[2], 0x0000c000, 14, v.value())),
    {
        let mut s = self;
        s.DEVCFG1 = with_field(s.DEVCFG1, 0x0000c000, 14, v.bits());
        s
    }

    /// Set the `WDTPS` setting in DEVCFG1.
    #[allow(non_snake_case)]
    pub fn WDTPS(self, v: WDTPS) -> (r: Self)
        ensures
            r@ =~= self@.update(2, spec_with_field(self@[2], 0x001f0000, 16, v.value())),
    {
        let mut s = self;
        s.DEVCFG1 = with_field(s.DEVCFG1, 0x001f0000, 16, v.bits());
        s
    }

    /// Set the `WINDIS` setting in DEVCFG1.
    #[allow(non_snake_case)]
    pub fn WINDIS(self, v: WINDIS) -> (r: Self)
        ensures
            r@ =~= self@.update(2, spec_with_field(self@[2], 0x00400000, 22, v.value())),
    {
        let mut s = self;
        s.DEVCFG1 = with_field(s.DEVCFG1, 0x00400000, 22, v.bits());
        s
    }

    /// Set the `FWDTEN` setting in DEVCFG1.
    #[allow(non_snake_case)]
    pub fn FWDTEN(self, v: FWDTEN) -> (r: Self)
        ensures
            r@ =~= self@.update(2, spec_with_field(self@[2], 0x00800000, 23, v.value())),
    {
        let mut s = self;
        s.DEVCFG1 = with_field(s.DEVCFG1, 0x00800000, 23, v.bits());
        s
    }

    /// Set the `FWDTWINSZ` setting in DEVCFG1.
    #[allow(non_snake_case)]
    pub fn FWDTWINSZ(self, v: FWDTWINSZ) -> (r: Self)
        ensures
            r@ =~= self@.update(2, spec_with_field(self@[2], 0x03000000, 24, v.value())),
    {
        let mut s = self;
        s.DEVCFG1 = with_field(s.DEVCFG1, 0x03000000, 24, v.bits());
        s
    }

    /// Set the `DEBUG` setting in DEVCFG0.
    #[allow(non_snake_case)]
    pub fn DEBUG(self, v: DEBUG) -> (r: Self)
        ensures
            r@ =~= self@.update(3, spec_with_field(self@[3], 0x00000003, 0, v.value())),
    {
        let mut s = self;
        s.DEVCFG0 = with_field(s.DEVCFG0, 0x00000003, 0, v.bits());
        s
    }

    /// Set the `JTAGEN` setting in DEVCFG0.
    #[allow(non_snake_case)]
    pub fn JTAGEN(self, v: JTAGEN) -> (r: Self)
        ensures
            r@ =~= self@.update(3, spec_with_field(self@[3], 0x00000004, 2, v.value())),
    {
        let mut s = self;
        s.DEVCFG0 = with_field(s.DEVCFG0, 0x00000004, 2, v.bits());
        s
    }

    /// Set the `ICESEL` setting in DEVCFG0.
    #[allow(non_snake_case)]
    pub fn ICESEL(self, v: ICESEL) -> (r: Self)
        ensures
            r@ =~= self@.update(3, spec_with_field(self@[3], 0x00000018, 3, v.value())),
    {
        let mut s = self;
        s.DEVCFG0 = with_field(s.DEVCFG0, 0x00000018, 3, v.bits());
        s
    }

    /// Set the `PWP` setting in DEVCFG0.
    #[allow(non_snake_case)]
    pub fn PWP(self, v: PWP) -> (r: Self)
        ensures
            r@ =~= self@.update(3, spec_with_field(self@[3], 0x000ff000, 12, v.value())),
    {
        let mut s = self;
        s.DEVCFG0 = with_field(s.DEVCFG0, 0x000ff000, 12, v.bits());
        s
    }

    /// Set the `BWP` setting in DEVCFG0.
    #[allow(non_snake_case)]
    pub fn BWP(self, v: BWP) -> (r: Self)
        ensures
            r@ =~= self@.update(3, spec_with_field(self@[3], 0x01000000, 24, v.value())),
    {
        let mut s = self;
        s.DEVCFG0 = with_field(s.DEVCFG0, 0x01000000, 24, v.bits());
        s
    }

    /// Set the `CP` setting in DEVCFG0.
    #[allow(non_snake_case)]
    pub fn CP(self, v: CP) -> (r: Self)
        ensures
            r@ =~= self@.update(3, spec_with_field(self@[3], 0x10000000, 28, v.value())),
    {
        let mut s = self;
        s.DEVCFG0 = with_field(s.DEVCFG0, 0x10000000, 28, v.bits());
        s
    }

    /// Finish the configuration.
    pub fn build(self) -> (r: ConfigSector)
        ensures
            r@ =~= self@,
    {
        ConfigSector {
            DEVCFG3: self.DEVCFG3,
            DEVCFG2: self.DEVCFG2,
            DEVCFG1: self.DEVCFG1,
            DEVCFG0: self.DEVCFG0,
        }
    }
}

} // verus!
