use vstd::prelude::*;
use crate::config::field::{spec_with_field, with_field};

verus! {

/// Length of config word sector in words
pub const CONFIG_SECTOR_LENGTH: usize = 4;

/// Peripheral Module Disable Configuration
#[allow(non_camel_case_types)]
#[derive(Clone, Copy, Debug, PartialEq, Eq)]
pub enum PMDL1WAY {
    /// Allow only one reconfiguration
    ON,

    /// Allow multiple reconfigurations
    OFF,
}

impl PMDL1WAY {
    /// Value of the setting in its field of the configuration word.
    pub open spec fn value(self) -> u32 {
        match self {
            PMDL1WAY::ON => 0x1,
            PMDL1WAY::OFF => 0x0,
        }
    }

    /// Value of the setting in its field of the configuration word.
    pub fn bits(self) -> (r: u32)
        ensures
            r == self.value(),
    {
        match self {
            PMDL1WAY::ON => 0x1,
            PMDL1WAY::OFF => 0x0,
        }
    }
}

/// Peripheral Pin Select Configuration
#[allow(non_camel_case_types)]
#[derive(Clone, Copy, Debug, PartialEq, Eq)]
pub enum IOL1WAY {
    /// Allow only one reconfiguration
    ON,

    /// Allow multiple reconfigurations
    OFF,
}

impl IOL1WAY {
    /// Value of the setting in its field of the configuration word.
    pub open spec fn value(self) -> u32 {
        match self {
            IOL1WAY::ON => 0x1,
            IOL1WAY::OFF => 0x0,
        }
    }

    /// Value of the setting in its field of the configuration word.
    pub fn bits(self) -> (r: u32)
        ensures
            r == self.value(),
    {
        match self {
            IOL1WAY::ON => 0x1,
            IOL1WAY::OFF => 0x0,
        }
    }
}

/// USB USID Selection
#[allow(non_camel_case_types)]
#[derive(Clone, Copy, Debug, PartialEq, Eq)]
pub enum FUSBIDIO {
    /// Controlled by Port Function
    OFF,

    /// Controlled by the USB Module
    ON,
}

impl FUSBIDIO {
    /// Value of the setting in its field of the configuration word.
    pub open spec fn value(self) -> u32 {
        match self {
            FUSBIDIO::OFF => 0x0,
            FUSBIDIO::ON => 0x1,
        }
    }

    /// Value of the setting in its field of the configuration word.
    pub fn bits(self) -> (r: u32)
        ensures
            r == self.value(),
    {
        match self {
            FUSBIDIO::OFF => 0x0,
            FUSBIDIO::ON => 0x1,
        }
    }
}

/// USB VBUS ON Selection
#[allow(non_camel_case_types)]
#[derive(Clone, Copy, Debug, PartialEq, Eq)]
pub enum FVBUSONIO {
    /// Controlled by Port Function
    OFF,

    /// Controlled by USB Module
    ON,
}

impl FVBUSONIO {
    /// Value of the setting in its field of the configuration word.
    pub open spec fn value(self) -> u32 {
        match self {
            FVBUSONIO::OFF => 0x0,
            FVBUSONIO::ON => 0x1,
        }
    }

    /// Value of the setting in its field of the configuration word.
    pub fn bits(self) -> (r: u32)
        ensures
            r == self.value(),
    {
        match self {
            FVBUSONIO::OFF => 0x0,
            FVBUSONIO::ON => 0x1,
        }
    }
}

/// PLL Input Divider
#[allow(non_camel_case_types)]
#[derive(Clone, Copy, Debug, PartialEq, Eq)]
pub enum FPLLIDIV {
    /// 1x Divider
    DIV_1,

    /// 2x Divider
    DIV_2,

    /// 3x Divider
    DIV_3,

    /// 4x Divider
    DIV_4,

    /// 5x Divider
    DIV_5,

    /// 6x Divider
    DIV_6,

    /// 10x Divider
    DIV_10,

    /// 12x Divider
    DIV_12,
}

impl FPLLIDIV {
    /// Value of the setting in its field of the configuration word.
    pub open spec fn value(self) -> u32 {
        match self {
            FPLLIDIV::DIV_1 => 0x0,
            FPLLIDIV::DIV_2 => 0x1,
            FPLLIDIV::DIV_3 => 0x2,
            FPLLIDIV::DIV_4 => 0x3,
            FPLLIDIV::DIV_5 => 0x4,
            FPLLIDIV::DIV_6 => 0x5,
            FPLLIDIV::DIV_10 => 0x6,
            FPLLIDIV::DIV_12 => 0x7,
        }
    }

    /// Value of the setting in its field of the configuration word.
    pub fn bits(self) -> (r: u32)
        ensures
            r == self.value(),
    {
        match self {
            FPLLIDIV::DIV_1 => 0x0,
            FPLLIDIV::DIV_2 => 0x1,
            FPLLIDIV::DIV_3 => 0x2,
            FPLLIDIV::DIV_4 => 0x3,
            FPLLIDIV::DIV_5 => 0x4,
            FPLLIDIV::DIV_6 => 0x5,
            FPLLIDIV::DIV_10 => 0x6,
            FPLLIDIV::DIV_12 => 0x7,
        }
    }
}

/// PLL Multiplier
#[allow(non_camel_case_types)]
#[derive(Clone, Copy, Debug, PartialEq, Eq)]
pub enum FPLLMUL {
    /// 15x Multiplier
    MUL_15,

    /// 16x Multiplier
    MUL_16,

    /// 17x Multiplier
    MUL_17,

    /// 18x Multiplier
    MUL_18,

    /// 19x Multiplier
    MUL_19,

    /// 20x Multiplier
    MUL_20,

    /// 21x Multiplier
    MUL_21,

    /// 24x Multiplier
    MUL_24,
}

impl FPLLMUL {
    /// Value of the setting in its field of the configuration word.
    pub open spec fn value(self) -> u32 {
        match self {
            FPLLMUL::MUL_15 => 0x0,
            FPLLMUL::MUL_16 => 0x1,
            FPLLMUL::MUL_17 => 0x2,
            FPLLMUL::MUL_18 => 0x3,
            FPLLMUL::MUL_19 => 0x4,
            FPLLMUL::MUL_20 => 0x5,
            FPLLMUL::MUL_21 => 0x6,
            FPLLMUL::MUL_24 => 0x7,
        }
    }

    /// Value of the setting in its field of the configuration word.
    pub fn bits(self) -> (r: u32)
        ensures
            r == self.value(),
    {
        match self {
            FPLLMUL::MUL_15 => 0x0,
            FPLLMUL::MUL_16 => 0x1,
            FPLLMUL::MUL_17 => 0x2,
            FPLLMUL::MUL_18 => 0x3,
            FPLLMUL::MUL_19 => 0x4,
            FPLLMUL::MUL_20 => 0x5,
            FPLLMUL::MUL_21 => 0x6,
            FPLLMUL::MUL_24 => 0x7,
        }
    }
}

/// USB PLL Input Divider
#[allow(non_camel_case_types)]
#[derive(Clone, Copy, Debug, PartialEq, Eq)]
pub enum UPLLIDIV {
    /// 1x Divider
    DIV_1,

    /// 2x Divider
    DIV_2,

    /// 3x Divider
    DIV_3,

    /// 4x Divider
    DIV_4,

    /// 5x Divider
    DIV_5,

    /// 6x Divider
    DIV_6,

    /// 10x Divider
    DIV_10,

    /// 12x Divider
    DIV_12,
}

impl UPLLIDIV {
    /// Value of the setting in its field of the configuration word.
    pub open spec fn value(self) -> u32 {
        match self {
            UPLLIDIV::DIV_1 => 0x0,
            UPLLIDIV::DIV_2 => 0x1,
            UPLLIDIV::DIV_3 => 0x2,
            UPLLIDIV::DIV_4 => 0x3,
            UPLLIDIV::DIV_5 => 0x4,
            UPLLIDIV::DIV_6 => 0x5,
            UPLLIDIV::DIV_10 => 0x6,
            UPLLIDIV::DIV_12 => 0x7,
        }
    }

    /// Value of the setting in its field of the configuration word.
    pub fn bits(self) -> (r: u32)
        ensures
            r == self.value(),
    {
        match self {
            UPLLIDIV::DIV_1 => 0x0,
            UPLLIDIV::DIV_2 => 0x1,
            UPLLIDIV::DIV_3 => 0x2,
            UPLLIDIV::DIV_4 => 0x3,
            UPLLIDIV::DIV_5 => 0x4,
            UPLLIDIV::DIV_6 => 0x5,
            UPLLIDIV::DIV_10 => 0x6,
            UPLLIDIV::DIV_12 => 0x7,
        }
    }
}

/// USB PLL Enable
#[allow(non_camel_case_types)]
#[derive(Clone, Copy, Debug, PartialEq, Eq)]
pub enum UPLLEN {
    /// Enabled
    ON,

    /// Disabled and Bypassed
    OFF,
}

impl UPLLEN {
    /// Value of the setting in its field of the configuration word.
    pub open spec fn value(self) -> u32 {
        match self {
            UPLLEN::ON => 0x0,
            UPLLEN::OFF => 0x1,
        }
    }

    /// Value of the setting in its field of the configuration word.
    pub fn bits(self) -> (r: u32)
        ensures
            r == self.value(),
    {
        match self {
            UPLLEN::ON => 0x0,
            UPLLEN::OFF => 0x1,
        }
    }
}

/// System PLL Output Clock Divider
#[allow(non_camel_case_types)]
#[derive(Clone, Copy, Debug, PartialEq, Eq)]
pub enum FPLLODIV {
    /// PLL Divide by 1
    DIV_1,

    /// PLL Divide by 2
    DIV_2,

    /// PLL Divide by 4
    DIV_4,

    /// PLL Divide by 8
    DIV_8,

    /// PLL Divide by 16
    DIV_16,

    /// PLL Divide by 32
    DIV_32,

    /// PLL Divide by 64
    DIV_64,

    /// PLL Divide by 256
    DIV_256,
}

impl FPLLODIV {
    /// Value of the setting in its field of the configuration word.
    pub open spec fn value(self) -> u32 {
        match self {
            FPLLODIV::DIV_1 => 0x0,
            FPLLODIV::DIV_2 => 0x1,
            FPLLODIV::DIV_4 => 0x2,
            FPLLODIV::DIV_8 => 0x3,
            FPLLODIV::DIV_16 => 0x4,
            FPLLODIV::DIV_32 => 0x5,
            FPLLODIV::DIV_64 => 0x6,
            FPLLODIV::DIV_256 => 0x7,
        }
    }

    /// Value of the setting in its field of the configuration word.
    pub fn bits(self) -> (r: u32)
        ensures
            r == self.value(),
    {
        match self {
            FPLLODIV::DIV_1 => 0x0,
            FPLLODIV::DIV_2 => 0x1,
            FPLLODIV::DIV_4 => 0x2,
            FPLLODIV::DIV_8 => 0x3,
            FPLLODIV::DIV_16 => 0x4,
            FPLLODIV::DIV_32 => 0x5,
            FPLLODIV::DIV_64 => 0x6,
            FPLLODIV::DIV_256 => 0x7,
        }
    }
}

/// Oscillator Selection Bits
#[allow(non_camel_case_types)]
#[derive(Clone, Copy, Debug, PartialEq, Eq)]
pub enum FNOSC {
    /// Fast RC Osc (FRC)
    FRC,

    /// Fast RC Osc with PLL
    FRCPLL,

    /// Primary Osc (XT,HS,EC)
    PRI,

    /// Primary Osc w/PLL (XT+,HS+,EC+PLL)
    PRIPLL,

    /// Low Power Secondary Osc (SOSC)
    SOSC,

    /// Low Power RC Osc (LPRC)
    LPRC,

    /// Fast RC Osc w/Div-by-16 (FRC/16)
    FRCDIV16,

    /// Fast RC Osc w/Div-by-N (FRCDIV)
    FRCDIV,
}

impl FNOSC {
    /// Value of the setting in its field of the configuration word.
    pub open spec fn value(self) -> u32 {
        match self {
            FNOSC::FRC => 0x0,
            FNOSC::FRCPLL => 0x1,
            FNOSC::PRI => 0x2,
            FNOSC::PRIPLL => 0x3,
            FNOSC::SOSC => 0x4,
            FNOSC::LPRC => 0x5,
            FNOSC::FRCDIV16 => 0x6,
            FNOSC::FRCDIV => 0x7,
        }
    }

    /// Value of the setting in its field of the configuration word.
    pub fn bits(self) -> (r: u32)
        ensures
            r == self.value(),
    {
        match self {
            FNOSC::FRC => 0x0,
            FNOSC::FRCPLL => 0x1,
            FNOSC::PRI => 0x2,
            FNOSC::PRIPLL => 0x3,
            FNOSC::SOSC => 0x4,
            FNOSC::LPRC => 0x5,
            FNOSC::FRCDIV16 => 0x6,
            FNOSC::FRCDIV => 0x7,
        }
    }
}

/// Secondary Oscillator Enable
#[allow(non_camel_case_types)]
#[derive(Clone, Copy, Debug, PartialEq, Eq)]
pub enum FSOSCEN {
    /// Disabled
    OFF,

    /// Enabled
    ON,
}

impl FSOSCEN {
    /// Value of the setting in its field of the configuration word.
    pub open spec fn value(self) -> u32 {
        match self {
            FSOSCEN::OFF => 0x0,
            FSOSCEN::ON => 0x1,
        }
    }

    /// Value of the setting in its field of the configuration word.
    pub fn bits(self) -> (r: u32)
        ensures
            r == self.value(),
    {
        match self {
            FSOSCEN::OFF => 0x0,
            FSOSCEN::ON => 0x1,
        }
    }
}

/// Internal/External Switch Over
#[allow(non_camel_case_types)]
#[derive(Clone, Copy, Debug, PartialEq, Eq)]
pub enum IESO {
    /// Disabled
    OFF,

    /// Enabled
    ON,
}

impl IESO {
    /// Value of the setting in its field of the configuration word.
    pub open spec fn value(self) -> u32 {
        match self {
            IESO::OFF => 0x0,
            IESO::ON => 0x1,
        }
    }

    /// Value of the setting in its field of the configuration word.
    pub fn bits(self) -> (r: u32)
        ensures
            r == self.value(),
    {
        match self {
            IESO::OFF => 0x0,
            IESO::ON => 0x1,
        }
    }
}

/// Primary Oscillator Configuration
#[allow(non_camel_case_types)]
#[derive(Clone, Copy, Debug, PartialEq, Eq)]
pub enum POSCMOD {
    /// External clock mode
    EC,

    /// XT osc mode
    XT,

    /// HS osc mode
    HS,

    /// Primary osc disabled
    OFF,
}

impl POSCMOD {
    /// Value of the setting in its field of the configuration word.
    pub open spec fn value(self) -> u32 {
        match self {
            POSCMOD::EC => 0x0,
            POSCMOD::XT => 0x1,
            POSCMOD::HS => 0x2,
            POSCMOD::OFF => 0x3,
        }
    }

    /// Value of the setting in its field of the configuration word.
    pub fn bits(self) -> (r: u32)
        ensures
            r == self.value(),
    {
        match self {
            POSCMOD::EC => 0x0,
            POSCMOD::XT => 0x1,
            POSCMOD::HS => 0x2,
            POSCMOD::OFF => 0x3,
        }
    }
}

/// CLKO Output Signal Active on the OSCO Pin
#[allow(non_camel_case_types)]
#[derive(Clone, Copy, Debug, PartialEq, Eq)]
pub enum OSCIOFNC {
    /// Disabled
    OFF,

    /// Enabled
    ON,
}

impl OSCIOFNC {
    /// Value of the setting in its field of the configuration word.
    pub open spec fn value(self) -> u32 {
        match self {
            OSCIOFNC::OFF => 0x1,
            OSCIOFNC::ON => 0x0,
        }
    }

    /// Value of the setting in its field of the configuration word.
    pub fn bits(self) -> (r: u32)
        ensures
            r == self.value(),
    {
        match self {
            OSCIOFNC::OFF => 0x1,
            OSCIOFNC::ON => 0x0,
        }
    }
}

/// Peripheral Clock Divisor
#[allow(non_camel_case_types)]
#[derive(Clone, Copy, Debug, PartialEq, Eq)]
pub enum FPBDIV {
    /// Pb_Clk is Sys_Clk/1
    DIV_1,

    /// Pb_Clk is Sys_Clk/2
    DIV_2,

    /// Pb_Clk is Sys_Clk/4
    DIV_4,

    /// Pb_Clk is Sys_Clk/8
    DIV_8,
}

impl FPBDIV {
    /// Value of the setting in its field of the configuration word.
    pub open spec fn value(self) -> u32 {
        match self {
            FPBDIV::DIV_1 => 0x0,
            FPBDIV::DIV_2 => 0x1,
            FPBDIV::DIV_4 => 0x2,
            FPBDIV::DIV_8 => 0x3,
        }
    }

    /// Value of the setting in its field of the configuration word.
    pub fn bits(self) -> (r: u32)
        ensures
            r == self.value(),
    {
        match self {
            FPBDIV::DIV_1 => 0x0,
            FPBDIV::DIV_2 => 0x1,
            FPBDIV::DIV_4 => 0x2,
            FPBDIV::DIV_8 => 0x3,
        }
    }
}

/// Clock Switching and Monitor Selection
#[allow(non_camel_case_types)]
#[derive(Clone, Copy, Debug, PartialEq, Eq)]
pub enum FCKSM {
    /// Clock Switch Enable, FSCM Enabled
    CSECME,

    /// Clock Switch Enable, FSCM Disabled
    CSECMD,

    /// Clock Switch Disable, FSCM Disabled
    CSDCMD,
}

impl FCKSM {
    /// Value of the setting in its field of the configuration word.
    pub open spec fn value(self) -> u32 {
        match self {
            FCKSM::CSECME => 0x0,
            FCKSM::CSECMD => 0x1,
            FCKSM::CSDCMD => 0x3,
        }
    }

    /// Value of the setting in its field of the configuration word.
    pub fn bits(self) -> (r: u32)
        ensures
            r == self.value(),
    {
        match self {
            FCKSM::CSECME => 0x0,
            FCKSM::CSECMD => 0x1,
            FCKSM::CSDCMD => 0x3,
        }
    }
}

/// Watchdog Timer Postscaler
#[allow(non_camel_case_types)]
#[derive(Clone, Copy, Debug, PartialEq, Eq)]
pub enum WDTPS {
    /// 1:1
    PS1,

    /// 1:2
    PS2,

    /// 1:4
    PS4,

    /// 1:8
    PS8,

    /// 1:16
    PS16,

    /// 1:32
    PS32,

    /// 1:64
    PS64,

    /// 1:128
    PS128,

    /// 1:256
    PS256,

    /// 1:512
    PS512,

    /// 1:1024
    PS1024,

    /// 1:2048
    PS2048,

    /// 1:4096
    PS4096,

    /// 1:8192
    PS8192,

    /// 1:16384
    PS16384,

    /// 1:32768
    PS32768,

    /// 1:65536
    PS65536,

    /// 1:131072
    PS131072,

    /// 1:262144
    PS262144,

    /// 1:524288
    PS524288,

    /// 1:1048576
    PS1048576,
}

impl WDTPS {
    /// Value of the setting in its field of the configuration word.
    pub open spec fn value(self) -> u32 {
        match self {
            WDTPS::PS1 => 0x0,
            WDTPS::PS2 => 0x1,
            WDTPS::PS4 => 0x2,
            WDTPS::PS8 => 0x3,
            WDTPS::PS16 => 0x4,
            WDTPS::PS32 => 0x5,
            WDTPS::PS64 => 0x6,
            WDTPS::PS128 => 0x7,
            WDTPS::PS256 => 0x8,
            WDTPS::PS512 => 0x9,
            WDTPS::PS1024 => 0xa,
            WDTPS::PS2048 => 0xb,
            WDTPS::PS4096 => 0xc,
            WDTPS::PS8192 => 0xd,
            WDTPS::PS16384 => 0xe,
            WDTPS::PS32768 => 0xf,
            WDTPS::PS65536 => 0x10,
            WDTPS::PS131072 => 0x11,
            WDTPS::PS262144 => 0x12,
            WDTPS::PS524288 => 0x13,
            WDTPS::PS1048576 => 0x14,
        }
    }

    /// Value of the setting in its field of the configuration word.
    pub fn bits(self) -> (r: u32)
        ensures
            r == self.value(),
    {
        match self {
            WDTPS::PS1 => 0x0,
            WDTPS::PS2 => 0x1,
            WDTPS::PS4 => 0x2,
            WDTPS::PS8 => 0x3,
            WDTPS::PS16 => 0x4,
            WDTPS::PS32 => 0x5,
            WDTPS::PS64 => 0x6,
            WDTPS::PS128 => 0x7,
            WDTPS::PS256 => 0x8,
            WDTPS::PS512 => 0x9,
            WDTPS::PS1024 => 0xa,
            WDTPS::PS2048 => 0xb,
            WDTPS::PS4096 => 0xc,
            WDTPS::PS8192 => 0xd,
            WDTPS::PS16384 => 0xe,
            WDTPS::PS32768 => 0xf,
            WDTPS::PS65536 => 0x10,
            WDTPS::PS131072 => 0x11,
            WDTPS::PS262144 => 0x12,
            WDTPS::PS524288 => 0x13,
            WDTPS::PS1048576 => 0x14,
        }
    }
}

/// Watchdog Timer Window Enable
#[allow(non_camel_case_types)]
#[derive(Clone, Copy, Debug, PartialEq, Eq)]
pub enum WINDIS {
    /// Watchdog Timer is in Window Mode
    ON,

    /// Watchdog Timer is in Non-Window Mode
    OFF,
}

impl WINDIS {
    /// Value of the setting in its field of the configuration word.
    pub open spec fn value(self) -> u32 {
        match self {
            WINDIS::ON => 0x0,
            WINDIS::OFF => 0x1,
        }
    }

    /// Value of the setting in its field of the configuration word.
    pub fn bits(self) -> (r: u32)
        ensures
            r == self.value(),
    {
        match self {
            WINDIS::ON => 0x0,
            WINDIS::OFF => 0x1,
        }
    }
}

/// Watchdog Timer Enable
#[allow(non_camel_case_types)]
#[derive(Clone, Copy, Debug, PartialEq, Eq)]
pub enum FWDTEN {
    /// WDT Disabled (SWDTEN Bit Controls)
    OFF,

    /// WDT Enabled
    ON,
}

impl FWDTEN {
    /// Value of the setting in its field of the configuration word.
    pub open spec fn value(self) -> u32 {
        match self {
            FWDTEN::OFF => 0x0,
            FWDTEN::ON => 0x1,
        }
    }

    /// Value of the setting in its field of the configuration word.
    pub fn bits(self) -> (r: u32)
        ensures
            r == self.value(),
    {
        match self {
            FWDTEN::OFF => 0x0,
            FWDTEN::ON => 0x1,
        }
    }
}

/// Watchdog Timer Window Size
#[allow(non_camel_case_types)]
#[derive(Clone, Copy, Debug, PartialEq, Eq)]
pub enum FWDTWINSZ {
    /// Window Size is 75%
    WINSZ_75,

    /// Window Size is 50%
    WINSZ_50,

    /// Window Size is 37.5%
    WINSZ_37,

    /// Window Size is 25%
    WINSZ_25,
}

impl FWDTWINSZ {
    /// Value of the setting in its field of the configuration word.
    pub open spec fn value(self) -> u32 {
        match self {
            FWDTWINSZ::WINSZ_75 => 0x0,
            FWDTWINSZ::WINSZ_50 => 0x1,
            FWDTWINSZ::WINSZ_37 => 0x2,
            FWDTWINSZ::WINSZ_25 => 0x3,
        }
    }

    /// Value of the setting in its field of the configuration word.
    pub fn bits(self) -> (r: u32)
        ensures
            r == self.value(),
    {
        match self {
            FWDTWINSZ::WINSZ_75 => 0x0,
            FWDTWINSZ::WINSZ_50 => 0x1,
            FWDTWINSZ::WINSZ_37 => 0x2,
            FWDTWINSZ::WINSZ_25 => 0x3,
        }
    }
}

/// Background Debugger Enable
#[allow(non_camel_case_types)]
#[derive(Clone, Copy, Debug, PartialEq, Eq)]
pub enum DEBUG {
    /// Debugger is Enabled
    ON,

    /// Debugger is Disabled
    OFF,
}

impl DEBUG {
    /// Value of the setting in its field of the configuration word.
    pub open spec fn value(self) -> u32 {
        match self {
            DEBUG::ON => 0x0,
            DEBUG::OFF => 0x3,
        }
    }

    /// Value of the setting in its field of the configuration word.
    pub fn bits(self) -> (r: u32)
        ensures
            r == self.value(),
    {
        match self {
            DEBUG::ON => 0x0,
            DEBUG::OFF => 0x3,
        }
    }
}

/// JTAG Enable
#[allow(non_camel_case_types)]
#[derive(Clone, Copy, Debug, PartialEq, Eq)]
pub enum JTAGEN {
    /// JTAG Port Enabled
    ON,

    /// JTAG Disabled
    OFF,
}

impl JTAGEN {
    /// Value of the setting in its field of the configuration word.
    pub open spec fn value(self) -> u32 {
        match self {
            JTAGEN::ON => 0x1,
            JTAGEN::OFF => 0x0,
        }
    }

    /// Value of the setting in its field of the configuration word.
    pub fn bits(self) -> (r: u32)
        ensures
            r == self.value(),
    {
        match self {
            JTAGEN::ON => 0x1,
            JTAGEN::OFF => 0x0,
        }
    }
}

/// ICE/ICD Comm Channel Select
#[allow(non_camel_case_types)]
#[derive(Clone, Copy, Debug, PartialEq, Eq)]
pub enum ICESEL {
    /// Communicate on PGEC1/PGED1
    ICS_PGx1,

    /// Communicate on PGEC2/PGED2
    ICS_PGx2,

    /// Communicate on PGEC3/PGED3
    ICS_PGx3,

    /// Reserved
    RESERVED,
}

impl ICESEL {
    /// Value of the setting in its field of the configuration word.
    pub open spec fn value(self) -> u32 {
        match self {
            ICESEL::ICS_PGx1 => 0x3,
            ICESEL::ICS_PGx2 => 0x2,
            ICESEL::ICS_PGx3 => 0x1,
            ICESEL::RESERVED => 0x0,
        }
    }

    /// Value of the setting in its field of the configuration word.
    pub fn bits(self) -> (r: u32)
        ensures
            r == self.value(),
    {
        match self {
            ICESEL::ICS_PGx1 => 0x3,
            ICESEL::ICS_PGx2 => 0x2,
            ICESEL::ICS_PGx3 => 0x1,
            ICESEL::RESERVED => 0x0,
        }
    }
}

/// Program Flash Write Protect
#[allow(non_camel_case_types)]
#[derive(Clone, Copy, Debug, PartialEq, Eq)]
pub enum PWP {
    /// Disable
    OFF,

    /// First 1K
    PWP1K,

    /// First 2K
    PWP2K,

    /// First 3K
    PWP3K,

    /// First 4K
    PWP4K,

    /// First 5K
    PWP5K,

    /// First 6K
    PWP6K,

    /// First 7K
    PWP7K,

    /// First 8K
    PWP8K,

    /// First 9K
    PWP9K,

    /// First 10K
    PWP10K,

    /// First 11K
    PWP11K,

    /// First 12K
    PWP12K,

    /// First 13K
    PWP13K,

    /// First 14K
    PWP14K,

    /// First 15K
    PWP15K,

    /// First 16K
    PWP16K,

    /// First 17K
    PWP17K,

    /// First 18K
    PWP18K,

    /// First 19K
    PWP19K,

    /// First 20K
    PWP20K,

    /// First 21K
    PWP21K,

    /// First 22K
    PWP22K,

    /// First 23K
    PWP23K,

    /// First 24K
    PWP24K,

    /// First 25K
    PWP25K,

    /// First 26K
    PWP26K,

    /// First 27K
    PWP27K,

    /// First 28K
    PWP28K,

    /// First 29K
    PWP29K,

    /// First 30K
    PWP30K,

    /// First 31K
    PWP31K,

    /// First 32K
    PWP32K,

    /// First 33K
    PWP33K,

    /// First 34K
    PWP34K,

    /// First 35K
    PWP35K,

    /// First 36K
    PWP36K,

    /// First 37K
    PWP37K,

    /// First 38K
    PWP38K,

    /// First 39K
    PWP39K,

    /// First 40K
    PWP40K,

    /// First 41K
    PWP41K,

    /// First 42K
    PWP42K,

    /// First 43K
    PWP43K,

    /// First 44K
    PWP44K,

    /// First 45K
    PWP45K,

    /// First 46K
    PWP46K,

    /// First 47K
    PWP47K,

    /// First 48K
    PWP48K,

    /// First 49K
    PWP49K,

    /// First 50K
    PWP50K,

    /// First 51K
    PWP51K,

    /// First 52K
    PWP52K,

    /// First 53K
    PWP53K,

    /// First 54K
    PWP54K,

    /// First 55K
    PWP55K,

    /// First 56K
    PWP56K,

    /// First 57K
    PWP57K,

    /// First 58K
    PWP58K,

    /// First 59K
    PWP59K,

    /// First 60K
    PWP60K,

    /// First 61K
    PWP61K,

    /// First 62K
    PWP62K,

    /// First 63K
    PWP63K,

    /// First 64K
    PWP64K,

    /// First 65K
    PWP65K,

    /// First 66K
    PWP66K,

    /// First 67K
    PWP67K,

    /// First 68K
    PWP68K,

    /// First 69K
    PWP69K,

    /// First 70K
    PWP70K,

    /// First 71K
    PWP71K,

    /// First 72K
    PWP72K,

    /// First 73K
    PWP73K,

    /// First 74K
    PWP74K,

    /// First 75K
    PWP75K,

    /// First 76K
    PWP76K,

    /// First 77K
    PWP77K,

    /// First 78K
    PWP78K,

    /// First 79K
    PWP79K,

    /// First 80K
    PWP80K,

    /// First 81K
    PWP81K,

    /// First 82K
    PWP82K,

    /// First 83K
    PWP83K,

    /// First 84K
    PWP84K,

    /// First 85K
    PWP85K,

    /// First 86K
    PWP86K,

    /// First 87K
    PWP87K,

    /// First 88K
    PWP88K,

    /// First 89K
    PWP89K,

    /// First 90K
    PWP90K,

    /// First 91K
    PWP91K,

    /// First 92K
    PWP92K,

    /// First 93K
    PWP93K,

    /// First 94K
    PWP94K,

    /// First 95K
    PWP95K,

    /// First 96K
    PWP96K,

    /// First 97K
    PWP97K,

    /// First 98K
    PWP98K,

    /// First 99K
    PWP99K,

    /// First 100K
    PWP100K,

    /// First 101K
    PWP101K,

    /// First 102K
    PWP102K,

    /// First 103K
    PWP103K,

    /// First 104K
    PWP104K,

    /// First 105K
    PWP105K,

    /// First 106K
    PWP106K,

    /// First 107K
    PWP107K,

    /// First 108K
    PWP108K,

    /// First 109K
    PWP109K,

    /// First 110K
    PWP110K,

    /// First 111K
    PWP111K,

    /// First 112K
    PWP112K,

    /// First 113K
    PWP113K,

    /// First 114K
    PWP114K,

    /// First 115K
    PWP115K,

    /// First 116K
    PWP116K,

    /// First 117K
    PWP117K,

    /// First 118K
    PWP118K,

    /// First 119K
    PWP119K,

    /// First 120K
    PWP120K,

    /// First 121K
    PWP121K,

    /// First 122K
    PWP122K,

    /// First 123K
    PWP123K,

    /// First 124K
    PWP124K,

    /// First 125K
    PWP125K,

    /// First 126K
    PWP126K,

    /// First 127K
    PWP127K,

    /// First 128K
    PWP128K,

    /// First 129K
    PWP129K,

    /// First 130K
    PWP130K,

    /// First 131K
    PWP131K,

    /// First 132K
    PWP132K,

    /// First 133K
    PWP133K,

    /// First 134K
    PWP134K,

    /// First 135K
    PWP135K,

    /// First 136K
    PWP136K,

    /// First 137K
    PWP137K,

    /// First 138K
    PWP138K,

    /// First 139K
    PWP139K,

    /// First 140K
    PWP140K,

    /// First 141K
    PWP141K,

    /// First 142K
    PWP142K,

    /// First 143K
    PWP143K,

    /// First 144K
    PWP144K,

    /// First 145K
    PWP145K,

    /// First 146K
    PWP146K,

    /// First 147K
    PWP147K,

    /// First 148K
    PWP148K,

    /// First 149K
    PWP149K,

    /// First 150K
    PWP150K,

    /// First 151K
    PWP151K,

    /// First 152K
    PWP152K,

    /// First 153K
    PWP153K,

    /// First 154K
    PWP154K,

    /// First 155K
    PWP155K,

    /// First 156K
    PWP156K,

    /// First 157K
    PWP157K,

    /// First 158K
    PWP158K,

    /// First 159K
    PWP159K,

    /// First 160K
    PWP160K,

    /// First 161K
    PWP161K,

    /// First 162K
    PWP162K,

    /// First 163K
    PWP163K,

    /// First 164K
    PWP164K,

    /// First 165K
    PWP165K,

    /// First 166K
    PWP166K,

    /// First 167K
    PWP167K,

    /// First 168K
    PWP168K,

    /// First 169K
    PWP169K,

    /// First 170K
    PWP170K,

    /// First 171K
    PWP171K,

    /// First 172K
    PWP172K,

    /// First 173K
    PWP173K,

    /// First 174K
    PWP174K,

    /// First 175K
    PWP175K,

    /// First 176K
    PWP176K,

    /// First 177K
    PWP177K,

    /// First 178K
    PWP178K,

    /// First 179K
    PWP179K,

    /// First 180K
    PWP180K,

    /// First 181K
    PWP181K,

    /// First 182K
    PWP182K,

    /// First 183K
    PWP183K,

    /// First 184K
    PWP184K,

    /// First 185K
    PWP185K,

    /// First 186K
    PWP186K,

    /// First 187K
    PWP187K,

    /// First 188K
    PWP188K,

    /// First 189K
    PWP189K,

    /// First 190K
    PWP190K,

    /// First 191K
    PWP191K,

    /// First 192K
    PWP192K,

    /// First 193K
    PWP193K,

    /// First 194K
    PWP194K,

    /// First 195K
    PWP195K,

    /// First 196K
    PWP196K,

    /// First 197K
    PWP197K,

    /// First 198K
    PWP198K,

    /// First 199K
    PWP199K,

    /// First 200K
    PWP200K,

    /// First 201K
    PWP201K,

    /// First 202K
    PWP202K,

    /// First 203K
    PWP203K,

    /// First 204K
    PWP204K,

    /// First 205K
    PWP205K,

    /// First 206K
    PWP206K,

    /// First 207K
    PWP207K,

    /// First 208K
    PWP208K,

    /// First 209K
    PWP209K,

    /// First 210K
    PWP210K,

    /// First 211K
    PWP211K,

    /// First 212K
    PWP212K,

    /// First 213K
    PWP213K,

    /// First 214K
    PWP214K,

    /// First 215K
    PWP215K,

    /// First 216K
    PWP216K,

    /// First 217K
    PWP217K,

    /// First 218K
    PWP218K,

    /// First 219K
    PWP219K,

    /// First 220K
    PWP220K,

    /// First 221K
    PWP221K,

    /// First 222K
    PWP222K,

    /// First 223K
    PWP223K,

    /// First 224K
    PWP224K,

    /// First 225K
    PWP225K,

    /// First 226K
    PWP226K,

    /// First 227K
    PWP227K,

    /// First 228K
    PWP228K,

    /// First 229K
    PWP229K,

    /// First 230K
    PWP230K,

    /// First 231K
    PWP231K,

    /// First 232K
    PWP232K,

    /// First 233K
    PWP233K,

    /// First 234K
    PWP234K,

    /// First 235K
    PWP235K,

    /// First 236K
    PWP236K,

    /// First 237K
    PWP237K,

    /// First 238K
    PWP238K,

    /// First 239K
    PWP239K,

    /// First 240K
    PWP240K,

    /// First 241K
    PWP241K,

    /// First 242K
    PWP242K,

    /// First 243K
    PWP243K,

    /// First 244K
    PWP244K,

    /// First 245K
    PWP245K,

    /// First 246K
    PWP246K,

    /// First 247K
    PWP247K,

    /// First 248K
    PWP248K,

    /// First 249K
    PWP249K,

    /// First 250K
    PWP250K,

    /// First 251K
    PWP251K,

    /// First 252K
    PWP252K,

    /// First 253K
    PWP253K,

    /// First 254K
    PWP254K,

    /// First 255K
    PWP255K,

    /// First 256K
    PWP256K,
}

impl PWP {
    /// Value of the setting in its field of the configuration word.
    pub open spec fn value(self) -> u32 {
        match self {
            PWP::OFF => 0x1ff,
            PWP::PWP1K => 0x1fe,
            PWP::PWP2K => 0x1fd,
            PWP::PWP3K => 0x1fc,
            PWP::PWP4K => 0x1fb,
            PWP::PWP5K => 0x1fa,
            PWP::PWP6K => 0x1f9,
            PWP::PWP7K => 0x1f8,
            PWP::PWP8K => 0x1f7,
            PWP::PWP9K => 0x1f6,
            PWP::PWP10K => 0x1f5,
            PWP::PWP11K => 0x1f4,
            PWP::PWP12K => 0x1f3,
            PWP::PWP13K => 0x1f2,
            PWP::PWP14K => 0x1f1,
            PWP::PWP15K => 0x1f0,
            PWP::PWP16K => 0x1ef,
            PWP::PWP17K => 0x1ee,
            PWP::PWP18K => 0x1ed,
            PWP::PWP19K => 0x1ec,
            PWP::PWP20K => 0x1eb,
            PWP::PWP21K => 0x1ea,
            PWP::PWP22K => 0x1e9,
            PWP::PWP23K => 0x1e8,
            PWP::PWP24K => 0x1e7,
            PWP::PWP25K => 0x1e6,
            PWP::PWP26K => 0x1e5,
            PWP::PWP27K => 0x1e4,
            PWP::PWP28K => 0x1e3,
            PWP::PWP29K => 0x1e2,
            PWP::PWP30K => 0x1e1,
            PWP::PWP31K => 0x1e0,
            PWP::PWP32K => 0x1df,
            PWP::PWP33K => 0x1de,
            PWP::PWP34K => 0x1dd,
            PWP::PWP35K => 0x1dc,
            PWP::PWP36K => 0x1db,
            PWP::PWP37K => 0x1da,
            PWP::PWP38K => 0x1d9,
            PWP::PWP39K => 0x1d8,
            PWP::PWP40K => 0x1d7,
            PWP::PWP41K => 0x1d6,
            PWP::PWP42K => 0x1d5,
            PWP::PWP43K => 0x1d4,
            PWP::PWP44K => 0x1d3,
            PWP::PWP45K => 0x1d2,
            PWP::PWP46K => 0x1d1,
            PWP::PWP47K => 0x1d0,
            PWP::PWP48K => 0x1cf,
            PWP::PWP49K => 0x1ce,
            PWP::PWP50K => 0x1cd,
            PWP::PWP51K => 0x1cc,
            PWP::PWP52K => 0x1cb,
            PWP::PWP53K => 0x1ca,
            PWP::PWP54K => 0x1c9,
            PWP::PWP55K => 0x1c8,
            PWP::PWP56K => 0x1c7,
            PWP::PWP57K => 0x1c6,
            PWP::PWP58K => 0x1c5,
            PWP::PWP59K => 0x1c4,
            PWP::PWP60K => 0x1c3,
            PWP::PWP61K => 0x1c2,
            PWP::PWP62K => 0x1c1,
            PWP::PWP63K => 0x1c0,
            PWP::PWP64K => 0x1bf,
            PWP::PWP65K => 0x1be,
            PWP::PWP66K => 0x1bd,
            PWP::PWP67K => 0x1bc,
            PWP::PWP68K => 0x1bb,
            PWP::PWP69K => 0x1ba,
            PWP::PWP70K => 0x1b9,
            PWP::PWP71K => 0x1b8,
            PWP::PWP72K => 0x1b7,
            PWP::PWP73K => 0x1b6,
            PWP::PWP74K => 0x1b5,
            PWP::PWP75K => 0x1b4,
            PWP::PWP76K => 0x1b3,
            PWP::PWP77K => 0x1b2,
            PWP::PWP78K => 0x1b1,
            PWP::PWP79K => 0x1b0,
            PWP::PWP80K => 0x1af,
            PWP::PWP81K => 0x1ae,
            PWP::PWP82K => 0x1ad,
            PWP::PWP83K => 0x1ac,
            PWP::PWP84K => 0x1ab,
            PWP::PWP85K => 0x1aa,
            PWP::PWP86K => 0x1a9,
            PWP::PWP87K => 0x1a8,
            PWP::PWP88K => 0x1a7,
            PWP::PWP89K => 0x1a6,
            PWP::PWP90K => 0x1a5,
            PWP::PWP91K => 0x1a4,
            PWP::PWP92K => 0x1a3,
            PWP::PWP93K => 0x1a2,
            PWP::PWP94K => 0x1a1,
            PWP::PWP95K => 0x1a0,
            PWP::PWP96K => 0x19f,
            PWP::PWP97K => 0x19e,
            PWP::PWP98K => 0x19d,
            PWP::PWP99K => 0x19c,
            PWP::PWP100K => 0x19b,
            PWP::PWP101K => 0x19a,
            PWP::PWP102K => 0x199,
            PWP::PWP103K => 0x198,
            PWP::PWP104K => 0x197,
            PWP::PWP105K => 0x196,
            PWP::PWP106K => 0x195,
            PWP::PWP107K => 0x194,
            PWP::PWP108K => 0x193,
            PWP::PWP109K => 0x192,
            PWP::PWP110K => 0x191,
            PWP::PWP111K => 0x190,
            PWP::PWP112K => 0x18f,
            PWP::PWP113K => 0x18e,
            PWP::PWP114K => 0x18d,
            PWP::PWP115K => 0x18c,
            PWP::PWP116K => 0x18b,
            PWP::PWP117K => 0x18a,
            PWP::PWP118K => 0x189,
            PWP::PWP119K => 0x188,
            PWP::PWP120K => 0x187,
            PWP::PWP121K => 0x186,
            PWP::PWP122K => 0x185,
            PWP::PWP123K => 0x184,
            PWP::PWP124K => 0x183,
            PWP::PWP125K => 0x182,
            PWP::PWP126K => 0x181,
            PWP::PWP127K => 0x180,
            PWP::PWP128K => 0x17f,
            PWP::PWP129K => 0x17e,
            PWP::PWP130K => 0x17d,
            PWP::PWP131K => 0x17c,
            PWP::PWP132K => 0x17b,
            PWP::PWP133K => 0x17a,
            PWP::PWP134K => 0x179,
            PWP::PWP135K => 0x178,
            PWP::PWP136K => 0x177,
            PWP::PWP137K => 0x176,
            PWP::PWP138K => 0x175,
            PWP::PWP139K => 0x174,
            PWP::PWP140K => 0x173,
            PWP::PWP141K => 0x172,
            PWP::PWP142K => 0x171,
            PWP::PWP143K => 0x170,
            PWP::PWP144K => 0x16f,
            PWP::PWP145K => 0x16e,
            PWP::PWP146K => 0x16d,
            PWP::PWP147K => 0x16c,
            PWP::PWP148K => 0x16b,
            PWP::PWP149K => 0x16a,
            PWP::PWP150K => 0x169,
            PWP::PWP151K => 0x168,
            PWP::PWP152K => 0x167,
            PWP::PWP153K => 0x166,
            PWP::PWP154K => 0x165,
            PWP::PWP155K => 0x164,
            PWP::PWP156K => 0x163,
            PWP::PWP157K => 0x162,
            PWP::PWP158K => 0x161,
            PWP::PWP159K => 0x160,
            PWP::PWP160K => 0x15f,
            PWP::PWP161K => 0x15e,
            PWP::PWP162K => 0x15d,
            PWP::PWP163K => 0x15c,
            PWP::PWP164K => 0x15b,
            PWP::PWP165K => 0x15a,
            PWP::PWP166K => 0x159,
            PWP::PWP167K => 0x158,
            PWP::PWP168K => 0x157,
            PWP::PWP169K => 0x156,
            PWP::PWP170K => 0x155,
            PWP::PWP171K => 0x154,
            PWP::PWP172K => 0x153,
            PWP::PWP173K => 0x152,
            PWP::PWP174K => 0x151,
            PWP::PWP175K => 0x150,
            PWP::PWP176K => 0x14f,
            PWP::PWP177K => 0x14e,
            PWP::PWP178K => 0x14d,
            PWP::PWP179K => 0x14c,
            PWP::PWP180K => 0x14b,
            PWP::PWP181K => 0x14a,
            PWP::PWP182K => 0x149,
            PWP::PWP183K => 0x148,
            PWP::PWP184K => 0x147,
            PWP::PWP185K => 0x146,
            PWP::PWP186K => 0x145,
            PWP::PWP187K => 0x144,
            PWP::PWP188K => 0x143,
            PWP::PWP189K => 0x142,
            PWP::PWP190K => 0x141,
            PWP::PWP191K => 0x140,
            PWP::PWP192K => 0x13f,
            PWP::PWP193K => 0x13e,
            PWP::PWP194K => 0x13d,
            PWP::PWP195K => 0x13c,
            PWP::PWP196K => 0x13b,
            PWP::PWP197K => 0x13a,
            PWP::PWP198K => 0x139,
            PWP::PWP199K => 0x138,
            PWP::PWP200K => 0x137,
            PWP::PWP201K => 0x136,
            PWP::PWP202K => 0x135,
            PWP::PWP203K => 0x134,
            PWP::PWP204K => 0x133,
            PWP::PWP205K => 0x132,
            PWP::PWP206K => 0x131,
            PWP::PWP207K => 0x130,
            PWP::PWP208K => 0x12f,
            PWP::PWP209K => 0x12e,
            PWP::PWP210K => 0x12d,
            PWP::PWP211K => 0x12c,
            PWP::PWP212K => 0x12b,
            PWP::PWP213K => 0x12a,
            PWP::PWP214K => 0x129,
            PWP::PWP215K => 0x128,
            PWP::PWP216K => 0x127,
            PWP::PWP217K => 0x126,
            PWP::PWP218K => 0x125,
            PWP::PWP219K => 0x124,
            PWP::PWP220K => 0x123,
            PWP::PWP221K => 0x122,
            PWP::PWP222K => 0x121,
            PWP::PWP223K => 0x120,
            PWP::PWP224K => 0x11f,
            PWP::PWP225K => 0x11e,
            PWP::PWP226K => 0x11d,
            PWP::PWP227K => 0x11c,
            PWP::PWP228K => 0x11b,
            PWP::PWP229K => 0x11a,
            PWP::PWP230K => 0x119,
            PWP::PWP231K => 0x118,
            PWP::PWP232K => 0x117,
            PWP::PWP233K => 0x116,
            PWP::PWP234K => 0x115,
            PWP::PWP235K => 0x114,
            PWP::PWP236K => 0x113,
            PWP::PWP237K => 0x112,
            PWP::PWP238K => 0x111,
            PWP::PWP239K => 0x110,
            PWP::PWP240K => 0x10f,
            PWP::PWP241K => 0x10e,
            PWP::PWP242K => 0x10d,
            PWP::PWP243K => 0x10c,
            PWP::PWP244K => 0x10b,
            PWP::PWP245K => 0x10a,
            PWP::PWP246K => 0x109,
            PWP::PWP247K => 0x108,
            PWP::PWP248K => 0x107,
            PWP::PWP249K => 0x106,
            PWP::PWP250K => 0x105,
            PWP::PWP251K => 0x104,
            PWP::PWP252K => 0x103,
            PWP::PWP253K => 0x102,
            PWP::PWP254K => 0x101,
            PWP::PWP255K => 0x100,
            PWP::PWP256K => 0x0ff,
        }
    }

    /// Value of the setting in its field of the configuration word.
    pub fn bits(self) -> (r: u32)
        ensures
            r == self.value(),
    {
        match self {
            PWP::OFF => 0x1ff,
            PWP::PWP1K => 0x1fe,
            PWP::PWP2K => 0x1fd,
            PWP::PWP3K => 0x1fc,
            PWP::PWP4K => 0x1fb,
            PWP::PWP5K => 0x1fa,
            PWP::PWP6K => 0x1f9,
            PWP::PWP7K => 0x1f8,
            PWP::PWP8K => 0x1f7,
            PWP::PWP9K => 0x1f6,
            PWP::PWP10K => 0x1f5,
            PWP::PWP11K => 0x1f4,
            PWP::PWP12K => 0x1f3,
            PWP::PWP13K => 0x1f2,
            PWP::PWP14K => 0x1f1,
            PWP::PWP15K => 0x1f0,
            PWP::PWP16K => 0x1ef,
            PWP::PWP17K => 0x1ee,
            PWP::PWP18K => 0x1ed,
            PWP::PWP19K => 0x1ec,
            PWP::PWP20K => 0x1eb,
            PWP::PWP21K => 0x1ea,
            PWP::PWP22K => 0x1e9,
            PWP::PWP23K => 0x1e8,
            PWP::PWP24K => 0x1e7,
            PWP::PWP25K => 0x1e6,
            PWP::PWP26K => 0x1e5,
            PWP::PWP27K => 0x1e4,
            PWP::PWP28K => 0x1e3,
            PWP::PWP29K => 0x1e2,
            PWP::PWP30K => 0x1e1,
            PWP::PWP31K => 0x1e0,
            PWP::PWP32K => 0x1df,
            PWP::PWP33K => 0x1de,
            PWP::PWP34K => 0x1dd,
            PWP::PWP35K => 0x1dc,
            PWP::PWP36K => 0x1db,
            PWP::PWP37K => 0x1da,
            PWP::PWP38K => 0x1d9,
            PWP::PWP39K => 0x1d8,
            PWP::PWP40K => 0x1d7,
            PWP::PWP41K => 0x1d6,
            PWP::PWP42K => 0x1d5,
            PWP::PWP43K => 0x1d4,
            PWP::PWP44K => 0x1d3,
            PWP::PWP45K => 0x1d2,
            PWP::PWP46K => 0x1d1,
            PWP::PWP47K => 0x1d0,
            PWP::PWP48K => 0x1cf,
            PWP::PWP49K => 0x1ce,
            PWP::PWP50K => 0x1cd,
            PWP::PWP51K => 0x1cc,
            PWP::PWP52K => 0x1cb,
            PWP::PWP53K => 0x1ca,
            PWP::PWP54K => 0x1c9,
            PWP::PWP55K => 0x1c8,
            PWP::PWP56K => 0x1c7,
            PWP::PWP57K => 0x1c6,
            PWP::PWP58K => 0x1c5,
            PWP::PWP59K => 0x1c4,
            PWP::PWP60K => 0x1c3,
            PWP::PWP61K => 0x1c2,
            PWP::PWP62K => 0x1c1,
            PWP::PWP63K => 0x1c0,
            PWP::PWP64K => 0x1bf,
            PWP::PWP65K => 0x1be,
            PWP::PWP66K => 0x1bd,
            PWP::PWP67K => 0x1bc,
            PWP::PWP68K => 0x1bb,
            PWP::PWP69K => 0x1ba,
            PWP::PWP70K => 0x1b9,
            PWP::PWP71K => 0x1b8,
            PWP::PWP72K => 0x1b7,
            PWP::PWP73K => 0x1b6,
            PWP::PWP74K => 0x1b5,
            PWP::PWP75K => 0x1b4,
            PWP::PWP76K => 0x1b3,
            PWP::PWP77K => 0x1b2,
            PWP::PWP78K => 0x1b1,
            PWP::PWP79K => 0x1b0,
            PWP::PWP80K => 0x1af,
            PWP::PWP81K => 0x1ae,
            PWP::PWP82K => 0x1ad,
            PWP::PWP83K => 0x1ac,
            PWP::PWP84K => 0x1ab,
            PWP::PWP85K => 0x1aa,
            PWP::PWP86K => 0x1a9,
            PWP::PWP87K => 0x1a8,
            PWP::PWP88K => 0x1a7,
            PWP::PWP89K => 0x1a6,
            PWP::PWP90K => 0x1a5,
            PWP::PWP91K => 0x1a4,
            PWP::PWP92K => 0x1a3,
            PWP::PWP93K => 0x1a2,
            PWP::PWP94K => 0x1a1,
            PWP::PWP95K => 0x1a0,
            PWP::PWP96K => 0x19f,
            PWP::PWP97K => 0x19e,
            PWP::PWP98K => 0x19d,
            PWP::PWP99K => 0x19c,
            PWP::PWP100K => 0x19b,
            PWP::PWP101K => 0x19a,
            PWP::PWP102K => 0x199,
            PWP::PWP103K => 0x198,
            PWP::PWP104K => 0x197,
            PWP::PWP105K => 0x196,
            PWP::PWP106K => 0x195,
            PWP::PWP107K => 0x194,
            PWP::PWP108K => 0x193,
            PWP::PWP109K => 0x192,
            PWP::PWP110K => 0x191,
            PWP::PWP111K => 0x190,
            PWP::PWP112K => 0x18f,
            PWP::PWP113K => 0x18e,
            PWP::PWP114K => 0x18d,
            PWP::PWP115K => 0x18c,
            PWP::PWP116K => 0x18b,
            PWP::PWP117K => 0x18a,
            PWP::PWP118K => 0x189,
            PWP::PWP119K => 0x188,
            PWP::PWP120K => 0x187,
            PWP::PWP121K => 0x186,
            PWP::PWP122K => 0x185,
            PWP::PWP123K => 0x184,
            PWP::PWP124K => 0x183,
            PWP::PWP125K => 0x182,
            PWP::PWP126K => 0x181,
            PWP::PWP127K => 0x180,
            PWP::PWP128K => 0x17f,
            PWP::PWP129K => 0x17e,
            PWP::PWP130K => 0x17d,
            PWP::PWP131K => 0x17c,
            PWP::PWP132K => 0x17b,
            PWP::PWP133K => 0x17a,
            PWP::PWP134K => 0x179,
            PWP::PWP135K => 0x178,
            PWP::PWP136K => 0x177,
            PWP::PWP137K => 0x176,
            PWP::PWP138K => 0x175,
            PWP::PWP139K => 0x174,
            PWP::PWP140K => 0x173,
            PWP::PWP141K => 0x172,
            PWP::PWP142K => 0x171,
            PWP::PWP143K => 0x170,
            PWP::PWP144K => 0x16f,
            PWP::PWP145K => 0x16e,
            PWP::PWP146K => 0x16d,
            PWP::PWP147K => 0x16c,
            PWP::PWP148K => 0x16b,
            PWP::PWP149K => 0x16a,
            PWP::PWP150K => 0x169,
            PWP::PWP151K => 0x168,
            PWP::PWP152K => 0x167,
            PWP::PWP153K => 0x166,
            PWP::PWP154K => 0x165,
            PWP::PWP155K => 0x164,
            PWP::PWP156K => 0x163,
            PWP::PWP157K => 0x162,
            PWP::PWP158K => 0x161,
            PWP::PWP159K => 0x160,
            PWP::PWP160K => 0x15f,
            PWP::PWP161K => 0x15e,
            PWP::PWP162K => 0x15d,
            PWP::PWP163K => 0x15c,
            PWP::PWP164K => 0x15b,
            PWP::PWP165K => 0x15a,
            PWP::PWP166K => 0x159,
            PWP::PWP167K => 0x158,
            PWP::PWP168K => 0x157,
            PWP::PWP169K => 0x156,
            PWP::PWP170K => 0x155,
            PWP::PWP171K => 0x154,
            PWP::PWP172K => 0x153,
            PWP::PWP173K => 0x152,
            PWP::PWP174K => 0x151,
            PWP::PWP175K => 0x150,
            PWP::PWP176K => 0x14f,
            PWP::PWP177K => 0x14e,
            PWP::PWP178K => 0x14d,
            PWP::PWP179K => 0x14c,
            PWP::PWP180K => 0x14b,
            PWP::PWP181K => 0x14a,
            PWP::PWP182K => 0x149,
            PWP::PWP183K => 0x148,
            PWP::PWP184K => 0x147,
            PWP::PWP185K => 0x146,
            PWP::PWP186K => 0x145,
            PWP::PWP187K => 0x144,
            PWP::PWP188K => 0x143,
            PWP::PWP189K => 0x142,
            PWP::PWP190K => 0x141,
            PWP::PWP191K => 0x140,
            PWP::PWP192K => 0x13f,
            PWP::PWP193K => 0x13e,
            PWP::PWP194K => 0x13d,
            PWP::PWP195K => 0x13c,
            PWP::PWP196K => 0x13b,
            PWP::PWP197K => 0x13a,
            PWP::PWP198K => 0x139,
            PWP::PWP199K => 0x138,
            PWP::PWP200K => 0x137,
            PWP::PWP201K => 0x136,
            PWP::PWP202K => 0x135,
            PWP::PWP203K => 0x134,
            PWP::PWP204K => 0x133,
            PWP::PWP205K => 0x132,
            PWP::PWP206K => 0x131,
            PWP::PWP207K => 0x130,
            PWP::PWP208K => 0x12f,
            PWP::PWP209K => 0x12e,
            PWP::PWP210K => 0x12d,
            PWP::PWP211K => 0x12c,
            PWP::PWP212K => 0x12b,
            PWP::PWP213K => 0x12a,
            PWP::PWP214K => 0x129,
            PWP::PWP215K => 0x128,
            PWP::PWP216K => 0x127,
            PWP::PWP217K => 0x126,
            PWP::PWP218K => 0x125,
            PWP::PWP219K => 0x124,
            PWP::PWP220K => 0x123,
            PWP::PWP221K => 0x122,
            PWP::PWP222K => 0x121,
            PWP::PWP223K => 0x120,
            PWP::PWP224K => 0x11f,
            PWP::PWP225K => 0x11e,
            PWP::PWP226K => 0x11d,
            PWP::PWP227K => 0x11c,
            PWP::PWP228K => 0x11b,
            PWP::PWP229K => 0x11a,
            PWP::PWP230K => 0x119,
            PWP::PWP231K => 0x118,
            PWP::PWP232K => 0x117,
            PWP::PWP233K => 0x116,
            PWP::PWP234K => 0x115,
            PWP::PWP235K => 0x114,
            PWP::PWP236K => 0x113,
            PWP::PWP237K => 0x112,
            PWP::PWP238K => 0x111,
            PWP::PWP239K => 0x110,
            PWP::PWP240K => 0x10f,
            PWP::PWP241K => 0x10e,
            PWP::PWP242K => 0x10d,
            PWP::PWP243K => 0x10c,
            PWP::PWP244K => 0x10b,
            PWP::PWP245K => 0x10a,
            PWP::PWP246K => 0x109,
            PWP::PWP247K => 0x108,
            PWP::PWP248K => 0x107,
            PWP::PWP249K => 0x106,
            PWP::PWP250K => 0x105,
            PWP::PWP251K => 0x104,
            PWP::PWP252K => 0x103,
            PWP::PWP253K => 0x102,
            PWP::PWP254K => 0x101,
            PWP::PWP255K => 0x100,
            PWP::PWP256K => 0x0ff,
        }
    }
}

/// Boot Flash Write Protect bit
#[allow(non_camel_case_types)]
#[derive(Clone, Copy, Debug, PartialEq, Eq)]
pub enum BWP {
    /// Protection Enabled
    ON,

    /// Protection Disabled
    OFF,
}

impl BWP {
    /// Value of the setting in its field of the configuration word.
    pub open spec fn value(self) -> u32 {
        match self {
            BWP::ON => 0x0,
            BWP::OFF => 0x1,
        }
    }

    /// Value of the setting in its field of the configuration word.
    pub fn bits(self) -> (r: u32)
        ensures
            r == self.value(),
    {
        match self {
            BWP::ON => 0x0,
            BWP::OFF => 0x1,
        }
    }
}

/// Code Protect
#[allow(non_camel_case_types)]
#[derive(Clone, Copy, Debug, PartialEq, Eq)]
pub enum CP {
    /// Protection Enabled
    ON,

    /// Protection Disabled
    OFF,
}

impl CP {
    /// Value of the setting in its field of the configuration word.
    pub open spec fn value(self) -> u32 {
        match self {
            CP::ON => 0x0,
            CP::OFF => 0x1,
        }
    }

    /// Value of the setting in its field of the configuration word.
    pub fn bits(self) -> (r: u32)
        ensures
            r == self.value(),
    {
        match self {
            CP::ON => 0x0,
            CP::OFF => 0x1,
        }
    }
}

/// Configuration words, in the order in which they are stored
#[allow(non_snake_case)]
pub struct ConfigSector {
    DEVCFG3: u32,
    DEVCFG2: u32,
    DEVCFG1: u32,
    DEVCFG0: u32,
}

impl ConfigSector {
    /// The words in the order in which they are stored.
    pub open spec fn view(self) -> Seq<u32> {
        seq![self.spec_devcfg3(), self.spec_devcfg2(), self.spec_devcfg1(), self.spec_devcfg0()]
    }

    /// The word DEVCFG3.
    pub closed spec fn spec_devcfg3(self) -> u32 {
        self.DEVCFG3
    }

    /// The word DEVCFG2.
    pub closed spec fn spec_devcfg2(self) -> u32 {
        self.DEVCFG2
    }

    /// The word DEVCFG1.
    pub closed spec fn spec_devcfg1(self) -> u32 {
        self.DEVCFG1
    }

    /// The word DEVCFG0.
    pub closed spec fn spec_devcfg0(self) -> u32 {
        self.DEVCFG0
    }

    /// Create a builder
    pub fn default() -> (r: ConfigSectorBuilder)
        ensures
            r@ =~= seq![0xffffffffu32, 0xffffffffu32, 0xffffffffu32, 0x7fffffffu32],
    {
        ConfigSectorBuilder {
            DEVCFG3: 0xffffffff,
            DEVCFG2: 0xffffffff,
            DEVCFG1: 0xffffffff,
            DEVCFG0: 0x7fffffff,
        }
    }

    /// Convert into a array of 32 bit words consuming this ConfigSector
    pub fn into_array(self) -> (r: [u32; CONFIG_SECTOR_LENGTH])
        ensures
            r@ =~= self@,
    {
        [self.DEVCFG3, self.DEVCFG2, self.DEVCFG1, self.DEVCFG0]
    }
}

/// Configuration word sector builder
#[allow(non_snake_case)]
pub struct ConfigSectorBuilder {
    DEVCFG3: u32,
    DEVCFG2: u32,
    DEVCFG1: u32,
    DEVCFG0: u32,
}

impl ConfigSectorBuilder {
    /// The words in the order in which they are stored.
    pub open spec fn view(self) -> Seq<u32> {
        seq![self.spec_devcfg3(), self.spec_devcfg2(), self.spec_devcfg1(), self.spec_devcfg0()]
    }

    /// The word DEVCFG3.
    pub closed spec fn spec_devcfg3(self) -> u32 {
        self.DEVCFG3
    }

    /// The word DEVCFG2.
    pub closed spec fn spec_devcfg2(self) -> u32 {
        self.DEVCFG2
    }

    /// The word DEVCFG1.
    pub closed spec fn spec_devcfg1(self) -> u32 {
        self.DEVCFG1
    }

    /// The word DEVCFG0.
    pub closed spec fn spec_devcfg0(self) -> u32 {
        self.DEVCFG0
    }

    /// Set the `USERID` setting in DEVCFG3.
    #[allow(non_snake_case)]
    pub fn USERID(self, v: u16) -> (r: Self)
        ensures
            r@ =~= self@.update(0, spec_with_field(self@[0], 0x0000ffff, 0, v as u32)),
    {
        let mut s = self;
        s.DEVCFG3 = with_field(s.DEVCFG3, 0x0000ffff, 0, v as u32);
        s
    }

    /// Set the `PMDL1WAY` setting in DEVCFG3.
    #[allow(non_snake_case)]
    pub fn PMDL1WAY(self, v: PMDL1WAY) -> (r: Self)
        ensures
            r@ =~= self@.update(0, spec_with_field(self@[0], 0x10000000, 28, v.value())),
    {
        let mut s = self;
        s.DEVCFG3 = with_field(s.DEVCFG3, 0x10000000, 28, v.bits());
        s
    }

    /// Set the `IOL1WAY` setting in DEVCFG3.
    #[allow(non_snake_case)]
    pub fn IOL1WAY(self, v: IOL1WAY) -> (r: Self)
        ensures
            r@ =~= self@.update(0, spec_with_field(self@[0], 0x20000000, 29, v.value())),
    {
        let mut s = self;
        s.DEVCFG3 = with_field(s.DEVCFG3, 0x20000000, 29, v.bits());
        s
    }

    /// Set the `FUSBIDIO` setting in DEVCFG3.
    #[allow(non_snake_case)]
    pub fn FUSBIDIO(self, v: FUSBIDIO) -> (r: Self)
        ensures
            r@ =~= self@.update(0, spec_with_field(self@[0], 0x40000000, 30, v.value())),
    {
        let mut s = self;
        s.DEVCFG3 = with_field(s.DEVCFG3, 0x40000000, 30, v.bits());
        s
    }

    /// Set the `FVBUSONIO` setting in DEVCFG3.
    #[allow(non_snake_case)]
    pub fn FVBUSONIO(self, v: FVBUSONIO) -> (r: Self)
        ensures
            r@ =~= self@.update(0, spec_with_field(self@[0], 0x80000000, 31, v.value())),
    {
        let mut s = self;
        s.DEVCFG3 = with_field(s.DEVCFG3, 0x80000000, 31, v.bits());
        s
    }

    /// Set the `FPLLIDIV` setting in DEVCFG2.
    #[allow(non_snake_case)]
    pub fn FPLLIDIV(self, v: FPLLIDIV) -> (r: Self)
        ensures
            r@ =~= self@.update(1, spec_with_field(self@[1], 0x00000007, 0, v.value())),
    {
        let mut s = self;
        s.DEVCFG2 = with_field(s.DEVCFG2, 0x00000007, 0, v.bits());
        s
    }

    /// Set the `FPLLMUL` setting in DEVCFG2.
    #[allow(non_snake_case)]
    pub fn FPLLMUL(self, v: FPLLMUL) -> (r: Self)
        ensures
            r@ =~= self@.update(1, spec_with_field(self@[1], 0x00000070, 4, v.value())),
    {
        let mut s = self;
        s.DEVCFG2 = with_field(s.DEVCFG2, 0x00000070, 4, v.bits());
        s
    }

    /// Set the `UPLLIDIV` setting in DEVCFG2.
    #[allow(non_snake_case)]
    pub fn UPLLIDIV(self, v: UPLLIDIV) -> (r: Self)
        ensures
            r@ =~= self@.update(1, spec_with_field(self@[1], 0x00000700, 8, v.value())),
    {
        let mut s = self;
        s.DEVCFG2 = with_field(s.DEVCFG2, 0x00000700, 8, v.bits());
        s
    }

    /// Set the `UPLLEN` setting in DEVCFG2.
    #[allow(non_snake_case)]
    pub fn UPLLEN(self, v: UPLLEN) -> (r: Self)
        ensures
            r@ =~= self@.update(1, spec_with_field(self@[1], 0x00008000, 15, v.value())),
    {
        let mut s = self;
        s.DEVCFG2 = with_field(s.DEVCFG2, 0x00008000, 15, v.bits());
        s
    }

    /// Set the `FPLLODIV` setting in DEVCFG2.
    #[allow(non_snake_case)]
    pub fn FPLLODIV(self, v: FPLLODIV) -> (r: Self)
        ensures
            r@ =~= self@.update(1, spec_with_field(self@[1], 0x00070000, 16, v.value())),
    {
        let mut s = self;
        s.DEVCFG2 = with_field(s.DEVCFG2, 0x00070000, 16, v.bits());
        s
    }

    /// Set the `FNOSC` setting in DEVCFG1.
    #[allow(non_snake_case)]
    pub fn FNOSC(self, v: FNOSC) -> (r: Self)
        ensures
            r@ =~= self@.update(2, spec_with_field(self@[2], 0x00000007, 0, v.value())),
    {
        let mut s = self;
        s.DEVCFG1 = with_field(s.DEVCFG1, 0x00000007, 0, v.bits());
        s
    }

    /// Set the `FSOSCEN` setting in DEVCFG1.
    #[allow(non_snake_case)]
    pub fn FSOSCEN(self, v: FSOSCEN) -> (r: Self)
        ensures
            r@ =~= self@.update(2, spec_with_field(self@[2], 0x00000020, 5, v.value())),
    {
        let mut s = self;
        s.DEVCFG1 = with_field(s.DEVCFG1, 0x00000020, 5, v.bits());
        s
    }

    /// Set the `IESO` setting in DEVCFG1.
    #[allow(non_snake_case)]
    pub fn IESO(self, v: IESO) -> (r: Self)
        ensures
            r@ =~= self@.update(2, spec_with_field(self@[2], 0x00000080, 7, v.value())),
    {
        let mut s = self;
        s.DEVCFG1 = with_field(s.DEVCFG1, 0x00000080, 7, v.bits());
        s
    }

    /// Set the `POSCMOD` setting in DEVCFG1.
    #[allow(non_snake_case)]
    pub fn POSCMOD(self, v: POSCMOD) -> (r: Self)
        ensures
            r@ =~= self@.update(2, spec_with_field(self@[2], 0x00000300, 8, v.value())),
    {
        let mut s = self;
        s.DEVCFG1 = with_field(s.DEVCFG1, 0x00000300, 8, v.bits());
        s
    }

    /// Set the `OSCIOFNC` setting in DEVCFG1.
    #[allow(non_snake_case)]
    pub fn OSCIOFNC(self, v: OSCIOFNC) -> (r: Self)
        ensures
            r@ =~= self@.update(2, spec_with_field(self@[2], 0x00000400, 10, v.value())),
    {
        let mut s = self;
        s.DEVCFG1 = with_field(s.DEVCFG1, 0x00000400, 10, v.bits());
        s
    }

    /// Set the `FPBDIV` setting in DEVCFG1.
    #[allow(non_snake_case)]
    pub fn FPBDIV(self, v: FPBDIV) -> (r: Self)
        ensures
            r@ =~= self@.update(2, spec_with_field(self@[2], 0x00003000, 12, v.value())),
    {
        let mut s = self;
        s.DEVCFG1 = with_field(s.DEVCFG1, 0x00003000, 12, v.bits());
        s
    }

    /// Set the `FCKSM` setting in DEVCFG1.
    #[allow(non_snake_case)]
    pub fn FCKSM(self, v: FCKSM) -> (r: Self)
        ensures
            r@ =~= self@.update(2, spec_with_field(self@[2], 0x0000c000, 14, v.value())),
    {
        let mut s = self;
        s.DEVCFG1 = with_field(s.DEVCFG1, 0x0000c000, 14, v.bits());
        s
    }

    /// Set the `WDTPS` setting in DEVCFG1.
    #[allow(non_snake_case)]
    pub fn WDTPS(self, v: WDTPS) -> (r: Self)
        ensures
            r@ =~= self@.update(2, spec_with_field(self@[2], 0x001f0000, 16, v.value())),
    {
        let mut s = self;
        s.DEVCFG1 = with_field(s.DEVCFG1, 0x001f0000, 16, v.bits());
        s
    }

    /// Set the `WINDIS` setting in DEVCFG1.
    #[allow(non_snake_case)]
    pub fn WINDIS(self, v: WINDIS) -> (r: Self)
        ensures
            r@ =~= self@.update(2, spec_with_field(self@[2], 0x00400000, 22, v.value())),
    {
        let mut s = self;
        s.DEVCFG1 = with_field(s.DEVCFG1, 0x00400000, 22, v.bits());
        s
    }

    /// Set the `FWDTEN` setting in DEVCFG1.
    #[allow(non_snake_case)]
    pub fn FWDTEN(self, v: FWDTEN) -> (r: Self)
        ensures
            r@ =~= self@.update(2, spec_with_field(self@[2], 0x00800000, 23, v.value())),
    {
        let mut s = self;
        s.DEVCFG1 = with_field(s.DEVCFG1, 0x00800000, 23, v.bits());
        s
    }

    /// Set the `FWDTWINSZ` setting in DEVCFG1.
    #[allow(non_snake_case)]
    pub fn FWDTWINSZ(self, v: FWDTWINSZ) -> (r: Self)
        ensures
            r@ =~= self@.update(2, spec_with_field(self@[2], 0x03000000, 24, v.value())),
    {
        let mut s = self;
        s.DEVCFG1 = with_field(s.DEVCFG1, 0x03000000, 24, v.bits());
        s
    }

    /// Set the `DEBUG` setting in DEVCFG0.
    #[allow(non_snake_case)]
    pub fn DEBUG(self, v: DEBUG) -> (r: Self)
        ensures
            r@ =~= self@.update(3, spec_with_field(self@[3], 0x00000003, 0, v.value())),
    {
        let mut s = self;
        s.DEVCFG0 = with_field(s.DEVCFG0, 0x00000003, 0, v.bits());
        s
    }

    /// Set the `JTAGEN` setting in DEVCFG0.
    #[allow(non_snake_case)]
    pub fn JTAGEN(self, v: JTAGEN) -> (r: Self)
        ensures
            r@ =~= self@.update(3, spec_with_field(self@[3], 0x00000004, 2, v.value())),
    {
        let mut s = self;
        s.DEVCFG0 = with_field(s.DEVCFG0, 0x00000004, 2, v.bits());
        s
    }

    /// Set the `ICESEL` setting in DEVCFG0.
    #[allow(non_snake_case)]
    pub fn ICESEL(self, v: ICESEL) -> (r: Self)
        ensures
            r@ =~= self@.update(3, spec_with_field(self@[3], 0x00000018, 3, v.value())),
    {
        let mut s = self;
        s.DEVCFG0 = with_field(s.DEVCFG0, 0x00000018, 3, v.bits());
        s
    }

    /// Set the `PWP` setting in DEVCFG0.
    #[allow(non_snake_case)]
    pub fn PWP(self, v: PWP) -> (r: Self)
        ensures
            r@ =~= self@.update(3, spec_with_field(self@[3], 0x0007fc00, 10, v.value())),
    {
        let mut s = self;
        s.DEVCFG0 = with_field(s.DEVCFG0, 0x0007fc00, 10, v.bits());
        s
    }

    /// Set the `BWP` setting in DEVCFG0.
    #[allow(non_snake_case)]
    pub fn BWP(self, v: BWP) -> (r: Self)
        ensures
            r@ =~= self@.update(3, spec_with_field(self@[3], 0x01000000, 24, v.value())),
    {
        let mut s = self;
        s.DEVCFG0 = with_field(s.DEVCFG0, 0x01000000, 24, v.bits());
        s
    }

    /// Set the `CP` setting in DEVCFG0.
    #[allow(non_snake_case)]
    pub fn CP(self, v: CP) -> (r: Self)
        ensures
            r@ =~= self@.update(3, spec_with_field(self@[3], 0x10000000, 28, v.value())),
    {
        let mut s = self;
        s.DEVCFG0 = with_field(s.DEVCFG0, 0x10000000, 28, v.bits());
        s
    }

    /// Finish the configuration.
    pub fn build(self) -> (r: ConfigSector)
        ensures
            r@ =~= self@,
    {
        ConfigSector {
            DEVCFG3: self.DEVCFG3,
            DEVCFG2: self.DEVCFG2,
            DEVCFG1: self.DEVCFG1,
            DEVCFG0: self.DEVCFG0,
        }
    }
}

} // verus!
